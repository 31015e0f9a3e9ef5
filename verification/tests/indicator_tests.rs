use trending_trader::indicators::{
    calculate_rsi, macd_from_prices, macd_signal_from_prices, momentum_from_prices, RollingMACD,
    RollingMomentum, RollingRSI,
};
use trending_trader::num::SCALE;

fn feed_rsi(prices: &[i64], period: usize) -> RollingRSI {
    let mut c = RollingRSI::new(period);
    for &p in prices {
        c.add_price(p);
    }
    c
}

#[test]
fn rsi_not_ready_before_warmup() {
    let c = feed_rsi(&[500_000, 510_000, 520_000], 3);
    assert!(!c.is_ready());
    assert_eq!(c.get_rsi(), None);
}

#[test]
fn rsi_is_neutral_50_on_flat_prices() {
    let c = feed_rsi(&[500_000; 8], 3);
    assert!(c.is_ready());
    assert_eq!(c.get_rsi(), Some(50 * SCALE));
}

#[test]
fn rsi_is_100_on_rising_prices() {
    let c = feed_rsi(&[500_000, 550_000, 600_000, 700_000], 3);
    assert_eq!(c.get_rsi(), Some(100 * SCALE));
}

#[test]
fn rsi_is_0_on_falling_prices() {
    let c = feed_rsi(&[700_000, 600_000, 550_000, 500_000], 3);
    assert_eq!(c.get_rsi(), Some(0));
}

#[test]
fn rsi_stays_in_range_on_mixed_prices() {
    let prices = [
        500_000, 650_000, 400_000, 700_000, 350_000, 800_000, 300_000, 900_000, 450_000, 550_000,
    ];
    let c = feed_rsi(&prices, 4);
    let r = c.get_rsi().unwrap();
    assert!(r >= 0);
    assert!(r <= 100 * SCALE);
}

#[test]
fn rsi_batch_equals_incremental() {
    let prices = vec![500_000, 650_000, 400_000, 700_000, 350_000, 800_000, 300_000];
    let rolling = feed_rsi(&prices, 3);
    let batch = calculate_rsi(&prices, 3);
    assert_eq!(batch, rolling.get_rsi());
}

#[test]
fn rsi_average_seed_and_wilder_update_values() {
    // Gains 50_000, 50_000, 100_000 over the warm-up; losses all zero; the
    // seed average rounds up: ceil(200_000 / 3) = 66_667.
    let c = feed_rsi(&[500_000, 550_000, 600_000, 700_000], 3);
    let (gain, loss) = c.get_stats();
    assert_eq!(gain, 66_667);
    assert_eq!(loss, 0);
}

#[test]
fn macd_incremental_equals_batch() {
    let prices = vec![
        500_000, 520_000, 510_000, 530_000, 540_000, 535_000, 560_000, 555_000, 570_000, 580_000,
    ];
    let mut rolling = RollingMACD::new(3, 5);
    for &p in &prices {
        rolling.add_price(p);
    }
    let batch = macd_from_prices(&prices, 3, 5);
    assert_eq!(batch, rolling.get_macd());
    assert!(batch.is_some());
}

#[test]
fn macd_not_ready_before_slow_window() {
    let mut c = RollingMACD::new(3, 5);
    for &p in &[500_000, 510_000, 520_000, 530_000] {
        c.add_price(p);
    }
    assert!(!c.is_ready());
    assert_eq!(c.get_macd(), None);
}

#[test]
fn macd_is_zero_at_initialization() {
    // Both EMAs seed from the same simple average, so the first reading is 0.
    let mut c = RollingMACD::new(2, 4);
    for &p in &[500_000, 520_000, 540_000, 560_000] {
        c.add_price(p);
    }
    assert_eq!(c.get_macd(), Some(0));
}

#[test]
fn macd_positive_in_uptrend() {
    let mut c = RollingMACD::new(2, 4);
    for &p in &[500_000, 510_000, 520_000, 530_000, 560_000, 600_000, 650_000] {
        c.add_price(p);
    }
    assert!(c.get_macd().unwrap() > 0);
}

#[test]
fn macd_signal_line_incremental_equals_batch() {
    let prices = vec![
        500_000, 520_000, 510_000, 530_000, 540_000, 535_000, 560_000, 555_000, 570_000, 580_000,
        575_000, 590_000,
    ];
    let mut rolling = RollingMACD::new_with_signal(3, 5, 4);
    for &p in &prices {
        rolling.add_price(p);
    }
    let (batch_macd, batch_signal) = macd_signal_from_prices(&prices, 3, 5, 4);
    assert_eq!(batch_macd, rolling.get_macd());
    assert_eq!(batch_signal, rolling.get_signal_line());
    assert!(rolling.is_signal_ready());
    let hist = rolling.get_histogram().unwrap();
    assert_eq!(
        hist,
        rolling.get_macd().unwrap() - rolling.get_signal_line().unwrap()
    );
}

#[test]
fn macd_without_signal_mode_has_no_signal_line() {
    let mut c = RollingMACD::new(3, 5);
    for &p in &[500_000, 510_000, 520_000, 530_000, 540_000, 550_000, 560_000] {
        c.add_price(p);
    }
    assert!(!c.is_signal_ready());
    assert_eq!(c.get_signal_line(), None);
    assert_eq!(c.get_histogram(), None);
}

#[test]
fn momentum_is_percentage_change_over_window() {
    let mut c = RollingMomentum::new(2);
    c.add_price(500_000);
    c.add_price(550_000);
    assert!(!c.is_ready());
    assert_eq!(c.get_momentum(), None);
    c.add_price(600_000);
    assert!(c.is_ready());
    // (600000 - 500000) / 500000 * 100 = 20 percent.
    assert_eq!(c.get_momentum(), Some(20 * SCALE));
}

#[test]
fn momentum_undefined_on_zero_base_price() {
    let mut c = RollingMomentum::new(1);
    c.add_price(0);
    c.add_price(500_000);
    assert!(c.is_ready());
    assert_eq!(c.get_momentum(), None);
}

#[test]
fn momentum_batch_equals_incremental() {
    let prices = vec![500_000, 480_000, 510_000, 490_000, 530_000];
    let mut rolling = RollingMomentum::new(3);
    for &p in &prices {
        rolling.add_price(p);
    }
    assert_eq!(momentum_from_prices(&prices, 3), rolling.get_momentum());
}

#[test]
fn rsi_window_keeps_trailing_prices() {
    let c = feed_rsi(&[1, 2, 3, 4, 5, 6], 3);
    assert_eq!(c.get_recent_prices(), vec![3, 4, 5, 6]);
}
