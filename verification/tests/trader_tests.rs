use trending_trader::config::StrategyConfig;
use trending_trader::engine::{EntryDecision, ExitEvent};
use trending_trader::history::{format_id, format_id_opt, log_to_history, HistoryLog};
use trending_trader::num::SCALE;
use trending_trader::simulation::{select_trading_assets, MarketSelector, SimulationTrader};
use trending_trader::strategies::{macd_accelerating, macd_crossover, TradeAction};
use trending_trader::types::{Asset, MarketData, MarketSnapshot, PricePoint, TokenPrice, TradingStats};

fn price_point(ts: u64, up: i64, down: i64) -> PricePoint {
    PricePoint {
        timestamp: ts,
        up_price: up,
        down_price: down,
        actual_outcome: None,
        asset: Some(Asset::Btc),
        news_event: None,
    }
}

fn rsi_trader(lookback: usize, threshold: i64) -> SimulationTrader {
    let mut cfg = StrategyConfig::default_rsi();
    cfg.lookback = lookback;
    cfg.trend_threshold = threshold;
    SimulationTrader::new(&cfg, vec![Asset::Btc], 1_000 * SCALE)
}

#[test]
fn rsi_scenario_monotonic_rise_produces_buy_up() {
    // RSI mode, threshold 90, lookback 3; Up prices rise monotonically
    // while Down stays flat: after the 4th tick RSI(Up) = 100 > 90.
    let mut trader = rsi_trader(3, 90 * SCALE);
    let ups = [500_000, 550_000, 600_000, 700_000];
    let mut outcomes = Vec::new();
    for (i, &up) in ups.iter().enumerate() {
        let pp = price_point(900, up, 500_000);
        outcomes.push(trader.process_price_point(&pp, 900 + i as u64));
    }
    for o in &outcomes[..3] {
        assert_eq!(o.eval.action, TradeAction::NoAction);
        assert!(matches!(o.entry, EntryDecision::NotApplicable));
    }
    let last = &outcomes[3];
    assert_eq!(last.eval.up_index, Some(100 * SCALE));
    assert_eq!(
        last.eval.action,
        TradeAction::BuyUp { price: 700_000, shares: 10 * SCALE }
    );
    match last.entry {
        EntryDecision::OpenedSimulated { cycle, place_tp_limit } => {
            assert_eq!(cycle.entry_price, 700_000);
            assert_eq!(cycle.tp_price, 720_000);
            assert_eq!(cycle.sl_price, 680_000);
            assert!(place_tp_limit);
        }
        other => panic!("expected an opened cycle, got {:?}", other),
    }
    assert!(trader.engine.current_cycle.is_some());
}

#[test]
fn up_side_wins_threshold_tie() {
    // Both sides rise identically; the Up side is evaluated first and wins.
    let mut trader = rsi_trader(3, 90 * SCALE);
    let prices = [500_000, 550_000, 600_000, 700_000];
    let mut last = None;
    for (i, &p) in prices.iter().enumerate() {
        let pp = price_point(900, p, p);
        last = Some(trader.process_price_point(&pp, 900 + i as u64));
    }
    let last = last.unwrap();
    assert!(matches!(last.eval.action, TradeAction::BuyUp { .. }));
}

#[test]
fn no_entry_below_threshold() {
    let mut trader = rsi_trader(3, 90 * SCALE);
    // Alternating prices keep the RSI well below 90.
    let ups = [500_000, 520_000, 490_000, 510_000, 495_000];
    for (i, &up) in ups.iter().enumerate() {
        let pp = price_point(900, up, 500_000);
        let o = trader.process_price_point(&pp, 900 + i as u64);
        assert_eq!(o.eval.action, TradeAction::NoAction);
    }
    assert!(trader.engine.current_cycle.is_none());
}

#[test]
fn full_cycle_entry_then_take_profit_on_later_tick() {
    let mut cfg = StrategyConfig::default_rsi();
    cfg.lookback = 3;
    cfg.trend_threshold = 90 * SCALE;
    cfg.profit_threshold = 50_000;
    cfg.sl_threshold = 50_000;
    let mut trader = SimulationTrader::new(&cfg, vec![Asset::Btc], 1_000 * SCALE);

    for (i, &up) in [400_000, 410_000, 420_000, 430_000].iter().enumerate() {
        let pp = price_point(900, up, 500_000);
        trader.process_price_point(&pp, 900 + i as u64);
    }
    // Entered at 0.43 with tp 0.48; a later ask of 0.49 takes profit.
    assert!(trader.engine.current_cycle.is_some());
    let pp = price_point(900, 490_000, 500_000);
    let o = trader.process_price_point(&pp, 905);
    assert_eq!(o.exit, ExitEvent::TakeProfit { pnl: 500_000 });
    // The close is booked exactly: pnl (0.48-0.43)*10, one win, no loss.
    assert_eq!(trader.engine.total_pnl, 500_000);
    assert_eq!(trader.engine.wins, 1);
    assert_eq!(trader.engine.losses, 0);
    assert!(trader.engine.current_cycle.is_none() || matches!(o.entry, EntryDecision::OpenedSimulated { .. }));
}

fn market(up_ask: Option<i64>, down_ask: Option<i64>) -> MarketData {
    MarketData {
        condition_id: String::from("cond"),
        market_name: String::from("btc-updown-15m"),
        up_token: up_ask.map(|a| TokenPrice {
            token_id: String::from("tok-up"),
            bid: Some(a - 10_000),
            ask: Some(a),
        }),
        down_token: down_ask.map(|a| TokenPrice {
            token_id: String::from("tok-down"),
            bid: Some(a - 10_000),
            ask: Some(a),
        }),
    }
}

fn snapshot(period: u64, btc_up: i64, btc_down: i64) -> MarketSnapshot {
    MarketSnapshot {
        eth_market: market(Some(500_000), Some(500_000)),
        btc_market: market(Some(btc_up), Some(btc_down)),
        solana_market: market(None, None),
        xrp_market: market(None, None),
        timestamp: period,
        time_remaining_seconds: 900,
        period_timestamp: period,
    }
}

#[test]
fn snapshot_to_price_point_reads_ask_prices() {
    let snap = snapshot(900, 420_000, 580_000);
    let pp = SimulationTrader::snapshot_to_price_point(&snap, Asset::Btc).unwrap();
    assert_eq!(pp.timestamp, 900);
    assert_eq!(pp.up_price, 420_000);
    assert_eq!(pp.down_price, 580_000);
    assert_eq!(pp.asset, Some(Asset::Btc));
    assert!(SimulationTrader::snapshot_to_price_point(&snap, Asset::Sol).is_none());
    assert!(SimulationTrader::snapshot_to_price_point(&snap, Asset::Xrp).is_none());
}

#[test]
fn rollover_settles_and_resets_between_periods() {
    let mut cfg = StrategyConfig::default_rsi();
    cfg.lookback = 3;
    cfg.trend_threshold = 90 * SCALE;
    // A take-profit far above 1 keeps the cycle open until expiry.
    cfg.profit_threshold = 400_000;
    let mut trader = SimulationTrader::new(&cfg, vec![Asset::Btc], 1_000 * SCALE);

    // First period: a monotonic rise opens a cycle at 0.70.
    for (i, &up) in [500_000, 550_000, 600_000, 700_000].iter().enumerate() {
        let o = trader.process_snapshot(&snapshot(900, up, 500_000), 900 + i as u64);
        assert!(!o.rolled_over);
    }
    assert!(trader.engine.current_cycle.is_some());

    // Terminal tick of the old period: Up ends at 0.995.
    trader.process_snapshot(&snapshot(900, 995_000, 5_000), 910);

    // The next period's first snapshot settles the open cycle as a win with
    // pnl (1 - entry) * size, then resets every counter.
    let o = trader.process_snapshot(&snapshot(1_800, 500_000, 500_000), 1_800);
    assert!(o.rolled_over);
    assert_eq!(o.market_ends.len(), 1);
    let end = &o.market_ends[0];
    assert_eq!(end.asset, Asset::Btc);
    let (pnl, won) = end.settlement.expect("settlement");
    assert!(won);
    assert_eq!(pnl, 3_000_000); // (1 - 0.70) * 10 shares
    assert!(trader.engine.current_cycle.is_none());
    assert_eq!(trader.engine.total_pnl, 0);
    assert_eq!(trader.engine.wins, 0);
    assert_eq!(trader.engine.losses, 0);
    assert_eq!(trader.engine.total_fund_used, 0);
}

#[test]
fn select_trading_assets_applies_enable_flags() {
    let all = select_trading_assets(MarketSelector::All, true, true, true);
    assert_eq!(all, vec![Asset::Eth, Asset::Btc, Asset::Sol, Asset::Xrp]);
    let no_eth = select_trading_assets(MarketSelector::All, false, true, true);
    assert_eq!(no_eth, vec![Asset::Btc, Asset::Sol, Asset::Xrp]);
    let eth_only = select_trading_assets(MarketSelector::Eth, true, true, true);
    assert_eq!(eth_only, vec![Asset::Eth]);
    let eth_disabled = select_trading_assets(MarketSelector::Eth, false, true, true);
    assert!(eth_disabled.is_empty());
    // Btc has no enable flag and always trades.
    let btc = select_trading_assets(MarketSelector::Btc, false, false, false);
    assert_eq!(btc, vec![Asset::Btc]);
}

#[test]
fn crossover_needs_rise_through_signal_line() {
    // Previous at-or-below, current above: a crossover.
    assert!(macd_crossover(Some(5), Some(3), Some(1), Some(2)));
    // Already above on both ticks: no crossover.
    assert!(!macd_crossover(Some(5), Some(3), Some(4), Some(2)));
    // First readings count when already above.
    assert!(macd_crossover(Some(5), Some(3), None, None));
    assert!(!macd_crossover(Some(2), Some(3), None, None));
    // Missing readings never signal.
    assert!(!macd_crossover(None, Some(3), Some(1), Some(2)));
}

#[test]
fn acceleration_gate_semantics() {
    assert!(macd_accelerating(Some(5), Some(4)));
    assert!(!macd_accelerating(Some(4), Some(4)));
    assert!(macd_accelerating(Some(4), None));
    assert!(!macd_accelerating(None, Some(4)));
}

#[test]
fn win_rate_is_fixed_point_percentage() {
    let mut stats = TradingStats::default();
    assert_eq!(stats.win_rate(), 0);
    stats.total_trades = 2;
    stats.winning_trades = 1;
    assert_eq!(stats.win_rate(), 50 * SCALE);
    stats.total_trades = 3;
    assert_eq!(stats.win_rate(), 33_333_333);
    stats.add_equity_point(900, 1_000 * SCALE);
    assert_eq!(stats.equity_curve, vec![(900, 1_000 * SCALE)]);
}

#[test]
fn format_id_shortens_long_identifiers() {
    assert_eq!(format_id("short"), "short");
    assert_eq!(format_id("123456789012"), "123456789012");
    assert_eq!(format_id("1234567890123"), "123456...890123");
    assert_eq!(
        format_id_opt(&Some(String::from("abcdefghijklmnop"))),
        "abcdef...klmnop"
    );
    assert_eq!(format_id_opt(&None), "None");
}

#[test]
fn history_log_appends_messages_in_order() {
    let mut log = HistoryLog::new();
    log_to_history(&mut log, "first line");
    log_to_history(&mut log, "second line");
    assert_eq!(log.entries, vec!["first line", "second line"]);
}

#[test]
fn macd_signal_mode_enters_on_crossover() {
    // fast 2 / slow 3 / signal 2: a fall followed by a rebound lifts the
    // MACD from below its signal line to above it, and that crossover (not
    // any threshold) opens the position.
    let mut cfg = StrategyConfig::default_macd_signal();
    cfg.lookback = 3;
    cfg.macd_fast_period = 2;
    cfg.macd_slow_period = 3;
    cfg.macd_signal_period = 2;
    let mut trader = SimulationTrader::new(&cfg, vec![Asset::Btc], 1_000 * SCALE);

    let ups = [600_000, 500_000, 400_000, 300_000, 500_000];
    let mut outcomes = Vec::new();
    for (i, &up) in ups.iter().enumerate() {
        let pp = price_point(900, up, 500_000);
        outcomes.push(trader.process_price_point(&pp, 900 + i as u64));
    }
    // Fourth tick: MACD still under its freshly seeded signal line.
    assert_eq!(outcomes[3].eval.up_index, Some(-33_334));
    assert_eq!(outcomes[3].eval.up_signal, Some(-16_667));
    assert_eq!(outcomes[3].eval.action, TradeAction::NoAction);
    // Fifth tick: the rebound crosses above the signal line.
    assert_eq!(outcomes[4].eval.up_index, Some(5_555));
    assert_eq!(outcomes[4].eval.up_signal, Some(-1_852));
    assert_eq!(
        outcomes[4].eval.action,
        TradeAction::BuyUp { price: 500_000, shares: 10 * SCALE }
    );
    assert!(matches!(
        outcomes[4].entry,
        EntryDecision::OpenedSimulated { .. }
    ));
}
