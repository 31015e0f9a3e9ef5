use trending_trader::config::{
    get_strategy_config, CliStrategyArgs, IndexType, JsonConfig, StrategyConfig,
    TradingConfigJson, TrendingIndexJson,
};
use trending_trader::num::SCALE;

fn empty_cli() -> CliStrategyArgs {
    CliStrategyArgs {
        strategy: None,
        trend_threshold: None,
        profit_threshold: None,
        sl_threshold: None,
        lookback: None,
        position_size: None,
    }
}

fn empty_json() -> JsonConfig {
    JsonConfig { polymarket: None, trading: None, trending_index: None }
}

#[test]
fn defaults_per_index_type() {
    let rsi = StrategyConfig::default_rsi();
    assert_eq!(rsi.index_type, IndexType::RSI);
    assert_eq!(rsi.trend_threshold, 90 * SCALE);
    assert_eq!(rsi.profit_threshold, 20_000);
    assert_eq!(rsi.sl_threshold, 20_000);
    assert_eq!(rsi.lookback, 10);
    assert!(!rsi.use_macd_sl_filter);

    let macd = StrategyConfig::default_macd();
    assert_eq!(macd.index_type, IndexType::MACD);
    assert_eq!(macd.trend_threshold, 0);
    assert_eq!(macd.profit_threshold, 50_000);
    assert_eq!(macd.lookback, 26);
    assert!(macd.use_macd_sl_filter);
    assert_eq!(macd.macd_fast_period, 12);
    assert_eq!(macd.macd_slow_period, 26);
    assert_eq!(macd.macd_signal_period, 9);

    let sig = StrategyConfig::default_macd_signal();
    assert_eq!(sig.index_type, IndexType::MACDSignal);
    assert!(!sig.use_macd_sl_filter);

    let mom = StrategyConfig::default_momentum();
    assert_eq!(mom.index_type, IndexType::Momentum);
    assert_eq!(mom.lookback, 10);
    assert_eq!(mom.momentum_threshold_pct, 2 * SCALE);
}

#[test]
fn merge_with_nothing_set_yields_rsi_defaults() {
    let cfg = get_strategy_config(&empty_cli(), &empty_json());
    assert_eq!(cfg, StrategyConfig::default_rsi());
}

#[test]
fn cli_strategy_beats_json_mode() {
    let mut cli = empty_cli();
    cli.strategy = Some(IndexType::MACD);
    let json = JsonConfig {
        polymarket: None,
        trading: None,
        trending_index: Some(TrendingIndexJson {
            mode: Some(IndexType::Momentum),
            threshold: None,
            lookback: None,
            macd_fast_period: None,
            macd_slow_period: None,
            macd_signal_period: None,
            use_macd_sl_filter: None,
        }),
    };
    let cfg = get_strategy_config(&cli, &json);
    assert_eq!(cfg.index_type, IndexType::MACD);
    assert!(cfg.use_macd_sl_filter);
}

#[test]
fn json_mode_applies_when_cli_is_default() {
    let json = JsonConfig {
        polymarket: None,
        trading: None,
        trending_index: Some(TrendingIndexJson {
            mode: Some(IndexType::Momentum),
            threshold: None,
            lookback: Some(7),
            macd_fast_period: None,
            macd_slow_period: None,
            macd_signal_period: None,
            use_macd_sl_filter: None,
        }),
    };
    let cfg = get_strategy_config(&empty_cli(), &json);
    assert_eq!(cfg.index_type, IndexType::Momentum);
    assert_eq!(cfg.lookback, 7);
}

#[test]
fn cli_overrides_beat_json_values() {
    let mut cli = empty_cli();
    cli.trend_threshold = Some(70 * SCALE);
    cli.profit_threshold = Some(30_000);
    cli.lookback = Some(5);
    cli.position_size = Some(25 * SCALE);
    let json = JsonConfig {
        polymarket: None,
        trading: Some(TradingConfigJson {
            check_interval_ms: Some(1_000),
            enable_eth_trading: Some(true),
            enable_solana_trading: Some(false),
            enable_xrp_trading: Some(false),
            position_size: Some(50 * SCALE),
            profit_threshold: Some(90_000),
            stop_loss_threshold: Some(80_000),
            trading_start_when_remaining_minutes: Some(10),
        }),
        trending_index: Some(TrendingIndexJson {
            mode: None,
            threshold: Some(60 * SCALE),
            lookback: Some(12),
            macd_fast_period: Some(8),
            macd_slow_period: Some(21),
            macd_signal_period: Some(5),
            use_macd_sl_filter: Some(true),
        }),
    };
    let cfg = get_strategy_config(&cli, &json);
    assert_eq!(cfg.trend_threshold, 70 * SCALE);
    assert_eq!(cfg.profit_threshold, 30_000);
    assert_eq!(cfg.sl_threshold, 80_000); // from the file: no CLI override
    assert_eq!(cfg.lookback, 5);
    assert_eq!(cfg.position_size_shares, 25 * SCALE);
    assert_eq!(cfg.macd_fast_period, 8);
    assert_eq!(cfg.macd_slow_period, 21);
    assert_eq!(cfg.macd_signal_period, 5);
    assert!(cfg.use_macd_sl_filter);
    assert_eq!(cfg.trading_start_when_remaining_minutes, Some(10));
}
