//! Strategy configuration: execution mode, index selection, thresholds, and
//! the precedence rules that merge command-line and file settings.

use vstd::prelude::*;
use crate::num::SCALE;
use crate::types::{MAX_POSITION_SIZE, PolymarketConfig};

verus! {

/// Execution mode.
#[derive(Debug, Clone, Copy, PartialEq, Eq, Structural)]
pub enum Mode {
    /// Logs and calculations only.
    Simulation,
    /// Monitoring and sending real orders.
    Live,
}

/// Index used for trend detection.
#[derive(Debug, Clone, Copy, PartialEq, Eq, Structural)]
pub enum IndexType {
    RSI,
    MACD,
    /// MACD with signal-line crossover entries.
    MACDSignal,
    Momentum,
}

/// Immutable per-run strategy configuration.  Thresholds and sizes are
/// fixed-point micro-units; an RSI threshold of 90.0 is `90 * SCALE`.
#[derive(Debug, Clone, Copy, PartialEq, Eq, Structural)]
pub struct StrategyConfig {
    /// Entry threshold for the RSI and MACD indexes.
    pub trend_threshold: i64,
    /// Take-profit distance above the entry price.
    pub profit_threshold: i64,
    /// Stop-loss distance below the entry price.
    pub sl_threshold: i64,
    /// Warm-up window for RSI and momentum.
    pub lookback: usize,
    pub index_type: IndexType,
    /// Position size, micro-shares.
    pub position_size_shares: i64,
    pub macd_fast_period: usize,
    pub macd_slow_period: usize,
    pub macd_signal_period: usize,
    /// Entry threshold for the momentum index, fixed-point percent.
    pub momentum_threshold_pct: i64,
    /// Suppress a stop-loss while the held side's MACD is still positive.
    pub use_macd_sl_filter: bool,
    /// Only open entries once at most this many minutes remain in the period.
    pub trading_start_when_remaining_minutes: Option<u64>,
}

impl StrategyConfig {
    /// Bounds under which every engine computation stays in fixed-point
    /// range.
    pub open spec fn wf(&self) -> bool {
        &&& 1 <= self.lookback <= 1000000
        &&& 1 <= self.macd_fast_period <= 1000000
        &&& 1 <= self.macd_slow_period <= 1000000
        &&& 1 <= self.macd_signal_period <= 1000000
        &&& 0 <= self.profit_threshold <= SCALE
        &&& 0 <= self.sl_threshold <= SCALE
        &&& 0 < self.position_size_shares <= MAX_POSITION_SIZE
    }

    /// The stock configuration for each index type.
    pub open spec fn spec_default(t: IndexType) -> StrategyConfig {
        StrategyConfig {
            trend_threshold: if t == IndexType::RSI {
                90000000
            } else {
                0
            },
            profit_threshold: if t == IndexType::RSI {
                20000
            } else {
                50000
            },
            sl_threshold: if t == IndexType::RSI {
                20000
            } else {
                50000
            },
            lookback: if t == IndexType::RSI || t == IndexType::Momentum {
                10
            } else {
                26
            },
            index_type: t,
            position_size_shares: 10000000,
            macd_fast_period: 12,
            macd_slow_period: 26,
            macd_signal_period: 9,
            momentum_threshold_pct: 2000000,
            use_macd_sl_filter: t == IndexType::MACD,
            trading_start_when_remaining_minutes: None,
        }
    }

    /// Stock RSI configuration: threshold 90, 2% exits, lookback 10.
    pub fn default_rsi() -> (r: Self)
        ensures
            r == Self::spec_default(IndexType::RSI),
            r.wf(),
    {
        StrategyConfig {
            trend_threshold: 90 * SCALE,
            profit_threshold: 20000,
            sl_threshold: 20000,
            lookback: 10,
            index_type: IndexType::RSI,
            position_size_shares: 10 * SCALE,
            macd_fast_period: 12,
            macd_slow_period: 26,
            macd_signal_period: 9,
            momentum_threshold_pct: 2 * SCALE,
            use_macd_sl_filter: false,
            trading_start_when_remaining_minutes: None,
        }
    }

    /// Stock MACD configuration: threshold 0, 5% exits, lookback 26, with
    /// the MACD stop-loss filter on.
    pub fn default_macd() -> (r: Self)
        ensures
            r == Self::spec_default(IndexType::MACD),
            r.wf(),
    {
        StrategyConfig {
            trend_threshold: 0,
            profit_threshold: 50000,
            sl_threshold: 50000,
            lookback: 26,
            index_type: IndexType::MACD,
            position_size_shares: 10 * SCALE,
            macd_fast_period: 12,
            macd_slow_period: 26,
            macd_signal_period: 9,
            momentum_threshold_pct: 2 * SCALE,
            use_macd_sl_filter: true,
            trading_start_when_remaining_minutes: None,
        }
    }

    /// Stock MACD-signal configuration: crossover entries, 5% exits.
    pub fn default_macd_signal() -> (r: Self)
        ensures
            r == Self::spec_default(IndexType::MACDSignal),
            r.wf(),
    {
        StrategyConfig {
            trend_threshold: 0,
            profit_threshold: 50000,
            sl_threshold: 50000,
            lookback: 26,
            index_type: IndexType::MACDSignal,
            position_size_shares: 10 * SCALE,
            macd_fast_period: 12,
            macd_slow_period: 26,
            macd_signal_period: 9,
            momentum_threshold_pct: 2 * SCALE,
            use_macd_sl_filter: false,
            trading_start_when_remaining_minutes: None,
        }
    }

    /// Stock momentum configuration: 2% acceleration threshold, 5% exits.
    pub fn default_momentum() -> (r: Self)
        ensures
            r == Self::spec_default(IndexType::Momentum),
            r.wf(),
    {
        StrategyConfig {
            trend_threshold: 0,
            profit_threshold: 50000,
            sl_threshold: 50000,
            lookback: 10,
            index_type: IndexType::Momentum,
            position_size_shares: 10 * SCALE,
            macd_fast_period: 12,
            macd_slow_period: 26,
            macd_signal_period: 9,
            momentum_threshold_pct: 2 * SCALE,
            use_macd_sl_filter: false,
            trading_start_when_remaining_minutes: None,
        }
    }
}

/// Trading section of the configuration file.
#[derive(Debug, Clone)]
pub struct TradingConfigJson {
    pub check_interval_ms: Option<u64>,
    pub enable_eth_trading: Option<bool>,
    pub enable_solana_trading: Option<bool>,
    pub enable_xrp_trading: Option<bool>,
    /// Micro-shares.
    pub position_size: Option<i64>,
    /// Micro-units.
    pub profit_threshold: Option<i64>,
    /// Micro-units.
    pub stop_loss_threshold: Option<i64>,
    pub trading_start_when_remaining_minutes: Option<u64>,
}

/// Trending-index section of the configuration file.
#[derive(Debug, Clone)]
pub struct TrendingIndexJson {
    pub mode: Option<IndexType>,
    /// In the index's own fixed-point units.
    pub threshold: Option<i64>,
    pub lookback: Option<usize>,
    pub macd_fast_period: Option<usize>,
    pub macd_slow_period: Option<usize>,
    pub macd_signal_period: Option<usize>,
    pub use_macd_sl_filter: Option<bool>,
}

/// The whole configuration file.
#[derive(Debug, Clone)]
pub struct JsonConfig {
    pub polymarket: Option<PolymarketConfig>,
    pub trading: Option<TradingConfigJson>,
    pub trending_index: Option<TrendingIndexJson>,
}

/// Strategy settings given on the command line; `None` where the flag was
/// left at its default.
#[derive(Debug, Clone)]
pub struct CliStrategyArgs {
    pub strategy: Option<IndexType>,
    pub trend_threshold: Option<i64>,
    pub profit_threshold: Option<i64>,
    pub sl_threshold: Option<i64>,
    pub lookback: Option<usize>,
    /// Micro-shares.
    pub position_size: Option<i64>,
}

/// First of two optional settings, or the default.
pub open spec fn pick<A>(a: Option<A>, b: Option<A>, d: A) -> A {
    match a {
        Some(v) => v,
        None => match b {
            Some(v) => v,
            None => d,
        },
    }
}

/// The trending-index section, or an empty one.
pub open spec fn spec_trending_index(json: JsonConfig) -> TrendingIndexJson {
    match json.trending_index {
        Some(ti) => ti,
        None => TrendingIndexJson {
            mode: None,
            threshold: None,
            lookback: None,
            macd_fast_period: None,
            macd_slow_period: None,
            macd_signal_period: None,
            use_macd_sl_filter: None,
        },
    }
}

/// The trading section, or an empty one.
pub open spec fn spec_trading(json: JsonConfig) -> TradingConfigJson {
    match json.trading {
        Some(t) => t,
        None => TradingConfigJson {
            check_interval_ms: None,
            enable_eth_trading: None,
            enable_solana_trading: None,
            enable_xrp_trading: None,
            position_size: None,
            profit_threshold: None,
            stop_loss_threshold: None,
            trading_start_when_remaining_minutes: None,
        },
    }
}

/// The configuration that the precedence rules produce: for each field the
/// command line wins over the file, and the file over the stock value of the
/// chosen index type.
pub open spec fn spec_merged_config(cli: CliStrategyArgs, json: JsonConfig) -> StrategyConfig {
    let ti = spec_trending_index(json);
    let tr = spec_trading(json);
    let chosen = pick(cli.strategy, ti.mode, IndexType::RSI);
    let base = StrategyConfig::spec_default(chosen);
    StrategyConfig {
        trend_threshold: pick(cli.trend_threshold, ti.threshold, base.trend_threshold),
        profit_threshold: pick(cli.profit_threshold, tr.profit_threshold, base.profit_threshold),
        sl_threshold: pick(cli.sl_threshold, tr.stop_loss_threshold, base.sl_threshold),
        lookback: pick(cli.lookback, ti.lookback, base.lookback),
        index_type: chosen,
        position_size_shares: pick(
            cli.position_size,
            tr.position_size,
            base.position_size_shares,
        ),
        macd_fast_period: pick(ti.macd_fast_period, None, base.macd_fast_period),
        macd_slow_period: pick(ti.macd_slow_period, None, base.macd_slow_period),
        macd_signal_period: pick(ti.macd_signal_period, None, base.macd_signal_period),
        momentum_threshold_pct: base.momentum_threshold_pct,
        use_macd_sl_filter: pick(ti.use_macd_sl_filter, None, base.use_macd_sl_filter),
        trading_start_when_remaining_minutes: match tr.trading_start_when_remaining_minutes {
            Some(m) => Some(m),
            None => base.trading_start_when_remaining_minutes,
        },
    }
}

/// Merge command-line arguments, configuration file and stock defaults into
/// one strategy configuration, command line first.
#[verifier::rlimit(100)]
pub fn get_strategy_config(cli: &CliStrategyArgs, json: &JsonConfig) -> (r: StrategyConfig)
    requires
        (cli.profit_threshold matches Some(v) ==> 0 <= v <= SCALE),
        (cli.sl_threshold matches Some(v) ==> 0 <= v <= SCALE),
        (cli.lookback matches Some(v) ==> 1 <= v <= 1000000),
        (cli.position_size matches Some(v) ==> 0 < v <= MAX_POSITION_SIZE),
        (json.trading matches Some(t) ==> {
            &&& (t.position_size matches Some(v) ==> 0 < v <= MAX_POSITION_SIZE)
            &&& (t.profit_threshold matches Some(v) ==> 0 <= v <= SCALE)
            &&& (t.stop_loss_threshold matches Some(v) ==> 0 <= v <= SCALE)
        }),
        (json.trending_index matches Some(ti) ==> {
            &&& (ti.lookback matches Some(v) ==> 1 <= v <= 1000000)
            &&& (ti.macd_fast_period matches Some(v) ==> 1 <= v <= 1000000)
            &&& (ti.macd_slow_period matches Some(v) ==> 1 <= v <= 1000000)
            &&& (ti.macd_signal_period matches Some(v) ==> 1 <= v <= 1000000)
        }),
    ensures
        r == spec_merged_config(*cli, *json),
        r.wf(),
{
    let chosen: IndexType = match cli.strategy {
        Some(t) => t,
        None => match &json.trending_index {
            Some(ti) => match ti.mode {
                Some(t) => t,
                None => IndexType::RSI,
            },
            None => IndexType::RSI,
        },
    };
    let mut config = match chosen {
        IndexType::RSI => StrategyConfig::default_rsi(),
        IndexType::MACD => StrategyConfig::default_macd(),
        IndexType::MACDSignal => StrategyConfig::default_macd_signal(),
        IndexType::Momentum => StrategyConfig::default_momentum(),
    };

    match cli.trend_threshold {
        Some(v) => {
            config.trend_threshold = v;
        },
        None => match &json.trending_index {
            Some(ti) => match ti.threshold {
                Some(v) => {
                    config.trend_threshold = v;
                },
                None => {},
            },
            None => {},
        },
    }

    match cli.profit_threshold {
        Some(v) => {
            config.profit_threshold = v;
        },
        None => match &json.trading {
            Some(t) => match t.profit_threshold {
                Some(v) => {
                    config.profit_threshold = v;
                },
                None => {},
            },
            None => {},
        },
    }

    match cli.sl_threshold {
        Some(v) => {
            config.sl_threshold = v;
        },
        None => match &json.trading {
            Some(t) => match t.stop_loss_threshold {
                Some(v) => {
                    config.sl_threshold = v;
                },
                None => {},
            },
            None => {},
        },
    }

    match cli.lookback {
        Some(v) => {
            config.lookback = v;
        },
        None => match &json.trending_index {
            Some(ti) => match ti.lookback {
                Some(v) => {
                    config.lookback = v;
                },
                None => {},
            },
            None => {},
        },
    }

    match cli.position_size {
        Some(v) => {
            config.position_size_shares = v;
        },
        None => match &json.trading {
            Some(t) => match t.position_size {
                Some(v) => {
                    config.position_size_shares = v;
                },
                None => {},
            },
            None => {},
        },
    }

    match &json.trending_index {
        Some(ti) => {
            match ti.macd_fast_period {
                Some(v) => {
                    config.macd_fast_period = v;
                },
                None => {},
            }
            match ti.macd_slow_period {
                Some(v) => {
                    config.macd_slow_period = v;
                },
                None => {},
            }
            match ti.macd_signal_period {
                Some(v) => {
                    config.macd_signal_period = v;
                },
                None => {},
            }
            match ti.use_macd_sl_filter {
                Some(v) => {
                    config.use_macd_sl_filter = v;
                },
                None => {},
            }
        },
        None => {},
    }

    match &json.trading {
        Some(t) => {
            match t.trading_start_when_remaining_minutes {
                Some(m) => {
                    config.trading_start_when_remaining_minutes = Some(m);
                },
                None => {},
            }
        },
        None => {},
    }

    config
}

} // verus!
