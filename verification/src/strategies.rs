//! Trend decision function: turns indicator readings for both instrument
//! sides into a directional entry signal.

use vstd::prelude::*;
use crate::num::SCALE;
use crate::config::{IndexType, StrategyConfig};
use crate::indicators::{
    RollingRSI, RollingMACD, RollingMomentum, calculate_rsi, macd_from_prices,
    momentum_from_prices, rsi_ready, rsi_of, macd_ready, macd_of, momentum_ready, momentum_of,
    window_of,
};
use crate::types::PricePoint;

verus! {

/// Trading action decided for one tick.
#[derive(Debug, Clone, Copy, PartialEq, Eq, Structural)]
pub enum TradeAction {
    BuyUp { price: i64, shares: i64 },
    BuyDown { price: i64, shares: i64 },
    SellUp { price: i64 },
    SellDown { price: i64 },
    NoAction,
}

/// Whether the MACD crosses from at-or-below its signal line to above it
/// between two ticks; the very first reading counts as a crossover when it
/// is already above.
pub open spec fn crossover_spec(
    cur_macd: Option<i64>,
    cur_sig: Option<i64>,
    prev_macd: Option<i64>,
    prev_sig: Option<i64>,
) -> bool {
    match (cur_macd, cur_sig, prev_macd, prev_sig) {
        (Some(cm), Some(cs), Some(pm), Some(ps)) => pm <= ps && cm > cs,
        (Some(cm), Some(cs), None, None) => cm > cs,
        _ => false,
    }
}

/// Crossover detection for the MACD-signal entry mode.
pub fn macd_crossover(
    cur_macd: Option<i64>,
    cur_sig: Option<i64>,
    prev_macd: Option<i64>,
    prev_sig: Option<i64>,
) -> (r: bool)
    ensures
        r == crossover_spec(cur_macd, cur_sig, prev_macd, prev_sig),
{
    match (cur_macd, cur_sig, prev_macd, prev_sig) {
        (Some(cm), Some(cs), Some(pm), Some(ps)) => pm <= ps && cm > cs,
        (Some(cm), Some(cs), None, None) => cm > cs,
        _ => false,
    }
}

/// Whether the MACD is accelerating: strictly above its previous reading,
/// with the very first reading always counted as accelerating.
pub open spec fn accelerating_spec(cur: Option<i64>, prev: Option<i64>) -> bool {
    match (cur, prev) {
        (Some(c), Some(p)) => c > p,
        (Some(_), None) => true,
        _ => false,
    }
}

/// Momentum-acceleration gate for the MACD entry mode.
pub fn macd_accelerating(cur: Option<i64>, prev: Option<i64>) -> (r: bool)
    ensures
        r == accelerating_spec(cur, prev),
{
    match (cur, prev) {
        (Some(c), Some(p)) => c > p,
        (Some(_), None) => true,
        _ => false,
    }
}

/// The index reading for the side tracked by rolling calculators, given the
/// histories those calculators have consumed and the trailing window of that
/// side's prices (used by the RSI fallback when the rolling calculator has
/// not warmed up yet).
pub open spec fn up_index_spec(
    cfg: StrategyConfig,
    rsi_hist: Seq<int>,
    macd_hist: Seq<int>,
    mom_hist: Seq<int>,
    ups: Seq<int>,
) -> Option<int> {
    let p = cfg.lookback as nat;
    if ups.len() < p {
        None
    } else {
        match cfg.index_type {
            IndexType::RSI => if rsi_ready(rsi_hist, p) {
                Some(rsi_of(rsi_hist, p))
            } else if ups.len() >= p + 1 {
                Some(rsi_of(window_of(ups, p + 1), p))
            } else {
                None
            },
            IndexType::MACD | IndexType::MACDSignal => if macd_ready(
                macd_hist,
                cfg.macd_slow_period as nat,
            ) {
                Some(macd_of(macd_hist, cfg.macd_fast_period as nat, cfg.macd_slow_period as nat))
            } else {
                None
            },
            IndexType::Momentum => if momentum_ready(mom_hist, p) && mom_hist[mom_hist.len() - 1
                - p] != 0 {
                Some(momentum_of(mom_hist, p))
            } else {
                None
            },
        }
    }
}

/// The index reading recomputed from scratch over one side's price window
/// (used for the side without persistent calculators).
pub open spec fn down_index_spec(cfg: StrategyConfig, downs: Seq<int>) -> Option<int> {
    let p = cfg.lookback as nat;
    if downs.len() < p {
        None
    } else {
        match cfg.index_type {
            IndexType::RSI => if rsi_ready(downs, p) {
                Some(rsi_of(downs, p))
            } else {
                None
            },
            IndexType::MACD | IndexType::MACDSignal => if macd_ready(
                downs,
                cfg.macd_slow_period as nat,
            ) {
                Some(macd_of(downs, cfg.macd_fast_period as nat, cfg.macd_slow_period as nat))
            } else {
                None
            },
            IndexType::Momentum => if momentum_ready(downs, p) && downs[downs.len() - 1 - p]
                != 0 {
                Some(momentum_of(downs, p))
            } else {
                None
            },
        }
    }
}

/// Whether an index reading clears the entry threshold of its mode.
/// Crossovers are detected elsewhere, so the MACD-signal mode never signals
/// through the threshold.
pub open spec fn trending_spec(cfg: StrategyConfig, idx: Option<int>) -> bool {
    match idx {
        Some(v) => match cfg.index_type {
            IndexType::RSI => v > cfg.trend_threshold,
            IndexType::MACD => v > cfg.trend_threshold,
            IndexType::MACDSignal => false,
            IndexType::Momentum => v > cfg.momentum_threshold_pct,
        },
        None => false,
    }
}

/// The action the decision function takes from the two index readings: buy
/// the trending side at its current ask, the Up side winning ties.
pub open spec fn decide_spec(
    cfg: StrategyConfig,
    up: Option<int>,
    down: Option<int>,
    last: PricePoint,
) -> TradeAction {
    if trending_spec(cfg, up) {
        TradeAction::BuyUp { price: last.up_price, shares: cfg.position_size_shares }
    } else if trending_spec(cfg, down) {
        TradeAction::BuyDown { price: last.down_price, shares: cfg.position_size_shares }
    } else {
        TradeAction::NoAction
    }
}

/// Momentum-hedge strategy: buy the side whose trend index clears the
/// configured threshold.
pub struct MomentumHedgeStrategy {
    config: StrategyConfig,
}

impl MomentumHedgeStrategy {
    /// The configuration this strategy was built with.
    pub closed spec fn spec_config(&self) -> StrategyConfig {
        self.config
    }

    pub fn new(config: StrategyConfig) -> (r: Self)
        ensures
            r.spec_config() == config,
    {
        MomentumHedgeStrategy { config }
    }

    /// A display name for the strategy and its index type.
    pub fn name(&self) -> (r: &'static str) {
        match self.config.index_type {
            IndexType::RSI => "MomentumHedgeStrategy (RSI)",
            IndexType::MACD => "MomentumHedgeStrategy (MACD)",
            IndexType::MACDSignal => "MomentumHedgeStrategy (MACD Signal)",
            IndexType::Momentum => "MomentumHedgeStrategy (Momentum)",
        }
    }

    pub fn config(&self) -> (r: &StrategyConfig)
        ensures
            *r == self.spec_config(),
    {
        &self.config
    }

    /// The trend index for the rolling-tracked side, with the RSI batch
    /// fallback over the trailing price window.
    pub fn calculate_index(
        &self,
        prices: &Vec<PricePoint>,
        rsi_calc: &RollingRSI,
        macd_calc: &RollingMACD,
        momentum_calc: &RollingMomentum,
    ) -> (r: Option<i64>)
        requires
            self.spec_config().wf(),
            rsi_calc.wf(),
            macd_calc.wf(),
            momentum_calc.wf(),
            rsi_calc.spec_period() == self.spec_config().lookback as nat,
            macd_calc.spec_fast() == self.spec_config().macd_fast_period as nat,
            macd_calc.spec_slow() == self.spec_config().macd_slow_period as nat,
            momentum_calc.spec_period() == self.spec_config().lookback as nat,
            forall|i: int| 0 <= i < prices@.len() ==> (#[trigger] prices@[i]).wf(),
        ensures
            ({
                let s = up_index_spec(
                    self.spec_config(),
                    rsi_calc@,
                    macd_calc@,
                    momentum_calc@,
                    prices@.map_values(|q: PricePoint| q.up_price as int),
                );
                &&& (r is Some <==> s is Some)
                &&& (r matches Some(v) ==> Some(v as int) == s)
            }),
    {
        let ghost ups = prices@.map_values(|q: PricePoint| q.up_price as int);
        if prices.len() < self.config.lookback {
            return None;
        }
        match self.config.index_type {
            IndexType::RSI => {
                if rsi_calc.is_ready() {
                    rsi_calc.get_rsi()
                } else {
                    // Rebuild from the trailing window of Up prices.
                    let mut slice: Vec<i64> = Vec::new();
                    let start: usize = if prices.len() > self.config.lookback + 1 {
                        prices.len() - (self.config.lookback + 1)
                    } else {
                        0
                    };
                    let mut i: usize = start;
                    while i < prices.len()
                        invariant
                            start <= i <= prices.len(),
                            ups == prices@.map_values(|q: PricePoint| q.up_price as int),
                            ups.len() == prices@.len(),
                            forall|j: int| 0 <= j < prices@.len() ==> (#[trigger] prices@[j]).wf(),
                            slice@.map_values(|e: i64| e as int) == ups.subrange(
                                start as int,
                                i as int,
                            ),
                        decreases prices.len() - i,
                    {
                        proof {
                            assert(ups.subrange(start as int, i + 1) =~= ups.subrange(
                                start as int,
                                i as int,
                            ).push(ups[i as int]));
                            crate::indicators::lemma_map_push(slice@, prices@[i as int].up_price);
                        }
                        slice.push(prices[i].up_price);
                        i = i + 1;
                    }
                    proof {
                        assert(slice@.map_values(|e: i64| e as int) == ups.subrange(
                            start as int,
                            ups.len() as int,
                        ));
                        assert(ups.subrange(start as int, ups.len() as int) =~= window_of(
                            ups,
                            (self.config.lookback + 1) as nat,
                        ));
                        assert(forall|j: int|
                            0 <= j < slice@.len() ==> 0 <= #[trigger] slice@[j] <= SCALE) by {
                            assert(forall|j: int|
                                0 <= j < slice@.len() ==> slice@[j] as int == ups.subrange(
                                    start as int,
                                    ups.len() as int,
                                )[j]);
                            assert(forall|j: int|
                                0 <= j < ups.len() ==> 0 <= #[trigger] ups[j] <= SCALE);
                        }
                    }
                    if slice.len() >= self.config.lookback + 1 {
                        calculate_rsi(&slice, self.config.lookback)
                    } else {
                        None
                    }
                }
            },
            IndexType::MACD | IndexType::MACDSignal => {
                if macd_calc.is_ready() {
                    macd_calc.get_macd()
                } else {
                    None
                }
            },
            IndexType::Momentum => {
                if momentum_calc.is_ready() {
                    momentum_calc.get_momentum()
                } else {
                    None
                }
            },
        }
    }

    /// Decide the entry action for this tick: compute the trend index of the
    /// rolling-tracked Up side and rebuild the Down side from the window,
    /// then buy whichever side clears its threshold, Up winning ties.
    pub fn decide(
        &self,
        prices: &Vec<PricePoint>,
        rsi_calc: &RollingRSI,
        macd_calc: &RollingMACD,
        momentum_calc: &RollingMomentum,
    ) -> (r: TradeAction)
        requires
            self.spec_config().wf(),
            rsi_calc.wf(),
            macd_calc.wf(),
            momentum_calc.wf(),
            rsi_calc.spec_period() == self.spec_config().lookback as nat,
            macd_calc.spec_fast() == self.spec_config().macd_fast_period as nat,
            macd_calc.spec_slow() == self.spec_config().macd_slow_period as nat,
            momentum_calc.spec_period() == self.spec_config().lookback as nat,
            forall|i: int| 0 <= i < prices@.len() ==> (#[trigger] prices@[i]).wf(),
        ensures
            prices@.len() == 0 || prices@.len() < self.spec_config().lookback ==> r
                == TradeAction::NoAction,
            prices@.len() > 0 && prices@.len() >= self.spec_config().lookback ==> r == decide_spec(
                self.spec_config(),
                up_index_spec(
                    self.spec_config(),
                    rsi_calc@,
                    macd_calc@,
                    momentum_calc@,
                    prices@.map_values(|q: PricePoint| q.up_price as int),
                ),
                down_index_spec(
                    self.spec_config(),
                    prices@.map_values(|q: PricePoint| q.down_price as int),
                ),
                prices@[prices@.len() - 1],
            ),
    {
        let ghost downs = prices@.map_values(|q: PricePoint| q.down_price as int);
        if prices.len() == 0 || prices.len() < self.config.lookback {
            return TradeAction::NoAction;
        }

        let up_index = self.calculate_index(prices, rsi_calc, macd_calc, momentum_calc);

        // Rebuild the Down side's index from the whole retained window.
        let mut down_prices: Vec<i64> = Vec::new();
        let mut i: usize = 0;
        while i < prices.len()
            invariant
                0 <= i <= prices.len(),
                downs == prices@.map_values(|q: PricePoint| q.down_price as int),
                downs.len() == prices@.len(),
                forall|j: int| 0 <= j < prices@.len() ==> (#[trigger] prices@[j]).wf(),
                down_prices@.map_values(|e: i64| e as int) == downs.take(i as int),
            decreases prices.len() - i,
        {
            proof {
                assert(downs.take(i + 1) =~= downs.take(i as int).push(downs[i as int]));
                crate::indicators::lemma_map_push(down_prices@, prices@[i as int].down_price);
            }
            down_prices.push(prices[i].down_price);
            i = i + 1;
        }
        proof {
            assert(downs.take(downs.len() as int) =~= downs);
            assert(down_prices@.map_values(|e: i64| e as int) == downs);
            assert forall|j: int|
                0 <= j < down_prices@.len() implies 0 <= #[trigger] down_prices@[j] <= SCALE by {
                assert(down_prices@[j] as int == downs[j]);
                assert(downs[j] == prices@[j].down_price as int);
                assert(prices@[j].wf());
            }
        }

        let down_index: Option<i64> = match self.config.index_type {
            IndexType::RSI => calculate_rsi(&down_prices, self.config.lookback),
            IndexType::MACD | IndexType::MACDSignal => macd_from_prices(
                &down_prices,
                self.config.macd_fast_period,
                self.config.macd_slow_period,
            ),
            IndexType::Momentum => momentum_from_prices(&down_prices, self.config.lookback),
        };

        let up_trending = match up_index {
            Some(index) => match self.config.index_type {
                IndexType::RSI => index > self.config.trend_threshold,
                IndexType::MACD => index > self.config.trend_threshold,
                IndexType::MACDSignal => false,
                IndexType::Momentum => index > self.config.momentum_threshold_pct,
            },
            None => false,
        };

        let down_trending = match down_index {
            Some(index) => match self.config.index_type {
                IndexType::RSI => index > self.config.trend_threshold,
                IndexType::MACD => index > self.config.trend_threshold,
                IndexType::MACDSignal => false,
                IndexType::Momentum => index > self.config.momentum_threshold_pct,
            },
            None => false,
        };

        if up_trending {
            let current_price = prices[prices.len() - 1].up_price;
            TradeAction::BuyUp { price: current_price, shares: self.config.position_size_shares }
        } else if down_trending {
            let current_price = prices[prices.len() - 1].down_price;
            TradeAction::BuyDown { price: current_price, shares: self.config.position_size_shares }
        } else {
            TradeAction::NoAction
        }
    }
}

} // verus!
