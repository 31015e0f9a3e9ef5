//! Cycle manager: owns the single allowed position, evaluates entries and
//! take-profit / stop-loss exits on every tick, and settles still-open
//! positions when the 15-minute period rolls over.
//!
//! The engine is pure state-machine logic: callers feed it price points,
//! clock readings and balance readings, and perform the orders it asks for.

use vstd::prelude::*;
use crate::num::{SCALE, div_trunc, div_trunc_i64};
use crate::config::{IndexType, StrategyConfig};
use crate::indicators::{
    RollingRSI, RollingMACD, RollingMomentum, macd_from_prices, macd_signal_from_prices,
    calculate_rsi, momentum_from_prices,
};
use crate::strategies::{
    MomentumHedgeStrategy, TradeAction, accelerating_spec, crossover_spec, decide_spec,
    down_index_spec, macd_accelerating, macd_crossover, up_index_spec,
};
use crate::types::{ActiveCycle, Asset, MAX_POSITION_SIZE, PositionSide, PricePoint};
use crate::confirm::PendingEntry;

verus! {

/// Retained price points per asset context.
pub const HISTORY_CAP: usize = 100;

/// Length of one market period, seconds.
pub const PERIOD_SECONDS: u64 = 900;

/// A side whose terminal ask reaches this price is treated as the winning
/// outcome at settlement (0.99).
pub const TERMINAL_WIN_PRICE: i64 = 990_000;

/// Entries above this price (0.93) are skipped while the period is young.
pub const LATE_ENTRY_PRICE: i64 = 930_000;

/// Age of the period (seconds) under which the high-price entry gate
/// applies (13 minutes).
pub const LATE_ENTRY_WINDOW_SECS: u64 = 780;

/// Round a clock reading down to the start of its 15-minute period.
pub fn current_period(now: u64) -> (r: u64)
    ensures
        r == (now as int / 900) * 900,
        r <= now,
{
    (now / 900) * 900
}

/// Seconds elapsed in the period, saturating at zero for clock skew.
pub open spec fn elapsed_secs_spec(now: u64, period_start: u64) -> int {
    if now >= period_start {
        now - period_start
    } else {
        0
    }
}

/// Whole minutes remaining in the period.
pub open spec fn remaining_minutes_spec(now: u64, period_start: u64) -> int {
    (if PERIOD_SECONDS >= elapsed_secs_spec(now, period_start) {
        PERIOD_SECONDS - elapsed_secs_spec(now, period_start)
    } else {
        0
    }) / 60
}

/// Whether the only-trade-near-expiry gate blocks an entry now.
pub open spec fn remaining_gate_blocks_spec(cfg: StrategyConfig, now: u64, period_start: u64) -> bool {
    match cfg.trading_start_when_remaining_minutes {
        Some(req) => remaining_minutes_spec(now, period_start) > req,
        None => false,
    }
}

/// Whether the live-mode late-entry gate blocks an entry now: the price is
/// already near certainty while most of the period still lies ahead.
pub open spec fn late_entry_blocks_spec(entry_price: i64, now: u64, period_start: u64) -> bool {
    entry_price > LATE_ENTRY_PRICE && elapsed_secs_spec(now, period_start) < LATE_ENTRY_WINDOW_SECS
}

/// Profit or loss of a price move over a position: `diff * size`, both in
/// micro-units, scaled back down (truncating toward zero).
pub open spec fn pnl_spec(diff: int, size: int) -> int {
    div_trunc(diff * size, SCALE as int)
}

/// Fixed-point multiply of a price difference by a position size.
pub fn pnl_amount(diff: i64, size: i64) -> (r: i64)
    requires
        -2 * SCALE <= diff <= 2 * SCALE,
        0 < size <= MAX_POSITION_SIZE,
    ensures
        r == pnl_spec(diff as int, size as int),
        -2 * MAX_POSITION_SIZE <= r <= 2 * MAX_POSITION_SIZE,
{
    proof {
        assert(-(2000000000000000000int) <= (diff as int) * (size as int) <= 2000000000000000000int)
            by (nonlinear_arith)
            requires
                -2000000 <= diff <= 2000000,
                0 < size <= 1000000000000int,
        ;
    }
    let prod: i64 = diff * size;
    let r = div_trunc_i64(prod, SCALE);
    proof {
        assert((diff as int) * (size as int) <= (2 * MAX_POSITION_SIZE) * (SCALE as int))
            by (nonlinear_arith)
            requires
                diff <= 2000000,
                0 < size <= 1000000000000int,
        ;
        assert(-((2 * MAX_POSITION_SIZE) * (SCALE as int)) <= (diff as int) * (size as int))
            by (nonlinear_arith)
            requires
                -2000000 <= diff,
                0 < size <= 1000000000000int,
        ;
        crate::num::lemma_div_trunc_abs_at_most(prod as int, SCALE as int, 2 * MAX_POSITION_SIZE);
    }
    r
}

/// The ask price of the side a cycle holds.
pub open spec fn same_side_ask_spec(cycle: ActiveCycle, pp: PricePoint) -> i64 {
    match cycle.side {
        PositionSide::LongUp => pp.up_price,
        PositionSide::LongDown => pp.down_price,
        PositionSide::Flat => 0,
    }
}

/// The ask price of the side opposite to the one a cycle holds.
pub open spec fn opposite_side_ask_spec(cycle: ActiveCycle, pp: PricePoint) -> i64 {
    match cycle.side {
        PositionSide::LongUp => pp.down_price,
        PositionSide::LongDown => pp.up_price,
        PositionSide::Flat => 0,
    }
}

/// Take-profit condition: the held side's ask has reached the take-profit
/// price, and that price is attainable (at most 1).
pub open spec fn tp_hit_spec(cycle: ActiveCycle, pp: PricePoint) -> bool {
    &&& same_side_ask_spec(cycle, pp) > 0
    &&& cycle.tp_price <= SCALE
    &&& same_side_ask_spec(cycle, pp) >= cycle.tp_price
}

/// Stop-loss price condition: the opposite side's ask has reached
/// `1 - sl_price`, meaning the held side has fallen to the stop level.
pub open spec fn sl_price_hit_spec(cycle: ActiveCycle, pp: PricePoint) -> bool {
    &&& opposite_side_ask_spec(cycle, pp) > 0
    &&& opposite_side_ask_spec(cycle, pp) >= SCALE - cycle.sl_price
}

/// Whether the MACD stop-loss filter suppresses a price-triggered stop: the
/// filter is on, and the held side's MACD is known and still positive.
pub open spec fn sl_suppressed_spec(cfg: StrategyConfig, held_macd: Option<i64>) -> bool {
    &&& cfg.index_type == IndexType::MACD
    &&& cfg.use_macd_sl_filter
    &&& held_macd matches Some(m) && m > 0
}

/// The MACD reading of the side a cycle holds, out of the two per-side
/// readings of the current tick.
pub open spec fn held_macd_spec(
    cycle: ActiveCycle,
    up_index: Option<i64>,
    down_index: Option<i64>,
) -> Option<i64> {
    match cycle.side {
        PositionSide::LongUp => up_index,
        PositionSide::LongDown => down_index,
        PositionSide::Flat => None,
    }
}

/// Whether the held side won at settlement: its terminal ask reached 0.99.
/// A side whose terminal price was never observed did not show a win.
pub open spec fn settle_won_spec(c: ActiveCycle, lp: Option<PricePoint>) -> bool {
    match lp {
        Some(q) => if c.side == PositionSide::LongUp {
            q.up_price >= TERMINAL_WIN_PRICE
        } else {
            q.down_price >= TERMINAL_WIN_PRICE
        },
        None => false,
    }
}

/// Settlement profit or loss of a cycle against an asset's last observed
/// prices: `(1 - entry) * size` on a win, `(0 - entry) * size` otherwise.
pub open spec fn settle_pnl_spec(c: ActiveCycle, lp: Option<PricePoint>) -> int {
    if settle_won_spec(c, lp) {
        pnl_spec(SCALE - c.entry_price, c.size as int)
    } else {
        pnl_spec(0 - c.entry_price, c.size as int)
    }
}

/// A settlement amount never exceeds one position's worth.
pub proof fn lemma_settle_pnl_bounds(c: ActiveCycle, lp: Option<PricePoint>)
    requires
        c.wf(),
    ensures
        -MAX_POSITION_SIZE <= settle_pnl_spec(c, lp) <= MAX_POSITION_SIZE,
{
    let diff: int = if settle_won_spec(c, lp) {
        SCALE - c.entry_price
    } else {
        0 - c.entry_price
    };
    assert(-SCALE <= diff <= SCALE);
    assert(-(1000000000000int * 1000000) <= diff * (c.size as int) <= 1000000000000int * 1000000)
        by (nonlinear_arith)
        requires
            -1000000 <= diff <= 1000000,
            0 < c.size <= 1000000000000int,
    ;
    crate::num::lemma_div_trunc_abs_at_most(
        diff * (c.size as int),
        SCALE as int,
        MAX_POSITION_SIZE as int,
    );
}

/// What the exit evaluation of one tick did.
#[derive(Debug, Clone, Copy, PartialEq, Eq, Structural)]
pub enum ExitEvent {
    /// No exit condition met; the cycle stays open.
    NoExit,
    /// Take-profit hit: the cycle closed with this profit.
    TakeProfit { pnl: i64 },
    /// Stop-loss price condition met but suppressed by the MACD filter.
    StopLossSkipped { macd: i64 },
    /// Stop-loss hit: the cycle closed with this (negative) profit.
    StopLoss { pnl: i64, opposite_ask: i64 },
}

/// Per-tick indicator readings and the resulting entry signal.
#[derive(Debug, Clone, Copy, PartialEq, Eq, Structural)]
pub struct TickEval {
    pub action: TradeAction,
    pub up_index: Option<i64>,
    pub down_index: Option<i64>,
    pub up_signal: Option<i64>,
    pub down_signal: Option<i64>,
    /// Momentum-acceleration gate results for the MACD mode (true outside
    /// that mode).
    pub up_macd_increasing: bool,
    pub down_macd_increasing: bool,
}

/// What became of an entry signal.
#[derive(Debug, Clone, Copy, PartialEq, Eq, Structural)]
pub enum EntryDecision {
    /// No buy signal, or a position already exists.
    NotApplicable,
    /// MACD mode: the held side's MACD was not strictly increasing.
    SkippedAcceleration,
    /// Too many minutes remain before the configured trading start.
    SkippedRemainingTime { remaining_minutes: u64 },
    /// Live gate: price near certainty while the period is young.
    SkippedLateHighPrice { elapsed_seconds: u64 },
    /// Simulation: the cycle opened immediately; a take-profit limit order
    /// would be placed exactly when `place_tp_limit` holds.
    OpenedSimulated { cycle: ActiveCycle, place_tp_limit: bool },
    /// Live: place this entry order, then record the pending entry.
    PlaceEntryOrder { buy_up: bool, price: i64, size: i64 },
}

/// The decision the simulation entry path takes for one signal.
pub open spec fn sim_entry_decision_spec(
    cfg: StrategyConfig,
    eval: TickEval,
    pp: PricePoint,
    now: u64,
) -> EntryDecision {
    match eval.action {
        TradeAction::BuyUp { price, shares } => if cfg.index_type == IndexType::MACD
            && !eval.up_macd_increasing {
            EntryDecision::SkippedAcceleration
        } else if remaining_gate_blocks_spec(cfg, now, pp.timestamp) {
            EntryDecision::SkippedRemainingTime {
                remaining_minutes: remaining_minutes_spec(now, pp.timestamp) as u64,
            }
        } else {
            EntryDecision::OpenedSimulated {
                cycle: ActiveCycle {
                    side: PositionSide::LongUp,
                    entry_price: price,
                    size: shares,
                    tp_price: (price + cfg.profit_threshold) as i64,
                    sl_price: (price - cfg.sl_threshold) as i64,
                },
                place_tp_limit: price + cfg.profit_threshold <= SCALE,
            }
        },
        TradeAction::BuyDown { price, shares } => if cfg.index_type == IndexType::MACD
            && !eval.down_macd_increasing {
            EntryDecision::SkippedAcceleration
        } else if remaining_gate_blocks_spec(cfg, now, pp.timestamp) {
            EntryDecision::SkippedRemainingTime {
                remaining_minutes: remaining_minutes_spec(now, pp.timestamp) as u64,
            }
        } else {
            EntryDecision::OpenedSimulated {
                cycle: ActiveCycle {
                    side: PositionSide::LongDown,
                    entry_price: price,
                    size: shares,
                    tp_price: (price + cfg.profit_threshold) as i64,
                    sl_price: (price - cfg.sl_threshold) as i64,
                },
                place_tp_limit: price + cfg.profit_threshold <= SCALE,
            }
        },
        _ => EntryDecision::NotApplicable,
    }
}

/// Law: a well-formed engine never holds a pending entry and an active
/// cycle at the same time.  Every state transition of the engine ensures
/// well-formedness again, so the exclusion holds at every tick.
pub proof fn lemma_position_exclusive(e: &CycleEngine)
    requires
        e.wf(),
    ensures
        e.position_exclusive(),
{
}

/// The trading-cycle engine: indicator state, the single allowed position,
/// per-period statistics, and the decision logic of one tick.
pub struct CycleEngine {
    pub config: StrategyConfig,
    pub strategy: MomentumHedgeStrategy,
    pub price_history: Vec<PricePoint>,
    pub rsi_calculator: RollingRSI,
    pub macd_calculator: RollingMACD,
    pub momentum_calculator: RollingMomentum,
    pub current_cycle: Option<ActiveCycle>,
    pub pending_entry: Option<PendingEntry>,
    /// Cumulative profit and loss of the current period, micro-dollars.
    pub total_pnl: i64,
    pub wins: u64,
    pub losses: u64,
    /// Sum of `entry * size` over the period's opened positions.
    pub total_fund_used: i64,
    pub previous_period_timestamp: Option<u64>,
    /// Last price point seen per asset, indexed by `Asset::index`.
    pub last_price_points: Vec<Option<PricePoint>>,
    pub previous_macd_up: Option<i64>,
    pub previous_macd_down: Option<i64>,
    pub previous_signal_up: Option<i64>,
    pub previous_signal_down: Option<i64>,
    /// The up-side prices fed into the rolling calculators since the last
    /// reset.
    pub fed: Ghost<Seq<int>>,
}

impl CycleEngine {
    /// At most one of a pending entry and an active cycle exists.
    pub open spec fn position_exclusive(&self) -> bool {
        !(self.current_cycle is Some && self.pending_entry is Some)
    }

    /// Headroom on the period accumulators, so that a whole snapshot of
    /// trades cannot overflow them.
    pub open spec fn stats_headroom(&self) -> bool {
        &&& -1000000000000000000 < self.total_pnl < 1000000000000000000
        &&& 0 <= self.total_fund_used < 1000000000000000000
        &&& self.wins < 1000000000000000000
        &&& self.losses < 1000000000000000000
    }

    /// The weaker bound under which a single further trade still cannot
    /// overflow the accumulators.
    pub open spec fn accum_safe(&self) -> bool {
        &&& -2000000000000000000 < self.total_pnl < 2000000000000000000
        &&& 0 <= self.total_fund_used < 2000000000000000000
        &&& self.wins < 2000000000000000000
        &&& self.losses < 2000000000000000000
    }

    pub open spec fn wf(&self) -> bool {
        &&& self.config.wf()
        &&& self.strategy.spec_config() == self.config
        &&& self.rsi_calculator.wf()
        &&& self.macd_calculator.wf()
        &&& self.momentum_calculator.wf()
        &&& self.rsi_calculator.spec_period() == self.config.lookback as nat
        &&& self.macd_calculator.spec_fast() == self.config.macd_fast_period as nat
        &&& self.macd_calculator.spec_slow() == self.config.macd_slow_period as nat
        &&& (self.config.index_type == IndexType::MACDSignal ==> self.macd_calculator.spec_signal()
            == Some(self.config.macd_signal_period as nat))
        &&& (self.config.index_type != IndexType::MACDSignal
            ==> self.macd_calculator.spec_signal() is None)
        &&& self.momentum_calculator.spec_period() == self.config.lookback as nat
        &&& self.rsi_calculator@ == self.fed@
        &&& self.macd_calculator@ == self.fed@
        &&& self.momentum_calculator@ == self.fed@
        &&& self.price_history@.len() <= HISTORY_CAP
        &&& (forall|i: int|
            0 <= i < self.price_history@.len() ==> (#[trigger] self.price_history@[i]).wf())
        &&& self.last_price_points@.len() == 4
        &&& (forall|i: int|
            0 <= i < 4 ==> ((#[trigger] self.last_price_points@[i]) matches Some(q) ==> q.wf()))
        &&& (self.current_cycle matches Some(c) ==> c.wf())
        &&& (self.pending_entry matches Some(p) ==> p.wf())
        &&& self.position_exclusive()
    }

    /// A fresh engine for one period.
    pub fn new(config: &StrategyConfig) -> (r: CycleEngine)
        requires
            config.wf(),
        ensures
            r.wf(),
            r.config == *config,
            r.current_cycle is None,
            r.pending_entry is None,
            r.total_pnl == 0,
            r.wins == 0,
            r.losses == 0,
            r.total_fund_used == 0,
            r.previous_period_timestamp is None,
            r.fed@ == Seq::<int>::empty(),
            r.price_history@ == Seq::<PricePoint>::empty(),
    {
        let macd_calculator = if matches!(config.index_type, IndexType::MACDSignal) {
            RollingMACD::new_with_signal(
                config.macd_fast_period,
                config.macd_slow_period,
                config.macd_signal_period,
            )
        } else {
            RollingMACD::new(config.macd_fast_period, config.macd_slow_period)
        };
        let mut last_price_points: Vec<Option<PricePoint>> = Vec::new();
        last_price_points.push(None);
        last_price_points.push(None);
        last_price_points.push(None);
        last_price_points.push(None);
        CycleEngine {
            config: config.clone(),
            strategy: MomentumHedgeStrategy::new(config.clone()),
            price_history: Vec::new(),
            rsi_calculator: RollingRSI::new(config.lookback),
            macd_calculator,
            momentum_calculator: RollingMomentum::new(config.lookback),
            current_cycle: None,
            pending_entry: None,
            total_pnl: 0,
            wins: 0,
            losses: 0,
            total_fund_used: 0,
            previous_period_timestamp: None,
            last_price_points,
            previous_macd_up: None,
            previous_macd_down: None,
            previous_signal_up: None,
            previous_signal_down: None,
            fed: Ghost(Seq::empty()),
        }
    }

    /// Whether this period timestamp differs from the one last seen.
    pub fn is_new_period(&self, period_timestamp: u64) -> (r: bool)
        ensures
            r == (self.previous_period_timestamp matches Some(p) && p != period_timestamp),
    {
        match self.previous_period_timestamp {
            Some(p) => p != period_timestamp,
            None => false,
        }
    }

    /// Record the current period timestamp.
    pub fn note_period(&mut self, period_timestamp: u64)
        requires
            old(self).wf(),
        ensures
            final(self).wf(),
            final(self).previous_period_timestamp == Some(period_timestamp),
            final(self).config == old(self).config,
            final(self).current_cycle == old(self).current_cycle,
            final(self).pending_entry == old(self).pending_entry,
            final(self).total_pnl == old(self).total_pnl,
            final(self).wins == old(self).wins,
            final(self).losses == old(self).losses,
            final(self).total_fund_used == old(self).total_fund_used,
            final(self).fed == old(self).fed,
            final(self).price_history == old(self).price_history,
            final(self).rsi_calculator == old(self).rsi_calculator,
            final(self).macd_calculator == old(self).macd_calculator,
            final(self).momentum_calculator == old(self).momentum_calculator,
            final(self).last_price_points == old(self).last_price_points,
            final(self).previous_macd_up == old(self).previous_macd_up,
            final(self).previous_macd_down == old(self).previous_macd_down,
            final(self).previous_signal_up == old(self).previous_signal_up,
            final(self).previous_signal_down == old(self).previous_signal_down,
    {
        self.previous_period_timestamp = Some(period_timestamp);
    }

    /// Remember the last price point of an asset for settlement.
    pub fn note_last_price(&mut self, asset: Asset, pp: &PricePoint)
        requires
            old(self).wf(),
            pp.wf(),
        ensures
            final(self).wf(),
            final(self).last_price_points@ == old(self).last_price_points@.update(
                asset.spec_index(),
                Some(*pp),
            ),
            final(self).config == old(self).config,
            final(self).current_cycle == old(self).current_cycle,
            final(self).pending_entry == old(self).pending_entry,
            final(self).total_pnl == old(self).total_pnl,
            final(self).wins == old(self).wins,
            final(self).losses == old(self).losses,
            final(self).total_fund_used == old(self).total_fund_used,
            final(self).fed == old(self).fed,
            final(self).price_history == old(self).price_history,
            final(self).rsi_calculator == old(self).rsi_calculator,
            final(self).macd_calculator == old(self).macd_calculator,
            final(self).momentum_calculator == old(self).momentum_calculator,
            final(self).previous_period_timestamp == old(self).previous_period_timestamp,
            final(self).previous_macd_up == old(self).previous_macd_up,
            final(self).previous_macd_down == old(self).previous_macd_down,
            final(self).previous_signal_up == old(self).previous_signal_up,
            final(self).previous_signal_down == old(self).previous_signal_down,
    {
        let i = asset.index();
        self.last_price_points.set(i, Some(pp.clone()));
    }

    /// Evaluate take-profit and stop-loss for the open cycle against one
    /// price point: take-profit first, then the stop-loss with its optional
    /// MACD filter.  Closes the cycle and books the profit or loss.
    pub fn check_exits(&mut self, pp: &PricePoint, up_index: Option<i64>, down_index: Option<i64>)
        -> (r: ExitEvent)
        requires
            old(self).wf(),
            old(self).accum_safe(),
            old(self).current_cycle is Some,
            pp.wf(),
        ensures
            final(self).wf(),
            final(self).total_pnl - old(self).total_pnl <= 2 * MAX_POSITION_SIZE,
            old(self).total_pnl - final(self).total_pnl <= 2 * MAX_POSITION_SIZE,
            final(self).wins <= old(self).wins + 1,
            final(self).losses <= old(self).losses + 1,
            ({
                let c = old(self).current_cycle->0;
                let held = held_macd_spec(c, up_index, down_index);
                if tp_hit_spec(c, *pp) {
                    &&& r == (ExitEvent::TakeProfit {
                        pnl: pnl_spec(c.tp_price - c.entry_price, c.size as int) as i64,
                    })
                    &&& final(self).current_cycle is None
                    &&& final(self).total_pnl == old(self).total_pnl + pnl_spec(
                        c.tp_price - c.entry_price,
                        c.size as int,
                    )
                    &&& final(self).wins == old(self).wins + 1
                    &&& final(self).losses == old(self).losses
                    &&& final(self).total_fund_used == old(self).total_fund_used
                } else if sl_price_hit_spec(c, *pp) && !sl_suppressed_spec(old(self).config, held) {
                    &&& r == (ExitEvent::StopLoss {
                        pnl: pnl_spec(c.sl_price - c.entry_price, c.size as int) as i64,
                        opposite_ask: opposite_side_ask_spec(c, *pp),
                    })
                    &&& final(self).current_cycle is None
                    &&& final(self).total_pnl == old(self).total_pnl + pnl_spec(
                        c.sl_price - c.entry_price,
                        c.size as int,
                    )
                    &&& final(self).losses == old(self).losses + 1
                    &&& final(self).wins == old(self).wins
                    &&& final(self).total_fund_used == old(self).total_fund_used
                } else {
                    &&& (if sl_price_hit_spec(c, *pp) {
                        r == (ExitEvent::StopLossSkipped { macd: held->0 })
                    } else {
                        r == ExitEvent::NoExit
                    })
                    &&& final(self).current_cycle == old(self).current_cycle
                    &&& final(self).total_pnl == old(self).total_pnl
                    &&& final(self).wins == old(self).wins
                    &&& final(self).losses == old(self).losses
                    &&& final(self).total_fund_used == old(self).total_fund_used
                }
            }),
            final(self).pending_entry == old(self).pending_entry,
            final(self).config == old(self).config,
            final(self).fed == old(self).fed,
            final(self).price_history == old(self).price_history,
            final(self).rsi_calculator == old(self).rsi_calculator,
            final(self).macd_calculator == old(self).macd_calculator,
            final(self).momentum_calculator == old(self).momentum_calculator,
            final(self).last_price_points == old(self).last_price_points,
            final(self).previous_period_timestamp == old(self).previous_period_timestamp,
            final(self).previous_macd_up == old(self).previous_macd_up,
            final(self).previous_macd_down == old(self).previous_macd_down,
            final(self).previous_signal_up == old(self).previous_signal_up,
            final(self).previous_signal_down == old(self).previous_signal_down,
    {
        let cycle = match &self.current_cycle {
            Some(c) => *c,
            None => {
                proof {
                    assert(false);
                }
                return ExitEvent::NoExit;
            },
        };

        let same_ask = match cycle.side {
            PositionSide::LongUp => pp.up_price,
            PositionSide::LongDown => pp.down_price,
            PositionSide::Flat => 0,
        };
        let opposite_ask = match cycle.side {
            PositionSide::LongUp => pp.down_price,
            PositionSide::LongDown => pp.up_price,
            PositionSide::Flat => 0,
        };

        if same_ask > 0 && cycle.tp_price <= SCALE && same_ask >= cycle.tp_price {
            let pnl = pnl_amount(cycle.tp_price - cycle.entry_price, cycle.size);
            self.total_pnl = self.total_pnl + pnl;
            self.wins = self.wins + 1;
            self.current_cycle = None;
            return ExitEvent::TakeProfit { pnl };
        }

        if opposite_ask > 0 && opposite_ask >= SCALE - cycle.sl_price {
            let held_macd = match cycle.side {
                PositionSide::LongUp => up_index,
                PositionSide::LongDown => down_index,
                PositionSide::Flat => None,
            };
            let suppressed = matches!(self.config.index_type, IndexType::MACD)
                && self.config.use_macd_sl_filter && match held_macd {
                Some(m) => m > 0,
                None => false,
            };
            if suppressed {
                let m = match held_macd {
                    Some(m) => m,
                    None => 0,
                };
                return ExitEvent::StopLossSkipped { macd: m };
            }
            let pnl = pnl_amount(cycle.sl_price - cycle.entry_price, cycle.size);
            self.total_pnl = self.total_pnl + pnl;
            self.losses = self.losses + 1;
            self.current_cycle = None;
            return ExitEvent::StopLoss { pnl, opposite_ask };
        }

        ExitEvent::NoExit
    }

    /// Settle the open cycle at period end from the last observed prices: a
    /// held side whose terminal ask reached 0.99 won and pays `1 - entry`
    /// per share, any other outcome loses the entry.  Always closes the
    /// cycle.
    pub fn settle_open_cycle(&mut self, last_pp: &PricePoint) -> (r: (i64, bool))
        requires
            old(self).wf(),
            old(self).accum_safe(),
            old(self).current_cycle is Some,
            last_pp.wf(),
        ensures
            final(self).wf(),
            final(self).current_cycle is None,
            final(self).total_pnl - old(self).total_pnl <= 2 * MAX_POSITION_SIZE,
            old(self).total_pnl - final(self).total_pnl <= 2 * MAX_POSITION_SIZE,
            final(self).wins <= old(self).wins + 1,
            final(self).losses <= old(self).losses + 1,
            ({
                let c = old(self).current_cycle->0;
                let won = settle_won_spec(c, Some(*last_pp));
                &&& r.1 == won
                &&& r.0 == settle_pnl_spec(c, Some(*last_pp))
                &&& final(self).total_pnl == old(self).total_pnl + r.0
                &&& (won ==> final(self).wins == old(self).wins + 1 && final(self).losses == old(self).losses)
                &&& (!won ==> final(self).losses == old(self).losses + 1 && final(self).wins == old(self).wins)
            }),
            final(self).total_fund_used == old(self).total_fund_used,
            final(self).pending_entry == old(self).pending_entry,
            final(self).config == old(self).config,
            final(self).fed == old(self).fed,
            final(self).price_history == old(self).price_history,
            final(self).last_price_points == old(self).last_price_points,
            final(self).previous_period_timestamp == old(self).previous_period_timestamp,
    {
        let cycle = match &self.current_cycle {
            Some(c) => *c,
            None => {
                proof {
                    assert(false);
                }
                return (0, false);
            },
        };
        let won = match cycle.side {
            PositionSide::LongUp => last_pp.up_price >= TERMINAL_WIN_PRICE,
            PositionSide::LongDown => last_pp.down_price >= TERMINAL_WIN_PRICE,
            PositionSide::Flat => false,
        };
        let pnl = if won {
            pnl_amount(SCALE - cycle.entry_price, cycle.size)
        } else {
            pnl_amount(0 - cycle.entry_price, cycle.size)
        };
        self.total_pnl = self.total_pnl + pnl;
        if won {
            self.wins = self.wins + 1;
        } else {
            self.losses = self.losses + 1;
        }
        self.current_cycle = None;
        (pnl, won)
    }

    /// Ingest one price point: extend the retained window, feed the rolling
    /// calculators with the Up price, compute both sides' index readings
    /// (the Down side rebuilt from the window), detect crossovers and
    /// acceleration, decide the entry action, and remember this tick's MACD
    /// and signal readings for the next one.
    #[verifier::rlimit(100)]
    pub fn evaluate_tick(&mut self, pp: &PricePoint) -> (r: TickEval)
        requires
            old(self).wf(),
            pp.wf(),
        ensures
            final(self).wf(),
            final(self).fed@ == old(self).fed@.push(pp.up_price as int),
            old(self).price_history@.len() < HISTORY_CAP ==> final(self).price_history@ == old(self).price_history@.push(*pp),
            old(self).price_history@.len() == HISTORY_CAP ==> final(self).price_history@ == old(self).price_history@.push(*pp).remove(0),
            ({
                let cfg = old(self).config;
                let ups = final(self).price_history@.map_values(|q: PricePoint| q.up_price as int);
                let downs = final(self).price_history@.map_values(
                    |q: PricePoint| q.down_price as int,
                );
                let ui = up_index_spec(
                    cfg,
                    final(self).fed@,
                    final(self).fed@,
                    final(self).fed@,
                    ups,
                );
                let di = down_index_spec(cfg, downs);
                let slow = cfg.macd_slow_period as nat;
                let fast = cfg.macd_fast_period as nat;
                let sig = cfg.macd_signal_period as nat;
                &&& (r.up_index is Some <==> ui is Some)
                &&& (r.up_index matches Some(v) ==> Some(v as int) == ui)
                &&& (r.down_index is Some <==> di is Some)
                &&& (r.down_index matches Some(v) ==> Some(v as int) == di)
                &&& (cfg.index_type == IndexType::MACDSignal ==> {
                    &&& (r.up_signal is Some <==> crate::indicators::signal_ready(
                        final(self).fed@,
                        slow,
                        sig,
                    ))
                    &&& (r.up_signal matches Some(v) ==> v as int == crate::indicators::signal_of(
                        final(self).fed@,
                        fast,
                        slow,
                        sig,
                    ))
                    &&& (r.down_signal is Some <==> downs.len() >= cfg.lookback
                        && crate::indicators::signal_ready(downs, slow, sig))
                    &&& (r.down_signal matches Some(v) ==> v as int
                        == crate::indicators::signal_of(downs, fast, slow, sig))
                })
                &&& (cfg.index_type != IndexType::MACDSignal ==> r.up_signal is None
                    && r.down_signal is None)
                &&& (cfg.index_type == IndexType::MACD ==> r.up_macd_increasing
                    == accelerating_spec(r.up_index, old(self).previous_macd_up)
                    && r.down_macd_increasing == accelerating_spec(
                    r.down_index,
                    old(self).previous_macd_down,
                ))
                &&& (cfg.index_type != IndexType::MACD ==> r.up_macd_increasing
                    && r.down_macd_increasing)
                &&& (cfg.index_type == IndexType::MACDSignal ==> r.action == (
                if crossover_spec(
                    r.up_index,
                    r.up_signal,
                    old(self).previous_macd_up,
                    old(self).previous_signal_up,
                ) {
                    TradeAction::BuyUp {
                        price: pp.up_price,
                        shares: cfg.position_size_shares,
                    }
                } else if crossover_spec(
                    r.down_index,
                    r.down_signal,
                    old(self).previous_macd_down,
                    old(self).previous_signal_down,
                ) {
                    TradeAction::BuyDown {
                        price: pp.down_price,
                        shares: cfg.position_size_shares,
                    }
                } else {
                    TradeAction::NoAction
                }))
                &&& (cfg.index_type != IndexType::MACDSignal ==> (if final(self).price_history@.len() < cfg.lookback {
                    r.action == TradeAction::NoAction
                } else {
                    r.action == decide_spec(cfg, ui, di, *pp)
                }))
                &&& (cfg.index_type == IndexType::MACD ==> final(self).previous_macd_up
                    == r.up_index && final(self).previous_macd_down == r.down_index && final(self).previous_signal_up == old(self).previous_signal_up && final(self).previous_signal_down == old(self).previous_signal_down)
                &&& (cfg.index_type == IndexType::MACDSignal ==> final(self).previous_macd_up
                    == r.up_index && final(self).previous_macd_down == r.down_index && final(self).previous_signal_up == r.up_signal && final(self).previous_signal_down
                    == r.down_signal)
                &&& ((cfg.index_type == IndexType::RSI || cfg.index_type == IndexType::Momentum)
                    ==> final(self).previous_macd_up == old(self).previous_macd_up && final(self).previous_macd_down == old(self).previous_macd_down && final(self).previous_signal_up == old(self).previous_signal_up && final(self).previous_signal_down == old(self).previous_signal_down)
            }),
            final(self).current_cycle == old(self).current_cycle,
            final(self).pending_entry == old(self).pending_entry,
            final(self).config == old(self).config,
            final(self).total_pnl == old(self).total_pnl,
            final(self).wins == old(self).wins,
            final(self).losses == old(self).losses,
            final(self).total_fund_used == old(self).total_fund_used,
            final(self).previous_period_timestamp == old(self).previous_period_timestamp,
            final(self).last_price_points == old(self).last_price_points,
    {
        let ghost old_hist = self.price_history@;
        self.price_history.push(pp.clone());
        if self.price_history.len() > HISTORY_CAP {
            let _ = self.price_history.remove(0);
        }
        proof {
            assert forall|i: int|
                0 <= i < self.price_history@.len() implies (#[trigger] self.price_history@[i]).wf()
                by {
                if old_hist.len() < HISTORY_CAP {
                    assert(self.price_history@ == old_hist.push(*pp));
                    if i < old_hist.len() {
                        assert(old_hist[i].wf());
                    }
                } else {
                    assert(self.price_history@ == old_hist.push(*pp).remove(0));
                    if i < self.price_history@.len() - 1 {
                        assert(self.price_history@[i] == old_hist[i + 1]);
                        assert(old_hist[i + 1].wf());
                    } else {
                        assert(self.price_history@[i] == *pp);
                    }
                }
            }
        }

        self.rsi_calculator.add_price(pp.up_price);
        self.macd_calculator.add_price(pp.up_price);
        self.momentum_calculator.add_price(pp.up_price);
        self.fed = Ghost(self.fed@.push(pp.up_price as int));

        let up_index = self.strategy.calculate_index(
            &self.price_history,
            &self.rsi_calculator,
            &self.macd_calculator,
            &self.momentum_calculator,
        );

        let ghost downs = self.price_history@.map_values(|q: PricePoint| q.down_price as int);
        let mut down_prices: Vec<i64> = Vec::new();
        let mut i: usize = 0;
        while i < self.price_history.len()
            invariant
                0 <= i <= self.price_history@.len(),
                downs == self.price_history@.map_values(|q: PricePoint| q.down_price as int),
                downs.len() == self.price_history@.len(),
                forall|j: int|
                    0 <= j < self.price_history@.len() ==> (#[trigger] self.price_history@[j]).wf(),
                down_prices@.map_values(|e: i64| e as int) == downs.take(i as int),
            decreases self.price_history@.len() - i,
        {
            proof {
                assert(downs.take(i + 1) =~= downs.take(i as int).push(downs[i as int]));
                crate::indicators::lemma_map_push(
                    down_prices@,
                    self.price_history@[i as int].down_price,
                );
            }
            down_prices.push(self.price_history[i].down_price);
            i = i + 1;
        }
        proof {
            assert(downs.take(downs.len() as int) =~= downs);
            assert(down_prices@.map_values(|e: i64| e as int) == downs);
            assert forall|j: int|
                0 <= j < down_prices@.len() implies 0 <= #[trigger] down_prices@[j] <= SCALE by {
                assert(down_prices@[j] as int == downs[j]);
                assert(downs[j] == self.price_history@[j].down_price as int);
                assert(self.price_history@[j].wf());
            }
        }

        let (down_index, down_signal): (Option<i64>, Option<i64>) = if self.price_history.len()
            >= self.config.lookback {
            match self.config.index_type {
                IndexType::RSI => (calculate_rsi(&down_prices, self.config.lookback), None),
                IndexType::MACD => (
                    macd_from_prices(
                        &down_prices,
                        self.config.macd_fast_period,
                        self.config.macd_slow_period,
                    ),
                    None,
                ),
                IndexType::MACDSignal => macd_signal_from_prices(
                    &down_prices,
                    self.config.macd_fast_period,
                    self.config.macd_slow_period,
                    self.config.macd_signal_period,
                ),
                IndexType::Momentum => (
                    momentum_from_prices(&down_prices, self.config.lookback),
                    None,
                ),
            }
        } else {
            (None, None)
        };

        let up_signal: Option<i64> = if matches!(self.config.index_type, IndexType::MACDSignal) {
            self.macd_calculator.get_signal_line()
        } else {
            None
        };

        let (up_incr, down_incr): (bool, bool) = if matches!(
            self.config.index_type,
            IndexType::MACD,
        ) {
            (
                macd_accelerating(up_index, self.previous_macd_up),
                macd_accelerating(down_index, self.previous_macd_down),
            )
        } else {
            (true, true)
        };

        let action: TradeAction = if matches!(self.config.index_type, IndexType::MACDSignal) {
            let up_cross = macd_crossover(
                up_index,
                up_signal,
                self.previous_macd_up,
                self.previous_signal_up,
            );
            let down_cross = macd_crossover(
                down_index,
                down_signal,
                self.previous_macd_down,
                self.previous_signal_down,
            );
            if up_cross {
                TradeAction::BuyUp {
                    price: pp.up_price,
                    shares: self.config.position_size_shares,
                }
            } else if down_cross {
                TradeAction::BuyDown {
                    price: pp.down_price,
                    shares: self.config.position_size_shares,
                }
            } else {
                TradeAction::NoAction
            }
        } else {
            proof {
                if self.price_history@.len() >= self.config.lookback {
                    assert(self.price_history@[self.price_history@.len() - 1] == *pp);
                }
            }
            self.strategy.decide(
                &self.price_history,
                &self.rsi_calculator,
                &self.macd_calculator,
                &self.momentum_calculator,
            )
        };

        if matches!(self.config.index_type, IndexType::MACD) {
            self.previous_macd_up = up_index;
            self.previous_macd_down = down_index;
        } else if matches!(self.config.index_type, IndexType::MACDSignal) {
            self.previous_macd_up = up_index;
            self.previous_macd_down = down_index;
            self.previous_signal_up = up_signal;
            self.previous_signal_down = down_signal;
        }

        TickEval {
            action,
            up_index,
            down_index,
            up_signal,
            down_signal,
            up_macd_increasing: up_incr,
            down_macd_increasing: down_incr,
        }
    }

    /// Gate and apply an entry signal in simulation: the MACD acceleration
    /// gate and the remaining-time gate may skip it; otherwise the cycle
    /// opens immediately with `tp = entry + profit_threshold` and
    /// `sl = entry - sl_threshold`, and the committed fund is booked.
    pub fn handle_entry_signal_sim(&mut self, eval: &TickEval, pp: &PricePoint, now: u64) -> (r:
        EntryDecision)
        requires
            old(self).wf(),
            old(self).accum_safe(),
            old(self).current_cycle is None,
            old(self).pending_entry is None,
            pp.wf(),
            (eval.action matches TradeAction::BuyUp { price, shares } ==> 0 <= price <= SCALE && 0
                < shares <= MAX_POSITION_SIZE),
            (eval.action matches TradeAction::BuyDown { price, shares } ==> 0 <= price <= SCALE
                && 0 < shares <= MAX_POSITION_SIZE),
        ensures
            final(self).wf(),
            final(self).pending_entry is None,
            old(self).total_fund_used <= final(self).total_fund_used,
            final(self).total_fund_used - old(self).total_fund_used <= 2 * MAX_POSITION_SIZE,
            r == sim_entry_decision_spec(old(self).config, *eval, *pp, now),
            ({
                let cfg = old(self).config;
                match eval.action {
                    TradeAction::BuyUp { price, shares } => {
                        if cfg.index_type == IndexType::MACD && !eval.up_macd_increasing {
                            r == EntryDecision::SkippedAcceleration && final(self).current_cycle
                                is None && final(self).total_fund_used == old(self).total_fund_used
                        } else if remaining_gate_blocks_spec(cfg, now, pp.timestamp) {
                            r == (EntryDecision::SkippedRemainingTime {
                                remaining_minutes: remaining_minutes_spec(
                                    now,
                                    pp.timestamp,
                                ) as u64,
                            }) && final(self).current_cycle is None && final(self).total_fund_used
                                == old(self).total_fund_used
                        } else {
                            let c = ActiveCycle {
                                side: PositionSide::LongUp,
                                entry_price: price,
                                size: shares,
                                tp_price: (price + cfg.profit_threshold) as i64,
                                sl_price: (price - cfg.sl_threshold) as i64,
                            };
                            r == (EntryDecision::OpenedSimulated {
                                cycle: c,
                                place_tp_limit: price + cfg.profit_threshold <= SCALE,
                            }) && final(self).current_cycle == Some(c) && final(self).total_fund_used == old(self).total_fund_used + pnl_spec(
                                price as int,
                                shares as int,
                            )
                        }
                    },
                    TradeAction::BuyDown { price, shares } => {
                        if cfg.index_type == IndexType::MACD && !eval.down_macd_increasing {
                            r == EntryDecision::SkippedAcceleration && final(self).current_cycle
                                is None && final(self).total_fund_used == old(self).total_fund_used
                        } else if remaining_gate_blocks_spec(cfg, now, pp.timestamp) {
                            r == (EntryDecision::SkippedRemainingTime {
                                remaining_minutes: remaining_minutes_spec(
                                    now,
                                    pp.timestamp,
                                ) as u64,
                            }) && final(self).current_cycle is None && final(self).total_fund_used
                                == old(self).total_fund_used
                        } else {
                            let c = ActiveCycle {
                                side: PositionSide::LongDown,
                                entry_price: price,
                                size: shares,
                                tp_price: (price + cfg.profit_threshold) as i64,
                                sl_price: (price - cfg.sl_threshold) as i64,
                            };
                            r == (EntryDecision::OpenedSimulated {
                                cycle: c,
                                place_tp_limit: price + cfg.profit_threshold <= SCALE,
                            }) && final(self).current_cycle == Some(c) && final(self).total_fund_used == old(self).total_fund_used + pnl_spec(
                                price as int,
                                shares as int,
                            )
                        }
                    },
                    _ => r == EntryDecision::NotApplicable && final(self).current_cycle is None
                        && final(self).total_fund_used == old(self).total_fund_used,
                }
            }),
            final(self).config == old(self).config,
            final(self).total_pnl == old(self).total_pnl,
            final(self).wins == old(self).wins,
            final(self).losses == old(self).losses,
            final(self).fed == old(self).fed,
            final(self).price_history == old(self).price_history,
            final(self).rsi_calculator == old(self).rsi_calculator,
            final(self).macd_calculator == old(self).macd_calculator,
            final(self).momentum_calculator == old(self).momentum_calculator,
            final(self).last_price_points == old(self).last_price_points,
            final(self).previous_period_timestamp == old(self).previous_period_timestamp,
            final(self).previous_macd_up == old(self).previous_macd_up,
            final(self).previous_macd_down == old(self).previous_macd_down,
            final(self).previous_signal_up == old(self).previous_signal_up,
            final(self).previous_signal_down == old(self).previous_signal_down,
    {
        let (buy_up, price, shares): (bool, i64, i64) = match eval.action {
            TradeAction::BuyUp { price, shares } => (true, price, shares),
            TradeAction::BuyDown { price, shares } => (false, price, shares),
            _ => {
                return EntryDecision::NotApplicable;
            },
        };
        let incr = if buy_up {
            eval.up_macd_increasing
        } else {
            eval.down_macd_increasing
        };
        if matches!(self.config.index_type, IndexType::MACD) && !incr {
            return EntryDecision::SkippedAcceleration;
        }
        let elapsed: u64 = if now >= pp.timestamp {
            now - pp.timestamp
        } else {
            0
        };
        let remaining_secs: u64 = if PERIOD_SECONDS >= elapsed {
            PERIOD_SECONDS - elapsed
        } else {
            0
        };
        let remaining_minutes: u64 = remaining_secs / 60;
        match self.config.trading_start_when_remaining_minutes {
            Some(req) => {
                if remaining_minutes > req {
                    return EntryDecision::SkippedRemainingTime { remaining_minutes };
                }
            },
            None => {},
        }
        let tp_price = price + self.config.profit_threshold;
        let sl_price = price - self.config.sl_threshold;
        let cycle = ActiveCycle {
            side: if buy_up {
                PositionSide::LongUp
            } else {
                PositionSide::LongDown
            },
            entry_price: price,
            size: shares,
            tp_price,
            sl_price,
        };
        self.current_cycle = Some(cycle);
        let fund_add = pnl_amount(price, shares);
        self.total_fund_used = self.total_fund_used + fund_add;
        EntryDecision::OpenedSimulated { cycle, place_tp_limit: tp_price <= SCALE }
    }

    /// Gate an entry signal in live mode: acceleration and remaining-time
    /// gates as in simulation, plus the late-entry suppression (no entry
    /// above 0.93 while more than 13 minutes of the period remain).  The
    /// engine does not change; the caller places the order and then records
    /// the pending entry.
    pub fn plan_entry_live(&self, eval: &TickEval, pp: &PricePoint, now: u64) -> (r: EntryDecision)
        requires
            self.wf(),
        ensures
            ({
                let cfg = self.config;
                match eval.action {
                    TradeAction::BuyUp { price, shares } => r == (if cfg.index_type
                        == IndexType::MACD && !eval.up_macd_increasing {
                        EntryDecision::SkippedAcceleration
                    } else if remaining_gate_blocks_spec(cfg, now, pp.timestamp) {
                        EntryDecision::SkippedRemainingTime {
                            remaining_minutes: remaining_minutes_spec(now, pp.timestamp) as u64,
                        }
                    } else if late_entry_blocks_spec(price, now, pp.timestamp) {
                        EntryDecision::SkippedLateHighPrice {
                            elapsed_seconds: elapsed_secs_spec(now, pp.timestamp) as u64,
                        }
                    } else {
                        EntryDecision::PlaceEntryOrder { buy_up: true, price, size: shares }
                    }),
                    TradeAction::BuyDown { price, shares } => r == (if cfg.index_type
                        == IndexType::MACD && !eval.down_macd_increasing {
                        EntryDecision::SkippedAcceleration
                    } else if remaining_gate_blocks_spec(cfg, now, pp.timestamp) {
                        EntryDecision::SkippedRemainingTime {
                            remaining_minutes: remaining_minutes_spec(now, pp.timestamp) as u64,
                        }
                    } else if late_entry_blocks_spec(price, now, pp.timestamp) {
                        EntryDecision::SkippedLateHighPrice {
                            elapsed_seconds: elapsed_secs_spec(now, pp.timestamp) as u64,
                        }
                    } else {
                        EntryDecision::PlaceEntryOrder { buy_up: false, price, size: shares }
                    }),
                    _ => r == EntryDecision::NotApplicable,
                }
            }),
    {
        let (buy_up, price, shares): (bool, i64, i64) = match eval.action {
            TradeAction::BuyUp { price, shares } => (true, price, shares),
            TradeAction::BuyDown { price, shares } => (false, price, shares),
            _ => {
                return EntryDecision::NotApplicable;
            },
        };
        let incr = if buy_up {
            eval.up_macd_increasing
        } else {
            eval.down_macd_increasing
        };
        if matches!(self.config.index_type, IndexType::MACD) && !incr {
            return EntryDecision::SkippedAcceleration;
        }
        let elapsed: u64 = if now >= pp.timestamp {
            now - pp.timestamp
        } else {
            0
        };
        let remaining_secs: u64 = if PERIOD_SECONDS >= elapsed {
            PERIOD_SECONDS - elapsed
        } else {
            0
        };
        let remaining_minutes: u64 = remaining_secs / 60;
        match self.config.trading_start_when_remaining_minutes {
            Some(req) => {
                if remaining_minutes > req {
                    return EntryDecision::SkippedRemainingTime { remaining_minutes };
                }
            },
            None => {},
        }
        if price > LATE_ENTRY_PRICE && elapsed < LATE_ENTRY_WINDOW_SECS {
            return EntryDecision::SkippedLateHighPrice { elapsed_seconds: elapsed };
        }
        EntryDecision::PlaceEntryOrder { buy_up, price, size: shares }
    }

    /// Record a placed entry order as the pending entry awaiting fill
    /// confirmation.  Never coexists with an open cycle.
    pub fn register_pending(&mut self, pending: PendingEntry)
        requires
            old(self).wf(),
            old(self).current_cycle is None,
            old(self).pending_entry is None,
            pending.wf(),
        ensures
            final(self).wf(),
            final(self).pending_entry == Some(pending),
            final(self).current_cycle is None,
            final(self).config == old(self).config,
            final(self).total_pnl == old(self).total_pnl,
            final(self).wins == old(self).wins,
            final(self).losses == old(self).losses,
            final(self).total_fund_used == old(self).total_fund_used,
            final(self).fed == old(self).fed,
            final(self).price_history == old(self).price_history,
            final(self).last_price_points == old(self).last_price_points,
            final(self).previous_period_timestamp == old(self).previous_period_timestamp,
    {
        self.pending_entry = Some(pending);
    }

    /// Per-asset period-end handling: discard a pending entry of this asset
    /// (the caller cancels its order), and settle the open cycle against the
    /// asset's last observed prices, closing it in every case.
    pub fn handle_market_end(&mut self, asset: Asset) -> (r: (Option<Option<String>>, Option<(
        i64,
        bool,
    )>))
        requires
            old(self).wf(),
            old(self).accum_safe(),
        ensures
            final(self).wf(),
            final(self).total_pnl - old(self).total_pnl <= 2 * MAX_POSITION_SIZE,
            old(self).total_pnl - final(self).total_pnl <= 2 * MAX_POSITION_SIZE,
            final(self).wins <= old(self).wins + 1,
            final(self).losses <= old(self).losses + 1,
            ({
                let had_pending = old(self).pending_entry matches Some(p) && p.asset == asset;
                &&& (had_pending ==> r.0 == Some(old(self).pending_entry->0.entry_order_id)
                    && final(self).pending_entry is None)
                &&& (!had_pending ==> r.0 is None && final(self).pending_entry == old(self).pending_entry)
            }),
            ({
                let lp = old(self).last_price_points@[asset.spec_index()];
                match old(self).current_cycle {
                    Some(c) => {
                        let won = settle_won_spec(c, lp);
                        let pnl = settle_pnl_spec(c, lp);
                        &&& final(self).current_cycle is None
                        &&& r.1 == Some((pnl as i64, won))
                        &&& final(self).total_pnl == old(self).total_pnl + pnl
                        &&& (won ==> final(self).wins == old(self).wins + 1 && final(self).losses
                            == old(self).losses)
                        &&& (!won ==> final(self).losses == old(self).losses + 1 && final(self).wins == old(self).wins)
                    },
                    None => {
                        &&& r.1 is None
                        &&& final(self).current_cycle is None
                        &&& final(self).total_pnl == old(self).total_pnl
                        &&& final(self).wins == old(self).wins
                        &&& final(self).losses == old(self).losses
                    },
                }
            }),
            final(self).total_fund_used == old(self).total_fund_used,
            final(self).config == old(self).config,
            final(self).fed == old(self).fed,
            final(self).price_history == old(self).price_history,
            final(self).last_price_points == old(self).last_price_points,
            final(self).previous_period_timestamp == old(self).previous_period_timestamp,
    {
        let cancelled: Option<Option<String>> = {
            let is_this_asset = match &self.pending_entry {
                Some(p) => p.asset == asset,
                None => false,
            };
            if is_this_asset {
                match self.pending_entry.take() {
                    Some(p) => Some(p.entry_order_id),
                    None => {
                        proof {
                            assert(false);
                        }
                        None
                    },
                }
            } else {
                None
            }
        };

        let settlement: Option<(i64, bool)> = if self.current_cycle.is_some() {
            let lp: Option<PricePoint> = {
                let i = asset.index();
                match &self.last_price_points[i] {
                    Some(q) => Some(q.clone()),
                    None => None,
                }
            };
            match lp {
                Some(q) => {
                    let (pnl, won) = self.settle_open_cycle(&q);
                    Some((pnl, won))
                },
                None => {
                    // No terminal prices were ever observed for this asset:
                    // the held side showed no win, so the cycle settles as a
                    // loss of its entry.
                    let cycle = match &self.current_cycle {
                        Some(c) => *c,
                        None => {
                            proof {
                                assert(false);
                            }
                            return (cancelled, None);
                        },
                    };
                    let pnl = pnl_amount(0 - cycle.entry_price, cycle.size);
                    self.total_pnl = self.total_pnl + pnl;
                    self.losses = self.losses + 1;
                    self.current_cycle = None;
                    Some((pnl, false))
                },
            }
        } else {
            None
        };

        (cancelled, settlement)
    }

    /// Reset the period accumulators to zero and drop any pending entry.
    pub fn reset_market_stats(&mut self)
        requires
            old(self).wf(),
        ensures
            final(self).wf(),
            final(self).total_pnl == 0,
            final(self).wins == 0,
            final(self).losses == 0,
            final(self).total_fund_used == 0,
            final(self).pending_entry is None,
            final(self).current_cycle == old(self).current_cycle,
            final(self).fed == old(self).fed,
            final(self).price_history == old(self).price_history,
            final(self).config == old(self).config,
            final(self).previous_period_timestamp == old(self).previous_period_timestamp,
            final(self).last_price_points == old(self).last_price_points,
            final(self).stats_headroom(),
    {
        self.total_pnl = 0;
        self.wins = 0;
        self.losses = 0;
        self.total_fund_used = 0;
        self.pending_entry = None;
    }

    /// Reset indicators, price history, previous readings and per-asset last
    /// prices so computation restarts cold for a new market period.
    pub fn reset_indicators_for_new_market(&mut self)
        requires
            old(self).wf(),
        ensures
            final(self).wf(),
            final(self).fed@ == Seq::<int>::empty(),
            final(self).price_history@ == Seq::<PricePoint>::empty(),
            final(self).pending_entry is None,
            final(self).previous_macd_up is None,
            final(self).previous_macd_down is None,
            final(self).previous_signal_up is None,
            final(self).previous_signal_down is None,
            final(self).current_cycle == old(self).current_cycle,
            final(self).config == old(self).config,
            final(self).total_pnl == old(self).total_pnl,
            final(self).wins == old(self).wins,
            final(self).losses == old(self).losses,
            final(self).total_fund_used == old(self).total_fund_used,
            final(self).previous_period_timestamp == old(self).previous_period_timestamp,
    {
        self.rsi_calculator = RollingRSI::new(self.config.lookback);
        self.macd_calculator = if matches!(self.config.index_type, IndexType::MACDSignal) {
            RollingMACD::new_with_signal(
                self.config.macd_fast_period,
                self.config.macd_slow_period,
                self.config.macd_signal_period,
            )
        } else {
            RollingMACD::new(self.config.macd_fast_period, self.config.macd_slow_period)
        };
        self.momentum_calculator = RollingMomentum::new(self.config.lookback);
        self.price_history = Vec::new();
        let mut last_price_points: Vec<Option<PricePoint>> = Vec::new();
        last_price_points.push(None);
        last_price_points.push(None);
        last_price_points.push(None);
        last_price_points.push(None);
        self.last_price_points = last_price_points;
        self.pending_entry = None;
        self.previous_macd_up = None;
        self.previous_macd_down = None;
        self.previous_signal_up = None;
        self.previous_signal_down = None;
        self.fed = Ghost(Seq::empty());
    }
}

} // verus!
