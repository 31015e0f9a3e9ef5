//! Fill-confirmation protocol of the live trading mode.
//!
//! An order acknowledgement does not guarantee a fill; the held token
//! balance is the source of truth.  After placing an entry order the engine
//! keeps a `PendingEntry` and, on every tick, judges a fresh balance
//! reading: a decrease re-baselines the pre-balance, a rise of strictly
//! more than `MIN_FILL_DELTA` counts as a fill candidate, and a stability
//! re-check must repeat that rise before the cycle opens.

use vstd::prelude::*;
use crate::num::SCALE;
use crate::config::IndexType;
use crate::engine::{
    CycleEngine, pnl_amount, pnl_spec, sl_suppressed_spec,
};
use crate::indicators::macd_from_prices;
use crate::types::{ActiveCycle, Asset, MAX_POSITION_SIZE, PositionSide, PricePoint};

verus! {

/// Minimum balance rise, in micro-tokens, that counts as a fill (0.001
/// tokens); a rise of exactly this amount does not.
pub const MIN_FILL_DELTA: i64 = 1000;

/// Seconds after which an unconfirmed entry order is cancelled.
pub const ENTRY_TIMEOUT_SECS: u64 = 10;

/// Balances stay below this bound (micro-tokens), keeping every comparison
/// in fixed-point range.
pub const MAX_BALANCE: i64 = 1_000_000_000_000_000_000;

/// An entry order awaiting fill confirmation.
#[derive(Debug)]
pub struct PendingEntry {
    pub asset: Asset,
    pub side: PositionSide,
    /// Token the entry order buys.
    pub token_id: String,
    /// Requested limit price, micro-units; take-profit and stop-loss are
    /// computed from it, not from the average fill price.
    pub limit_price: i64,
    /// Requested size, micro-shares.
    pub requested_size: i64,
    /// Balance observed immediately before the order was placed,
    /// micro-tokens.
    pub pre_balance: i64,
    /// When the order was placed (UNIX seconds).
    pub placed_at: u64,
    pub entry_order_id: Option<String>,
}

impl Clone for PendingEntry {
    fn clone(&self) -> (r: Self)
        ensures
            r == *self,
    {
        PendingEntry {
            asset: self.asset,
            side: self.side,
            token_id: self.token_id.clone(),
            limit_price: self.limit_price,
            requested_size: self.requested_size,
            pre_balance: self.pre_balance,
            placed_at: self.placed_at,
            entry_order_id: match &self.entry_order_id {
                Some(s) => Some(s.clone()),
                None => None,
            },
        }
    }
}

impl PendingEntry {
    pub open spec fn wf(&self) -> bool {
        &&& self.side != PositionSide::Flat
        &&& 0 <= self.limit_price <= SCALE
        &&& 0 < self.requested_size <= MAX_POSITION_SIZE
        &&& 0 <= self.pre_balance <= MAX_BALANCE
    }
}

/// What one balance poll concluded.
#[derive(Debug, Clone, PartialEq, Eq)]
pub enum ConfirmStep {
    /// The confirmation window expired: the entry order with this id should
    /// be cancelled; the pending entry is gone.
    TimedOut { entry_order_id: Option<String> },
    /// Keep waiting; when `rebaselined` holds, the pre-balance was lowered
    /// to the new (smaller) balance so a later rise is not double-counted.
    Waiting { rebaselined: bool },
    /// The balance rose by strictly more than the minimum delta: cancel any
    /// order remainder and re-check stability before opening.
    FillDetected { filled_size: i64, entry_order_id: Option<String> },
}

/// An order for the caller to place, prices and sizes in micro-units.
#[derive(Debug, Clone, PartialEq, Eq)]
pub struct OrderSpec {
    pub token_id: String,
    pub buy: bool,
    pub price: i64,
    pub size: i64,
}

/// The take-profit order a confirmed fill asks for: sell the filled size
/// of the entered token at the take-profit price, exactly when that price
/// is attainable (at most 1).
pub open spec fn tp_order_spec(p: PendingEntry, tp: i64, filled: i64) -> Option<OrderSpec> {
    if tp <= SCALE {
        Some(OrderSpec { token_id: p.token_id, buy: false, price: tp, size: filled })
    } else {
        None
    }
}

/// What the stability re-check concluded.
#[derive(Debug)]
pub enum FillOutcome {
    /// The re-checked balance no longer shows the rise: retry next tick,
    /// keeping the pending entry.
    NotStable,
    /// The fill is confirmed and the cycle is open; place the take-profit
    /// order if one is given.
    Opened { cycle: ActiveCycle, tp_order: Option<OrderSpec> },
    /// The stop-loss condition already held at confirmation time: the
    /// position is closed out immediately as a loss.  Place the take-profit
    /// order (the live flow places it before the check), then the exit
    /// order, then cancel the take-profit order again.
    StoppedOut { pnl: i64, filled_size: i64, tp_order: Option<OrderSpec>, exit_price: i64 },
}

impl CycleEngine {
    /// Judge one balance reading against the pending entry.  A timeout
    /// discards the pending entry; a balance decrease re-baselines the
    /// pre-balance; only a rise of strictly more than `MIN_FILL_DELTA`
    /// counts as a fill.
    pub fn poll_pending(&mut self, current_balance: i64, now: u64) -> (r: ConfirmStep)
        requires
            old(self).wf(),
            old(self).pending_entry is Some,
            0 <= current_balance <= MAX_BALANCE,
        ensures
            final(self).wf(),
            ({
                let p = old(self).pending_entry->0;
                if now >= p.placed_at + ENTRY_TIMEOUT_SECS {
                    &&& r == (ConfirmStep::TimedOut { entry_order_id: p.entry_order_id })
                    &&& final(self).pending_entry is None
                } else if current_balance < p.pre_balance {
                    &&& r == (ConfirmStep::Waiting { rebaselined: true })
                    &&& final(self).pending_entry == Some(
                        PendingEntry { pre_balance: current_balance, ..p },
                    )
                } else if current_balance > p.pre_balance + MIN_FILL_DELTA {
                    &&& r == (ConfirmStep::FillDetected {
                        filled_size: (current_balance - p.pre_balance) as i64,
                        entry_order_id: p.entry_order_id,
                    })
                    &&& final(self).pending_entry == old(self).pending_entry
                } else {
                    &&& r == (ConfirmStep::Waiting { rebaselined: false })
                    &&& final(self).pending_entry == old(self).pending_entry
                }
            }),
            final(self).current_cycle == old(self).current_cycle,
            final(self).config == old(self).config,
            final(self).total_pnl == old(self).total_pnl,
            final(self).wins == old(self).wins,
            final(self).losses == old(self).losses,
            final(self).total_fund_used == old(self).total_fund_used,
            final(self).fed == old(self).fed,
            final(self).price_history == old(self).price_history,
    {
        let timed_out = {
            let p = match &self.pending_entry {
                Some(p) => p,
                None => {
                    proof {
                        assert(false);
                    }
                    return ConfirmStep::Waiting { rebaselined: false };
                },
            };
            now >= p.placed_at && now - p.placed_at >= ENTRY_TIMEOUT_SECS
        };
        proof {
            let p = old(self).pending_entry->0;
            assert(timed_out == (now >= p.placed_at + ENTRY_TIMEOUT_SECS));
        }
        if timed_out {
            let p = match self.pending_entry.take() {
                Some(p) => p,
                None => {
                    proof {
                        assert(false);
                    }
                    return ConfirmStep::Waiting { rebaselined: false };
                },
            };
            return ConfirmStep::TimedOut { entry_order_id: p.entry_order_id };
        }
        let p = match &mut self.pending_entry {
            Some(p) => p,
            None => {
                proof {
                    assert(false);
                }
                return ConfirmStep::Waiting { rebaselined: false };
            },
        };
        if current_balance < p.pre_balance {
            p.pre_balance = current_balance;
            return ConfirmStep::Waiting { rebaselined: true };
        }
        if current_balance > p.pre_balance + MIN_FILL_DELTA {
            let filled = current_balance - p.pre_balance;
            let id = match &p.entry_order_id {
                Some(s) => Some(s.clone()),
                None => None,
            };
            return ConfirmStep::FillDetected { filled_size: filled, entry_order_id: id };
        }
        ConfirmStep::Waiting { rebaselined: false }
    }

    /// Conclude the fill after the stability re-check: the re-read balance
    /// must still exceed the (possibly re-baselined) pre-balance by strictly
    /// more than the minimum delta.  Take-profit and stop-loss come from the
    /// requested limit price; if the stop-loss condition already holds at
    /// the latest prices (and is not suppressed by the MACD filter), the
    /// position is closed out immediately as a loss instead of opening.
    pub fn confirm_fill(&mut self, pp: &PricePoint, confirmed_balance: i64) -> (r: FillOutcome)
        requires
            old(self).wf(),
            old(self).accum_safe(),
            old(self).pending_entry is Some,
            old(self).current_cycle is None,
            pp.wf(),
            0 <= confirmed_balance <= MAX_BALANCE,
            confirmed_balance - old(self).pending_entry->0.pre_balance <= MAX_POSITION_SIZE,
        ensures
            final(self).wf(),
            final(self).total_pnl - old(self).total_pnl <= 2 * MAX_POSITION_SIZE,
            old(self).total_pnl - final(self).total_pnl <= 2 * MAX_POSITION_SIZE,
            old(self).total_fund_used <= final(self).total_fund_used,
            final(self).total_fund_used - old(self).total_fund_used <= 2 * MAX_POSITION_SIZE,
            final(self).wins == old(self).wins,
            final(self).losses <= old(self).losses + 1,
            ({
                let p = old(self).pending_entry->0;
                let cfg = old(self).config;
                let filled = confirmed_balance - p.pre_balance;
                let tp = (p.limit_price + cfg.profit_threshold) as i64;
                let sl = (p.limit_price - cfg.sl_threshold) as i64;
                let opp = if p.side == PositionSide::LongUp {
                    pp.down_price
                } else {
                    pp.up_price
                };
                let sl_hit = opp > 0 && opp >= SCALE - sl;
                if confirmed_balance < p.pre_balance + MIN_FILL_DELTA {
                    &&& r is NotStable
                    &&& final(self).pending_entry == old(self).pending_entry
                    &&& final(self).current_cycle is None
                    &&& final(self).total_pnl == old(self).total_pnl
                    &&& final(self).wins == old(self).wins
                    &&& final(self).losses == old(self).losses
                    &&& final(self).total_fund_used == old(self).total_fund_used
                } else if sl_hit && !sl_suppressed_spec(cfg, final(self).confirm_held_macd(p.side))
                {
                    &&& (r matches FillOutcome::StoppedOut { pnl, filled_size, exit_price, tp_order }
                        && pnl == pnl_spec(sl - p.limit_price, filled as int) && filled_size
                        == filled && exit_price == opp && tp_order == tp_order_spec(
                        p,
                        tp,
                        filled as i64,
                    ))
                    &&& final(self).pending_entry is None
                    &&& final(self).current_cycle is None
                    &&& final(self).total_pnl == old(self).total_pnl + pnl_spec(
                        sl - p.limit_price,
                        filled as int,
                    )
                    &&& final(self).losses == old(self).losses + 1
                    &&& final(self).wins == old(self).wins
                    &&& final(self).total_fund_used == old(self).total_fund_used + pnl_spec(
                        p.limit_price as int,
                        filled as int,
                    )
                } else {
                    &&& (r matches FillOutcome::Opened { cycle, tp_order } && cycle == (ActiveCycle {
                        side: p.side,
                        entry_price: p.limit_price,
                        size: filled as i64,
                        tp_price: tp,
                        sl_price: sl,
                    }) && tp_order == tp_order_spec(p, tp, filled as i64))
                    &&& final(self).pending_entry is None
                    &&& final(self).current_cycle == Some(
                        ActiveCycle {
                            side: p.side,
                            entry_price: p.limit_price,
                            size: filled as i64,
                            tp_price: tp,
                            sl_price: sl,
                        },
                    )
                    &&& final(self).total_pnl == old(self).total_pnl
                    &&& final(self).wins == old(self).wins
                    &&& final(self).losses == old(self).losses
                    &&& final(self).total_fund_used == old(self).total_fund_used + pnl_spec(
                        p.limit_price as int,
                        filled as int,
                    )
                }
            }),
            final(self).config == old(self).config,
            final(self).fed == old(self).fed,
            final(self).price_history == old(self).price_history,
    {
        let p = match &self.pending_entry {
            Some(p) => p.clone(),
            None => {
                proof {
                    assert(false);
                }
                return FillOutcome::NotStable;
            },
        };
        if confirmed_balance < p.pre_balance + MIN_FILL_DELTA {
            return FillOutcome::NotStable;
        }
        let filled = confirmed_balance - p.pre_balance;
        let entry_price = p.limit_price;
        let tp_price = entry_price + self.config.profit_threshold;
        let sl_price = entry_price - self.config.sl_threshold;

        let tp_order: Option<OrderSpec> = if tp_price <= SCALE {
            Some(OrderSpec { token_id: p.token_id.clone(), buy: false, price: tp_price, size: filled })
        } else {
            None
        };

        let opposite_ask = match p.side {
            PositionSide::LongUp => pp.down_price,
            PositionSide::LongDown => pp.up_price,
            PositionSide::Flat => 0,
        };
        let sl_hit = opposite_ask > 0 && opposite_ask >= SCALE - sl_price;
        let held_macd = self.compute_held_macd(p.side);
        let suppressed = matches!(self.config.index_type, IndexType::MACD)
            && self.config.use_macd_sl_filter && match held_macd {
            Some(m) => m > 0,
            None => false,
        };

        let fund_add = pnl_amount(entry_price, filled);
        if sl_hit && !suppressed {
            let pnl = pnl_amount(sl_price - entry_price, filled);
            self.total_pnl = self.total_pnl + pnl;
            self.losses = self.losses + 1;
            self.total_fund_used = self.total_fund_used + fund_add;
            self.pending_entry = None;
            self.current_cycle = None;
            return FillOutcome::StoppedOut {
                pnl,
                filled_size: filled,
                tp_order,
                exit_price: opposite_ask,
            };
        }

        let cycle = ActiveCycle {
            side: p.side,
            entry_price,
            size: filled,
            tp_price,
            sl_price,
        };
        self.total_fund_used = self.total_fund_used + fund_add;
        self.pending_entry = None;
        self.current_cycle = Some(cycle);
        FillOutcome::Opened { cycle, tp_order }
    }

    /// The MACD reading of the held side, as the confirmation check sees it:
    /// the rolling calculator for the Up side, a batch rebuild over the
    /// retained window's Down prices for the Down side.
    pub open spec fn confirm_held_macd(&self, side: PositionSide) -> Option<i64> {
        if side == PositionSide::LongUp {
            if crate::indicators::macd_ready(self.fed@, self.config.macd_slow_period as nat) {
                Some(
                    crate::indicators::macd_of(
                        self.fed@,
                        self.config.macd_fast_period as nat,
                        self.config.macd_slow_period as nat,
                    ) as i64,
                )
            } else {
                None
            }
        } else {
            let downs = self.price_history@.map_values(|q: PricePoint| q.down_price as int);
            if crate::indicators::macd_ready(downs, self.config.macd_slow_period as nat) {
                Some(
                    crate::indicators::macd_of(
                        downs,
                        self.config.macd_fast_period as nat,
                        self.config.macd_slow_period as nat,
                    ) as i64,
                )
            } else {
                None
            }
        }
    }

    /// Compute the held side's MACD for the confirmation-time stop check.
    fn compute_held_macd(&self, side: PositionSide) -> (r: Option<i64>)
        requires
            self.wf(),
            side != PositionSide::Flat,
        ensures
            r == self.confirm_held_macd(side),
    {
        match side {
            PositionSide::LongUp => self.macd_calculator.get_macd(),
            PositionSide::LongDown | PositionSide::Flat => {
                let ghost downs = self.price_history@.map_values(
                    |q: PricePoint| q.down_price as int,
                );
                let mut down_prices: Vec<i64> = Vec::new();
                let mut i: usize = 0;
                while i < self.price_history.len()
                    invariant
                        0 <= i <= self.price_history@.len(),
                        downs == self.price_history@.map_values(
                            |q: PricePoint| q.down_price as int,
                        ),
                        downs.len() == self.price_history@.len(),
                        forall|j: int|
                            0 <= j < self.price_history@.len() ==> (#[trigger] self
                                .price_history@[j]).wf(),
                        down_prices@.map_values(|e: i64| e as int) == downs.take(i as int),
                    decreases self.price_history@.len() - i,
                {
                    proof {
                        assert(downs.take(i + 1) =~= downs.take(i as int).push(downs[i as int]));
                        crate::indicators::lemma_map_push(
                            down_prices@,
                            self.price_history@[i as int].down_price,
                        );
                    }
                    down_prices.push(self.price_history[i].down_price);
                    i = i + 1;
                }
                proof {
                    assert(downs.take(downs.len() as int) =~= downs);
                    assert(down_prices@.map_values(|e: i64| e as int) == downs);
                    assert forall|j: int|
                        0 <= j < down_prices@.len() implies 0 <= #[trigger] down_prices@[j]
                        <= SCALE by {
                        assert(down_prices@[j] as int == downs[j]);
                        assert(downs[j] == self.price_history@[j].down_price as int);
                        assert(self.price_history@[j].wf());
                    }
                }
                macd_from_prices(
                    &down_prices,
                    self.config.macd_fast_period,
                    self.config.macd_slow_period,
                )
            },
        }
    }
}

} // verus!
