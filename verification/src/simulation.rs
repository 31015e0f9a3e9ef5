//! Simulation-mode trader: the full per-tick pipeline with immediate fills
//! and no exchange orders, driven by market snapshots.

use vstd::prelude::*;
use crate::num::SCALE;
use crate::config::{IndexType, StrategyConfig};
use crate::engine::{
    CycleEngine, EntryDecision, ExitEvent, HISTORY_CAP, TickEval, held_macd_spec,
    lemma_settle_pnl_bounds, pnl_spec, settle_pnl_spec, settle_won_spec, sim_entry_decision_spec,
    sl_price_hit_spec, sl_suppressed_spec, tp_hit_spec,
};
use crate::confirm::PendingEntry;
use crate::strategies::{
    TradeAction, accelerating_spec, crossover_spec, decide_spec, down_index_spec, up_index_spec,
};
use crate::types::{Asset, MAX_POSITION_SIZE, MarketData, MarketSnapshot, PricePoint, TradingStats};

verus! {

/// Which assets a run trades.
#[derive(Debug, Clone, Copy, PartialEq, Eq, Structural)]
pub enum MarketSelector {
    Eth,
    Btc,
    Sol,
    Xrp,
    All,
}

/// The asset list that a market selection and the per-asset enable flags
/// produce.
pub open spec fn selected_assets_spec(
    market: MarketSelector,
    eth_enabled: bool,
    sol_enabled: bool,
    xrp_enabled: bool,
) -> Seq<Asset> {
    let base: Seq<Asset> = match market {
        MarketSelector::Eth => seq![Asset::Eth],
        MarketSelector::Btc => seq![Asset::Btc],
        MarketSelector::Sol => seq![Asset::Sol],
        MarketSelector::Xrp => seq![Asset::Xrp],
        MarketSelector::All => seq![Asset::Eth, Asset::Btc, Asset::Sol, Asset::Xrp],
    };
    base.filter(
        |a: Asset|
            match a {
                Asset::Eth => eth_enabled,
                Asset::Sol => sol_enabled,
                Asset::Xrp => xrp_enabled,
                Asset::Btc => true,
            },
    )
}

/// Pick the traded assets from the market selection and the per-asset
/// enable flags (Btc cannot be disabled).
pub fn select_trading_assets(
    market: MarketSelector,
    eth_enabled: bool,
    sol_enabled: bool,
    xrp_enabled: bool,
) -> (r: Vec<Asset>)
    ensures
        r@ == selected_assets_spec(market, eth_enabled, sol_enabled, xrp_enabled),
{
    let mut r: Vec<Asset> = Vec::new();
    let keep_eth = eth_enabled;
    let keep_sol = sol_enabled;
    let keep_xrp = xrp_enabled;
    match market {
        MarketSelector::Eth => {
            if keep_eth {
                r.push(Asset::Eth);
            }
        },
        MarketSelector::Btc => {
            r.push(Asset::Btc);
        },
        MarketSelector::Sol => {
            if keep_sol {
                r.push(Asset::Sol);
            }
        },
        MarketSelector::Xrp => {
            if keep_xrp {
                r.push(Asset::Xrp);
            }
        },
        MarketSelector::All => {
            if keep_eth {
                r.push(Asset::Eth);
            }
            r.push(Asset::Btc);
            if keep_sol {
                r.push(Asset::Sol);
            }
            if keep_xrp {
                r.push(Asset::Xrp);
            }
        },
    }
    proof {
        let f = |a: Asset|
            match a {
                Asset::Eth => eth_enabled,
                Asset::Sol => sol_enabled,
                Asset::Xrp => xrp_enabled,
                Asset::Btc => true,
            };
        reveal_with_fuel(Seq::filter, 6);
        assert(r@ =~= selected_assets_spec(market, eth_enabled, sol_enabled, xrp_enabled));
    }
    r
}

/// Everything one price point's processing produced.
#[derive(Debug, Clone, Copy, PartialEq, Eq, Structural)]
pub struct TickOutcome {
    pub eval: TickEval,
    pub exit: ExitEvent,
    pub entry: EntryDecision,
}

/// Period-end report for one asset.
#[derive(Debug)]
pub struct MarketEndOutcome {
    pub asset: Asset,
    /// `Some` when a pending entry of this asset was discarded; the caller
    /// should cancel the contained order id.
    pub cancelled_entry_order: Option<Option<String>>,
    /// `(pnl, won)` when an open cycle was settled on this asset's terminal
    /// prices.
    pub settlement: Option<(i64, bool)>,
    /// (total_pnl, wins, losses, fund_used) after settlement.
    pub summary: (i64, u64, u64, i64),
}

/// Everything one snapshot's processing produced.
#[derive(Debug)]
pub struct SnapshotOutcome {
    /// Whether a period rollover was detected and handled first.
    pub rolled_over: bool,
    pub market_ends: Vec<MarketEndOutcome>,
    pub ticks: Vec<(Asset, TickOutcome)>,
}

/// Simulation-mode trader.
pub struct SimulationTrader {
    pub engine: CycleEngine,
    pub trading_assets: Vec<Asset>,
    pub stats: TradingStats,
    /// Initial capital, micro-dollars.
    pub capital: i64,
}

impl SimulationTrader {
    pub open spec fn wf(&self) -> bool {
        &&& self.engine.wf()
        &&& self.trading_assets@.len() <= 4
    }

    pub fn new(strategy_config: &StrategyConfig, trading_assets: Vec<Asset>, initial_capital: i64)
        -> (r: SimulationTrader)
        requires
            strategy_config.wf(),
            trading_assets@.len() <= 4,
        ensures
            r.wf(),
            r.engine.config == *strategy_config,
            r.engine.current_cycle is None,
            r.engine.pending_entry is None,
            r.engine.stats_headroom(),
            r.trading_assets == trading_assets,
            r.capital == initial_capital,
    {
        SimulationTrader {
            engine: CycleEngine::new(strategy_config),
            trading_assets,
            stats: TradingStats::default(),
            capital: initial_capital,
        }
    }

    /// The price point a snapshot yields for one asset: its Up and Down ask
    /// prices (zero where no quote exists).  Only Eth and Btc markets carry
    /// data.
    pub fn snapshot_to_price_point(snapshot: &MarketSnapshot, asset: Asset) -> (r: Option<
        PricePoint,
    >)
        requires
            snapshot_wf(snapshot),
        ensures
            r == (if asset == Asset::Eth || asset == Asset::Btc {
                Some(snapshot_pp_spec(*snapshot, asset))
            } else {
                Option::<PricePoint>::None
            }),
            r matches Some(q) ==> q.wf(),
    {
        let market_data: &MarketData = match asset {
            Asset::Eth => &snapshot.eth_market,
            Asset::Btc => &snapshot.btc_market,
            _ => {
                return None;
            },
        };
        let up_price = match &market_data.up_token {
            Some(t) => t.ask_price(),
            None => 0,
        };
        let down_price = match &market_data.down_token {
            Some(t) => t.ask_price(),
            None => 0,
        };
        Some(
            PricePoint {
                timestamp: snapshot.period_timestamp,
                up_price,
                down_price,
                actual_outcome: None,
                asset: Some(asset),
                news_event: None,
            },
        )
    }

    /// Process one price point: extend the retained window and indicators,
    /// evaluate take-profit before stop-loss on an open cycle, then, if
    /// flat, gate and apply the entry signal with an immediate fill.  The
    /// ensures restates, at this level, what each engine step fixes.
    pub fn process_price_point(&mut self, pp: &PricePoint, now: u64) -> (r: TickOutcome)
        requires
            old(self).wf(),
            -1500000000000000000 < old(self).engine.total_pnl < 1500000000000000000,
            0 <= old(self).engine.total_fund_used < 1500000000000000000,
            old(self).engine.wins < 1500000000000000000,
            old(self).engine.losses < 1500000000000000000,
            pp.wf(),
        ensures
            final(self).wf(),
            final(self).trading_assets == old(self).trading_assets,
            final(self).capital == old(self).capital,
            final(self).engine.position_exclusive(),
            final(self).engine.config == old(self).engine.config,
            final(self).engine.pending_entry == old(self).engine.pending_entry,
            final(self).engine.previous_period_timestamp == old(self).engine.previous_period_timestamp,
            final(self).engine.last_price_points == old(self).engine.last_price_points,
            // The retained window: capacity 100, oldest point evicted first.
            final(self).engine.fed@ == old(self).engine.fed@.push(pp.up_price as int),
            old(self).engine.price_history@.len() < HISTORY_CAP ==> final(self).engine.price_history@ == old(self).engine.price_history@.push(*pp),
            old(self).engine.price_history@.len() == HISTORY_CAP ==> final(self).engine.price_history@ == old(self).engine.price_history@.push(*pp).remove(0),
            // This tick's readings, signal and entry action, exactly as the
            // engine computes them.
            ({
                let cfg = old(self).engine.config;
                let ups = final(self).engine.price_history@.map_values(
                    |q: PricePoint| q.up_price as int,
                );
                let downs = final(self).engine.price_history@.map_values(
                    |q: PricePoint| q.down_price as int,
                );
                let ui = up_index_spec(
                    cfg,
                    final(self).engine.fed@,
                    final(self).engine.fed@,
                    final(self).engine.fed@,
                    ups,
                );
                let di = down_index_spec(cfg, downs);
                let slow = cfg.macd_slow_period as nat;
                let fast = cfg.macd_fast_period as nat;
                let sig = cfg.macd_signal_period as nat;
                &&& (r.eval.up_index is Some <==> ui is Some)
                &&& (r.eval.up_index matches Some(v) ==> Some(v as int) == ui)
                &&& (r.eval.down_index is Some <==> di is Some)
                &&& (r.eval.down_index matches Some(v) ==> Some(v as int) == di)
                &&& (cfg.index_type == IndexType::MACDSignal ==> {
                    &&& (r.eval.up_signal is Some <==> crate::indicators::signal_ready(
                        final(self).engine.fed@,
                        slow,
                        sig,
                    ))
                    &&& (r.eval.up_signal matches Some(v) ==> v as int
                        == crate::indicators::signal_of(final(self).engine.fed@, fast, slow, sig))
                    &&& (r.eval.down_signal is Some <==> downs.len() >= cfg.lookback
                        && crate::indicators::signal_ready(downs, slow, sig))
                    &&& (r.eval.down_signal matches Some(v) ==> v as int
                        == crate::indicators::signal_of(downs, fast, slow, sig))
                })
                &&& (cfg.index_type != IndexType::MACDSignal ==> r.eval.up_signal is None
                    && r.eval.down_signal is None)
                &&& (cfg.index_type == IndexType::MACD ==> r.eval.up_macd_increasing
                    == accelerating_spec(r.eval.up_index, old(self).engine.previous_macd_up)
                    && r.eval.down_macd_increasing == accelerating_spec(
                    r.eval.down_index,
                    old(self).engine.previous_macd_down,
                ))
                &&& (cfg.index_type != IndexType::MACD ==> r.eval.up_macd_increasing
                    && r.eval.down_macd_increasing)
                &&& (cfg.index_type == IndexType::MACDSignal ==> r.eval.action == (
                if crossover_spec(
                    r.eval.up_index,
                    r.eval.up_signal,
                    old(self).engine.previous_macd_up,
                    old(self).engine.previous_signal_up,
                ) {
                    TradeAction::BuyUp {
                        price: pp.up_price,
                        shares: cfg.position_size_shares,
                    }
                } else if crossover_spec(
                    r.eval.down_index,
                    r.eval.down_signal,
                    old(self).engine.previous_macd_down,
                    old(self).engine.previous_signal_down,
                ) {
                    TradeAction::BuyDown {
                        price: pp.down_price,
                        shares: cfg.position_size_shares,
                    }
                } else {
                    TradeAction::NoAction
                }))
                &&& (cfg.index_type != IndexType::MACDSignal ==> (if final(self).engine.price_history@.len() < cfg.lookback {
                    r.eval.action == TradeAction::NoAction
                } else {
                    r.eval.action == decide_spec(cfg, ui, di, *pp)
                }))
            }),
            // Exits: take-profit first, then the filtered stop-loss, with
            // the exact booking of each close.
            ({
                let e = old(self).engine;
                match e.current_cycle {
                    Some(c) => {
                        let held = held_macd_spec(c, r.eval.up_index, r.eval.down_index);
                        if tp_hit_spec(c, *pp) {
                            &&& r.exit == (ExitEvent::TakeProfit {
                                pnl: pnl_spec(c.tp_price - c.entry_price, c.size as int) as i64,
                            })
                            &&& final(self).engine.total_pnl == e.total_pnl + pnl_spec(
                                c.tp_price - c.entry_price,
                                c.size as int,
                            )
                            &&& final(self).engine.wins == e.wins + 1
                            &&& final(self).engine.losses == e.losses
                        } else if sl_price_hit_spec(c, *pp) && !sl_suppressed_spec(e.config, held) {
                            &&& r.exit == (ExitEvent::StopLoss {
                                pnl: pnl_spec(c.sl_price - c.entry_price, c.size as int) as i64,
                                opposite_ask: crate::engine::opposite_side_ask_spec(c, *pp),
                            })
                            &&& final(self).engine.total_pnl == e.total_pnl + pnl_spec(
                                c.sl_price - c.entry_price,
                                c.size as int,
                            )
                            &&& final(self).engine.losses == e.losses + 1
                            &&& final(self).engine.wins == e.wins
                        } else {
                            &&& (if sl_price_hit_spec(c, *pp) {
                                r.exit == (ExitEvent::StopLossSkipped { macd: held->0 })
                            } else {
                                r.exit == ExitEvent::NoExit
                            })
                            &&& final(self).engine.total_pnl == e.total_pnl
                            &&& final(self).engine.wins == e.wins
                            &&& final(self).engine.losses == e.losses
                        }
                    },
                    None => {
                        &&& r.exit == ExitEvent::NoExit
                        &&& final(self).engine.total_pnl == e.total_pnl
                        &&& final(self).engine.wins == e.wins
                        &&& final(self).engine.losses == e.losses
                    },
                }
            }),
            // Entries: attempted exactly when flat after the exit checks;
            // an opened cycle books its committed fund, anything else
            // leaves the fund and the (possibly just closed) cycle alone.
            ({
                let e = old(self).engine;
                let closed = r.exit is TakeProfit || r.exit is StopLoss;
                let flat = (e.current_cycle is None || closed) && e.pending_entry is None;
                &&& (flat ==> r.entry == sim_entry_decision_spec(e.config, r.eval, *pp, now))
                &&& (!flat ==> r.entry == EntryDecision::NotApplicable)
                &&& (r.entry matches EntryDecision::OpenedSimulated { cycle, .. } ==> final(self).engine.current_cycle == Some(cycle) && final(self).engine.total_fund_used
                    == e.total_fund_used + pnl_spec(cycle.entry_price as int, cycle.size as int))
                &&& (!(r.entry matches EntryDecision::OpenedSimulated { .. }) ==> {
                    &&& final(self).engine.total_fund_used == e.total_fund_used
                    &&& (closed ==> final(self).engine.current_cycle is None)
                    &&& (!closed ==> final(self).engine.current_cycle == e.current_cycle)
                })
            }),
            // One tick changes the accumulators by at most one trade.
            final(self).engine.total_pnl - old(self).engine.total_pnl <= 2 * MAX_POSITION_SIZE,
            old(self).engine.total_pnl - final(self).engine.total_pnl <= 2 * MAX_POSITION_SIZE,
            old(self).engine.total_fund_used <= final(self).engine.total_fund_used,
            final(self).engine.total_fund_used - old(self).engine.total_fund_used <= 2
                * MAX_POSITION_SIZE,
            final(self).engine.wins <= old(self).engine.wins + 1,
            final(self).engine.losses <= old(self).engine.losses + 1,
    {
        let eval = self.engine.evaluate_tick(pp);
        let exit = if self.engine.current_cycle.is_some() {
            self.engine.check_exits(pp, eval.up_index, eval.down_index)
        } else {
            ExitEvent::NoExit
        };
        let entry = if self.engine.current_cycle.is_none() && self.engine.pending_entry.is_none() {
            self.engine.handle_entry_signal_sim(&eval, pp, now)
        } else {
            EntryDecision::NotApplicable
        };
        TickOutcome { eval, exit, entry }
    }

    /// Per-asset period-end handling: settle the open cycle against the
    /// asset's last observed prices (a side that never showed a terminal
    /// price loses its entry), drop a pending entry of this asset, and
    /// report the settlement with the running totals.
    pub fn handle_market_end(&mut self, asset: Asset) -> (r: MarketEndOutcome)
        requires
            old(self).wf(),
            old(self).engine.accum_safe(),
        ensures
            final(self).wf(),
            final(self).trading_assets == old(self).trading_assets,
            final(self).capital == old(self).capital,
            r.asset == asset,
            ({
                let had_pending = old(self).engine.pending_entry matches Some(p) && p.asset
                    == asset;
                &&& (had_pending ==> r.cancelled_entry_order == Some(
                    old(self).engine.pending_entry->0.entry_order_id,
                ) && final(self).engine.pending_entry is None)
                &&& (!had_pending ==> r.cancelled_entry_order is None && final(self).engine.pending_entry == old(self).engine.pending_entry)
            }),
            ({
                let lp = old(self).engine.last_price_points@[asset.spec_index()];
                match old(self).engine.current_cycle {
                    Some(c) => {
                        let won = settle_won_spec(c, lp);
                        let pnl = settle_pnl_spec(c, lp);
                        &&& final(self).engine.current_cycle is None
                        &&& r.settlement == Some((pnl as i64, won))
                        &&& final(self).engine.total_pnl == old(self).engine.total_pnl + pnl
                        &&& (won ==> final(self).engine.wins == old(self).engine.wins + 1 && final(self).engine.losses == old(self).engine.losses)
                        &&& (!won ==> final(self).engine.losses == old(self).engine.losses + 1
                            && final(self).engine.wins == old(self).engine.wins)
                    },
                    None => {
                        &&& r.settlement is None
                        &&& final(self).engine.current_cycle is None
                        &&& final(self).engine.total_pnl == old(self).engine.total_pnl
                        &&& final(self).engine.wins == old(self).engine.wins
                        &&& final(self).engine.losses == old(self).engine.losses
                    },
                }
            }),
            final(self).engine.total_fund_used == old(self).engine.total_fund_used,
            final(self).engine.config == old(self).engine.config,
            final(self).engine.fed == old(self).engine.fed,
            final(self).engine.price_history == old(self).engine.price_history,
            final(self).engine.last_price_points == old(self).engine.last_price_points,
            final(self).engine.previous_period_timestamp == old(self).engine.previous_period_timestamp,
            r.summary == (
                final(self).engine.total_pnl,
                final(self).engine.wins,
                final(self).engine.losses,
                final(self).engine.total_fund_used,
            ),
            final(self).engine.total_pnl - old(self).engine.total_pnl <= 2 * MAX_POSITION_SIZE,
            old(self).engine.total_pnl - final(self).engine.total_pnl <= 2 * MAX_POSITION_SIZE,
            final(self).engine.wins <= old(self).engine.wins + 1,
            final(self).engine.losses <= old(self).engine.losses + 1,
    {
        let (cancelled, settlement) = self.engine.handle_market_end(asset);
        MarketEndOutcome {
            asset,
            cancelled_entry_order: cancelled,
            settlement,
            summary: (
                self.engine.total_pnl,
                self.engine.wins,
                self.engine.losses,
                self.engine.total_fund_used,
            ),
        }
    }

    /// Process one snapshot: handle a period rollover first (settle every
    /// asset, report summaries, reset indicators and counters), then feed
    /// each traded asset's price point through the pipeline, recording it
    /// as the asset's last price.
    #[verifier::rlimit(100)]
    pub fn process_snapshot(&mut self, snapshot: &MarketSnapshot, now: u64) -> (r: SnapshotOutcome)
        requires
            old(self).wf(),
            old(self).engine.stats_headroom(),
            snapshot_wf(snapshot),
        ensures
            final(self).wf(),
            final(self).engine.position_exclusive(),
            final(self).engine.previous_period_timestamp == Some(snapshot.period_timestamp),
            r.rolled_over == (old(self).engine.previous_period_timestamp matches Some(p) && p
                != snapshot.period_timestamp),
            // A rollover reports every traded asset, in order: the shared
            // cycle settles with the first asset's terminal prices, a
            // pending entry is cancelled at the first occurrence of its
            // asset, and every summary shows the settled totals.
            r.rolled_over ==> r.market_ends@.len() == old(self).trading_assets@.len(),
            !r.rolled_over ==> r.market_ends@.len() == 0,
            r.rolled_over ==> forall|i: int|
                0 <= i < r.market_ends@.len() ==> {
                    &&& (#[trigger] r.market_ends@[i]).asset == old(self).trading_assets@[i]
                    &&& r.market_ends@[i].settlement == rollover_settlement_at(
                        old(self).engine,
                        old(self).trading_assets@,
                        i,
                    )
                    &&& r.market_ends@[i].cancelled_entry_order == rollover_cancelled_at(
                        old(self).engine,
                        old(self).trading_assets@,
                        i,
                    )
                    &&& r.market_ends@[i].summary == rollover_summary(
                        old(self).engine,
                        old(self).trading_assets@,
                    )
                },
            // After a rollover computation restarts cold: the indicators
            // hold exactly this snapshot's ticks, no pending entry survives,
            // and with no tick the counters stay at zero.
            r.rolled_over ==> final(self).engine.fed@.len() == r.ticks@.len(),
            !r.rolled_over ==> final(self).engine.fed@.len() == old(self).engine.fed@.len()
                + r.ticks@.len(),
            r.rolled_over ==> final(self).engine.pending_entry is None,
            r.rolled_over && r.ticks@.len() == 0 ==> final(self).engine.total_pnl == 0 && final(self).engine.wins == 0 && final(self).engine.losses == 0 && final(self).engine.total_fund_used == 0,
            r.rolled_over && r.ticks@.len() == 0 && old(self).trading_assets@.len() > 0 ==> final(self).engine.current_cycle is None,
            // One tick per asset with quotes (Eth and Btc carry data), each
            // recorded as that asset's last price point.
            r.ticks@.len() <= old(self).trading_assets@.len(),
            forall|k: int|
                0 <= k < r.ticks@.len() ==> ((#[trigger] r.ticks@[k]).0 == Asset::Eth
                    || r.ticks@[k].0 == Asset::Btc),
            forall|k: int|
                0 <= k < r.ticks@.len() ==> final(self).engine.last_price_points@[(
                #[trigger] r.ticks@[k]).0.spec_index()] == Some(
                    snapshot_pp_spec(*snapshot, r.ticks@[k].0),
                ),
    {
        let ghost assets0 = self.trading_assets@;
        let ghost engine0 = self.engine;
        let rolled = self.engine.is_new_period(snapshot.period_timestamp);
        let mut market_ends: Vec<MarketEndOutcome> = Vec::new();
        if rolled {
            let n = self.trading_assets.len();
            let mut i: usize = 0;
            while i < n
                invariant
                    0 <= i <= n,
                    n == self.trading_assets@.len(),
                    n <= 4,
                    self.wf(),
                    self.trading_assets == old(self).trading_assets,
                    self.trading_assets@ == assets0,
                    engine0 == old(self).engine,
                    engine0.stats_headroom(),
                    engine0.wf(),
                    market_ends@.len() == i,
                    self.capital == old(self).capital,
                    self.engine.config == engine0.config,
                    self.engine.fed == engine0.fed,
                    self.engine.price_history == engine0.price_history,
                    self.engine.last_price_points == engine0.last_price_points,
                    self.engine.previous_period_timestamp == engine0.previous_period_timestamp,
                    self.engine.total_fund_used == engine0.total_fund_used,
                    i == 0 ==> self.engine.current_cycle == engine0.current_cycle
                        && self.engine.pending_entry == engine0.pending_entry
                        && self.engine.total_pnl == engine0.total_pnl && self.engine.wins
                        == engine0.wins && self.engine.losses == engine0.losses,
                    i >= 1 ==> self.engine.current_cycle is None && (
                    self.engine.total_pnl,
                    self.engine.wins,
                    self.engine.losses,
                    self.engine.total_fund_used,
                    ) == rollover_summary(engine0, assets0) && self.engine.pending_entry
                        == rollover_pending_after(engine0, assets0, i as int),
                    -2000000000000000000 < self.engine.total_pnl < 2000000000000000000,
                    0 <= self.engine.total_fund_used < 2000000000000000000,
                    self.engine.wins < 2000000000000000000,
                    self.engine.losses < 2000000000000000000,
                    forall|k: int|
                        0 <= k < i ==> {
                            &&& (#[trigger] market_ends@[k]).asset == assets0[k]
                            &&& market_ends@[k].settlement == rollover_settlement_at(
                                engine0,
                                assets0,
                                k,
                            )
                            &&& market_ends@[k].cancelled_entry_order == rollover_cancelled_at(
                                engine0,
                                assets0,
                                k,
                            )
                            &&& market_ends@[k].summary == rollover_summary(engine0, assets0)
                        },
                decreases n - i,
            {
                let asset = self.trading_assets[i];
                let ghost pre = self.engine;
                proof {
                    match engine0.current_cycle {
                        Some(c) => {
                            lemma_settle_pnl_bounds(
                                c,
                                engine0.last_price_points@[assets0[0].spec_index()],
                            );
                        },
                        None => {},
                    }
                }
                let outcome = self.handle_market_end(asset);
                proof {
                    assert(outcome.asset == assets0[i as int]);
                    if i == 0 {
                        assert(forall|j: int| 0 <= j < 0 ==> assets0[j] != asset);
                        assert(outcome.settlement == rollover_settlement_at(
                            engine0,
                            assets0,
                            0,
                        ));
                        assert(outcome.cancelled_entry_order == rollover_cancelled_at(
                            engine0,
                            assets0,
                            0,
                        ));
                        assert(outcome.summary == rollover_summary(engine0, assets0));
                        assert(self.engine.pending_entry == rollover_pending_after(
                            engine0,
                            assets0,
                            1,
                        ));
                    } else {
                        // The cycle was consumed with the first asset.
                        assert(pre.current_cycle is None);
                        assert(outcome.settlement == rollover_settlement_at(
                            engine0,
                            assets0,
                            i as int,
                        ));
                        assert(outcome.summary == rollover_summary(engine0, assets0));
                        match engine0.pending_entry {
                            Some(p) => {
                                if exists|j: int| 0 <= j < i && assets0[j] == p.asset {
                                    assert(pre.pending_entry is None);
                                    assert(outcome.cancelled_entry_order is None);
                                    assert(rollover_cancelled_at(engine0, assets0, i as int)
                                        is None);
                                } else {
                                    assert(pre.pending_entry == Some(p));
                                    if p.asset == asset {
                                        assert(forall|j: int|
                                            0 <= j < i ==> assets0[j] != p.asset);
                                    }
                                }
                            },
                            None => {},
                        }
                        assert(outcome.cancelled_entry_order == rollover_cancelled_at(
                            engine0,
                            assets0,
                            i as int,
                        ));
                        assert(self.engine.pending_entry == rollover_pending_after(
                            engine0,
                            assets0,
                            i + 1,
                        ));
                    }
                }
                market_ends.push(outcome);
                i = i + 1;
            }
            self.engine.reset_indicators_for_new_market();
            self.engine.reset_market_stats();
        }
        self.engine.note_period(snapshot.period_timestamp);

        let ghost fed_before = self.engine.fed@;
        let ghost pending_before = self.engine.pending_entry;
        let ghost pnl_before = self.engine.total_pnl;
        let ghost wins_before = self.engine.wins;
        let ghost losses_before = self.engine.losses;
        let ghost fund_before = self.engine.total_fund_used;
        let ghost cycle_before = self.engine.current_cycle;
        let mut ticks: Vec<(Asset, TickOutcome)> = Vec::new();
        let n = self.trading_assets.len();
        let mut i: usize = 0;
        while i < n
            invariant
                0 <= i <= n,
                n == self.trading_assets@.len(),
                n <= 4,
                self.wf(),
                self.trading_assets == old(self).trading_assets,
                self.capital == old(self).capital,
                self.engine.previous_period_timestamp == Some(snapshot.period_timestamp),
                snapshot_wf(snapshot),
                ticks@.len() <= i,
                self.engine.fed@.len() == fed_before.len() + ticks@.len(),
                self.engine.pending_entry == pending_before,
                ticks@.len() == 0 ==> self.engine.total_pnl == pnl_before && self.engine.wins
                    == wins_before && self.engine.losses == losses_before
                    && self.engine.total_fund_used == fund_before && self.engine.current_cycle
                    == cycle_before,
                forall|k: int|
                    0 <= k < ticks@.len() ==> ((#[trigger] ticks@[k]).0 == Asset::Eth
                        || ticks@[k].0 == Asset::Btc),
                forall|k: int|
                    0 <= k < ticks@.len() ==> self.engine.last_price_points@[(
                    #[trigger] ticks@[k]).0.spec_index()] == Some(
                        snapshot_pp_spec(*snapshot, ticks@[k].0),
                    ),
                -1000000000000000000 < pnl_before < 1000000000000000000,
                0 <= fund_before < 1000000000000000000,
                wins_before < 1000000000000000000,
                losses_before < 1000000000000000000,
                pnl_before - (i as int) * 2 * MAX_POSITION_SIZE <= self.engine.total_pnl,
                self.engine.total_pnl <= pnl_before + (i as int) * 2 * MAX_POSITION_SIZE,
                fund_before <= self.engine.total_fund_used,
                self.engine.total_fund_used <= fund_before + (i as int) * 2 * MAX_POSITION_SIZE,
                self.engine.wins <= wins_before + i,
                self.engine.losses <= losses_before + i,
            decreases n - i,
        {
            let asset = self.trading_assets[i];
            match Self::snapshot_to_price_point(snapshot, asset) {
                Some(pp) => {
                    self.engine.note_last_price(asset, &pp);
                    let outcome = self.process_price_point(&pp, now);
                    proof {
                        assert(self.engine.last_price_points@[asset.spec_index()] == Some(
                            snapshot_pp_spec(*snapshot, asset),
                        ));
                    }
                    ticks.push((asset, outcome));
                },
                None => {},
            }
            i = i + 1;
        }
        SnapshotOutcome { rolled_over: rolled, market_ends, ticks }
    }

    /// Reset indicators, price history and per-tick readings for a new
    /// market period.
    pub fn reset_indicators_for_new_market(&mut self)
        requires
            old(self).wf(),
        ensures
            final(self).wf(),
            final(self).engine.fed@ == Seq::<int>::empty(),
            final(self).engine.price_history@ == Seq::<PricePoint>::empty(),
            final(self).engine.pending_entry is None,
            final(self).trading_assets == old(self).trading_assets,
    {
        self.engine.reset_indicators_for_new_market();
    }

    /// Reset the per-period counters back to zero.
    pub fn reset_market_stats(&mut self)
        requires
            old(self).wf(),
        ensures
            final(self).wf(),
            final(self).engine.total_pnl == 0,
            final(self).engine.wins == 0,
            final(self).engine.losses == 0,
            final(self).engine.total_fund_used == 0,
            final(self).engine.pending_entry is None,
            final(self).trading_assets == old(self).trading_assets,
    {
        self.engine.reset_market_stats();
    }

}

/// The price point one snapshot yields for an asset (meaningful for the
/// Eth and Btc markets, the two that carry data).
pub open spec fn snapshot_pp_spec(snapshot: MarketSnapshot, asset: Asset) -> PricePoint {
    let md = if asset == Asset::Eth {
        snapshot.eth_market
    } else {
        snapshot.btc_market
    };
    PricePoint {
        timestamp: snapshot.period_timestamp,
        up_price: ask_or_zero_spec(&md.up_token),
        down_price: ask_or_zero_spec(&md.down_token),
        actual_outcome: None,
        asset: Some(asset),
        news_event: None,
    }
}

/// The settlement entry of the period-end report at one index: the single
/// shared cycle settles with the first reported asset's terminal prices,
/// so only index 0 can carry a settlement.
pub open spec fn rollover_settlement_at(e: CycleEngine, assets: Seq<Asset>, i: int) -> Option<(
    i64,
    bool,
)> {
    if i == 0 && e.current_cycle is Some {
        let c = e.current_cycle->0;
        let lp = e.last_price_points@[assets[0].spec_index()];
        Some((settle_pnl_spec(c, lp) as i64, settle_won_spec(c, lp)))
    } else {
        None
    }
}

/// The cancelled-order entry at one index: a pending entry is dropped at
/// the first occurrence of its asset.
pub open spec fn rollover_cancelled_at(e: CycleEngine, assets: Seq<Asset>, i: int) -> Option<
    Option<String>,
> {
    if e.pending_entry matches Some(p) && assets[i] == p.asset && (forall|j: int|
        0 <= j < i ==> assets[j] != p.asset) {
        Some(e.pending_entry->0.entry_order_id)
    } else {
        None
    }
}

/// The pending entry still held after the first `i` assets were reported.
pub open spec fn rollover_pending_after(e: CycleEngine, assets: Seq<Asset>, i: int) -> Option<
    PendingEntry,
> {
    if e.pending_entry matches Some(p) && (exists|j: int| 0 <= j < i && assets[j] == p.asset) {
        None
    } else {
        e.pending_entry
    }
}

/// The running totals every period-end report shows: the pre-rollover
/// totals plus the settlement booked with the first asset.
pub open spec fn rollover_summary(e: CycleEngine, assets: Seq<Asset>) -> (i64, u64, u64, i64) {
    match e.current_cycle {
        Some(c) => {
            let lp = e.last_price_points@[assets[0].spec_index()];
            let won = settle_won_spec(c, lp);
            (
                (e.total_pnl + settle_pnl_spec(c, lp)) as i64,
                if won {
                    (e.wins + 1) as u64
                } else {
                    e.wins
                },
                if won {
                    e.losses
                } else {
                    (e.losses + 1) as u64
                },
                e.total_fund_used,
            )
        },
        None => (e.total_pnl, e.wins, e.losses, e.total_fund_used),
    }
}

/// All quotes of a market snapshot lie in the unit interval.
pub open spec fn snapshot_wf(snapshot: &MarketSnapshot) -> bool {
    &&& market_data_wf(&snapshot.eth_market)
    &&& market_data_wf(&snapshot.btc_market)
    &&& market_data_wf(&snapshot.solana_market)
    &&& market_data_wf(&snapshot.xrp_market)
}

pub open spec fn market_data_wf(md: &MarketData) -> bool {
    &&& (md.up_token matches Some(t) ==> token_price_wf(&t))
    &&& (md.down_token matches Some(t) ==> token_price_wf(&t))
}

pub open spec fn token_price_wf(t: &crate::types::TokenPrice) -> bool {
    &&& (t.bid matches Some(b) ==> 0 <= b <= SCALE)
    &&& (t.ask matches Some(a) ==> 0 <= a <= SCALE)
}

/// The ask price a quote contributes: its value, or zero without a quote.
pub open spec fn ask_or_zero_spec(t: &Option<crate::types::TokenPrice>) -> i64 {
    match t {
        Some(tp) => match tp.ask {
            Some(a) => a,
            None => 0,
        },
        None => 0,
    }
}

} // verus!
