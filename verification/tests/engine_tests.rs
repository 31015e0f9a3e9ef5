use trending_trader::config::{IndexType, StrategyConfig};
use trending_trader::confirm::{ConfirmStep, FillOutcome, PendingEntry, MIN_FILL_DELTA};
use trending_trader::engine::{current_period, CycleEngine, EntryDecision, ExitEvent, TickEval};
use trending_trader::num::SCALE;
use trending_trader::strategies::TradeAction;
use trending_trader::types::{ActiveCycle, Asset, PositionSide, PricePoint, MAX_POSITION_SIZE};

fn price_point(ts: u64, up: i64, down: i64) -> PricePoint {
    PricePoint {
        timestamp: ts,
        up_price: up,
        down_price: down,
        actual_outcome: None,
        asset: Some(Asset::Btc),
        news_event: None,
    }
}

fn buy_up_eval(price: i64, shares: i64) -> TickEval {
    TickEval {
        action: TradeAction::BuyUp { price, shares },
        up_index: None,
        down_index: None,
        up_signal: None,
        down_signal: None,
        up_macd_increasing: true,
        down_macd_increasing: true,
    }
}

fn open_up_cycle(engine: &mut CycleEngine, entry: i64, shares: i64, ts: u64) -> ActiveCycle {
    let pp = price_point(ts, entry, SCALE - entry);
    let eval = buy_up_eval(entry, shares);
    match engine.handle_entry_signal_sim(&eval, &pp, ts) {
        EntryDecision::OpenedSimulated { cycle, .. } => cycle,
        other => panic!("entry not opened: {:?}", other),
    }
}

#[test]
fn take_profit_triggers_at_tp_price_and_books_profit() {
    let mut cfg = StrategyConfig::default_rsi();
    cfg.profit_threshold = 50_000;
    cfg.sl_threshold = 50_000;
    let mut engine = CycleEngine::new(&cfg);
    let cycle = open_up_cycle(&mut engine, 400_000, 10 * SCALE, 900);
    assert_eq!(cycle.tp_price, 450_000);
    assert_eq!(cycle.sl_price, 350_000);

    // Same-side ask 0.46 >= tp 0.45: close with pnl (0.45-0.40)*10 = 0.5.
    let tick = price_point(900, 460_000, 540_000);
    let exit = engine.check_exits(&tick, None, None);
    assert_eq!(exit, ExitEvent::TakeProfit { pnl: 500_000 });
    assert!(engine.current_cycle.is_none());
    assert_eq!(engine.total_pnl, 500_000);
    assert_eq!(engine.wins, 1);
    assert_eq!(engine.losses, 0);
}

#[test]
fn take_profit_requires_attainable_tp_price() {
    let mut cfg = StrategyConfig::default_rsi();
    cfg.profit_threshold = 100_000;
    let mut engine = CycleEngine::new(&cfg);
    // Entry at 0.95: tp 1.05 > 1 can never fill.
    let cycle = open_up_cycle(&mut engine, 950_000, 10 * SCALE, 900);
    assert_eq!(cycle.tp_price, 1_050_000);
    let tick = price_point(900, 990_000, 10_000);
    let exit = engine.check_exits(&tick, None, None);
    assert_eq!(exit, ExitEvent::NoExit);
    assert!(engine.current_cycle.is_some());
}

#[test]
fn stop_loss_triggers_on_opposite_ask_and_books_loss() {
    let mut cfg = StrategyConfig::default_rsi();
    cfg.profit_threshold = 50_000;
    cfg.sl_threshold = 50_000;
    let mut engine = CycleEngine::new(&cfg);
    open_up_cycle(&mut engine, 400_000, 10 * SCALE, 900);

    // sl = 0.35, so the stop fires once the Down ask reaches 0.65; 0.66 does.
    let tick = price_point(900, 340_000, 660_000);
    let exit = engine.check_exits(&tick, None, None);
    assert_eq!(
        exit,
        ExitEvent::StopLoss { pnl: -500_000, opposite_ask: 660_000 }
    );
    assert!(engine.current_cycle.is_none());
    assert_eq!(engine.total_pnl, -500_000);
    assert_eq!(engine.losses, 1);
    assert_eq!(engine.wins, 0);
}

#[test]
fn stop_loss_not_triggered_below_threshold() {
    let mut cfg = StrategyConfig::default_rsi();
    cfg.sl_threshold = 50_000;
    let mut engine = CycleEngine::new(&cfg);
    open_up_cycle(&mut engine, 400_000, 10 * SCALE, 900);
    // Opposite ask 0.64 < 1 - 0.35 = 0.65: no stop.
    let tick = price_point(900, 360_000, 640_000);
    assert_eq!(engine.check_exits(&tick, None, None), ExitEvent::NoExit);
    assert!(engine.current_cycle.is_some());
}

#[test]
fn macd_filter_suppresses_stop_loss_while_momentum_positive() {
    let mut cfg = StrategyConfig::default_macd();
    assert!(cfg.use_macd_sl_filter);
    cfg.profit_threshold = 50_000;
    cfg.sl_threshold = 50_000;
    let mut engine = CycleEngine::new(&cfg);
    open_up_cycle(&mut engine, 400_000, 10 * SCALE, 900);

    let tick = price_point(900, 340_000, 660_000);
    // Held side's MACD still positive: suppressed, cycle stays open.
    let exit = engine.check_exits(&tick, Some(5_000), None);
    assert_eq!(exit, ExitEvent::StopLossSkipped { macd: 5_000 });
    assert!(engine.current_cycle.is_some());
    assert_eq!(engine.losses, 0);

    // MACD no longer positive: the stop fires.
    let exit = engine.check_exits(&tick, Some(-1), None);
    assert_eq!(
        exit,
        ExitEvent::StopLoss { pnl: -500_000, opposite_ask: 660_000 }
    );
    assert!(engine.current_cycle.is_none());
    assert_eq!(engine.losses, 1);
}

#[test]
fn settlement_pays_full_win_on_terminal_price() {
    let cfg = StrategyConfig::default_rsi();
    let mut engine = CycleEngine::new(&cfg);
    open_up_cycle(&mut engine, 400_000, 10 * SCALE, 900);
    let terminal = price_point(900, 995_000, 5_000);
    engine.note_last_price(Asset::Btc, &terminal);

    let (cancelled, settlement) = engine.handle_market_end(Asset::Btc);
    assert!(cancelled.is_none());
    // Held Up side won: pnl = (1 - 0.40) * 10 = 6.0.
    assert_eq!(settlement, Some((6_000_000, true)));
    assert!(engine.current_cycle.is_none());
    assert_eq!(engine.wins, 1);
    assert_eq!(engine.total_pnl, 6_000_000);
}

#[test]
fn settlement_loses_entry_when_terminal_price_is_low() {
    let cfg = StrategyConfig::default_rsi();
    let mut engine = CycleEngine::new(&cfg);
    open_up_cycle(&mut engine, 400_000, 10 * SCALE, 900);
    let terminal = price_point(900, 5_000, 995_000);
    engine.note_last_price(Asset::Btc, &terminal);

    let (_, settlement) = engine.handle_market_end(Asset::Btc);
    // Held Up side lost: pnl = (0 - 0.40) * 10 = -4.0.
    assert_eq!(settlement, Some((-4_000_000, false)));
    assert_eq!(engine.losses, 1);
    assert_eq!(engine.total_pnl, -4_000_000);
}

#[test]
fn rollover_resets_counters_to_zero() {
    let cfg = StrategyConfig::default_rsi();
    let mut engine = CycleEngine::new(&cfg);
    open_up_cycle(&mut engine, 400_000, 10 * SCALE, 900);
    let terminal = price_point(900, 995_000, 5_000);
    engine.note_last_price(Asset::Btc, &terminal);
    engine.handle_market_end(Asset::Btc);
    assert_ne!(engine.total_pnl, 0);

    engine.reset_indicators_for_new_market();
    engine.reset_market_stats();
    assert_eq!(engine.total_pnl, 0);
    assert_eq!(engine.wins, 0);
    assert_eq!(engine.losses, 0);
    assert_eq!(engine.total_fund_used, 0);
    assert!(engine.pending_entry.is_none());
}

fn pending(pre_balance: i64, placed_at: u64) -> PendingEntry {
    PendingEntry {
        asset: Asset::Btc,
        side: PositionSide::LongUp,
        token_id: String::from("tok-up"),
        limit_price: 400_000,
        requested_size: 10 * SCALE,
        pre_balance,
        placed_at,
        entry_order_id: Some(String::from("order-1")),
    }
}

#[test]
fn balance_delta_of_exactly_min_delta_does_not_confirm() {
    let cfg = StrategyConfig::default_rsi();
    let mut engine = CycleEngine::new(&cfg);
    engine.register_pending(pending(5_000_000, 100));

    let step = engine.poll_pending(5_000_000 + MIN_FILL_DELTA, 105);
    assert_eq!(step, ConfirmStep::Waiting { rebaselined: false });
    assert!(engine.pending_entry.is_some());

    // One micro-token more than the minimum delta does confirm.
    let step = engine.poll_pending(5_000_000 + MIN_FILL_DELTA + 1, 105);
    match step {
        ConfirmStep::FillDetected { filled_size, .. } => {
            assert_eq!(filled_size, MIN_FILL_DELTA + 1)
        }
        other => panic!("expected fill, got {:?}", other),
    }
}

#[test]
fn rebaseline_on_balance_decrease_does_not_double_count() {
    let cfg = StrategyConfig::default_rsi();
    let mut engine = CycleEngine::new(&cfg);
    engine.register_pending(pending(5_000_000, 100));

    // A concurrent exit consumed inventory: balance fell to 4.0 tokens.
    let step = engine.poll_pending(4_000_000, 102);
    assert_eq!(step, ConfirmStep::Waiting { rebaselined: true });

    // A rise back over the old pre-balance minus the consumed amount must
    // be measured against the new baseline: 4.0005 is only +500.
    let step = engine.poll_pending(4_000_500, 103);
    assert_eq!(step, ConfirmStep::Waiting { rebaselined: false });

    // +2000 against the re-baselined 4.0 confirms exactly that delta.
    let step = engine.poll_pending(4_002_000, 104);
    match step {
        ConfirmStep::FillDetected { filled_size, .. } => assert_eq!(filled_size, 2_000),
        other => panic!("expected fill, got {:?}", other),
    }
}

#[test]
fn pending_entry_times_out_after_ten_seconds() {
    let cfg = StrategyConfig::default_rsi();
    let mut engine = CycleEngine::new(&cfg);
    engine.register_pending(pending(5_000_000, 100));
    let step = engine.poll_pending(5_000_000, 110);
    match step {
        ConfirmStep::TimedOut { entry_order_id } => {
            assert_eq!(entry_order_id.as_deref(), Some("order-1"))
        }
        other => panic!("expected timeout, got {:?}", other),
    }
    assert!(engine.pending_entry.is_none());
    assert!(engine.current_cycle.is_none());
}

#[test]
fn confirm_fill_requires_stability() {
    let mut cfg = StrategyConfig::default_rsi();
    cfg.profit_threshold = 50_000;
    cfg.sl_threshold = 50_000;
    let mut engine = CycleEngine::new(&cfg);
    engine.register_pending(pending(5_000_000, 100));

    // The re-checked balance no longer shows the rise: keep waiting.
    let pp = price_point(900, 410_000, 590_000);
    match engine.confirm_fill(&pp, 5_000_500) {
        FillOutcome::NotStable => {}
        other => panic!("expected NotStable, got {:?}", other),
    }
    assert!(engine.pending_entry.is_some());

    // A stable rise of 2.0 tokens opens the cycle with the filled size and
    // levels from the requested limit price.
    match engine.confirm_fill(&pp, 7_000_000) {
        FillOutcome::Opened { cycle, tp_order } => {
            assert_eq!(cycle.side, PositionSide::LongUp);
            assert_eq!(cycle.entry_price, 400_000);
            assert_eq!(cycle.size, 2_000_000);
            assert_eq!(cycle.tp_price, 450_000);
            assert_eq!(cycle.sl_price, 350_000);
            let tp = tp_order.expect("tp order");
            assert_eq!(tp.price, 450_000);
            assert_eq!(tp.size, 2_000_000);
            assert!(!tp.buy);
        }
        other => panic!("expected Opened, got {:?}", other),
    }
    assert!(engine.pending_entry.is_none());
    assert!(engine.current_cycle.is_some());
    // Fund committed: entry * size = 0.40 * 2.0 = 0.8.
    assert_eq!(engine.total_fund_used, 800_000);
}

#[test]
fn confirm_fill_exits_immediately_when_stop_already_hit() {
    let mut cfg = StrategyConfig::default_rsi();
    cfg.profit_threshold = 50_000;
    cfg.sl_threshold = 50_000;
    let mut engine = CycleEngine::new(&cfg);
    engine.register_pending(pending(5_000_000, 100));

    // Down ask 0.66 >= 1 - 0.35 during the confirmation window.
    let pp = price_point(900, 340_000, 660_000);
    match engine.confirm_fill(&pp, 7_000_000) {
        FillOutcome::StoppedOut { pnl, filled_size, exit_price, .. } => {
            assert_eq!(filled_size, 2_000_000);
            // (0.35 - 0.40) * 2.0 = -0.1.
            assert_eq!(pnl, -100_000);
            assert_eq!(exit_price, 660_000);
        }
        other => panic!("expected StoppedOut, got {:?}", other),
    }
    assert!(engine.pending_entry.is_none());
    assert!(engine.current_cycle.is_none());
    assert_eq!(engine.losses, 1);
}

#[test]
fn pending_and_cycle_never_coexist() {
    let mut cfg = StrategyConfig::default_rsi();
    cfg.profit_threshold = 50_000;
    let mut engine = CycleEngine::new(&cfg);
    engine.register_pending(pending(5_000_000, 100));
    assert!(engine.current_cycle.is_none() || engine.pending_entry.is_none());

    let pp = price_point(900, 410_000, 590_000);
    engine.confirm_fill(&pp, 7_000_000);
    // The pending entry became the cycle; both never exist together.
    assert!(engine.pending_entry.is_none());
    assert!(engine.current_cycle.is_some());
}

#[test]
fn remaining_time_gate_blocks_early_entries() {
    let mut cfg = StrategyConfig::default_rsi();
    cfg.trading_start_when_remaining_minutes = Some(5);
    let mut engine = CycleEngine::new(&cfg);
    let pp = price_point(900, 400_000, 600_000);
    let eval = buy_up_eval(400_000, 10 * SCALE);

    // At the period start 15 minutes remain: blocked.
    let r = engine.handle_entry_signal_sim(&eval, &pp, 900);
    assert_eq!(
        r,
        EntryDecision::SkippedRemainingTime { remaining_minutes: 15 }
    );
    assert!(engine.current_cycle.is_none());

    // With 200 seconds left (3 minutes) the entry is allowed.
    let r = engine.handle_entry_signal_sim(&eval, &pp, 900 + 700);
    assert!(matches!(r, EntryDecision::OpenedSimulated { .. }));
    assert!(engine.current_cycle.is_some());
}

#[test]
fn macd_acceleration_gate_blocks_entry() {
    let cfg = StrategyConfig::default_macd();
    let mut engine = CycleEngine::new(&cfg);
    let pp = price_point(900, 400_000, 600_000);
    let mut eval = buy_up_eval(400_000, 10 * SCALE);
    eval.up_macd_increasing = false;
    let r = engine.handle_entry_signal_sim(&eval, &pp, 900);
    assert_eq!(r, EntryDecision::SkippedAcceleration);
    assert!(engine.current_cycle.is_none());
}

#[test]
fn live_late_entry_gate_skips_high_prices_early_in_period() {
    let cfg = StrategyConfig::default_rsi();
    let engine = CycleEngine::new(&cfg);
    let pp = price_point(900, 940_000, 60_000);
    let eval = buy_up_eval(940_000, 10 * SCALE);

    // 0.94 > 0.93 with only 100 seconds elapsed: skipped.
    let r = engine.plan_entry_live(&eval, &pp, 1_000);
    assert_eq!(
        r,
        EntryDecision::SkippedLateHighPrice { elapsed_seconds: 100 }
    );

    // The same price later than 13 minutes into the period is accepted.
    let r = engine.plan_entry_live(&eval, &pp, 900 + 800);
    assert_eq!(
        r,
        EntryDecision::PlaceEntryOrder { buy_up: true, price: 940_000, size: 10 * SCALE }
    );

    // A lower price passes even early in the period.
    let eval = buy_up_eval(900_000, 10 * SCALE);
    let pp = price_point(900, 900_000, 100_000);
    let r = engine.plan_entry_live(&eval, &pp, 1_000);
    assert_eq!(
        r,
        EntryDecision::PlaceEntryOrder { buy_up: true, price: 900_000, size: 10 * SCALE }
    );
}

#[test]
fn fund_used_accumulates_entry_cost() {
    let mut cfg = StrategyConfig::default_rsi();
    cfg.profit_threshold = 50_000;
    let mut engine = CycleEngine::new(&cfg);
    open_up_cycle(&mut engine, 400_000, 10 * SCALE, 900);
    // 0.40 * 10 shares = 4.0 committed.
    assert_eq!(engine.total_fund_used, 4_000_000);
}

#[test]
fn period_rounding_floors_to_900_seconds() {
    assert_eq!(current_period(900), 900);
    assert_eq!(current_period(1_000), 900);
    assert_eq!(current_period(1_799), 900);
    assert_eq!(current_period(1_800), 1_800);
}

#[test]
fn tp_checked_before_sl_when_both_hit() {
    let mut cfg = StrategyConfig::default_rsi();
    cfg.profit_threshold = 50_000;
    cfg.sl_threshold = 50_000;
    let mut engine = CycleEngine::new(&cfg);
    open_up_cycle(&mut engine, 400_000, 10 * SCALE, 900);
    // Same-side ask satisfies the take-profit and the opposite ask the
    // stop-loss: take-profit wins and the stop is moot.
    let tick = price_point(900, 460_000, 660_000);
    let exit = engine.check_exits(&tick, None, None);
    assert_eq!(exit, ExitEvent::TakeProfit { pnl: 500_000 });
    assert_eq!(engine.wins, 1);
    assert_eq!(engine.losses, 0);
}

#[test]
fn largest_position_size_settles_without_overflow() {
    let mut cfg = StrategyConfig::default_rsi();
    cfg.position_size_shares = MAX_POSITION_SIZE;
    let mut engine = CycleEngine::new(&cfg);
    open_up_cycle(&mut engine, 400_000, MAX_POSITION_SIZE, 900);
    let terminal = price_point(900, 995_000, 5_000);
    engine.note_last_price(Asset::Btc, &terminal);
    let (_, settlement) = engine.handle_market_end(Asset::Btc);
    // (1 - 0.40) of a million shares: 600_000 whole units.
    assert_eq!(settlement, Some((600_000 * SCALE, true)));
}

#[test]
fn settlement_without_observed_prices_still_closes_and_books_loss() {
    // A side whose terminal price was never observed showed no win: the
    // cycle always closes at period end, settling as a loss of its entry.
    let cfg = StrategyConfig::default_rsi();
    let mut engine = CycleEngine::new(&cfg);
    open_up_cycle(&mut engine, 400_000, 10 * SCALE, 900);

    let (cancelled, settlement) = engine.handle_market_end(Asset::Btc);
    assert!(cancelled.is_none());
    assert_eq!(settlement, Some((-4_000_000, false)));
    assert!(engine.current_cycle.is_none());
    assert_eq!(engine.losses, 1);
    assert_eq!(engine.total_pnl, -4_000_000);
}
