use trading_bot::analysis::Analyze;
use trading_bot::analysis::Illustrative;
use trading_bot::bot::TradingBot;
use trading_bot::ieee::Binary32;
use trading_bot::ieee::Binary64;
use trading_bot::signal::clone_signals;
use trading_bot::signal::stamp_all;
use trading_bot::signal::Action;
use trading_bot::signal::Proposal;
use trading_bot::signal::TradeSignal;
use trading_bot::state::BotState;
use trading_bot::state::TradeError;
use trading_bot::trade::clone_trades;
use trading_bot::trade::count_confident;
use trading_bot::trade::ids_available;
use trading_bot::trade::mint_trades;
use trading_bot::trade::select_confident;

fn proposal(pair: &str, action: Action, confidence: f32, price: f64) -> Proposal {
    Proposal {
        pair: pair.to_string(),
        action,
        confidence: Binary32::from_bits(confidence.to_bits()),
        price: Binary64::from_bits(price.to_bits()),
    }
}

fn signal(timestamp: u64, pair: &str, confidence: f32) -> TradeSignal {
    proposal(pair, Action::Buy, confidence, 1.0).stamp(timestamp)
}

fn confidence_of(signal: &TradeSignal) -> f32 {
    f32::from_bits(signal.confidence.to_bits())
}

#[test]
fn a_new_bot_is_in_the_initial_state() {
    let bot = TradingBot::new();
    let state = bot.get_bot_state();
    assert!(!state.active);
    assert_eq!(f64::from_bits(state.balance.to_bits()), 0.0);
    assert_eq!(state.balance.to_bits(), 0);
    assert_eq!(state.last_analysis, None);
    assert_eq!(state.strategy, "momentum");
    assert_eq!(f32::from_bits(state.risk_level.to_bits()), 0.5);
    assert!(bot.get_signals().is_empty());
    assert!(bot.get_trade_history().is_empty());
}

#[test]
fn the_default_state_is_the_initial_state() {
    let state = BotState::default();
    assert!(!state.active);
    assert_eq!(state.balance.to_bits(), 0);
    assert_eq!(state.last_analysis, None);
    assert_eq!(state.strategy, "momentum");
    assert_eq!(state.risk_level.to_bits(), 0x3F00_0000);
}

#[test]
fn the_illustrative_strategy_proposes_its_two_trades() {
    let proposals = Illustrative.analyze("whatever the market says");
    assert_eq!(proposals.len(), 2);
    assert_eq!(proposals[0].pair, "ICP/USD");
    assert_eq!(proposals[0].action, Action::Buy);
    assert_eq!(f32::from_bits(proposals[0].confidence.to_bits()), 0.75);
    assert_eq!(f64::from_bits(proposals[0].price.to_bits()), 12.34);
    assert_eq!(proposals[1].pair, "BTC/USD");
    assert_eq!(proposals[1].action, Action::Sell);
    assert_eq!(f32::from_bits(proposals[1].confidence.to_bits()), 0.62);
    assert_eq!(f64::from_bits(proposals[1].price.to_bits()), 42356.78);
}

#[test]
fn analyze_market_records_one_batch_with_one_time() {
    let mut bot = TradingBot::new();
    assert_eq!(bot.analyze_market("first", 1_000), Ok(()));
    assert_eq!(bot.analyze_market("second", 2_000), Ok(()));
    let signals = bot.get_signals();
    assert_eq!(signals.len(), 4);
    assert_eq!(signals[0].timestamp, 1_000);
    assert_eq!(signals[1].timestamp, 1_000);
    assert_eq!(signals[2].timestamp, 2_000);
    assert_eq!(signals[3].timestamp, 2_000);
    assert_eq!(signals[0].pair, "ICP/USD");
    assert_eq!(signals[1].pair, "BTC/USD");
    assert_eq!(signals[2].pair, "ICP/USD");
    assert_eq!(signals[3].pair, "BTC/USD");
    assert_eq!(bot.get_bot_state().last_analysis, Some(2_000));
    assert!(bot.get_trade_history().is_empty());
}

#[test]
fn analyze_market_ignores_its_input() {
    let mut one = TradingBot::new();
    let mut other = TradingBot::new();
    assert_eq!(one.analyze_market("", 9), Ok(()));
    assert_eq!(other.analyze_market("{\"btc\": 1}", 9), Ok(()));
    let a = one.get_signals();
    let b = other.get_signals();
    assert_eq!(a.len(), b.len());
    for i in 0..a.len() {
        assert_eq!(a[i].timestamp, b[i].timestamp);
        assert_eq!(a[i].pair, b[i].pair);
        assert_eq!(a[i].action, b[i].action);
        assert_eq!(a[i].confidence, b[i].confidence);
        assert_eq!(a[i].price, b[i].price);
    }
}

#[test]
fn analyze_market_with_records_what_the_strategy_proposes() {
    let mut bot = TradingBot::new();
    assert_eq!(bot.analyze_market_with(&Illustrative, "x", 77), Ok(()));
    let signals = bot.get_signals();
    assert_eq!(signals.len(), 2);
    assert_eq!(signals[0].timestamp, 77);
    assert_eq!(signals[1].timestamp, 77);
    assert_eq!(signals[0].action, Action::Buy);
    assert_eq!(signals[1].action, Action::Sell);
    assert_eq!(bot.get_bot_state().last_analysis, Some(77));
}

#[test]
fn record_analysis_stamps_every_proposal_with_the_same_time() {
    let mut bot = TradingBot::new();
    let proposals = vec![
        proposal("A/B", Action::Buy, 0.1, 1.5),
        proposal("C/D", Action::Sell, 0.9, 2.5),
        proposal("E/F", Action::Buy, 0.61, 3.5),
    ];
    bot.record_analysis(&proposals, 42);
    let signals = bot.get_signals();
    assert_eq!(signals.len(), 3);
    for (i, s) in signals.iter().enumerate() {
        assert_eq!(s.timestamp, 42);
        assert_eq!(s.pair, proposals[i].pair);
        assert_eq!(s.action, proposals[i].action);
        assert_eq!(s.confidence, proposals[i].confidence);
        assert_eq!(s.price, proposals[i].price);
    }
    assert_eq!(bot.get_bot_state().last_analysis, Some(42));
}

#[test]
fn record_analysis_of_nothing_still_notes_the_time() {
    let mut bot = TradingBot::new();
    bot.record_analysis(&Vec::new(), 5);
    assert!(bot.get_signals().is_empty());
    assert_eq!(bot.get_bot_state().last_analysis, Some(5));
}

#[test]
fn execute_trades_on_an_inactive_bot_fails_and_changes_nothing() {
    let mut bot = TradingBot::new();
    assert_eq!(bot.analyze_market("x", 10), Ok(()));
    assert_eq!(bot.execute_trades(20), Err(TradeError::BotInactive));
    assert_eq!(bot.get_trade_history().len(), 0);
    assert_eq!(bot.get_signals().len(), 2);
    assert!(!bot.get_bot_state().active);

    bot.toggle_bot(true);
    assert_eq!(bot.execute_trades(30), Ok(()));
    let before = bot.get_trade_history().len();
    bot.toggle_bot(false);
    assert_eq!(bot.execute_trades(40), Err(TradeError::BotInactive));
    assert_eq!(bot.get_trade_history().len(), before);
}

#[test]
fn the_error_says_that_the_bot_is_not_active() {
    assert_eq!(TradeError::BotInactive.message(), "Bot is not active");
}

#[test]
fn execute_trades_without_signals_adds_nothing_and_succeeds() {
    let mut bot = TradingBot::new();
    bot.toggle_bot(true);
    assert_eq!(bot.execute_trades(5), Ok(()));
    assert!(bot.get_trade_history().is_empty());
}

#[test]
fn execute_trades_takes_only_confidences_strictly_above_the_threshold() {
    let mut bot = TradingBot::new();
    let confidences: Vec<f32> = vec![
        0.59,
        0.6,
        f32::from_bits(0.6f32.to_bits() + 1),
        0.61,
        0.0,
        -0.9,
        1.0,
        f32::NAN,
        f32::INFINITY,
        f32::NEG_INFINITY,
        0.75,
        0.5999999,
    ];
    let proposals: Vec<Proposal> =
        confidences.iter().map(|c| proposal("X/Y", Action::Sell, *c, 10.0)).collect();
    bot.record_analysis(&proposals, 100);
    bot.toggle_bot(true);
    assert_eq!(bot.execute_trades(200), Ok(()));
    let trades = bot.get_trade_history();
    let expected: Vec<f32> = confidences.iter().copied().filter(|c| *c > 0.6).collect();
    assert_eq!(expected.len(), 5);
    assert_eq!(trades.len(), expected.len());
    for (i, t) in trades.iter().enumerate() {
        assert_eq!(confidence_of(&t.signal).to_bits(), expected[i].to_bits());
        assert!(confidence_of(&t.signal) > 0.6);
        assert_eq!(t.id, 200 + i as u64);
        assert_eq!(t.timestamp, 200);
        assert_eq!(t.signal.timestamp, 100);
        assert!(t.executed);
        assert_eq!(t.profit_loss, None);
    }
}

#[test]
fn execute_trades_twice_adds_two_batches_of_equal_size() {
    let mut bot = TradingBot::new();
    assert_eq!(bot.analyze_market("x", 10), Ok(()));
    bot.toggle_bot(true);
    assert_eq!(bot.execute_trades(1_000), Ok(()));
    let first = bot.get_trade_history();
    assert_eq!(first.len(), 2);
    assert_eq!(bot.execute_trades(2_000), Ok(()));
    let both = bot.get_trade_history();
    assert_eq!(both.len(), 4);
    for i in 0..2 {
        assert_eq!(both[i].id, first[i].id);
        assert_eq!(both[i].id, 1_000 + i as u64);
        assert_eq!(both[i + 2].id, 2_000 + i as u64);
        assert_eq!(both[i + 2].timestamp, 2_000);
        assert_eq!(both[i].signal.pair, both[i + 2].signal.pair);
        assert_eq!(both[i].signal.confidence, both[i + 2].signal.confidence);
        assert_eq!(both[i].signal.timestamp, both[i + 2].signal.timestamp);
    }
    assert_eq!(bot.get_signals().len(), 2);
}

#[test]
fn execute_trades_at_one_time_twice_repeats_the_identifiers() {
    let mut bot = TradingBot::new();
    assert_eq!(bot.analyze_market("x", 10), Ok(()));
    bot.toggle_bot(true);
    assert_eq!(bot.execute_trades(500), Ok(()));
    assert_eq!(bot.execute_trades(500), Ok(()));
    let trades = bot.get_trade_history();
    assert_eq!(trades.len(), 4);
    assert_eq!(trades[0].id, 500);
    assert_eq!(trades[1].id, 501);
    assert_eq!(trades[2].id, 500);
    assert_eq!(trades[3].id, 501);
}

#[test]
fn toggle_bot_sets_the_flag_and_returns_the_state() {
    let mut bot = TradingBot::new();
    let state = bot.toggle_bot(true);
    assert!(state.active);
    assert!(bot.get_bot_state().active);
    assert_eq!(state.strategy, "momentum");
    assert_eq!(state.risk_level.to_bits(), 0.5f32.to_bits());
    let state = bot.toggle_bot(true);
    assert!(state.active);
    let state = bot.toggle_bot(false);
    assert!(!state.active);
    assert!(!bot.get_bot_state().active);
}

#[test]
fn update_strategy_sets_both_values_exactly() {
    let mut bot = TradingBot::new();
    bot.toggle_bot(true);
    assert_eq!(bot.analyze_market("x", 3), Ok(()));
    let returned =
        bot.update_strategy("meanrev".to_string(), Binary32::from_bits(0.8f32.to_bits()));
    let state = bot.get_bot_state();
    assert_eq!(returned.strategy, "meanrev");
    assert_eq!(state.strategy, "meanrev");
    assert_eq!(f32::from_bits(state.risk_level.to_bits()), 0.8);
    assert_eq!(returned.risk_level, state.risk_level);
    assert!(state.active);
    assert_eq!(state.last_analysis, Some(3));
    assert_eq!(state.balance.to_bits(), 0);
}

#[test]
fn update_strategy_accepts_any_risk_level() {
    let mut bot = TradingBot::new();
    for risk in [-3.5f32, 0.0, 17.0, f32::INFINITY] {
        let state = bot.update_strategy(String::new(), Binary32::from_bits(risk.to_bits()));
        assert_eq!(state.strategy, "");
        assert_eq!(state.risk_level.to_bits(), risk.to_bits());
    }
    let nan = Binary32::from_bits(f32::NAN.to_bits());
    assert_eq!(bot.update_strategy("s".to_string(), nan).risk_level, nan);
}

#[test]
fn a_first_round_from_the_initial_state() {
    let mut bot = TradingBot::new();
    let state = bot.get_bot_state();
    assert!(!state.active);
    assert_eq!(state.strategy, "momentum");
    assert_eq!(f32::from_bits(state.risk_level.to_bits()), 0.5);

    assert_eq!(bot.analyze_market("any input", 1_700_000_000_000_000_000), Ok(()));
    let signals = bot.get_signals();
    assert_eq!(signals.len(), 2);
    assert_eq!(signals[0].pair, "ICP/USD");
    assert_eq!(signals[0].action, Action::Buy);
    assert_eq!(signals[0].action.label(), "BUY");
    assert_eq!(confidence_of(&signals[0]), 0.75);
    assert_eq!(f64::from_bits(signals[0].price.to_bits()), 12.34);
    assert_eq!(signals[0].timestamp, 1_700_000_000_000_000_000);
    assert_eq!(signals[1].pair, "BTC/USD");
    assert_eq!(signals[1].action, Action::Sell);
    assert_eq!(signals[1].action.label(), "SELL");
    assert_eq!(confidence_of(&signals[1]), 0.62);
    assert_eq!(f64::from_bits(signals[1].price.to_bits()), 42356.78);
    assert_eq!(signals[1].timestamp, 1_700_000_000_000_000_000);

    assert!(bot.toggle_bot(true).active);
    assert_eq!(bot.execute_trades(1_700_000_000_000_000_500), Ok(()));
    let trades = bot.get_trade_history();
    assert_eq!(trades.len(), 2);
    assert_eq!(trades[0].id, 1_700_000_000_000_000_500);
    assert_eq!(trades[1].id, 1_700_000_000_000_000_501);
    assert_eq!(trades[0].signal.pair, "ICP/USD");
    assert_eq!(trades[1].signal.pair, "BTC/USD");
    for t in &trades {
        assert!(t.executed);
        assert_eq!(t.profit_loss, None);
        assert_eq!(t.timestamp, 1_700_000_000_000_000_500);
        assert_eq!(t.signal.timestamp, 1_700_000_000_000_000_000);
    }
}

#[test]
fn what_the_queries_return_is_a_copy() {
    let mut bot = TradingBot::new();
    assert_eq!(bot.analyze_market("x", 1), Ok(()));
    bot.toggle_bot(true);
    assert_eq!(bot.execute_trades(2), Ok(()));

    let mut state = bot.get_bot_state();
    state.active = false;
    state.strategy.push_str("-changed");
    let mut signals = bot.get_signals();
    signals[0].pair.clear();
    signals.pop();
    let mut trades = bot.get_trade_history();
    trades[0].executed = false;
    trades[0].profit_loss = Some(Binary64::from_bits(1.0f64.to_bits()));
    trades.clear();

    assert!(bot.get_bot_state().active);
    assert_eq!(bot.get_bot_state().strategy, "momentum");
    assert_eq!(bot.get_signals().len(), 2);
    assert_eq!(bot.get_signals()[0].pair, "ICP/USD");
    assert_eq!(bot.get_trade_history().len(), 2);
    assert!(bot.get_trade_history()[0].executed);
    assert_eq!(bot.get_trade_history()[0].profit_loss, None);
}

#[test]
fn can_execute_tells_whether_the_identifiers_fit() {
    let mut bot = TradingBot::new();
    assert!(bot.can_execute(u64::MAX));
    assert_eq!(bot.analyze_market("x", 1), Ok(()));
    assert!(bot.can_execute(u64::MAX));
    bot.toggle_bot(true);
    assert!(!bot.can_execute(u64::MAX));
    assert!(bot.can_execute(u64::MAX - 1));
    assert!(bot.can_execute(0));
    assert_eq!(bot.execute_trades(u64::MAX - 1), Ok(()));
    let trades = bot.get_trade_history();
    assert_eq!(trades[0].id, u64::MAX - 1);
    assert_eq!(trades[1].id, u64::MAX);
}

#[test]
fn ids_available_at_the_edge() {
    assert!(ids_available(u64::MAX, 0));
    assert!(ids_available(u64::MAX, 1));
    assert!(!ids_available(u64::MAX, 2));
    assert!(ids_available(u64::MAX - 4, 5));
    assert!(!ids_available(u64::MAX - 4, 6));
    assert!(ids_available(0, 1_000));
}

#[test]
fn select_confident_keeps_the_order() {
    let signals = vec![
        signal(1, "a", 0.7),
        signal(2, "b", 0.2),
        signal(3, "c", 0.6),
        signal(4, "d", 0.9),
        signal(5, "e", 0.61),
    ];
    let chosen = select_confident(&signals);
    let pairs: Vec<&str> = chosen.iter().map(|s| s.pair.as_str()).collect();
    assert_eq!(pairs, vec!["a", "d", "e"]);
    assert_eq!(chosen[1].timestamp, 4);
    assert_eq!(count_confident(&signals), 3);
    assert_eq!(signals.len(), 5);
}

#[test]
fn select_confident_of_nothing_is_nothing() {
    assert!(select_confident(&Vec::new()).is_empty());
    assert_eq!(count_confident(&Vec::new()), 0);
    let low = vec![signal(1, "a", 0.1), signal(2, "b", 0.6)];
    assert!(select_confident(&low).is_empty());
    assert_eq!(count_confident(&low), 0);
}

#[test]
fn mint_trades_numbers_from_the_given_time() {
    let trades = mint_trades(vec![signal(1, "a", 0.7), signal(2, "b", 0.9), signal(3, "c", 0.8)], 50);
    assert_eq!(trades.len(), 3);
    for (i, t) in trades.iter().enumerate() {
        assert_eq!(t.id, 50 + i as u64);
        assert_eq!(t.timestamp, 50);
        assert!(t.executed);
        assert_eq!(t.profit_loss, None);
    }
    assert_eq!(trades[0].signal.pair, "a");
    assert_eq!(trades[1].signal.pair, "b");
    assert_eq!(trades[2].signal.pair, "c");
    assert_eq!(trades[2].signal.timestamp, 3);
    assert!(mint_trades(Vec::new(), u64::MAX).is_empty());
}

#[test]
fn stamp_puts_the_time_on_a_proposal() {
    let s = proposal("ETH/USD", Action::Sell, 0.33, 2000.5).stamp(123);
    assert_eq!(s.timestamp, 123);
    assert_eq!(s.pair, "ETH/USD");
    assert_eq!(s.action, Action::Sell);
    assert_eq!(f32::from_bits(s.confidence.to_bits()), 0.33);
    assert_eq!(f64::from_bits(s.price.to_bits()), 2000.5);
}

#[test]
fn stamp_all_keeps_the_order_of_the_proposals() {
    let proposals = vec![proposal("a", Action::Buy, 0.1, 1.0), proposal("b", Action::Sell, 0.2, 2.0)];
    let signals = stamp_all(&proposals, 8);
    assert_eq!(signals.len(), 2);
    assert_eq!(signals[0].pair, "a");
    assert_eq!(signals[1].pair, "b");
    assert_eq!(signals[0].timestamp, 8);
    assert_eq!(signals[1].timestamp, 8);
    assert_eq!(signals[1].action, Action::Sell);
    assert!(stamp_all(&Vec::new(), 8).is_empty());
}

#[test]
fn copies_hold_what_was_copied() {
    let signals = vec![signal(1, "a", 0.7), signal(2, "b", 0.2)];
    let copy = clone_signals(&signals);
    assert_eq!(copy.len(), 2);
    assert_eq!(copy[1].pair, "b");
    assert_eq!(copy[1].timestamp, 2);
    assert_eq!(copy[1].confidence, signals[1].confidence);
    let trades = mint_trades(clone_signals(&signals), 9);
    let copy = clone_trades(&trades);
    assert_eq!(copy.len(), 2);
    assert_eq!(copy[1].id, 10);
    assert_eq!(copy[1].signal.pair, "b");
    let one = trades[0].clone();
    assert_eq!(one.id, 9);
    assert_eq!(one.signal.pair, "a");
    let p = proposal("p", Action::Buy, 0.4, 4.0).clone();
    assert_eq!(p.pair, "p");
    let state = BotState::default().clone();
    assert_eq!(state.strategy, "momentum");
}

#[test]
fn signals_stand_in_the_order_of_their_times_while_the_clock_runs_forward() {
    let mut bot = TradingBot::new();
    for now in [5u64, 5, 9, 20] {
        assert_eq!(bot.analyze_market("x", now), Ok(()));
    }
    let signals = bot.get_signals();
    assert_eq!(signals.len(), 8);
    for pair in signals.windows(2) {
        assert!(pair[0].timestamp <= pair[1].timestamp);
    }
    assert_eq!(bot.get_bot_state().last_analysis, Some(20));
}
