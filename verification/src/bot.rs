//! The engine: one bot state, the signals recorded so far and the trades
//! executed so far, with the operations that callers have on them.
//!
//! The engine reads no clock. Every operation that needs the time takes it as
//! `now`, read once by the caller for that call.

use vstd::prelude::*;
use crate::analysis::Analyze;
use crate::analysis::Illustrative;
use crate::analysis::illustrative_proposals;
use crate::ieee::Binary32;
use crate::laws::lemma_execute_keeps_consistent;
use crate::laws::lemma_execution_without_signals_adds_nothing;
use crate::laws::lemma_record_keeps_consistent;
use crate::signal::Proposal;
use crate::signal::ProposalView;
use crate::signal::SignalView;
use crate::signal::TradeSignal;
use crate::signal::clone_signals;
use crate::signal::proposal_views;
use crate::signal::signal_views;
use crate::signal::stamp_all;
use crate::signal::stamped;
use crate::state::BotState;
use crate::state::BotStateView;
use crate::state::TradeError;
use crate::state::initial_state;
use crate::trade::Trade;
use crate::trade::TradeView;
use crate::trade::clone_trades;
use crate::trade::confident;
use crate::trade::count_confident;
use crate::trade::ids_available;
use crate::trade::ids_fit;
use crate::trade::mint_trades;
use crate::trade::minted;
use crate::trade::select_confident;
use crate::trade::selected;
use crate::trade::trade_views;
use crate::trade::well_minted;

verus! {

/// The two records of the engine. Both only ever grow, at the end.
struct Ledger {
    signals: Vec<TradeSignal>,
    trades: Vec<Trade>,
}

/// The engine: the bot state, the signals recorded so far and the trades
/// executed so far.
pub struct TradingBot {
    state: BotState,
    ledger: Ledger,
}

/// What a [`TradingBot`] holds.
pub struct TradingBotView {
    pub state: BotStateView,
    pub signals: Seq<SignalView>,
    pub trades: Seq<TradeView>,
}

impl TradingBotView {
    /// The engine before anything has happened.
    pub open spec fn initial() -> TradingBotView {
        TradingBotView {
            state: initial_state(),
            signals: Seq::empty(),
            trades: Seq::empty(),
        }
    }

    /// What holds of every engine: each trade is well minted, and the signal
    /// that it executed is among the recorded signals.
    pub open spec fn consistent(self) -> bool {
        forall|i: int|
            0 <= i < self.trades.len() ==> well_minted(#[trigger] self.trades[i])
                && self.signals.contains(self.trades[i].signal)
    }

    /// The engine after an analysis at `now` that made the given proposals.
    pub open spec fn record(self, proposals: Seq<ProposalView>, now: nat) -> TradingBotView {
        TradingBotView {
            state: BotStateView { last_analysis: Some(now), ..self.state },
            signals: self.signals + stamped(proposals, now),
            trades: self.trades,
        }
    }

    /// The trades that an execution at `now` adds.
    pub open spec fn batch(self, now: nat) -> Seq<TradeView> {
        minted(selected(self.signals), now)
    }

    /// The engine after an execution at `now`: unchanged if the bot is
    /// switched off, else with one more trade for each confident signal.
    pub open spec fn execute(self, now: nat) -> TradingBotView {
        if self.state.active {
            TradingBotView { trades: self.trades + self.batch(now), ..self }
        } else {
            self
        }
    }

    /// The engine after the bot was switched on or off.
    pub open spec fn toggle(self, active: bool) -> TradingBotView {
        TradingBotView { state: BotStateView { active, ..self.state }, ..self }
    }

    /// The engine after the strategy and its risk level were replaced.
    pub open spec fn retune(self, strategy: Seq<char>, risk_level: Binary32) -> TradingBotView {
        TradingBotView { state: BotStateView { strategy, risk_level, ..self.state }, ..self }
    }
}

impl View for TradingBot {
    type V = TradingBotView;

    closed spec fn view(&self) -> TradingBotView {
        TradingBotView {
            state: self.state@,
            signals: signal_views(self.ledger.signals@),
            trades: trade_views(self.ledger.trades@),
        }
    }
}

impl Ledger {
    /// A ledger without entries.
    fn new() -> (r: Ledger)
        ensures
            r.signals@.len() == 0,
            r.trades@.len() == 0,
    {
        Ledger { signals: Vec::new(), trades: Vec::new() }
    }
}

impl TradingBot {
    #[verifier::type_invariant]
    spec fn sound(&self) -> bool {
        self@.consistent()
    }

    /// An engine in its initial state, with no signals and no trades.
    pub fn new() -> (r: TradingBot)
        ensures
            r@ == TradingBotView::initial(),
            r@.consistent(),
    {
        let bot = TradingBot { state: BotState::default(), ledger: Ledger::new() };
        assert(bot@.signals =~= Seq::<SignalView>::empty());
        assert(bot@.trades =~= Seq::<TradeView>::empty());
        bot
    }

    /// Records the proposals of one analysis made at `now` as signals, in
    /// their order and all with the time `now`, and notes `now` as the time
    /// of the last analysis.
    pub fn record_analysis(&mut self, proposals: &Vec<Proposal>, now: u64)
        ensures
            final(self)@ == old(self)@.record(proposal_views(proposals@), now as nat),
            final(self)@.consistent(),
            forall|i: int|
                old(self)@.signals.len() <= i < final(self)@.signals.len() ==> (
                #[trigger] final(self)@.signals[i]).timestamp == now,
    {
        proof {
            use_type_invariant(&*self);
        }
        let ghost before = self@;
        let mut batch = stamp_all(proposals, now);
        let ghost added = signal_views(batch@);
        // The ledger is taken out while it grows: `self` never holds a
        // ledger that is half written.
        let mut ledger = Ledger::new();
        core::mem::swap(&mut self.ledger, &mut ledger);
        ledger.signals.append(&mut batch);
        proof {
            assert(signal_views(ledger.signals@) =~= before.signals + added);
            lemma_record_keeps_consistent(before, proposal_views(proposals@), now as nat);
        }
        core::mem::swap(&mut self.ledger, &mut ledger);
        self.state.last_analysis = Some(now);
    }

    /// Analyses the market data with the given strategy and records what it
    /// proposes as the signals of one analysis made at `now`. Never fails.
    pub fn analyze_market_with<A: Analyze>(&mut self, strategy: &A, data: &str, now: u64) -> (r:
        Result<(), TradeError>)
        ensures
            r is Ok,
            final(self)@ == old(self)@.record(strategy.proposals(data@), now as nat),
            final(self)@.consistent(),
            forall|i: int|
                old(self)@.signals.len() <= i < final(self)@.signals.len() ==> (
                #[trigger] final(self)@.signals[i]).timestamp == now,
    {
        let proposals = strategy.analyze(data);
        self.record_analysis(&proposals, now);
        Ok(())
    }

    /// Analyses the market data with the illustrative strategy: records a
    /// signal to buy `ICP/USD` and one to sell `BTC/USD`, both with the time
    /// `now`, and notes `now` as the time of the last analysis. Never fails.
    pub fn analyze_market(&mut self, data: &str, now: u64) -> (r: Result<(), TradeError>)
        ensures
            r is Ok,
            final(self)@ == old(self)@.record(illustrative_proposals(), now as nat),
            final(self)@.consistent(),
            forall|i: int|
                old(self)@.signals.len() <= i < final(self)@.signals.len() ==> (
                #[trigger] final(self)@.signals[i]).timestamp == now,
    {
        self.analyze_market_with(&Illustrative, data, now)
    }

    /// Whether an execution at `now` can number its trades: true if the bot
    /// is switched off, for then none is minted.
    pub fn can_execute(&self, now: u64) -> (r: bool)
        ensures
            r == (self@.state.active ==> ids_fit(now as nat, selected(self@.signals).len())),
    {
        !self.state.active || ids_available(now, count_confident(&self.ledger.signals))
    }

    /// Executes every recorded signal that is confident enough, whether or
    /// not it was executed before: mints one trade for each at `now` and adds
    /// them to the trades, in the order of the signals. Fails, and changes
    /// nothing, if the bot is switched off.
    pub fn execute_trades(&mut self, now: u64) -> (r: Result<(), TradeError>)
        requires
            old(self)@.state.active ==> ids_fit(now as nat, selected(old(self)@.signals).len()),
        ensures
            r is Ok <==> old(self)@.state.active,
            r is Err ==> r == Err::<(), TradeError>(TradeError::BotInactive),
            final(self)@ == old(self)@.execute(now as nat),
            !old(self)@.state.active ==> final(self)@ == old(self)@,
            old(self)@.signals.len() == 0 ==> final(self)@.trades == old(self)@.trades,
            final(self)@.consistent(),
            forall|i: int|
                0 <= i < final(self)@.trades.len() ==> confident(
                    (#[trigger] final(self)@.trades[i]).signal.confidence,
                ),
    {
        proof {
            use_type_invariant(&*self);
        }
        if !self.state.active {
            return Err(TradeError::BotInactive);
        }
        let ghost before = self@;
        let chosen = select_confident(&self.ledger.signals);
        let mut batch = mint_trades(chosen, now);
        let ghost added = trade_views(batch@);
        let mut ledger = Ledger::new();
        core::mem::swap(&mut self.ledger, &mut ledger);
        ledger.trades.append(&mut batch);
        proof {
            assert(trade_views(ledger.trades@) =~= before.trades + added);
            lemma_execute_keeps_consistent(before, now as nat);
            if before.signals.len() == 0 {
                lemma_execution_without_signals_adds_nothing(before, now as nat);
            }
        }
        core::mem::swap(&mut self.ledger, &mut ledger);
        Ok(())
    }

    /// A copy of the bot state.
    pub fn get_bot_state(&self) -> (r: BotState)
        ensures
            r@ == self@.state,
    {
        self.state.clone()
    }

    /// A copy of all trades, in the order in which they were added.
    pub fn get_trade_history(&self) -> (r: Vec<Trade>)
        ensures
            trade_views(r@) == self@.trades,
            self@.consistent(),
    {
        proof {
            use_type_invariant(self);
        }
        clone_trades(&self.ledger.trades)
    }

    /// A copy of all signals, in the order in which they were recorded.
    pub fn get_signals(&self) -> (r: Vec<TradeSignal>)
        ensures
            signal_views(r@) == self@.signals,
    {
        clone_signals(&self.ledger.signals)
    }

    /// Switches the bot on or off and returns a copy of the resulting state.
    pub fn toggle_bot(&mut self, active: bool) -> (r: BotState)
        ensures
            final(self)@ == old(self)@.toggle(active),
            r@ == final(self)@.state,
    {
        proof {
            use_type_invariant(&*self);
        }
        self.state.active = active;
        self.state.clone()
    }

    /// Replaces the strategy and its risk level, whatever they are, and
    /// returns a copy of the resulting state.
    pub fn update_strategy(&mut self, strategy: String, risk_level: Binary32) -> (r: BotState)
        ensures
            final(self)@ == old(self)@.retune(strategy@, risk_level),
            r@ == final(self)@.state,
    {
        proof {
            use_type_invariant(&*self);
        }
        self.state.strategy = strategy;
        self.state.risk_level = risk_level;
        self.state.clone()
    }
}

} // verus!
