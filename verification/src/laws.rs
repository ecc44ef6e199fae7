//! What holds of the engine over one or several operations, stated over the
//! views that the operations' contracts use.

use vstd::prelude::*;
use crate::analysis::illustrative_proposals;
use crate::bot::TradingBotView;
use crate::ieee::Binary32;
use crate::ieee::INFINITY_32;
use crate::signal::ProposalView;
use crate::signal::SignalView;
use crate::signal::stamped;
use crate::trade::CONFIDENCE_THRESHOLD_BITS;
use crate::trade::confident;
use crate::trade::lemma_confident_patterns;
use crate::trade::lemma_selected_push;
use crate::trade::minted;
use crate::trade::selected;
use crate::trade::well_minted;

verus! {

/// Recording an analysis keeps an engine consistent.
pub proof fn lemma_record_keeps_consistent(bot: TradingBotView, proposals: Seq<ProposalView>, now: nat)
    requires
        bot.consistent(),
    ensures
        bot.record(proposals, now).consistent(),
{
    let after = bot.record(proposals, now);
    assert forall|i: int| 0 <= i < after.trades.len() implies well_minted(
        #[trigger] after.trades[i],
    ) && after.signals.contains(after.trades[i].signal) by {
        let s = bot.trades[i].signal;
        assert(bot.signals.contains(s));
        let j = choose|j: int| 0 <= j < bot.signals.len() && bot.signals[j] == s;
        assert(after.signals[j] == s);
    }
}

/// Executing trades keeps an engine consistent.
pub proof fn lemma_execute_keeps_consistent(bot: TradingBotView, now: nat)
    requires
        bot.consistent(),
    ensures
        bot.execute(now).consistent(),
{
    let after = bot.execute(now);
    if bot.state.active {
        let chosen = selected(bot.signals);
        let p = |s: SignalView| confident(s.confidence);
        assert forall|i: int| 0 <= i < after.trades.len() implies well_minted(
            #[trigger] after.trades[i],
        ) && after.signals.contains(after.trades[i].signal) by {
            if i >= bot.trades.len() {
                let k = i - bot.trades.len();
                assert(after.trades[i] == bot.batch(now)[k]);
                assert(after.trades[i].signal == chosen[k]);
                assert(chosen == bot.signals.filter(p));
                bot.signals.lemma_filter_pred(p, k);
                assert(chosen.contains(chosen[k]));
                bot.signals.lemma_filter_contains_rev(p, chosen[k]);
            } else {
                assert(after.trades[i] == bot.trades[i]);
            }
        }
    }
}

/// Whether the signals stand in the order of their times.
pub open spec fn chronological(signals: Seq<SignalView>) -> bool {
    forall|i: int, j: int|
        0 <= i <= j < signals.len() ==> (#[trigger] signals[i]).timestamp <= (
        #[trigger] signals[j]).timestamp
}

/// As long as the clock does not run backwards, the signals stand in the
/// order of their times: recording an analysis made no earlier than any
/// signal recorded before keeps them so.
pub proof fn lemma_record_keeps_chronological(
    bot: TradingBotView,
    proposals: Seq<ProposalView>,
    now: nat,
)
    requires
        chronological(bot.signals),
        forall|i: int| 0 <= i < bot.signals.len() ==> (#[trigger] bot.signals[i]).timestamp <= now,
    ensures
        chronological(bot.record(proposals, now).signals),
        forall|i: int|
            0 <= i < bot.record(proposals, now).signals.len() ==> (#[trigger] bot.record(
                proposals,
                now,
            ).signals[i]).timestamp <= now,
{
    let after = bot.record(proposals, now).signals;
    assert forall|i: int| 0 <= i < after.len() implies (#[trigger] after[i]).timestamp <= now by {
        if i < bot.signals.len() {
            assert(after[i] == bot.signals[i]);
        }
    }
    assert forall|i: int, j: int| 0 <= i <= j < after.len() implies (#[trigger] after[i]).timestamp
        <= (#[trigger] after[j]).timestamp by {
        if j < bot.signals.len() {
            assert(after[i] == bot.signals[i]);
            assert(after[j] == bot.signals[j]);
        } else if i >= bot.signals.len() {
            assert(after[i].timestamp == now);
            assert(after[j].timestamp == now);
        } else {
            assert(after[i] == bot.signals[i]);
            assert(after[j].timestamp == now);
        }
    }
}

/// All signals that one analysis records carry the time of that analysis,
/// and the signals recorded before stay as they were.
pub proof fn lemma_analysis_batch_shares_one_time(
    bot: TradingBotView,
    proposals: Seq<ProposalView>,
    now: nat,
)
    ensures
        bot.record(proposals, now).signals.len() == bot.signals.len() + proposals.len(),
        forall|i: int|
            0 <= i < bot.signals.len() ==> bot.record(proposals, now).signals[i]
                == bot.signals[i],
        forall|i: int|
            bot.signals.len() <= i < bot.signals.len() + proposals.len() ==> (
            #[trigger] bot.record(proposals, now).signals[i]).timestamp == now,
        bot.record(proposals, now).state.last_analysis == Some(now),
        bot.record(proposals, now).trades == bot.trades,
{
}

/// Every trade of a consistent engine executed a signal whose confidence is
/// strictly above the threshold: as a pattern, above the threshold's and not
/// above that of positive infinity.
pub proof fn lemma_trades_are_confident(bot: TradingBotView)
    requires
        bot.consistent(),
    ensures
        forall|i: int|
            0 <= i < bot.trades.len() ==> confident((#[trigger] bot.trades[i]).signal.confidence),
        forall|i: int|
            0 <= i < bot.trades.len() ==> CONFIDENCE_THRESHOLD_BITS < (
            #[trigger] bot.trades[i]).signal.confidence.bits <= INFINITY_32,
{
    assert forall|i: int| 0 <= i < bot.trades.len() implies CONFIDENCE_THRESHOLD_BITS < (
    #[trigger] bot.trades[i]).signal.confidence.bits <= INFINITY_32 by {
        lemma_confident_patterns(bot.trades[i].signal.confidence);
    }
}

/// After an execution, too, every trade executed a confident signal.
pub proof fn lemma_execution_adds_only_confident_trades(bot: TradingBotView, now: nat)
    requires
        bot.consistent(),
    ensures
        forall|i: int|
            0 <= i < bot.execute(now).trades.len() ==> confident(
                (#[trigger] bot.execute(now).trades[i]).signal.confidence,
            ),
{
    lemma_execute_keeps_consistent(bot, now);
    lemma_trades_are_confident(bot.execute(now));
}

/// An execution on a bot that is switched off changes nothing.
pub proof fn lemma_inactive_execution_changes_nothing(bot: TradingBotView, now: nat)
    requires
        !bot.state.active,
    ensures
        bot.execute(now) == bot,
        bot.execute(now).trades.len() == bot.trades.len(),
{
}

/// An execution on a bot that is switched on and has recorded no signals
/// adds no trade.
pub proof fn lemma_execution_without_signals_adds_nothing(bot: TradingBotView, now: nat)
    requires
        bot.state.active,
        bot.signals.len() == 0,
    ensures
        bot.batch(now).len() == 0,
        bot.execute(now).trades == bot.trades,
{
    reveal(Seq::filter);
    assert(bot.execute(now).trades =~= bot.trades);
}

/// The trades of one execution are numbered from the time of the execution
/// upwards, so no two of them share an identifier.
pub proof fn lemma_batch_ids_differ(bot: TradingBotView, now: nat)
    ensures
        forall|i: int|
            0 <= i < bot.batch(now).len() ==> (#[trigger] bot.batch(now)[i]).id == now + i,
        forall|i: int, j: int|
            0 <= i < j < bot.batch(now).len() ==> (#[trigger] bot.batch(now)[i]).id != (
            #[trigger] bot.batch(now)[j]).id,
{
}

/// Two executions in a row on a bot that is switched on, with nothing
/// recorded in between, add two batches that stand one after the other in the
/// trades, are equally long, and execute the same signals in the same order:
/// nothing is left out because it was executed before.
pub proof fn lemma_repeated_execution_adds_two_batches(bot: TradingBotView, first: nat, second: nat)
    requires
        bot.state.active,
    ensures
        bot.execute(first).execute(second).trades == bot.trades + bot.batch(first) + bot.batch(
            second,
        ),
        bot.batch(first).len() == bot.batch(second).len(),
        bot.batch(first).len() == selected(bot.signals).len(),
        bot.execute(first).execute(second).trades.len() == bot.trades.len() + 2 * bot.batch(
            first,
        ).len(),
        forall|k: int|
            0 <= k < bot.batch(first).len() ==> {
                &&& bot.execute(first).execute(second).trades[bot.trades.len() + k] == bot.batch(
                    first,
                )[k]
                &&& bot.execute(first).execute(second).trades[bot.trades.len() + bot.batch(
                    first,
                ).len() + k] == bot.batch(second)[k]
                &&& (#[trigger] bot.batch(first)[k]).signal == bot.batch(second)[k].signal
            },
{
    let once = bot.execute(first);
    assert(once.signals == bot.signals);
    assert(once.state.active);
    assert(once.batch(second) == bot.batch(second));
}

/// If the second of two such executions comes late enough for its numbers
/// to start after those of the first, no trade of one batch shares an
/// identifier with a trade of the other.
pub proof fn lemma_repeated_execution_ids_differ(bot: TradingBotView, first: nat, second: nat)
    requires
        first + selected(bot.signals).len() <= second,
    ensures
        forall|i: int, j: int|
            0 <= i < bot.batch(first).len() && 0 <= j < bot.batch(second).len() ==> (
            #[trigger] bot.batch(first)[i]).id != (#[trigger] bot.batch(second)[j]).id,
{
}

/// Switching the bot on or off sets the flag and nothing else.
pub proof fn lemma_toggle_sets_the_flag(bot: TradingBotView, active: bool)
    ensures
        bot.toggle(active).state.active == active,
        bot.toggle(active).state.balance == bot.state.balance,
        bot.toggle(active).state.last_analysis == bot.state.last_analysis,
        bot.toggle(active).state.strategy == bot.state.strategy,
        bot.toggle(active).state.risk_level == bot.state.risk_level,
        bot.toggle(active).signals == bot.signals,
        bot.toggle(active).trades == bot.trades,
        bot.consistent() ==> bot.toggle(active).consistent(),
{
}

/// Replacing the strategy sets the strategy and its risk level, exactly as
/// given, and nothing else.
pub proof fn lemma_retune_sets_both(bot: TradingBotView, strategy: Seq<char>, risk_level: Binary32)
    ensures
        bot.retune(strategy, risk_level).state.strategy == strategy,
        bot.retune(strategy, risk_level).state.risk_level == risk_level,
        bot.retune(strategy, risk_level).state.active == bot.state.active,
        bot.retune(strategy, risk_level).state.balance == bot.state.balance,
        bot.retune(strategy, risk_level).state.last_analysis == bot.state.last_analysis,
        bot.retune(strategy, risk_level).signals == bot.signals,
        bot.retune(strategy, risk_level).trades == bot.trades,
        bot.consistent() ==> bot.retune(strategy, risk_level).consistent(),
{
}

/// Both signals of the illustrative strategy are confident enough to be
/// executed.
pub proof fn lemma_illustrative_signals_are_selected(now: nat)
    ensures
        stamped(illustrative_proposals(), now).len() == 2,
        selected(stamped(illustrative_proposals(), now)) == stamped(illustrative_proposals(), now),
{
    let batch = stamped(illustrative_proposals(), now);
    let none = Seq::<SignalView>::empty();
    lemma_confident_patterns(batch[0].confidence);
    lemma_confident_patterns(batch[1].confidence);
    assert(selected(none) =~= none) by {
        reveal(Seq::filter);
    }
    lemma_selected_push(none, batch[0]);
    lemma_selected_push(none.push(batch[0]), batch[1]);
    assert(batch =~= none.push(batch[0]).push(batch[1]));
}

/// A fresh engine that analyses the market once at `analysed`, is switched
/// on and executes at `executed` then holds the two illustrative signals and
/// one trade for each, numbered `executed` and `executed + 1`.
pub proof fn lemma_first_round(analysed: nat, executed: nat)
    ensures
        ({
            let bot = TradingBotView::initial().record(illustrative_proposals(), analysed).toggle(
                true,
            ).execute(executed);
            &&& bot.signals == stamped(illustrative_proposals(), analysed)
            &&& bot.trades == minted(stamped(illustrative_proposals(), analysed), executed)
            &&& bot.trades.len() == 2
            &&& bot.trades[0].id == executed
            &&& bot.trades[1].id == executed + 1
        }),
{
    lemma_illustrative_signals_are_selected(analysed);
    let recorded = TradingBotView::initial().record(illustrative_proposals(), analysed);
    assert(recorded.signals =~= stamped(illustrative_proposals(), analysed));
    let bot = recorded.toggle(true).execute(executed);
    assert(bot.trades =~= minted(stamped(illustrative_proposals(), analysed), executed));
}

} // verus!
