//! Trading recommendations: the direction of a trade, a recommendation as an
//! analysis produces it, and the signal that the engine records for it.

use vstd::prelude::*;
use crate::ieee::Binary32;
use crate::ieee::Binary64;

verus! {

/// The direction that a signal recommends.
#[derive(Clone, Copy, Debug, PartialEq, Eq, Structural)]
pub enum Action {
    Buy,
    Sell,
}

impl Action {
    /// The text by which the direction is written: `BUY` or `SELL`.
    pub open spec fn label_spec(self) -> Seq<char> {
        match self {
            Action::Buy => "BUY"@,
            Action::Sell => "SELL"@,
        }
    }

    /// The direction that a text names, if it names one.
    pub open spec fn from_label_spec(label: Seq<char>) -> Option<Action> {
        if label == "BUY"@ {
            Some(Action::Buy)
        } else if label == "SELL"@ {
            Some(Action::Sell)
        } else {
            None
        }
    }

    /// The text by which the direction is written.
    pub fn label(&self) -> (r: String)
        ensures
            r@ == self.label_spec(),
    {
        match self {
            Action::Buy => "BUY".to_owned(),
            Action::Sell => "SELL".to_owned(),
        }
    }

    /// Reads a direction from its text; any other text names none.
    pub fn from_label(label: &str) -> (r: Option<Action>)
        ensures
            r == Action::from_label_spec(label@),
    {
        let given = label.to_owned();
        if given == "BUY".to_owned() {
            Some(Action::Buy)
        } else if given == "SELL".to_owned() {
            Some(Action::Sell)
        } else {
            None
        }
    }
}

/// Reading the text of a direction gives the direction back.
pub proof fn lemma_label_round_trip(action: Action)
    ensures
        Action::from_label_spec(action.label_spec()) == Some(action),
{
    reveal_strlit("BUY");
    reveal_strlit("SELL");
    assert("BUY"@.len() != "SELL"@.len());
}

/// A recommendation as an analysis produces it, before the engine has put
/// the time of the analysis on it.
#[derive(Debug)]
pub struct Proposal {
    pub pair: String,
    pub action: Action,
    pub confidence: Binary32,
    pub price: Binary64,
}

/// What a [`Proposal`] holds.
pub struct ProposalView {
    pub pair: Seq<char>,
    pub action: Action,
    pub confidence: Binary32,
    pub price: Binary64,
}

impl View for Proposal {
    type V = ProposalView;

    open spec fn view(&self) -> ProposalView {
        ProposalView {
            pair: self.pair@,
            action: self.action,
            confidence: self.confidence,
            price: self.price,
        }
    }
}

/// A recorded recommendation: an instrument, a direction, how certain the
/// analysis was, the price at that time, and the time of the analysis.
#[derive(Debug)]
pub struct TradeSignal {
    pub timestamp: u64,
    pub pair: String,
    pub action: Action,
    pub confidence: Binary32,
    pub price: Binary64,
}

/// What a [`TradeSignal`] holds.
pub struct SignalView {
    pub timestamp: nat,
    pub pair: Seq<char>,
    pub action: Action,
    pub confidence: Binary32,
    pub price: Binary64,
}

impl View for TradeSignal {
    type V = SignalView;

    open spec fn view(&self) -> SignalView {
        SignalView {
            timestamp: self.timestamp as nat,
            pair: self.pair@,
            action: self.action,
            confidence: self.confidence,
            price: self.price,
        }
    }
}

impl ProposalView {
    /// The signal that records this recommendation for an analysis made at `now`.
    pub open spec fn stamp(self, now: nat) -> SignalView {
        SignalView {
            timestamp: now,
            pair: self.pair,
            action: self.action,
            confidence: self.confidence,
            price: self.price,
        }
    }
}

impl Proposal {
    /// The signal that records this recommendation for an analysis made at `now`.
    pub fn stamp(self, now: u64) -> (r: TradeSignal)
        ensures
            r@ == self@.stamp(now as nat),
    {
        TradeSignal {
            timestamp: now,
            pair: self.pair,
            action: self.action,
            confidence: self.confidence,
            price: self.price,
        }
    }
}

impl Clone for Proposal {
    fn clone(&self) -> (r: Proposal)
        ensures
            r@ == self@,
    {
        Proposal {
            pair: self.pair.clone(),
            action: self.action,
            confidence: self.confidence,
            price: self.price,
        }
    }
}

impl Clone for TradeSignal {
    fn clone(&self) -> (r: TradeSignal)
        ensures
            r@ == self@,
    {
        TradeSignal {
            timestamp: self.timestamp,
            pair: self.pair.clone(),
            action: self.action,
            confidence: self.confidence,
            price: self.price,
        }
    }
}

/// What a sequence of proposals holds, item by item.
pub open spec fn proposal_views(proposals: Seq<Proposal>) -> Seq<ProposalView> {
    proposals.map_values(|p: Proposal| p@)
}

/// What a sequence of signals holds, item by item.
pub open spec fn signal_views(signals: Seq<TradeSignal>) -> Seq<SignalView> {
    signals.map_values(|s: TradeSignal| s@)
}

/// The signals that record a batch of proposals for one analysis made at
/// `now`, in the order of the proposals.
pub open spec fn stamped(proposals: Seq<ProposalView>, now: nat) -> Seq<SignalView> {
    proposals.map_values(|p: ProposalView| p.stamp(now))
}

/// Records a batch of proposals as signals of one analysis made at `now`,
/// in the order of the proposals.
pub fn stamp_all(proposals: &Vec<Proposal>, now: u64) -> (r: Vec<TradeSignal>)
    ensures
        signal_views(r@) == stamped(proposal_views(proposals@), now as nat),
{
    let mut batch: Vec<TradeSignal> = Vec::new();
    let mut i: usize = 0;
    while i < proposals.len()
        invariant
            i <= proposals.len(),
            batch.len() == i,
            forall|j: int| 0 <= j < i ==> batch[j]@ == proposals[j]@.stamp(now as nat),
        decreases proposals.len() - i,
    {
        batch.push(proposals[i].clone().stamp(now));
        i = i + 1;
    }
    assert(signal_views(batch@) =~= stamped(proposal_views(proposals@), now as nat));
    batch
}

/// An independent copy of a sequence of signals.
pub fn clone_signals(signals: &Vec<TradeSignal>) -> (r: Vec<TradeSignal>)
    ensures
        signal_views(r@) == signal_views(signals@),
{
    let mut copy: Vec<TradeSignal> = Vec::new();
    let mut i: usize = 0;
    while i < signals.len()
        invariant
            i <= signals.len(),
            copy.len() == i,
            forall|j: int| 0 <= j < i ==> copy[j]@ == signals[j]@,
        decreases signals.len() - i,
    {
        copy.push(signals[i].clone());
        i = i + 1;
    }
    assert(signal_views(copy@) =~= signal_views(signals@));
    copy
}

} // verus!
