//! Market analysis: what an analysis strategy is, and the illustrative
//! strategy that the engine uses unless it is given another.

use vstd::prelude::*;
use crate::ieee::Binary32;
use crate::ieee::Binary64;
use crate::signal::Action;
use crate::signal::Proposal;
use crate::signal::ProposalView;
use crate::signal::proposal_views;

verus! {

/// Three quarters in single precision: the confidence of the first
/// illustrative proposal.
pub const FIRST_CONFIDENCE_BITS: u32 = 0x3F40_0000;

/// 12.34 in double precision: the price of the first illustrative proposal.
pub const FIRST_PRICE_BITS: u64 = 0x4028_AE14_7AE1_47AE;

/// The single-precision number nearest to 0.62: the confidence of the second
/// illustrative proposal.
pub const SECOND_CONFIDENCE_BITS: u32 = 0x3F1E_B852;

/// 42356.78 in double precision: the price of the second illustrative
/// proposal.
pub const SECOND_PRICE_BITS: u64 = 0x40E4_AE98_F5C2_8F5C;

/// A way of turning market data into proposals. What it proposes is a
/// function of the strategy and the data alone.
pub trait Analyze {
    /// The proposals that the strategy makes for the given market data.
    spec fn proposals(&self, data: Seq<char>) -> Seq<ProposalView>;

    /// Analyses the market data and returns the proposals, in the order in
    /// which they are to be recorded.
    fn analyze(&self, data: &str) -> (r: Vec<Proposal>)
        ensures
            proposal_views(r@) == self.proposals(data@),
    ;
}

/// The strategy that looks at no data and always proposes the same two
/// trades: to buy `ICP/USD` and to sell `BTC/USD`.
#[derive(Clone, Copy, Debug)]
pub struct Illustrative;

/// The two proposals of the illustrative strategy.
pub open spec fn illustrative_proposals() -> Seq<ProposalView> {
    seq![
        ProposalView {
            pair: "ICP/USD"@,
            action: Action::Buy,
            confidence: Binary32 { bits: FIRST_CONFIDENCE_BITS },
            price: Binary64 { bits: FIRST_PRICE_BITS },
        },
        ProposalView {
            pair: "BTC/USD"@,
            action: Action::Sell,
            confidence: Binary32 { bits: SECOND_CONFIDENCE_BITS },
            price: Binary64 { bits: SECOND_PRICE_BITS },
        },
    ]
}

impl Analyze for Illustrative {
    open spec fn proposals(&self, data: Seq<char>) -> Seq<ProposalView> {
        illustrative_proposals()
    }

    fn analyze(&self, data: &str) -> (r: Vec<Proposal>) {
        let mut proposals: Vec<Proposal> = Vec::new();
        proposals.push(
            Proposal {
                pair: "ICP/USD".to_owned(),
                action: Action::Buy,
                confidence: Binary32::from_bits(FIRST_CONFIDENCE_BITS),
                price: Binary64::from_bits(FIRST_PRICE_BITS),
            },
        );
        proposals.push(
            Proposal {
                pair: "BTC/USD".to_owned(),
                action: Action::Sell,
                confidence: Binary32::from_bits(SECOND_CONFIDENCE_BITS),
                price: Binary64::from_bits(SECOND_PRICE_BITS),
            },
        );
        assert(proposal_views(proposals@) =~= illustrative_proposals());
        proposals
    }
}

} // verus!
