//! The configuration of the bot, and the one way in which execution can fail.

use vstd::prelude::*;
use crate::ieee::Binary32;
use crate::ieee::Binary64;

verus! {

/// The pattern of one half in single precision: the risk level at the start.
pub const INITIAL_RISK_LEVEL_BITS: u32 = 0x3F00_0000;

/// The pattern of zero in double precision: the balance at the start.
pub const INITIAL_BALANCE_BITS: u64 = 0;

/// Why trades were not executed.
#[derive(Clone, Copy, Debug, PartialEq, Eq, Structural)]
pub enum TradeError {
    /// The bot is switched off; it can be switched on and the call repeated.
    BotInactive,
}

impl TradeError {
    /// The words by which the error is reported.
    pub open spec fn message_spec(self) -> Seq<char> {
        match self {
            TradeError::BotInactive => "Bot is not active"@,
        }
    }

    /// The words by which the error is reported.
    pub fn message(&self) -> (r: String)
        ensures
            r@ == self.message_spec(),
    {
        match self {
            TradeError::BotInactive => "Bot is not active".to_owned(),
        }
    }
}

/// The configuration of the bot: whether it may execute trades, its balance,
/// when the market was last analysed, and the strategy with its risk level.
#[derive(Debug)]
pub struct BotState {
    pub active: bool,
    pub balance: Binary64,
    pub last_analysis: Option<u64>,
    pub strategy: String,
    pub risk_level: Binary32,
}

/// What a [`BotState`] holds.
pub struct BotStateView {
    pub active: bool,
    pub balance: Binary64,
    pub last_analysis: Option<nat>,
    pub strategy: Seq<char>,
    pub risk_level: Binary32,
}

impl View for BotState {
    type V = BotStateView;

    open spec fn view(&self) -> BotStateView {
        BotStateView {
            active: self.active,
            balance: self.balance,
            last_analysis: match self.last_analysis {
                Some(t) => Some(t as nat),
                None => None,
            },
            strategy: self.strategy@,
            risk_level: self.risk_level,
        }
    }
}

/// The state in which every bot starts: switched off, nothing on the
/// balance, no analysis made, the strategy `momentum` at a risk level of one
/// half.
pub open spec fn initial_state() -> BotStateView {
    BotStateView {
        active: false,
        balance: Binary64 { bits: INITIAL_BALANCE_BITS },
        last_analysis: None,
        strategy: "momentum"@,
        risk_level: Binary32 { bits: INITIAL_RISK_LEVEL_BITS },
    }
}

impl Default for BotState {
    fn default() -> (r: BotState)
        ensures
            r@ == initial_state(),
    {
        BotState {
            active: false,
            balance: Binary64::from_bits(INITIAL_BALANCE_BITS),
            last_analysis: None,
            strategy: "momentum".to_owned(),
            risk_level: Binary32::from_bits(INITIAL_RISK_LEVEL_BITS),
        }
    }
}

impl Clone for BotState {
    fn clone(&self) -> (r: BotState)
        ensures
            r@ == self@,
    {
        BotState {
            active: self.active,
            balance: self.balance,
            last_analysis: self.last_analysis,
            strategy: self.strategy.clone(),
            risk_level: self.risk_level,
        }
    }
}

} // verus!
