//! Trades, and the two steps that turn recorded signals into trades: the
//! selection of the signals that are confident enough, and the minting of one
//! trade for each of them.

use vstd::prelude::*;
use crate::ieee::Binary32;
use crate::ieee::Binary64;
use crate::ieee::lemma_scaled_magnitude_32_order;
use vstd::arithmetic::power2::pow2;
use vstd::arithmetic::power2::lemma2_to64;
use vstd::arithmetic::power2::lemma_pow2_adds;
use vstd::arithmetic::power2::lemma_pow2_pos;
use crate::signal::SignalView;
use crate::signal::TradeSignal;
use crate::signal::signal_views;

verus! {

/// The pattern of the single-precision number nearest to six tenths. A signal
/// is executed only if its confidence is strictly greater than this number.
pub const CONFIDENCE_THRESHOLD_BITS: u32 = 0x3F19_999A;

/// The execution threshold as a number.
pub open spec fn confidence_threshold() -> Binary32 {
    Binary32 { bits: CONFIDENCE_THRESHOLD_BITS }
}

/// Whether a confidence is strictly greater than the execution threshold.
pub open spec fn confident(confidence: Binary32) -> bool {
    confidence.gt_spec(confidence_threshold())
}

/// A recorded execution of one signal.
#[derive(Debug)]
pub struct Trade {
    pub id: u64,
    pub signal: TradeSignal,
    pub executed: bool,
    pub profit_loss: Option<Binary64>,
    pub timestamp: u64,
}

/// What a [`Trade`] holds.
pub struct TradeView {
    pub id: nat,
    pub signal: SignalView,
    pub executed: bool,
    pub profit_loss: Option<Binary64>,
    pub timestamp: nat,
}

impl View for Trade {
    type V = TradeView;

    open spec fn view(&self) -> TradeView {
        TradeView {
            id: self.id as nat,
            signal: self.signal@,
            executed: self.executed,
            profit_loss: self.profit_loss,
            timestamp: self.timestamp as nat,
        }
    }
}

impl Clone for Trade {
    fn clone(&self) -> (r: Trade)
        ensures
            r@ == self@,
    {
        Trade {
            id: self.id,
            signal: self.signal.clone(),
            executed: self.executed,
            profit_loss: self.profit_loss,
            timestamp: self.timestamp,
        }
    }
}

/// What a sequence of trades holds, item by item.
pub open spec fn trade_views(trades: Seq<Trade>) -> Seq<TradeView> {
    trades.map_values(|t: Trade| t@)
}

/// The signals of a sequence that are confident enough to be executed, in
/// the order in which they stand.
pub open spec fn selected(signals: Seq<SignalView>) -> Seq<SignalView> {
    signals.filter(|s: SignalView| confident(s.confidence))
}

/// The trade minted at `now` for the signal that is number `ordinal` among
/// the selected ones.
pub open spec fn minted_trade(signal: SignalView, now: nat, ordinal: nat) -> TradeView {
    TradeView { id: now + ordinal, signal, executed: true, profit_loss: None, timestamp: now }
}

/// The trades minted at `now` for a sequence of selected signals: one for
/// each, in their order, with the identifiers `now`, `now + 1`, and so on.
pub open spec fn minted(chosen: Seq<SignalView>, now: nat) -> Seq<TradeView> {
    Seq::new(chosen.len(), |i: int| minted_trade(chosen[i], now, i as nat))
}

/// Whether the identifiers of `count` trades minted at `now` fit in 64 bits.
pub open spec fn ids_fit(now: nat, count: nat) -> bool {
    count == 0 || now + count - 1 <= u64::MAX
}

/// What holds of every trade that the engine has minted: its signal was
/// confident enough, it counts as executed, no profit or loss has been
/// settled on it, and its identifier is not below the time of its minting.
pub open spec fn well_minted(trade: TradeView) -> bool {
    &&& confident(trade.signal.confidence)
    &&& trade.executed
    &&& trade.profit_loss is None
    &&& trade.timestamp <= trade.id
}

/// A confidence passes the threshold exactly if its pattern lies above the
/// threshold's and not above that of positive infinity.
pub proof fn lemma_confident_patterns(confidence: Binary32)
    ensures
        confident(confidence) <==> CONFIDENCE_THRESHOLD_BITS < confidence.bits
            <= crate::ieee::INFINITY_32,
{
    let t = CONFIDENCE_THRESHOLD_BITS as nat;
    let m = confidence.magnitude();
    assert(confidence_threshold().magnitude() == t);
    assert(!confidence_threshold().nan());
    assert(!confidence_threshold().negative());
    if m < t {
        lemma_scaled_magnitude_32_order(m, t);
    }
    if t < m {
        lemma_scaled_magnitude_32_order(t, m);
    }
}

/// The threshold is the single-precision number nearest to six tenths: six
/// tenths lies between it and the number just below it, and nearer to it.
/// Stated in units of `2^-149`, and times five to stay among the integers.
pub proof fn lemma_threshold_is_nearest_to_six_tenths()
    ensures
        ({
            let above = confidence_threshold().scaled();
            let below = Binary32 { bits: (CONFIDENCE_THRESHOLD_BITS - 1) as u32 }.scaled();
            let target = 3 * pow2(149);
            &&& 5 * below < target < 5 * above
            &&& 5 * above - target < target - 5 * below
        }),
{
    let p = pow2(125);
    lemma2_to64();
    lemma_pow2_adds(24, 125);
    lemma_pow2_pos(125);
    assert(confidence_threshold().scaled() == 0x99_999A * p);
    assert(Binary32 { bits: (CONFIDENCE_THRESHOLD_BITS - 1) as u32 }.scaled() == 0x99_9999 * p);
    assert(3 * pow2(149) == 0x300_0000 * p) by (nonlinear_arith)
        requires
            pow2(149) == 0x100_0000 * p,
    ;
    assert(5 * (0x99_9999 * p) < 0x300_0000 * p < 5 * (0x99_999A * p) && 5 * (0x99_999A * p)
        - 0x300_0000 * p < 0x300_0000 * p - 5 * (0x99_9999 * p)) by (nonlinear_arith)
        requires
            p > 0,
    ;
}

/// Whether a confidence is strictly greater than the execution threshold.
pub fn is_confident(confidence: &Binary32) -> (r: bool)
    ensures
        r == confident(*confidence),
{
    confidence.gt(&Binary32::from_bits(CONFIDENCE_THRESHOLD_BITS))
}

/// Selecting from a sequence that is one signal longer adds that signal if
/// it is confident enough, and nothing otherwise.
pub proof fn lemma_selected_push(signals: Seq<SignalView>, next: SignalView)
    ensures
        selected(signals.push(next)) == if confident(next.confidence) {
            selected(signals).push(next)
        } else {
            selected(signals)
        },
{
    reveal(Seq::filter);
    assert(signals.push(next).drop_last() =~= signals);
}

/// Copies of the signals that are confident enough to be executed, in the
/// order in which they stand.
pub fn select_confident(signals: &Vec<TradeSignal>) -> (r: Vec<TradeSignal>)
    ensures
        signal_views(r@) == selected(signal_views(signals@)),
{
    let mut chosen: Vec<TradeSignal> = Vec::new();
    let mut i: usize = 0;
    proof {
        reveal(Seq::filter);
        assert(signal_views(signals@).take(0) =~= Seq::<SignalView>::empty());
        assert(signal_views(chosen@) =~= Seq::<SignalView>::empty());
    }
    while i < signals.len()
        invariant
            i <= signals.len(),
            signal_views(chosen@) == selected(signal_views(signals@).take(i as int)),
        decreases signals.len() - i,
    {
        let ghost before = signal_views(chosen@);
        let ghost seen = signal_views(signals@).take(i as int);
        proof {
            lemma_selected_push(seen, signals[i as int]@);
            assert(signal_views(signals@).take(i + 1) =~= seen.push(signals[i as int]@));
        }
        if is_confident(&signals[i].confidence) {
            chosen.push(signals[i].clone());
            assert(signal_views(chosen@) =~= before.push(signals[i as int]@));
        }
        i = i + 1;
    }
    assert(signal_views(signals@).take(i as int) =~= signal_views(signals@));
    chosen
}

/// How many of the signals are confident enough to be executed.
pub fn count_confident(signals: &Vec<TradeSignal>) -> (r: usize)
    ensures
        r == selected(signal_views(signals@)).len(),
{
    let mut count: usize = 0;
    let mut i: usize = 0;
    proof {
        reveal(Seq::filter);
        assert(signal_views(signals@).take(0) =~= Seq::<SignalView>::empty());
    }
    while i < signals.len()
        invariant
            i <= signals.len(),
            count <= i,
            count == selected(signal_views(signals@).take(i as int)).len(),
        decreases signals.len() - i,
    {
        proof {
            let seen = signal_views(signals@).take(i as int);
            lemma_selected_push(seen, signals[i as int]@);
            assert(signal_views(signals@).take(i + 1) =~= seen.push(signals[i as int]@));
        }
        if is_confident(&signals[i].confidence) {
            count = count + 1;
        }
        i = i + 1;
    }
    assert(signal_views(signals@).take(i as int) =~= signal_views(signals@));
    count
}

/// Whether the identifiers of `count` trades minted at `now` fit in 64 bits.
pub fn ids_available(now: u64, count: usize) -> (r: bool)
    ensures
        r == ids_fit(now as nat, count as nat),
{
    count == 0 || now <= u64::MAX - (count - 1) as u64
}

/// Mints one trade for each of the chosen signals, in their order. All carry
/// the time `now`; the identifier of each is `now` plus its position.
pub fn mint_trades(chosen: Vec<TradeSignal>, now: u64) -> (r: Vec<Trade>)
    requires
        ids_fit(now as nat, chosen.len() as nat),
    ensures
        trade_views(r@) == minted(signal_views(chosen@), now as nat),
{
    let mut trades: Vec<Trade> = Vec::new();
    let mut i: usize = 0;
    while i < chosen.len()
        invariant
            i <= chosen.len(),
            trades.len() == i,
            ids_fit(now as nat, chosen.len() as nat),
            forall|j: int|
                0 <= j < i ==> trades[j]@ == minted_trade(chosen[j]@, now as nat, j as nat),
        decreases chosen.len() - i,
    {
        let trade = Trade {
            id: now + i as u64,
            signal: chosen[i].clone(),
            executed: true,
            profit_loss: None,
            timestamp: now,
        };
        trades.push(trade);
        i = i + 1;
    }
    assert(trade_views(trades@) =~= minted(signal_views(chosen@), now as nat));
    trades
}

/// An independent copy of a sequence of trades.
pub fn clone_trades(trades: &Vec<Trade>) -> (r: Vec<Trade>)
    ensures
        trade_views(r@) == trade_views(trades@),
{
    let mut copy: Vec<Trade> = Vec::new();
    let mut i: usize = 0;
    while i < trades.len()
        invariant
            i <= trades.len(),
            copy.len() == i,
            forall|j: int| 0 <= j < i ==> copy[j]@ == trades[j]@,
        decreases trades.len() - i,
    {
        copy.push(trades[i].clone());
        i = i + 1;
    }
    assert(trade_views(copy@) =~= trade_views(trades@));
    copy
}

} // verus!
