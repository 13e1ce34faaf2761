//! The display's refresh rate: the reports, the one that counts and the frame
//! interval that it makes.

use vstd::prelude::*;

use crate::time::Duration;

verus! {

/// Nanoseconds in a second, times the millihertz in a hertz: a rate in
/// millihertz times its period in nanoseconds.
pub const NANOS_PER_SECOND_MILLIHERTZ: u64 = 1_000_000_000_000;

/// A refresh rate, from a thousandth of a hertz to one frame per nanosecond.
#[derive(Clone, Copy, Debug, PartialEq, Eq, PartialOrd, Ord, Structural)]
pub struct RefreshRate {
    millihertz: u64,
}

/// The millihertz that a rate may have.
pub open spec fn valid_millihertz(mhz: int) -> bool {
    1 <= mhz <= NANOS_PER_SECOND_MILLIHERTZ
}

/// The period of a rate: `10^12 / mhz` nanoseconds, rounded half up.
pub open spec fn period_nanos(mhz: int) -> int {
    (2 * NANOS_PER_SECOND_MILLIHERTZ + mhz) / (2 * mhz)
}

proof fn lemma_period_bounds(mhz: int)
    requires
        valid_millihertz(mhz),
    ensures
        1 <= period_nanos(mhz) <= NANOS_PER_SECOND_MILLIHERTZ + 1,
{
    assert(1 <= (2_000_000_000_000 + mhz) / (2 * mhz) <= 1_000_000_000_001) by (nonlinear_arith)
        requires
            1 <= mhz <= 1_000_000_000_000,
    ;
}

impl RefreshRate {
    #[verifier::type_invariant]
    spec fn inv(self) -> bool {
        valid_millihertz(self.millihertz as int)
    }

    pub closed spec fn mhz(self) -> int {
        self.millihertz as int
    }

    /// The rate of a frequency whose millihertz have been cut to `floor`, with
    /// `round_up` where what was cut off is half a millihertz or more.
    pub fn from_scaled_hz(floor: i128, round_up: bool) -> (r: Option<RefreshRate>)
        requires
            floor < i128::MAX,
        ensures
            ({
                let mhz = if round_up {
                    floor + 1
                } else {
                    floor as int
                };
                &&& r is Some <==> valid_millihertz(mhz)
                &&& r matches Some(rate) ==> rate.mhz() == mhz
            }),
    {
        let mhz: i128 = if round_up { floor + 1 } else { floor };
        if mhz < 0 {
            return None;
        }
        RefreshRate::from_millihertz_u128(mhz as u128)
    }

    pub fn from_millihertz(mhz: i32) -> (r: Option<RefreshRate>)
        ensures
            r is Some <==> mhz > 0,
            r matches Some(rate) ==> rate.mhz() == mhz,
    {
        if mhz < 0 {
            return None;
        }
        RefreshRate::from_millihertz_u128(mhz as u128)
    }

    fn from_millihertz_u128(mhz: u128) -> (r: Option<RefreshRate>)
        ensures
            r is Some <==> valid_millihertz(mhz as int),
            r matches Some(rate) ==> rate.mhz() == mhz,
    {
        if mhz > NANOS_PER_SECOND_MILLIHERTZ as u128 {
            return None;
        }
        if mhz == 0 {
            return None;
        }
        Some(RefreshRate { millihertz: mhz as u64 })
    }

    pub fn millihertz(self) -> (r: u64)
        ensures
            r == self.mhz(),
            valid_millihertz(r as int),
    {
        proof {
            use_type_invariant(&self);
        }
        self.millihertz
    }

    /// How long one frame shows.
    pub fn period(self) -> (r: Duration)
        ensures
            r.nanos == period_nanos(self.mhz()),
            r.nanos > 0,
    {
        proof {
            use_type_invariant(&self);
            lemma_period_bounds(self.millihertz as int);
        }
        let den: u64 = self.millihertz;
        let nanos: u64 = (NANOS_PER_SECOND_MILLIHERTZ * 2 + den) / (den * 2);
        Duration { nanos }
    }
}

/// The period is the whole number of nanoseconds nearest to the exact one.
pub proof fn period_is_the_nearest(mhz: int)
    requires
        valid_millihertz(mhz),
    ensures
        2 * mhz * period_nanos(mhz) <= 2 * NANOS_PER_SECOND_MILLIHERTZ + mhz,
        2 * NANOS_PER_SECOND_MILLIHERTZ < 2 * mhz * period_nanos(mhz) + mhz,
{
    let n = 2 * NANOS_PER_SECOND_MILLIHERTZ + mhz;
    let d = 2 * mhz;
    vstd::arithmetic::div_mod::lemma_fundamental_div_mod(n, d);
    vstd::arithmetic::div_mod::lemma_mod_bound(n, d);
    assert(d * (n / d) == 2 * mhz * period_nanos(mhz));
}

/// A faster display never shows a frame longer.
pub proof fn faster_rate_has_no_longer_period(slow: int, fast: int)
    requires
        valid_millihertz(slow),
        valid_millihertz(fast),
        slow <= fast,
    ensures
        period_nanos(fast) <= period_nanos(slow),
{
    let n = NANOS_PER_SECOND_MILLIHERTZ as int;
    if period_nanos(fast) > period_nanos(slow) {
        period_is_the_nearest(slow);
        period_is_the_nearest(fast);
        let p = period_nanos(slow);
        let q = period_nanos(fast);
        lemma_period_bounds(slow);
        assert(false) by (nonlinear_arith)
            requires
                q >= p + 1,
                1 <= slow <= fast,
                p >= 1,
                2 * fast * q <= 2 * n + fast,
                2 * n < 2 * slow * p + slow,
        ;
    }
}

#[derive(Clone, Copy, Debug, PartialEq, Eq, PartialOrd, Ord, Structural)]
pub enum RefreshSource {
    MpvDisplayFps,
    OutputMode,
}

impl RefreshSource {
    pub open spec fn weight(self) -> u8 {
        match self {
            RefreshSource::MpvDisplayFps => 1,
            RefreshSource::OutputMode => 2,
        }
    }

    /// How much a source counts: the display's own mode beats the player's
    /// estimate.
    pub fn rank(self) -> (r: u8)
        ensures
            r == self.weight(),
    {
        match self {
            RefreshSource::MpvDisplayFps => 1,
            RefreshSource::OutputMode => 2,
        }
    }
}

/// Somebody to be told when the frame interval changes, by number.
#[derive(Clone, Copy, Debug, PartialEq, Eq, Structural)]
pub struct Subscription {
    pub id: u64,
}

/// The rate that counts, the weight of the source it came from, and who is told
/// of changes.
#[derive(Debug)]
pub struct RefreshBoard {
    pub rate: Option<RefreshRate>,
    pub source_rank: u8,
    pub subscribers: Vec<Subscription>,
    pub next_subscriber: u64,
}

/// The interval that a board holds.
pub open spec fn board_interval(board: RefreshBoard) -> Option<int> {
    match board.rate {
        Some(rate) => Some(period_nanos(rate.mhz())),
        None => None,
    }
}

impl RefreshBoard {
    /// Every subscriber has a number that was given out.
    pub open spec fn wf(self) -> bool {
        forall|i: int|
            0 <= i < self.subscribers@.len() ==> (#[trigger] self.subscribers@[i]).id
                < self.next_subscriber
    }

    pub fn new() -> (r: Self)
        ensures
            r.wf(),
            r.rate is None,
            r.source_rank == 0,
            r.subscribers@.len() == 0,
            r.next_subscriber == 0,
    {
        RefreshBoard { rate: None, source_rank: 0, subscribers: Vec::new(), next_subscriber: 0 }
    }
}

/// Registers a subscriber, under a number that no other has had.
pub fn subscribe(board: &mut RefreshBoard) -> (r: Subscription)
    requires
        old(board).wf(),
        old(board).next_subscriber < u64::MAX,
    ensures
        final(board).wf(),
        !old(board).subscribers@.contains(r),
        final(board).subscribers@ == old(board).subscribers@.push(r),
        final(board).next_subscriber == old(board).next_subscriber + 1,
        final(board).rate == old(board).rate,
        final(board).source_rank == old(board).source_rank,
{
    let subscription = Subscription { id: board.next_subscriber };
    board.next_subscriber = board.next_subscriber + 1;
    board.subscribers.push(subscription);
    subscription
}

/// Drops a subscriber: it is told nothing from now on.
pub fn unsubscribe(board: &mut RefreshBoard, subscription: Subscription)
    requires
        old(board).wf(),
    ensures
        final(board).wf(),
        final(board).subscribers@ == old(board).subscribers@.filter(
            |s: Subscription| s.id != subscription.id,
        ),
        !final(board).subscribers@.contains(subscription),
        final(board).next_subscriber == old(board).next_subscriber,
        final(board).rate == old(board).rate,
        final(board).source_rank == old(board).source_rank,
{
    let ghost others = |s: Subscription| s.id != subscription.id;
    let ghost before = board.subscribers@;
    let mut kept: Vec<Subscription> = Vec::new();
    let mut i: usize = 0;
    proof {
        assert(before.take(0) =~= seq![]);
        reveal(Seq::filter);
    }
    while i < board.subscribers.len()
        invariant
            i <= board.subscribers@.len(),
            board.subscribers@ == before,
            others == (|s: Subscription| s.id != subscription.id),
            kept@ == before.take(i as int).filter(others),
            forall|j: int| 0 <= j < kept@.len() ==> (#[trigger] kept@[j]).id != subscription.id,
            forall|j: int|
                0 <= j < kept@.len() ==> (#[trigger] kept@[j]).id < board.next_subscriber,
            board.wf(),
            board.next_subscriber == old(board).next_subscriber,
            board.rate == old(board).rate,
            board.source_rank == old(board).source_rank,
        decreases board.subscribers@.len() - i,
    {
        proof {
            reveal(Seq::filter);
            assert(before.take(i + 1).drop_last() =~= before.take(i as int));
        }
        if board.subscribers[i].id != subscription.id {
            kept.push(board.subscribers[i]);
        }
        i += 1;
    }
    assert(before.take(i as int) =~= before);
    board.subscribers = kept;
}

/// A source reported a rate. It counts unless a weightier source has reported
/// before. `true` where the frame interval changed, so that subscribers are to
/// be told.
pub fn report_refresh(board: &mut RefreshBoard, source: RefreshSource, rate: RefreshRate) -> (r:
    bool)
    ensures
        old(board).source_rank > source.weight() ==> !r && *final(board) == *old(board),
        old(board).source_rank <= source.weight() ==> {
            &&& *final(board) == (RefreshBoard {
                rate: Some(rate),
                source_rank: source.weight(),
                ..*old(board)
            })
            &&& r == (board_interval(*old(board)) != board_interval(*final(board)))
        },
{
    if board.source_rank > source.rank() {
        return false;
    }
    let period = rate.period();
    let changed = match board.rate {
        Some(previous) => previous.period().nanos != period.nanos,
        None => true,
    };
    board.rate = Some(rate);
    board.source_rank = source.rank();
    changed
}

pub fn current_refresh_rate(board: &RefreshBoard) -> (r: Option<RefreshRate>)
    ensures
        r == board.rate,
{
    board.rate
}

pub fn refresh_interval(board: &RefreshBoard) -> (r: Option<Duration>)
    ensures
        match r {
            Some(d) => board_interval(*board) == Some(d.nanos as int) && d.nanos > 0,
            None => board_interval(*board) is None,
        },
{
    match board.rate {
        Some(rate) => Some(rate.period()),
        None => None,
    }
}

/// A display's own mode counts more than the player's estimate, and both more
/// than nothing.
pub proof fn modes_outweigh_estimates()
    ensures
        0 < RefreshSource::MpvDisplayFps.weight() < RefreshSource::OutputMode.weight(),
{
}

/// Rates go from a thousandth of a hertz to a frame each nanosecond.
pub proof fn rates_have_limits(mhz: int)
    ensures
        valid_millihertz(mhz) <==> 0 < mhz <= 1_000_000_000_000,
        valid_millihertz(mhz) && 1_000_000_000_000int % mhz == 0 ==> period_nanos(mhz) * mhz
            == 1_000_000_000_000,
{
    if valid_millihertz(mhz) && 1_000_000_000_000int % mhz == 0 {
        let q = 1_000_000_000_000int / mhz;
        vstd::arithmetic::div_mod::lemma_fundamental_div_mod(1_000_000_000_000, mhz);
        assert(mhz * q == 1_000_000_000_000);
        let n = 2_000_000_000_000 + mhz;
        assert(n / (2 * mhz) == q) by (nonlinear_arith)
            requires
                mhz > 0,
                mhz * q == 1_000_000_000_000,
                n == 2_000_000_000_000 + mhz,
        ;
        assert(q * mhz == mhz * q) by (nonlinear_arith);
    }
}

/// A board's interval is the period of the rate that counts; without a rate
/// there is none.
pub proof fn boards_hold_their_rates_period(board: RefreshBoard)
    ensures
        board.rate is None <==> board_interval(board) is None,
        board.rate matches Some(rate) ==> board_interval(board) == Some(period_nanos(rate.mhz())),
{
}

/// A display's mode, once reported, stands against every estimate; an estimate
/// gives way to it.
pub proof fn modes_stand_against_estimates(
    board: &mut RefreshBoard,
    mode: RefreshRate,
    told: bool,
    again: &mut RefreshBoard,
    estimate: RefreshRate,
    ignored: bool,
    counted: Option<RefreshRate>,
)
    requires
        old(board).source_rank <= 2,
        call_ensures(report_refresh, (board, RefreshSource::OutputMode, mode), told),
        *old(again) == *final(board),
        call_ensures(report_refresh, (again, RefreshSource::MpvDisplayFps, estimate), ignored),
        call_ensures(current_refresh_rate, (&*final(again),), counted),
    ensures
        !ignored,
        counted == Some(mode),
        old(board).rate is None ==> told,
        old(board).rate == Some(mode) ==> !told,
{
}

/// A subscriber is on the list from its subscription until it ends it, and
/// nobody else leaves with it.
pub proof fn subscribers_come_and_go(
    board: &mut RefreshBoard,
    subscription: Subscription,
    after: &mut RefreshBoard,
)
    requires
        old(board).wf(),
        old(board).next_subscriber < u64::MAX,
        call_ensures(subscribe, (board,), subscription),
        *old(after) == *final(board),
        call_ensures(unsubscribe, (after, subscription), ()),
    ensures
        final(board).subscribers@.contains(subscription),
        !final(after).subscribers@.contains(subscription),
        final(after).rate == old(board).rate,
{
    assert(final(board).subscribers@[old(board).subscribers@.len() as int] == subscription);
}

/// A rate is the millihertz it was made of: a positive number from the display,
/// or a cut one and one more where it is rounded up. The period of a rate is
/// what fits its number into a second.
pub proof fn rates_are_the_millihertz_they_were_made_of(
    mhz: i32,
    floor: i128,
    rate: Option<RefreshRate>,
    cut: Option<RefreshRate>,
    rounded: Option<RefreshRate>,
    kept: RefreshRate,
    number: u64,
)
    requires
        call_ensures(RefreshRate::from_millihertz, (mhz,), rate),
        call_ensures(RefreshRate::from_scaled_hz, (floor, false), cut),
        call_ensures(RefreshRate::from_scaled_hz, (floor, true), rounded),
        call_ensures(RefreshRate::millihertz, (kept,), number),
    ensures
        rate is Some <==> mhz >= 1,
        rate == Some(kept) ==> number == mhz,
        cut == Some(kept) ==> number == floor,
        rounded == Some(kept) ==> number == floor + 1,
        floor < 1 ==> cut is None,
        floor < 0 ==> rounded is None,
        floor == 0 ==> rounded is Some,
{
}

} // verus!
