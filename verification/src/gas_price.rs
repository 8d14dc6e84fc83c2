//! Gas price estimation from network congestion and message priority.
use crate::clock::MAX_DURATION_NANOS;
use crate::Error;
use std::collections::VecDeque;
use vstd::prelude::*;
use vstd::std_specs::convert::FromSpecImpl;

verus! {

/// Priorities above this one weigh no more than it.
pub const MAX_PRIORITY: u32 = 10;

/// The highest priority fee ever proposed: 100 Gwei.
pub const MAX_PRIORITY_FEE: u128 = 100_000_000_000;

/// The priority fee a new manager starts from: 1 Gwei.
pub const INITIAL_PRIORITY_FEE: u128 = 1_000_000_000;

/// The base fee proposed for the next block: 2 Gwei.
pub const INITIAL_BASE_FEE: u128 = 2_000_000_000;

/// How many recent confirmation times are kept.
pub const CONFIRMATION_TIME_WINDOW: usize = 10;

/// Average confirmation times below this (15 s, in nanoseconds) mean low congestion.
pub const CONGESTION_THRESHOLD_LOW: u128 = 15_000_000_000;

/// Average confirmation times below this (60 s, in nanoseconds) mean medium congestion.
pub const CONGESTION_THRESHOLD_MEDIUM: u128 = 60_000_000_000;

/// Network congestion levels for gas price calculation.
#[derive(Debug, Clone, Copy, PartialEq, Eq, Hash, Structural)]
pub enum CongestionLevel {
    Low,
    Medium,
    High,
}

/// How urgently a transaction should be included.
#[derive(Debug, Clone, Copy, PartialEq, Eq, Hash, Structural)]
pub enum TransactionUrgency {
    Low,
    Medium,
    High,
}

/// The fee multiplier of a congestion level.
pub open spec fn congestion_multiplier(level: CongestionLevel) -> i32 {
    match level {
        CongestionLevel::Low => 1,
        CongestionLevel::Medium => 2,
        CongestionLevel::High => 3,
    }
}

impl From<CongestionLevel> for i32 {
    fn from(level: CongestionLevel) -> (m: i32) {
        match level {
            CongestionLevel::Low => 1,
            CongestionLevel::Medium => 2,
            CongestionLevel::High => 3,
        }
    }
}

impl FromSpecImpl<CongestionLevel> for i32 {
    open spec fn obeys_from_spec() -> bool {
        true
    }

    open spec fn from_spec(level: CongestionLevel) -> i32 {
        congestion_multiplier(level)
    }
}

/// The sum of a sequence of durations, in nanoseconds.
pub open spec fn total_nanos(s: Seq<u128>) -> int
    decreases s.len(),
{
    if s.len() == 0 {
        0
    } else {
        total_nanos(s.drop_last()) + s.last()
    }
}

/// The congestion level that the recent confirmation times show: medium when
/// there are none, otherwise by their average (rounded down, as `Duration`
/// division does) against the two thresholds.
pub open spec fn congestion_of(times: Seq<u128>) -> CongestionLevel {
    if times.len() == 0 {
        CongestionLevel::Medium
    } else if total_nanos(times) / (times.len() as int) < CONGESTION_THRESHOLD_LOW {
        CongestionLevel::Low
    } else if total_nanos(times) / (times.len() as int) < CONGESTION_THRESHOLD_MEDIUM {
        CongestionLevel::Medium
    } else {
        CongestionLevel::High
    }
}

/// The priority fee for `priority`, from the base priority fee `base` and the
/// congestion `level`: their product with the capped priority, capped at
/// `MAX_PRIORITY_FEE`.
pub open spec fn priority_fee_for(base: u128, level: CongestionLevel, priority: u32) -> u128 {
    let capped = if priority < MAX_PRIORITY { priority } else { MAX_PRIORITY };
    let fee = base * congestion_multiplier(level) * capped;
    if fee < MAX_PRIORITY_FEE {
        fee as u128
    } else {
        MAX_PRIORITY_FEE
    }
}

/// The confirmation window after recording `time`: the newest
/// `CONFIRMATION_TIME_WINDOW` times, oldest first.
pub open spec fn record_time(times: Seq<u128>, time: u128) -> Seq<u128> {
    if times.len() + 1 > CONFIRMATION_TIME_WINDOW {
        times.push(time).drop_first()
    } else {
        times.push(time)
    }
}

/// Manages gas prices based on network congestion and user priority.
pub struct GasPriceManager {
    confirmation_times: VecDeque<u128>,
    priority_fee: u128,
}

impl GasPriceManager {
    /// The recent confirmation times, in nanoseconds, oldest first.
    pub closed spec fn times(&self) -> Seq<u128> {
        self.confirmation_times@
    }

    /// The base priority fee, the running average of the fees used.
    pub closed spec fn base_priority_fee(&self) -> u128 {
        self.priority_fee
    }

    /// The manager's invariant: at most a window of times, each of which
    /// fits in a `Duration`.
    pub open spec fn wf(&self) -> bool {
        &&& self.times().len() <= CONFIRMATION_TIME_WINDOW
        &&& forall|i: int| 0 <= i < self.times().len() ==> self.times()[i] <= MAX_DURATION_NANOS
    }

    /// Whether the recent confirmation times add up to at most what a
    /// `Duration` holds, which the congestion analysis needs.
    pub open spec fn total_fits(&self) -> bool {
        total_nanos(self.times()) <= MAX_DURATION_NANOS
    }

    /// Creates a manager with no confirmation times and the initial priority fee.
    pub fn new() -> (m: GasPriceManager)
        ensures
            m.wf(),
            m.times() == Seq::<u128>::empty(),
            m.base_priority_fee() == INITIAL_PRIORITY_FEE,
    {
        GasPriceManager {
            confirmation_times: VecDeque::with_capacity(CONFIRMATION_TIME_WINDOW),
            priority_fee: INITIAL_PRIORITY_FEE,
        }
    }

    /// The base fee and the priority fee for a message of the given priority.
    pub fn get_gas_price(&self, priority: u32) -> (r: Result<(u128, u128), Error>)
        requires
            self.wf(),
            self.total_fits(),
        ensures
            r matches Ok((base_fee, priority_fee)) && base_fee == INITIAL_BASE_FEE
                && priority_fee == priority_fee_for(
                self.base_priority_fee(),
                congestion_of(self.times()),
                priority,
            ),
    {
        let base_fee = self.get_base_fee();
        let priority_fee = self.calculate_priority_fee(priority);
        Ok((base_fee, priority_fee))
    }

    /// The priority fee for a message of the given priority.
    pub fn calculate_priority_fee(&self, priority: u32) -> (fee: u128)
        requires
            self.wf(),
            self.total_fits(),
        ensures
            fee == priority_fee_for(
                self.base_priority_fee(),
                congestion_of(self.times()),
                priority,
            ),
    {
        let base_priority_fee = self.priority_fee;
        let congestion = self.analyze_network_congestion();
        let congestion_multiplier: i32 = congestion.into();
        let priority_multiplier = if priority < MAX_PRIORITY { priority } else { MAX_PRIORITY };
        let m: u128 = (congestion_multiplier as u128) * (priority_multiplier as u128);
        let fee = if m == 0 {
            0
        } else if base_priority_fee > MAX_PRIORITY_FEE / m {
            proof {
                lemma_product_above_cap(base_priority_fee as int, m as int);
            }
            MAX_PRIORITY_FEE
        } else {
            proof {
                lemma_product_below_cap(base_priority_fee as int, m as int);
            }
            base_priority_fee * m
        };
        assert(base_priority_fee * congestion_multiplier * priority_multiplier
            == base_priority_fee * m) by (nonlinear_arith)
            requires
                m == congestion_multiplier * priority_multiplier,
        ;
        fee
    }

    /// The congestion level that the recent confirmation times show.
    pub fn analyze_network_congestion(&self) -> (level: CongestionLevel)
        requires
            self.wf(),
            self.total_fits(),
        ensures
            level == congestion_of(self.times()),
    {
        let n = self.confirmation_times.len();
        if n == 0 {
            return CongestionLevel::Medium;
        }
        let total = self.confirmation_total();
        let avg_time = total / (n as u128);
        if avg_time < CONGESTION_THRESHOLD_LOW {
            CongestionLevel::Low
        } else if avg_time < CONGESTION_THRESHOLD_MEDIUM {
            CongestionLevel::Medium
        } else {
            CongestionLevel::High
        }
    }

    /// The sum of the recent confirmation times, in nanoseconds.
    fn confirmation_total(&self) -> (total: u128)
        requires
            self.wf(),
        ensures
            total == total_nanos(self.times()),
    {
        let n = self.confirmation_times.len();
        let mut total: u128 = 0;
        let mut i: usize = 0;
        while i < n
            invariant
                n == self.times().len(),
                self.wf(),
                i <= n,
                total == total_nanos(self.times().take(i as int)),
                total <= i * MAX_DURATION_NANOS,
            decreases n - i,
        {
            proof {
                assert(self.times().take(i + 1).drop_last() == self.times().take(i as int));
            }
            total = total + self.confirmation_times[i];
            i = i + 1;
        }
        proof {
            assert(self.times().take(n as int) == self.times());
        }
        total
    }

    /// Whether the recent confirmation times add up to at most what a
    /// `Duration` holds.
    pub fn window_total_fits(&self) -> (b: bool)
        requires
            self.wf(),
        ensures
            b == self.total_fits(),
    {
        self.confirmation_total() <= MAX_DURATION_NANOS
    }

    /// Records a confirmation time (in nanoseconds) and averages the base
    /// priority fee with the fee that was used.
    pub fn update_on_confirmation(&mut self, confirmation_time: u128, used_priority_fee: u128)
        requires
            old(self).wf(),
            confirmation_time <= MAX_DURATION_NANOS,
        ensures
            final(self).wf(),
            final(self).times() == record_time(old(self).times(), confirmation_time),
            final(self).base_priority_fee() == (old(self).base_priority_fee() + used_priority_fee)
                / 2,
    {
        self.confirmation_times.push_back(confirmation_time);
        if self.confirmation_times.len() > CONFIRMATION_TIME_WINDOW {
            self.confirmation_times.pop_front();
        }
        let a = self.priority_fee;
        let b = used_priority_fee;
        self.priority_fee = a / 2 + b / 2 + (a % 2 + b % 2) / 2;
    }

    /// The base fee of the next block.
    pub fn get_base_fee(&self) -> (fee: u128)
        ensures
            fee == INITIAL_BASE_FEE,
    {
        INITIAL_BASE_FEE
    }

    /// The base priority fee.
    pub fn priority_fee(&self) -> (fee: u128)
        ensures
            fee == self.base_priority_fee(),
    {
        self.priority_fee
    }

    /// The recent confirmation times, in nanoseconds, oldest first.
    pub fn confirmation_times(&self) -> (times: &VecDeque<u128>)
        ensures
            times@ == self.times(),
    {
        &self.confirmation_times
    }
}

impl Default for GasPriceManager {
    fn default() -> (m: GasPriceManager)
        ensures
            m.wf(),
            m.times() == Seq::<u128>::empty(),
            m.base_priority_fee() == INITIAL_PRIORITY_FEE,
    {
        GasPriceManager::new()
    }
}

proof fn lemma_product_above_cap(base: int, m: int)
    requires
        m > 0,
        base > (MAX_PRIORITY_FEE as int) / m,
    ensures
        base * m > MAX_PRIORITY_FEE,
{
    assert(base * m > MAX_PRIORITY_FEE) by (nonlinear_arith)
        requires
            m > 0,
            base >= (MAX_PRIORITY_FEE as int) / m + 1,
    ;
}

proof fn lemma_product_below_cap(base: int, m: int)
    requires
        m > 0,
        0 <= base <= (MAX_PRIORITY_FEE as int) / m,
    ensures
        base * m <= MAX_PRIORITY_FEE,
{
    assert(base * m <= MAX_PRIORITY_FEE) by (nonlinear_arith)
        requires
            m > 0,
            0 <= base <= (MAX_PRIORITY_FEE as int) / m,
    ;
}

/// The proposed priority fee never exceeds `MAX_PRIORITY_FEE`.
pub proof fn lemma_priority_fee_capped(base: u128, level: CongestionLevel, priority: u32)
    ensures
        priority_fee_for(base, level, priority) <= MAX_PRIORITY_FEE,
{
}

/// A higher priority never gets a lower priority fee.
pub proof fn lemma_priority_fee_monotone_in_priority(
    base: u128,
    level: CongestionLevel,
    low: u32,
    high: u32,
)
    requires
        low <= high,
    ensures
        priority_fee_for(base, level, low) <= priority_fee_for(base, level, high),
{
    let cl: int = if low < MAX_PRIORITY { low as int } else { MAX_PRIORITY as int };
    let ch: int = if high < MAX_PRIORITY { high as int } else { MAX_PRIORITY as int };
    let m = congestion_multiplier(level) as int;
    assert(base * m * cl <= base * m * ch) by (nonlinear_arith)
        requires
            0 <= cl <= ch,
            m >= 1,
            base >= 0,
    ;
}

/// Below the cap, a strictly higher (capped) priority gets a strictly higher
/// fee whenever the base priority fee is positive.
pub proof fn lemma_priority_fee_grows_with_priority(
    base: u128,
    level: CongestionLevel,
    low: u32,
    high: u32,
)
    requires
        low < high <= MAX_PRIORITY,
        base > 0,
        base * congestion_multiplier(level) * high < MAX_PRIORITY_FEE,
    ensures
        priority_fee_for(base, level, low) < priority_fee_for(base, level, high),
{
    let m = congestion_multiplier(level) as int;
    assert(base * m * low < base * m * high) by (nonlinear_arith)
        requires
            0 <= low < high,
            m >= 1,
            base > 0,
    ;
}

/// More congestion never gets a lower priority fee.
pub proof fn lemma_priority_fee_monotone_in_congestion(
    base: u128,
    low: CongestionLevel,
    high: CongestionLevel,
    priority: u32,
)
    requires
        congestion_multiplier(low) <= congestion_multiplier(high),
    ensures
        priority_fee_for(base, low, priority) <= priority_fee_for(base, high, priority),
{
    let c: int = if priority < MAX_PRIORITY { priority as int } else { MAX_PRIORITY as int };
    let ml = congestion_multiplier(low) as int;
    let mh = congestion_multiplier(high) as int;
    assert(base * ml * c <= base * mh * c) by (nonlinear_arith)
        requires
            0 <= c,
            1 <= ml <= mh,
            base >= 0,
    ;
}

/// The congestion levels are ordered by their multipliers.
pub proof fn lemma_congestion_multipliers_ordered()
    ensures
        congestion_multiplier(CongestionLevel::Low) < congestion_multiplier(CongestionLevel::Medium),
        congestion_multiplier(CongestionLevel::Medium) < congestion_multiplier(CongestionLevel::High),
{
}

/// Recording a time keeps at most a window of times, ends with the new time,
/// and keeps the newest of the older ones in order.
pub proof fn lemma_record_time_window(times: Seq<u128>, time: u128)
    requires
        times.len() <= CONFIRMATION_TIME_WINDOW,
    ensures
        record_time(times, time).len() <= CONFIRMATION_TIME_WINDOW,
        record_time(times, time).len() == if times.len() == CONFIRMATION_TIME_WINDOW {
            times.len()
        } else {
            times.len() + 1
        },
        record_time(times, time).last() == time,
        record_time(times, time).drop_last() == times.subrange(
            times.len() + 1 - record_time(times, time).len(),
            times.len() as int,
        ),
{
    let r = record_time(times, time);
    if times.len() + 1 > CONFIRMATION_TIME_WINDOW {
        assert(r.drop_last() =~= times.subrange(1, times.len() as int));
    } else {
        assert(r.drop_last() =~= times.subrange(0, times.len() as int));
    }
}

/// The base priority fee after a confirmation lies between the old one and
/// the fee that was used.
pub proof fn lemma_fee_average_between(old_fee: u128, used_fee: u128)
    ensures
        (old_fee + used_fee) / 2 >= if old_fee < used_fee { old_fee } else { used_fee },
        (old_fee + used_fee) / 2 <= if old_fee < used_fee { used_fee } else { old_fee },
{
}

/// All priorities from `MAX_PRIORITY` up get the same, highest fee.
pub proof fn lemma_priority_fee_saturates(base: u128, level: CongestionLevel, priority: u32)
    requires
        priority >= MAX_PRIORITY,
    ensures
        priority_fee_for(base, level, priority) == priority_fee_for(base, level, MAX_PRIORITY),
        forall|p: u32| #[trigger] priority_fee_for(base, level, p) <= priority_fee_for(base, level, priority),
{
    assert forall|p: u32| #[trigger] priority_fee_for(base, level, p) <= priority_fee_for(base, level, priority) by {
        if p <= priority {
            lemma_priority_fee_monotone_in_priority(base, level, p, priority);
        }
    }
}

/// Slower average confirmations never show less congestion.
pub proof fn lemma_congestion_monotone(faster: Seq<u128>, slower: Seq<u128>)
    requires
        faster.len() > 0,
        slower.len() > 0,
        total_nanos(faster) / (faster.len() as int) <= total_nanos(slower) / (slower.len() as int),
    ensures
        congestion_multiplier(congestion_of(faster)) <= congestion_multiplier(congestion_of(slower)),
{
}

/// For any state of the manager, the priority fee it proposes is within the
/// cap and does not fall as the priority rises.
pub proof fn lemma_manager_fee_laws(m: GasPriceManager, low: u32, high: u32)
    requires
        low <= high,
    ensures
        priority_fee_for(m.base_priority_fee(), congestion_of(m.times()), high) <= MAX_PRIORITY_FEE,
        priority_fee_for(m.base_priority_fee(), congestion_of(m.times()), low) <= priority_fee_for(
            m.base_priority_fee(),
            congestion_of(m.times()),
            high,
        ),
{
    lemma_priority_fee_monotone_in_priority(m.base_priority_fee(), congestion_of(m.times()), low, high);
}

/// Recording a time adds it to the total of the window, less the oldest time
/// where the window was full.
pub proof fn lemma_record_time_total(times: Seq<u128>, time: u128)
    ensures
        times.len() + 1 > CONFIRMATION_TIME_WINDOW && times.len() > 0 ==> total_nanos(
            record_time(times, time),
        ) == total_nanos(times.drop_first()) + time,
        times.len() + 1 <= CONFIRMATION_TIME_WINDOW ==> total_nanos(record_time(times, time))
            == total_nanos(times) + time,
{
    if times.len() + 1 > CONFIRMATION_TIME_WINDOW && times.len() > 0 {
        let r = record_time(times, time);
        assert(r =~= times.drop_first().push(time));
        assert(r.drop_last() =~= times.drop_first());
    } else if times.len() + 1 <= CONFIRMATION_TIME_WINDOW {
        assert(record_time(times, time).drop_last() =~= times);
    }
}

/// A slower confirmation never lowers the next priority fee: recording a
/// longer confirmation time into the same window shows at least as much
/// congestion, and so gives at least as high a fee for every priority.
pub proof fn lemma_slower_confirmation_not_cheaper(
    times: Seq<u128>,
    faster: u128,
    slower: u128,
    base: u128,
    priority: u32,
)
    requires
        faster <= slower,
    ensures
        congestion_multiplier(congestion_of(record_time(times, faster))) <= congestion_multiplier(
            congestion_of(record_time(times, slower)),
        ),
        priority_fee_for(base, congestion_of(record_time(times, faster)), priority)
            <= priority_fee_for(base, congestion_of(record_time(times, slower)), priority),
{
    let f = record_time(times, faster);
    let w = record_time(times, slower);
    lemma_record_time_total(times, faster);
    lemma_record_time_total(times, slower);
    assert(f.len() == w.len() && f.len() > 0);
    assert(total_nanos(f) <= total_nanos(w));
    let len = f.len() as int;
    assert(total_nanos(f) / len <= total_nanos(w) / len) by (nonlinear_arith)
        requires
            total_nanos(f) <= total_nanos(w),
            len > 0,
    ;
    lemma_congestion_monotone(f, w);
    lemma_priority_fee_monotone_in_congestion(
        base,
        congestion_of(f),
        congestion_of(w),
        priority,
    );
}

} // verus!
