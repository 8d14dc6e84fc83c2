//! Messages: the intent to send a transaction, with a priority and an
//! optional deadline, bound to a nonce and fees only right before sending.
use crate::clock::{
    elapsed_nanos, instant_now, utc_now, whole_seconds, UtcTime, MAX_DURATION_NANOS, NANOS_PER_SEC,
};
use crate::{BLOCK_TIME, MAX_RETRIES, POINTS_PER_BLOCK};
use alloy::primitives::{Address, Bytes, Uint, U256};
use std::time::Instant;
use vstd::prelude::*;

verus! {

#[verifier::external_type_specification]
#[verifier::external_body]
pub struct ExAddress(Address);

#[verifier::external_type_specification]
#[verifier::external_body]
pub struct ExBytes(Bytes);

#[verifier::external_type_specification]
#[verifier::external_body]
pub struct ExUint<const BITS: usize, const LIMBS: usize>(Uint<BITS, LIMBS>);

/// The intent to send a transaction.
#[derive(Debug, Clone)]
pub struct Message {
    pub to: Option<Address>,
    pub value: U256,
    pub data: Bytes,
    pub gas: u128,
    pub priority: u32,
    pub deadline: Option<UtcTime>,
    pub created_at: Instant,
    pub retry_count: u32,
}

/// The deadline boost of a message less than two block times from its deadline.
pub const URGENT_DEADLINE_BOOST: u32 = 50;

/// The priority boost for a deadline that lies `seconds_left` seconds ahead.
pub open spec fn deadline_boost(seconds_left: u32) -> u32 {
    if seconds_left < 2 * BLOCK_TIME {
        URGENT_DEADLINE_BOOST
    } else if seconds_left < 10 * BLOCK_TIME {
        10
    } else {
        2
    }
}

/// The deadline factor at time `now`: none without a deadline, zero once the
/// deadline is reached, and otherwise a boost that grows as it comes closer.
/// The seconds left are cast to `u32` as the computation does, by truncation.
pub open spec fn deadline_factor_spec(deadline: Option<UtcTime>, now: UtcTime) -> Option<u32> {
    match deadline {
        None => None,
        Some(d) => if d.not_after(now) {
            Some(0u32)
        } else {
            Some(deadline_boost(d.whole_seconds_since(now) as u32))
        },
    }
}

/// The priority points for a message that has waited `age_secs` seconds;
/// the age is cast to `u32` by truncation, as the computation does.
pub open spec fn age_factor(age_secs: u64) -> int {
    ((age_secs as u32) * POINTS_PER_BLOCK) / (BLOCK_TIME as int)
}

/// The effective priority of `msg` at time `now`, after `age_secs` seconds in
/// existence: zero once its deadline has passed, otherwise the base priority
/// plus its retries, its age factor and its deadline factor.
pub open spec fn effective_priority_spec(msg: Message, now: UtcTime, age_secs: u64) -> int {
    match deadline_factor_spec(msg.deadline, now) {
        Some(f) => if f == 0 {
            0
        } else {
            msg.priority + msg.retry_count + age_factor(age_secs) + f
        },
        None => msg.priority + msg.retry_count + age_factor(age_secs),
    }
}

/// `x` where it fits in a `u32`, else `u32::MAX`.
pub open spec fn saturate_u32(x: int) -> u32 {
    if x <= u32::MAX {
        x as u32
    } else {
        u32::MAX
    }
}

/// Whether `msg` is less than two block times from its deadline at `now`.
pub open spec fn is_urgent_spec(msg: Message, now: UtcTime) -> bool {
    deadline_factor_spec(msg.deadline, now) == Some(URGENT_DEADLINE_BOOST)
}

/// Whether `msg` has expired at `now`: it has a deadline and `now` is past it.
pub open spec fn is_expired_spec(msg: Message, now: UtcTime) -> bool {
    match msg.deadline {
        None => false,
        Some(d) => d.total_nanos() < now.total_nanos(),
    }
}

/// alloy-primitives' `Default::default` for `Bytes` (the empty byte string);
/// nothing is claimed of the value, which Verus cannot see into.
pub assume_specification[ <Bytes as Default>::default ]() -> Bytes;

/// ruint's `Default::default` for `Uint` (zero); nothing is claimed of the
/// value, which Verus cannot see into.
pub assume_specification<const BITS: usize, const LIMBS: usize>[ <Uint<BITS, LIMBS> as Default>::default ]() -> Uint<BITS, LIMBS>;

/// std's `Clone::clone` for `Instant`, a copy; nothing is claimed of the
/// value, which Verus cannot see into.
pub assume_specification[ <Instant as Clone>::clone ](i: &Instant) -> Instant;

/// alloy-primitives' `Clone::clone` for `Address`, a copy; nothing is claimed
/// of the value.
pub assume_specification[ <Address as Clone>::clone ](a: &Address) -> Address;

/// alloy-primitives' `Clone::clone` for `Bytes`; nothing is claimed of the value.
pub assume_specification[ <Bytes as Clone>::clone ](b: &Bytes) -> Bytes;

/// ruint's `Clone::clone` for `Uint`, a copy; nothing is claimed of the value.
pub assume_specification<const BITS: usize, const LIMBS: usize>[ <Uint<BITS, LIMBS> as Clone>::clone ](u: &Uint<BITS, LIMBS>) -> Uint<BITS, LIMBS>;

impl Default for Message {
    /// An empty message: no recipient, no gas, no priority, no deadline, no
    /// retries, created now.
    fn default() -> (m: Message)
        ensures
            m.to is None,
            m.gas == 0,
            m.priority == 0,
            m.deadline is None,
            m.retry_count == 0,
    {
        Message {
            to: None,
            value: Default::default(),
            data: Default::default(),
            gas: 0,
            priority: 0,
            deadline: None,
            created_at: instant_now(),
            retry_count: 0,
        }
    }
}

impl Message {
    /// Creates a message with no retries, created now.
    pub fn new(
        to: Option<Address>,
        gas: u128,
        value: U256,
        data: Bytes,
        priority: u32,
        deadline: Option<UtcTime>,
    ) -> (m: Message)
        ensures
            m.to == to,
            m.gas == gas,
            m.value == value,
            m.data == data,
            m.priority == priority,
            m.deadline == deadline,
            m.retry_count == 0,
    {
        Message {
            to,
            gas,
            value,
            data,
            priority,
            deadline,
            created_at: instant_now(),
            retry_count: 0,
        }
    }

    /// The message as text, formatted through `format!` with the `Debug` and
    /// `Display` impls of its fields' types; the deadline is shown as chrono's
    /// `DateTime<Utc>` built by `DateTime::from_timestamp`. Nothing is claimed
    /// of the text.
    #[verifier::external_body]
    pub fn to_string(&self) -> String {
        let deadline = self.deadline.and_then(
            |d| chrono::DateTime::<chrono::Utc>::from_timestamp(d.secs, d.nanos),
        );
        format!(
            "Message {{ to: {:?}, value: {}, gas: {}, priority: {}, deadline: {:?}, created_at: {:?}, retry_count: {} }}",
            self.to, self.value, self.gas, self.priority, deadline, self.created_at, self.retry_count
        )
    }

    /// The deadline factor at time `now` (see `deadline_factor_spec`).
    pub fn deadline_factor_at(&self, now: UtcTime) -> (f: Option<u32>)
        ensures
            f == deadline_factor_spec(self.deadline, now),
    {
        match self.deadline {
            None => None,
            Some(d) => {
                let deadline_nanos = d.nanos_since_epoch();
                let now_nanos = now.nanos_since_epoch();
                if deadline_nanos <= now_nanos {
                    return Some(0);
                }
                let seconds_left = #[verifier::truncate] (((deadline_nanos - now_nanos) / 1_000_000_000) as u32);
                if seconds_left < BLOCK_TIME * 2 {
                    Some(URGENT_DEADLINE_BOOST)
                } else if seconds_left < BLOCK_TIME * 10 {
                    Some(10)
                } else {
                    Some(2)
                }
            },
        }
    }

    /// The deadline factor at the current time.
    pub fn deadline_factor(&self) -> (f: Option<u32>)
        ensures
            exists|now: UtcTime| now.wf() && f == deadline_factor_spec(self.deadline, now),
    {
        let now = utc_now();
        self.deadline_factor_at(now)
    }

    /// The effective priority at time `now` for a message `age_secs` seconds old.
    pub fn effective_priority_at(&self, now: UtcTime, age_secs: u64) -> (p: u32)
        requires
            effective_priority_spec(*self, now, age_secs) <= u32::MAX,
        ensures
            p == effective_priority_spec(*self, now, age_secs),
    {
        let deadline_factor = match self.deadline_factor_at(now) {
            None => 0,
            Some(0) => return 0,
            Some(x) => x,
        };
        let age = #[verifier::truncate] (age_secs as u32);
        let age_factor = age * POINTS_PER_BLOCK / BLOCK_TIME;
        self.priority + self.retry_count + age_factor + deadline_factor
    }

    /// The effective priority at time `now` for a message `age_secs` seconds
    /// old, or `u32::MAX` where that exceeds a `u32`.
    pub fn saturating_priority_at(&self, now: UtcTime, age_secs: u64) -> (p: u32)
        ensures
            p == saturate_u32(effective_priority_spec(*self, now, age_secs)),
    {
        let age = #[verifier::truncate] (age_secs as u32);
        let age_factor = age * POINTS_PER_BLOCK / BLOCK_TIME;
        let factor = self.deadline_factor_at(now);
        let sum: u64 = match factor {
            None => self.priority as u64 + self.retry_count as u64 + age_factor as u64,
            Some(0) => 0,
            Some(x) => self.priority as u64 + self.retry_count as u64 + age_factor as u64
                + x as u64,
        };
        assert(sum == effective_priority_spec(*self, now, age_secs));
        if sum > u32::MAX as u64 {
            u32::MAX
        } else {
            self.effective_priority_at(now, age_secs)
        }
    }

    /// The age of the message in whole seconds, read from the monotonic clock:
    /// the elapsed nanoseconds, at most what a `Duration` holds, divided by one
    /// second and rounded down.
    pub fn age_secs(&self) -> (secs: u64)
        ensures
            exists|n: u128| n <= MAX_DURATION_NANOS && secs == #[trigger] whole_seconds(n),
    {
        let n = elapsed_nanos(&self.created_at);
        let secs = n / (NANOS_PER_SEC as u128);
        assert(n / 1_000_000_000 <= 18_446_744_073_709_551_615) by (nonlinear_arith)
            requires
                n <= 18_446_744_073_709_551_615_999_999_999u128,
        ;
        assert(secs == whole_seconds(n));
        secs as u64
    }

    /// The effective priority now. Where the sum exceeds `u32::MAX` the result
    /// is `u32::MAX`.
    pub fn effective_priority(&self) -> (p: u32)
        ensures
            exists|now: UtcTime, age_secs: u64|
                now.wf() && p == saturate_u32(effective_priority_spec(*self, now, age_secs)),
    {
        let now = utc_now();
        let age_secs = self.age_secs();
        self.saturating_priority_at(now, age_secs)
    }

    /// The message with one more retry counted, saturating at `u32::MAX`.
    pub open spec fn retried(self) -> Message {
        Message {
            retry_count: if self.retry_count == u32::MAX {
                u32::MAX
            } else {
                (self.retry_count + 1) as u32
            },
            ..self
        }
    }

    /// Counts one more retry (saturating) and tells whether another is allowed.
    pub fn increment_retry(&mut self) -> (can: bool)
        ensures
            *final(self) == old(self).retried(),
            can == (final(self).retry_count < MAX_RETRIES),
    {
        self.retry_count = self.retry_count.saturating_add(1);
        self.can_retry()
    }

    /// Whether the message may still be retried.
    pub fn can_retry(&self) -> (can: bool)
        ensures
            can == (self.retry_count < MAX_RETRIES),
    {
        self.retry_count < MAX_RETRIES
    }

    /// Whether the message has expired at time `now`.
    pub fn is_expired_at(&self, now: UtcTime) -> (expired: bool)
        ensures
            expired == is_expired_spec(*self, now),
    {
        match self.deadline {
            None => false,
            Some(d) => now.nanos_since_epoch() > d.nanos_since_epoch(),
        }
    }

    /// Whether the message has expired at the current time.
    pub fn is_expired(&self) -> (expired: bool)
        ensures
            exists|now: UtcTime| now.wf() && expired == is_expired_spec(*self, now),
            self.deadline is None ==> !expired,
    {
        let now = utc_now();
        self.is_expired_at(now)
    }
}

/// A message whose deadline has been reached has effective priority zero.
pub proof fn lemma_passed_deadline_zero(msg: Message, now: UtcTime, age_secs: u64)
    requires
        msg.deadline matches Some(d) && d.not_after(now),
    ensures
        effective_priority_spec(msg, now, age_secs) == 0,
{
}

/// Without a deadline, the effective priority is the priority plus the
/// retries plus the age factor.
pub proof fn lemma_no_deadline_priority(msg: Message, now: UtcTime, age_secs: u64)
    requires
        msg.deadline is None,
    ensures
        effective_priority_spec(msg, now, age_secs) == msg.priority + msg.retry_count + age_factor(
            age_secs,
        ),
{
}

/// A nearer deadline never gets a smaller boost.
pub proof fn lemma_deadline_boost_monotone(nearer: u32, farther: u32)
    requires
        nearer <= farther,
    ensures
        deadline_boost(nearer) >= deadline_boost(farther),
        deadline_boost(nearer) >= 2,
{
}

/// A message that has expired has a deadline factor of zero.
pub proof fn lemma_expired_has_zero_factor(msg: Message, now: UtcTime)
    requires
        is_expired_spec(msg, now),
    ensures
        deadline_factor_spec(msg.deadline, now) == Some(0u32),
{
}

/// Each retry adds one to the priority of a message without a deadline.
pub proof fn lemma_retry_raises_priority(msg: Message, now: UtcTime, age_secs: u64)
    requires
        msg.deadline is None,
        msg.retry_count < u32::MAX,
    ensures
        effective_priority_spec(msg.retried(), now, age_secs) == effective_priority_spec(
            msg,
            now,
            age_secs,
        ) + 1,
{
}

/// Counting `MAX_RETRIES` retries on a fresh message exhausts them, and
/// fewer do not.
pub proof fn lemma_retries_exhaust(msg: Message)
    requires
        msg.retry_count == 0,
    ensures
        msg.retried().retry_count < MAX_RETRIES,
        msg.retried().retried().retry_count < MAX_RETRIES,
        msg.retried().retried().retried().retry_count >= MAX_RETRIES,
{
}

/// A message whose deadline is less than two block times away (and not yet
/// reached) has an effective priority of at least the largest boost.
pub proof fn lemma_near_deadline_priority(msg: Message, now: UtcTime, age_secs: u64)
    requires
        msg.deadline matches Some(d) && !d.not_after(now) && (d.whole_seconds_since(now) as u32)
            < 2 * BLOCK_TIME,
    ensures
        effective_priority_spec(msg, now, age_secs) >= 50,
{
}

/// One priority point per whole block time of age: a message `age_secs`
/// seconds old (within `u32`) earns as many points as whole block times fit
/// in its age.
pub proof fn lemma_age_factor_whole_blocks(age_secs: u64)
    requires
        age_secs <= u32::MAX,
    ensures
        age_factor(age_secs) * BLOCK_TIME <= age_secs,
        age_secs < (age_factor(age_secs) + 1) * BLOCK_TIME,
{
    assert((age_secs as u32) == age_secs);
}

/// Waiting one more block time adds `POINTS_PER_BLOCK` to the effective
/// priority of a message whose deadline has not been reached.
pub proof fn lemma_aging_adds_points(msg: Message, now: UtcTime, age_secs: u64)
    requires
        age_secs + BLOCK_TIME <= u32::MAX,
        !(msg.deadline matches Some(d) && d.not_after(now)),
    ensures
        effective_priority_spec(msg, now, (age_secs + BLOCK_TIME) as u64) == effective_priority_spec(
            msg,
            now,
            age_secs,
        ) + POINTS_PER_BLOCK,
{
    let older = (age_secs + BLOCK_TIME) as u64;
    assert((age_secs as u32) == age_secs);
    assert((older as u32) == older);
    assert(age_factor(older) == age_factor(age_secs) + 1);
}

/// An older message never has a lower effective priority, judged at the same
/// time.
pub proof fn lemma_priority_monotone_in_age(msg: Message, now: UtcTime, younger: u64, older: u64)
    requires
        younger <= older <= u32::MAX,
    ensures
        effective_priority_spec(msg, now, younger) <= effective_priority_spec(msg, now, older),
        saturate_u32(effective_priority_spec(msg, now, younger)) <= saturate_u32(
            effective_priority_spec(msg, now, older),
        ),
{
    assert((younger as u32) == younger);
    assert((older as u32) == older);
    assert(age_factor(younger) <= age_factor(older)) by (nonlinear_arith)
        requires
            younger <= older,
            age_factor(younger) == younger / 12,
            age_factor(older) == older / 12,
    ;
}

} // verus!
