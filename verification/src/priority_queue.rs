//! The queue of messages waiting to be sent, ordered by effective priority.
use crate::clock::{utc_now, UtcTime};
use crate::message::{
    age_factor, effective_priority_spec, lemma_near_deadline_priority, saturate_u32, Message,
    URGENT_DEADLINE_BOOST,
};
use crate::BLOCK_TIME;
use std::cmp::Ordering;
use vstd::prelude::*;
use vstd::std_specs::cmp::{PartialEqSpecImpl, PartialOrdSpecImpl};

verus! {

/// A message together with the effective priority it had when it was queued.
/// The queue judges priorities again when a message leaves it.
#[derive(Debug)]
pub struct PrioritizedMessage {
    pub message: Message,
    pub effective_priority: u32,
}

/// How two effective priorities compare.
pub open spec fn compare_priorities(a: u32, b: u32) -> Ordering {
    if a < b {
        Ordering::Less
    } else if a == b {
        Ordering::Equal
    } else {
        Ordering::Greater
    }
}

impl PartialEq for PrioritizedMessage {
    fn eq(&self, other: &Self) -> (r: bool) {
        self.effective_priority == other.effective_priority
    }
}

impl PartialEqSpecImpl for PrioritizedMessage {
    open spec fn obeys_eq_spec() -> bool {
        true
    }

    open spec fn eq_spec(&self, other: &Self) -> bool {
        self.effective_priority == other.effective_priority
    }
}

impl Eq for PrioritizedMessage {
}

impl PartialOrd for PrioritizedMessage {
    fn partial_cmp(&self, other: &Self) -> (r: Option<Ordering>) {
        Some(self.cmp(other))
    }
}

impl PartialOrdSpecImpl for PrioritizedMessage {
    open spec fn obeys_partial_cmp_spec() -> bool {
        true
    }

    open spec fn partial_cmp_spec(&self, other: &Self) -> Option<Ordering> {
        Some(compare_priorities(self.effective_priority, other.effective_priority))
    }
}

impl PrioritizedMessage {
    /// Orders two queued messages by their effective priority alone.
    pub fn cmp(&self, other: &Self) -> (r: Ordering)
        ensures
            r == compare_priorities(self.effective_priority, other.effective_priority),
    {
        if self.effective_priority < other.effective_priority {
            Ordering::Less
        } else if self.effective_priority == other.effective_priority {
            Ordering::Equal
        } else {
            Ordering::Greater
        }
    }
}

/// The effective priorities at `now` of the queued entries, entry `i` being
/// `ages[i]` seconds old.
pub open spec fn priorities_at(s: Seq<PrioritizedMessage>, now: UtcTime, ages: Seq<u64>) -> Seq<u32> {
    Seq::new(s.len(), |i: int| saturate_u32(effective_priority_spec(s[i].message, now, ages[i])))
}

/// Whether `i` is the index of a greatest priority in `p`, the first such.
pub open spec fn is_top_index(p: Seq<u32>, i: int) -> bool {
    &&& 0 <= i < p.len()
    &&& forall|j: int| 0 <= j < p.len() ==> p[j] <= p[i]
    &&& forall|j: int| 0 <= j < i ==> p[j] < p[i]
}

/// Messages waiting to be sent, highest effective priority first.
#[derive(Debug)]
pub struct PriorityQueue {
    heap: Vec<PrioritizedMessage>,
}

impl View for PriorityQueue {
    type V = Seq<PrioritizedMessage>;

    /// The queued entries, in the order they were queued.
    closed spec fn view(&self) -> Seq<PrioritizedMessage> {
        self.heap@
    }
}

impl PriorityQueue {
    /// An empty queue.
    pub fn new() -> (q: PriorityQueue)
        ensures
            q@ == Seq::<PrioritizedMessage>::empty(),
    {
        PriorityQueue { heap: Vec::new() }
    }

    /// Queues `message` with the given effective priority.
    pub fn push_with_priority(&mut self, message: Message, effective_priority: u32)
        ensures
            final(self)@ == old(self)@.push(PrioritizedMessage { message, effective_priority }),
    {
        self.heap.push(PrioritizedMessage { message, effective_priority });
    }

    /// Queues `message` with the effective priority it has now.
    pub fn push(&mut self, message: Message)
        ensures
            final(self)@.len() == old(self)@.len() + 1,
            final(self)@.drop_last() == old(self)@,
            final(self)@.last().message == message,
            exists|now: UtcTime, age_secs: u64|
                now.wf() && final(self)@.last().effective_priority == saturate_u32(
                    effective_priority_spec(message, now, age_secs),
                ),
    {
        let effective_priority = message.effective_priority();
        self.push_with_priority(message, effective_priority);
    }

    /// Removes and returns the message of greatest effective priority at
    /// `now`, entry `i` being `ages[i]` seconds old; among equals, the one
    /// queued first. Priorities are judged when a message leaves, so time
    /// spent in the queue and an approaching deadline count.
    pub fn pop_at(&mut self, now: UtcTime, ages: &Vec<u64>) -> (m: Option<Message>)
        requires
            ages@.len() == old(self)@.len(),
        ensures
            old(self)@.len() == 0 ==> m is None && final(self)@ == old(self)@,
            old(self)@.len() > 0 ==> exists|i: int|
                {
                    &&& is_top_index(priorities_at(old(self)@, now, ages@), i)
                    &&& m == Some(old(self)@[i].message)
                    &&& final(self)@ == old(self)@.remove(i)
                },
    {
        let n = self.heap.len();
        if n == 0 {
            return None;
        }
        let ghost prios = priorities_at(self.heap@, now, ages@);
        let mut best: usize = 0;
        let mut best_priority = self.heap[0].message.saturating_priority_at(now, ages[0]);
        let mut k: usize = 1;
        while k < n
            invariant
                n == self.heap@.len(),
                n == ages@.len(),
                prios == priorities_at(self.heap@, now, ages@),
                0 <= best < k <= n,
                best_priority == prios[best as int],
                forall|j: int| 0 <= j < k ==> prios[j] <= best_priority,
                forall|j: int| 0 <= j < best ==> prios[j] < best_priority,
            decreases n - k,
        {
            let p = self.heap[k].message.saturating_priority_at(now, ages[k]);
            if p > best_priority {
                best = k;
                best_priority = p;
            }
            k = k + 1;
        }
        let entry = self.heap.remove(best);
        Some(entry.message)
    }

    /// Removes and returns the message of greatest effective priority now
    /// (see `pop_at`), reading each message's age from the monotonic clock.
    pub fn pop(&mut self) -> (m: Option<Message>)
        ensures
            old(self)@.len() == 0 ==> m is None && final(self)@ == old(self)@,
            old(self)@.len() > 0 ==> exists|now: UtcTime, ages: Seq<u64>, i: int|
                {
                    &&& now.wf()
                    &&& ages.len() == old(self)@.len()
                    &&& is_top_index(priorities_at(old(self)@, now, ages), i)
                    &&& m == Some(old(self)@[i].message)
                    &&& final(self)@ == old(self)@.remove(i)
                },
    {
        let now = utc_now();
        let mut ages: Vec<u64> = Vec::new();
        let n = self.heap.len();
        let mut k: usize = 0;
        while k < n
            invariant
                n == self.heap@.len(),
                k <= n,
                ages@.len() == k,
            decreases n - k,
        {
            ages.push(self.heap[k].message.age_secs());
            k = k + 1;
        }
        let m = self.pop_at(now, &ages);
        proof {
            if old(self)@.len() > 0 {
                let i = choose|i: int|
                    {
                        &&& is_top_index(priorities_at(old(self)@, now, ages@), i)
                        &&& m == Some(old(self)@[i].message)
                        &&& self@ == old(self)@.remove(i)
                    };
                assert(now.wf() && ages@.len() == old(self)@.len() && is_top_index(
                    priorities_at(old(self)@, now, ages@),
                    i,
                ) && m == Some(old(self)@[i].message) && self@ == old(self)@.remove(i));
            }
        }
        m
    }

    /// Whether no message is queued.
    pub fn is_empty(&self) -> (b: bool)
        ensures
            b == (self@.len() == 0),
    {
        self.heap.len() == 0
    }

    /// The number of queued messages.
    pub fn len(&self) -> (n: usize)
        ensures
            n == self@.len(),
    {
        self.heap.len()
    }
}

impl Default for PriorityQueue {
    fn default() -> (q: PriorityQueue)
        ensures
            q@ == Seq::<PrioritizedMessage>::empty(),
    {
        PriorityQueue::new()
    }
}

/// Judged at one instant, messages leave the queue in order of priority:
/// after the first choice is removed, the next one has no greater priority.
pub proof fn lemma_pop_order(p: Seq<u32>, i: int, j: int)
    requires
        is_top_index(p, i),
        is_top_index(p.remove(i), j),
    ensures
        p.remove(i)[j] <= p[i],
{
    let k = if j < i { j } else { j + 1 };
    assert(p.remove(i)[j] == p[k]);
}

/// Removing an entry and its age leaves the priorities of the others as they were.
pub proof fn lemma_priorities_after_remove(
    s: Seq<PrioritizedMessage>,
    now: UtcTime,
    ages: Seq<u64>,
    i: int,
)
    requires
        ages.len() == s.len(),
        0 <= i < s.len(),
    ensures
        priorities_at(s.remove(i), now, ages.remove(i)) == priorities_at(s, now, ages).remove(i),
{
    assert(priorities_at(s.remove(i), now, ages.remove(i)) =~= priorities_at(s, now, ages).remove(i));
}

/// A message whose priority is above every other leaves first.
pub proof fn lemma_highest_leaves_first(p: Seq<u32>, i: int)
    requires
        0 <= i < p.len(),
        forall|j: int| 0 <= j < p.len() && j != i ==> p[j] < p[i],
    ensures
        is_top_index(p, i),
{
}

/// The index that leaves next is unique.
pub proof fn lemma_top_index_unique(p: Seq<u32>, i: int, j: int)
    requires
        is_top_index(p, i),
        is_top_index(p, j),
    ensures
        i == j,
{
    assert(p[j] <= p[i] && p[i] <= p[j]);
}

/// Judged at `now`, a message less than two block times before its deadline
/// leaves the queue before every message without a deadline whose priority,
/// retries and age points add up to less than the urgent boost.
pub proof fn lemma_urgent_leaves_first(
    s: Seq<PrioritizedMessage>,
    now: UtcTime,
    ages: Seq<u64>,
    u: int,
)
    requires
        ages.len() == s.len(),
        0 <= u < s.len(),
        s[u].message.deadline matches Some(d) && !d.not_after(now) && d.whole_seconds_since(now)
            < 2 * BLOCK_TIME,
        forall|j: int|
            0 <= j < s.len() && j != u ==> {
                &&& (#[trigger] s[j]).message.deadline is None
                &&& s[j].message.priority + s[j].message.retry_count + age_factor(ages[j])
                    < URGENT_DEADLINE_BOOST
            },
    ensures
        is_top_index(priorities_at(s, now, ages), u),
        forall|i: int| is_top_index(priorities_at(s, now, ages), i) ==> i == u,
{
    let p = priorities_at(s, now, ages);
    let d = s[u].message.deadline.unwrap();
    assert((d.whole_seconds_since(now) as u32) == d.whole_seconds_since(now));
    lemma_near_deadline_priority(s[u].message, now, ages[u]);
    assert(p[u] >= URGENT_DEADLINE_BOOST);
    assert forall|j: int| 0 <= j < p.len() && j != u implies p[j] < p[u] by {
        assert(s[j].message.deadline is None);
        assert(p[j] == saturate_u32(effective_priority_spec(s[j].message, now, ages[j])));
    }
    lemma_highest_leaves_first(p, u);
    assert forall|i: int| is_top_index(p, i) implies i == u by {
        lemma_top_index_unique(p, i, u);
    }
}

} // verus!
