//! The sender's decisions: which message goes next, which nonce and fees a
//! transaction gets, and what follows a confirmation or a drop. The I/O that
//! sends transactions and watches for receipts drives these steps from outside.
use crate::clock::{elapsed_nanos, instant_now, utc_now, UtcTime, MAX_DURATION_NANOS};
use crate::gas_price::{
    congestion_of, lemma_priority_fee_monotone_in_priority, priority_fee_for, record_time,
    GasPriceManager, INITIAL_BASE_FEE, MAX_PRIORITY_FEE,
};
use crate::message::{
    effective_priority_spec, is_expired_spec, is_urgent_spec, lemma_priority_monotone_in_age,
    saturate_u32, Message, URGENT_DEADLINE_BOOST,
};
use crate::nonce_manager::{
    advanced_to, has_free_nonce, is_first_free, lemma_first_free_unique, NonceManager,
};
use crate::priority_queue::{is_top_index, priorities_at, PrioritizedMessage, PriorityQueue};
use crate::{Error, MAX_RETRIES};
use std::collections::BTreeMap;
use std::time::Instant;
use vstd::prelude::*;

verus! {

broadcast use {vstd::std_specs::btree::group_btree_axioms, vstd::laws_cmp::group_laws_cmp};

/// How many transactions may be in flight at once.
pub const MAX_IN_FLIGHT_TRANSACTIONS: usize = 16;

/// How many times a transaction may be replaced with new fees.
pub const MAX_REPLACEMENTS: u32 = 3;

/// The percentage by which the priority fee of a dropped transaction is
/// raised for its replacement.
pub const GAS_PRICE_INCREASE_PERCENT: u8 = 20;

/// How long to wait for a confirmation, in seconds.
pub const TX_TIMEOUT: u64 = 3;

/// The RPC error code for a sender without enough funds.
pub const TX_FAILURE_INSUFFICIENT_FUNDS: i64 = -32003;

/// A transaction hash, as its first and last sixteen bytes read big-endian.
pub type TxHashKey = (u128, u128);

/// `percent` percent of `n`, rounded down.
pub fn percent_change(n: u128, percent: u8) -> (r: u128)
    requires
        n * percent <= u128::MAX,
    ensures
        r == n * percent / 100,
{
    n * (percent as u128) / 100
}

/// A transaction that was sent and is waiting for its receipt.
#[derive(Debug)]
pub struct PendingTransaction {
    pub msg: Message,
    pub created_at: Instant,
    pub replacement_count: u32,
    pub priority_fee: u128,
    pub nonce: u64,
}

/// What a request to send carries, as seen by contracts.
pub struct SendRequestView {
    pub msg: Message,
    pub nonce: u64,
    pub base_fee: u128,
    pub priority_fee: u128,
    pub replacement_count: u32,
}

/// A message bound to a nonce and fees, ready to be turned into a transaction.
/// Only the sender makes these, so their fees are always within bounds.
#[derive(Debug)]
pub struct SendRequest {
    msg: Message,
    nonce: u64,
    base_fee: u128,
    priority_fee: u128,
    replacement_count: u32,
}

impl View for SendRequest {
    type V = SendRequestView;

    closed spec fn view(&self) -> SendRequestView {
        SendRequestView {
            msg: self.msg,
            nonce: self.nonce,
            base_fee: self.base_fee,
            priority_fee: self.priority_fee,
            replacement_count: self.replacement_count,
        }
    }
}

impl SendRequest {
    #[verifier::type_invariant]
    spec fn fees_in_bounds(self) -> bool {
        &&& self.base_fee == INITIAL_BASE_FEE
        &&& self.priority_fee <= fee_ceiling(self.replacement_count)
    }

    /// The message to send.
    pub fn msg(&self) -> (m: &Message)
        ensures
            *m == self@.msg,
    {
        &self.msg
    }

    /// The nonce the transaction is sent with.
    pub fn nonce(&self) -> (n: u64)
        ensures
            n == self@.nonce,
    {
        self.nonce
    }

    /// The base fee per gas.
    pub fn base_fee(&self) -> (f: u128)
        ensures
            f == self@.base_fee,
    {
        self.base_fee
    }

    /// The priority fee per gas.
    pub fn priority_fee(&self) -> (f: u128)
        ensures
            f == self@.priority_fee,
    {
        self.priority_fee
    }

    /// How many times this message's transaction has been replaced.
    pub fn replacement_count(&self) -> (c: u32)
        ensures
            c == self@.replacement_count,
    {
        self.replacement_count
    }

    /// Gives the message back.
    pub fn into_message(self) -> (m: Message)
        ensures
            m == self@.msg,
    {
        self.msg
    }
}

/// The fields of the transaction to build for a request.
#[derive(Debug, Clone, Copy, PartialEq, Eq, Structural)]
pub struct TxFees {
    pub chain_id: u64,
    pub nonce: u64,
    pub gas_limit: u128,
    pub max_fee_per_gas: u128,
    pub max_priority_fee_per_gas: u128,
}

/// What follows a receipt or a drop.
#[derive(Debug)]
pub enum Outcome {
    /// The transaction succeeded and the trackers were updated.
    Confirmed { nonce: u64 },
    /// The hash is not among the pending transactions; nothing changed.
    Untracked,
    /// The transaction was dropped; send this replacement.
    Resend(SendRequest),
    /// The transaction was dropped and its message has no retries left; its
    /// nonce was taken out of flight.
    Abandoned(Message),
}

/// The highest priority fee a request replaced `replacements` times can
/// carry: `MAX_PRIORITY_FEE` for a first request, doubled for each
/// replacement up to the fourth. A replacement raises the fee by less than
/// double, so replacing keeps a request within its ceiling.
pub open spec fn fee_ceiling(replacements: u32) -> int {
    if replacements == 0 {
        MAX_PRIORITY_FEE as int
    } else if replacements == 1 {
        2 * MAX_PRIORITY_FEE
    } else if replacements == 2 {
        4 * MAX_PRIORITY_FEE
    } else if replacements == 3 {
        8 * MAX_PRIORITY_FEE
    } else {
        16 * MAX_PRIORITY_FEE
    }
}

/// How much a replacement adds to the priority fee `fee`:
/// `GAS_PRICE_INCREASE_PERCENT` percent of it, rounded down, but at least one
/// wei, so that every replacement pays more than the transaction it replaces.
pub open spec fn fee_increase(fee: u128) -> int {
    let share = fee * GAS_PRICE_INCREASE_PERCENT / 100;
    if share == 0 {
        1
    } else {
        share
    }
}

/// The priority fee of a replacement: the old fee plus `fee_increase`.
pub open spec fn bumped_fee(fee: u128) -> u128 {
    (fee + fee_increase(fee)) as u128
}

/// The replacement for a dropped transaction: same message (with the retry
/// counted) and nonce, the current base fee, the raised priority fee, and one
/// more replacement.
pub open spec fn replacement_for(p: PendingTransaction, msg: Message) -> SendRequestView {
    SendRequestView {
        msg,
        nonce: p.nonce,
        base_fee: INITIAL_BASE_FEE,
        priority_fee: bumped_fee(p.priority_fee),
        replacement_count: (p.replacement_count + 1) as u32,
    }
}

/// The request for a message when the sender is in state `s`, at nonce
/// `nonce`: the base fee, the highest priority fee for a message close to its
/// deadline (`urgent`) and otherwise the priority fee for `priority` under the
/// current congestion, and no replacement yet.
pub open spec fn first_request(
    s: Sender,
    msg: Message,
    nonce: u64,
    urgent: bool,
    priority: u32,
) -> SendRequestView {
    SendRequestView {
        msg,
        nonce,
        base_fee: INITIAL_BASE_FEE,
        priority_fee: if urgent {
            MAX_PRIORITY_FEE
        } else {
            priority_fee_for(s.gas().base_priority_fee(), congestion_of(s.gas().times()), priority)
        },
        replacement_count: 0,
    }
}

/// What processing `msg` does to sender state `old`, giving `new` and `r`,
/// when the expiry is judged at `now` and the priority at `prio_now` for a
/// message `age_secs` seconds old: an expired message is refused and nothing
/// changes; any other is bound to the first free nonce, which goes in flight,
/// and to the fees of `first_request`.
pub open spec fn processed(
    old: Sender,
    new: Sender,
    msg: Message,
    now: UtcTime,
    prio_now: UtcTime,
    age_secs: u64,
    r: Result<SendRequest, Error>,
) -> bool {
    &&& new.gas() == old.gas()
    &&& new.queued() == old.queued()
    &&& new.pending() == old.pending()
    &&& new.chain() == old.chain()
    &&& new.nonces().current() == old.nonces().current()
    &&& (r is Err <==> is_expired_spec(msg, now))
    &&& r matches Err(e) ==> {
        &&& e == Error::MessageExpired
        &&& new.nonces() == old.nonces()
    }
    &&& r matches Ok(req) ==> {
        &&& is_first_free(old.nonces().current(), old.nonces().in_flight(), req@.nonce)
        &&& req@ == first_request(
            old,
            msg,
            req@.nonce,
            is_urgent_spec(msg, prio_now),
            saturate_u32(effective_priority_spec(msg, prio_now, age_secs)),
        )
        &&& new.nonces().in_flight() == old.nonces().in_flight().insert(req@.nonce)
    }
}

/// What handling the drop of `tx_hash` does to sender state `old`, giving
/// `new` and `r`: an unknown hash changes nothing; a pending transaction is
/// forgotten and its message's retry is counted, and then either a
/// replacement is asked for or, with no retries left, the message is given up
/// and its nonce taken out of flight.
pub open spec fn dropped(old: Sender, new: Sender, tx_hash: TxHashKey, r: Outcome) -> bool {
    &&& !old.pending().contains_key(tx_hash) ==> {
        &&& r is Untracked
        &&& new.pending() == old.pending()
        &&& new.nonces() == old.nonces()
    }
    &&& old.pending().contains_key(tx_hash) ==> {
        let p = old.pending()[tx_hash];
        let m = p.msg.retried();
        &&& new.pending() == old.pending().remove(tx_hash)
        &&& m.retry_count < MAX_RETRIES ==> {
            &&& r matches Outcome::Resend(req) && req@ == replacement_for(p, m)
            &&& new.nonces() == old.nonces()
        }
        &&& m.retry_count >= MAX_RETRIES ==> {
            &&& r matches Outcome::Abandoned(msg) && msg == m
            &&& new.nonces().current() == old.nonces().current()
            &&& new.nonces().in_flight() == old.nonces().in_flight().remove(p.nonce)
        }
    }
    &&& new.gas() == old.gas()
    &&& new.queued() == old.queued()
    &&& new.chain() == old.chain()
}

/// What handling a receipt for `tx_hash` with status `success` does to sender
/// state `old`, giving `new` and `r`: a failed one is handled as `dropped`; a
/// successful one for an unknown hash changes nothing; a successful one for a
/// pending transaction forgets it, records its confirmation time (at most
/// what a `Duration` holds) and averages its priority fee into the base
/// priority fee, and moves the nonce tracker past its nonce.
pub open spec fn received(
    old: Sender,
    new: Sender,
    tx_hash: TxHashKey,
    success: bool,
    r: Outcome,
) -> bool {
    &&& !success ==> dropped(old, new, tx_hash, r)
    &&& success && !old.pending().contains_key(tx_hash) ==> {
        &&& r is Untracked
        &&& new.pending() == old.pending()
        &&& new.gas() == old.gas()
        &&& new.nonces() == old.nonces()
    }
    &&& success && old.pending().contains_key(tx_hash) ==> {
        let p = old.pending()[tx_hash];
        &&& r matches Outcome::Confirmed { nonce } && nonce == p.nonce
        &&& new.pending() == old.pending().remove(tx_hash)
        &&& exists|latency: u128|
            latency <= MAX_DURATION_NANOS && new.gas().times() == record_time(
                old.gas().times(),
                latency,
            )
        &&& new.gas().base_priority_fee() == (old.gas().base_priority_fee() + p.priority_fee) / 2
        &&& (new.nonces().current(), new.nonces().in_flight()) == advanced_to(
            old.nonces().current(),
            old.nonces().in_flight(),
            p.nonce,
        )
    }
    &&& new.queued() == old.queued()
    &&& new.chain() == old.chain()
}

/// The state the sender decides from: queued messages, pending transactions,
/// nonces and gas prices.
pub struct Sender {
    chain_id: u64,
    nonce_manager: NonceManager,
    gas_manager: GasPriceManager,
    queue: PriorityQueue,
    pending: BTreeMap<TxHashKey, PendingTransaction>,
}

impl Sender {
    /// The chain the transactions are for.
    pub closed spec fn chain(&self) -> u64 {
        self.chain_id
    }

    /// The nonce tracker.
    pub closed spec fn nonces(&self) -> NonceManager {
        self.nonce_manager
    }

    /// The gas price tracker.
    pub closed spec fn gas(&self) -> GasPriceManager {
        self.gas_manager
    }

    /// The queued messages.
    pub closed spec fn queued(&self) -> Seq<PrioritizedMessage> {
        self.queue@
    }

    /// The pending transactions by hash.
    pub closed spec fn pending(&self) -> Map<TxHashKey, PendingTransaction> {
        self.pending@
    }

    /// The sender's invariant: the gas tracker is well formed, and every
    /// pending transaction was sent with a priority fee within the ceiling for
    /// its replacement count, which is within `MAX_REPLACEMENTS`.
    pub open spec fn wf(&self) -> bool {
        &&& self.gas().wf()
        &&& forall|h: TxHashKey| #[trigger] self.pending().contains_key(h) ==> {
            &&& self.pending()[h].priority_fee <= fee_ceiling(self.pending()[h].replacement_count)
            &&& self.pending()[h].replacement_count <= MAX_REPLACEMENTS
        }
    }

    /// A sender for `chain_id` whose account is at `current_nonce`.
    pub fn new(chain_id: u64, current_nonce: u64) -> (s: Sender)
        ensures
            s.wf(),
            s.chain() == chain_id,
            s.nonces().current() == current_nonce,
            s.nonces().in_flight() == Set::<u64>::empty(),
            s.gas().times() == Seq::<u128>::empty(),
            s.gas().base_priority_fee() == crate::gas_price::INITIAL_PRIORITY_FEE,
            s.queued() == Seq::<PrioritizedMessage>::empty(),
            s.pending() == Map::<TxHashKey, PendingTransaction>::empty(),
    {
        Sender {
            chain_id,
            nonce_manager: NonceManager::new(current_nonce),
            gas_manager: GasPriceManager::new(),
            queue: PriorityQueue::new(),
            pending: BTreeMap::new(),
        }
    }

    /// Queues a message.
    pub fn add_message(&mut self, msg: Message)
        ensures
            final(self).queued().len() == old(self).queued().len() + 1,
            final(self).queued().drop_last() == old(self).queued(),
            final(self).queued().last().message == msg,
            exists|now: UtcTime, age_secs: u64|
                now.wf() && final(self).queued().last().effective_priority == saturate_u32(
                    effective_priority_spec(msg, now, age_secs),
                ),
            final(self).chain() == old(self).chain(),
            final(self).nonces() == old(self).nonces(),
            final(self).gas() == old(self).gas(),
            final(self).pending() == old(self).pending(),
    {
        self.queue.push(msg)
    }

    /// Takes the next message to process out of the queue.
    pub fn next_message(&mut self) -> (m: Option<Message>)
        ensures
            old(self).queued().len() == 0 ==> m is None && final(self).queued() == old(
                self,
            ).queued(),
            old(self).queued().len() > 0 ==> exists|now: UtcTime, ages: Seq<u64>, i: int|
                {
                    &&& now.wf()
                    &&& ages.len() == old(self).queued().len()
                    &&& is_top_index(priorities_at(old(self).queued(), now, ages), i)
                    &&& m == Some(old(self).queued()[i].message)
                    &&& final(self).queued() == old(self).queued().remove(i)
                },
            final(self).chain() == old(self).chain(),
            final(self).nonces() == old(self).nonces(),
            final(self).gas() == old(self).gas(),
            final(self).pending() == old(self).pending(),
    {
        self.queue.pop()
    }

    /// Moves the nonce tracker to the account nonce that the chain reports.
    pub fn sync_nonce(&mut self, on_chain_nonce: u64)
        requires
            old(self).wf(),
        ensures
            final(self).wf(),
            (final(self).nonces().current(), final(self).nonces().in_flight()) == advanced_to(
                old(self).nonces().current(),
                old(self).nonces().in_flight(),
                on_chain_nonce,
            ),
            final(self).gas() == old(self).gas(),
            final(self).queued() == old(self).queued(),
            final(self).pending() == old(self).pending(),
            final(self).chain() == old(self).chain(),
    {
        self.nonce_manager.update_current_nonce(on_chain_nonce);
    }

    /// The chain the transactions are for.
    pub fn chain_id(&self) -> (id: u64)
        ensures
            id == self.chain(),
    {
        self.chain_id
    }

    /// The nonce tracker.
    pub fn nonce_manager(&self) -> (m: &NonceManager)
        ensures
            *m == self.nonces(),
    {
        &self.nonce_manager
    }

    /// The gas price tracker.
    pub fn gas_manager(&self) -> (m: &GasPriceManager)
        ensures
            *m == self.gas(),
    {
        &self.gas_manager
    }

    /// The number of queued messages.
    pub fn queue_len(&self) -> (n: usize)
        ensures
            n == self.queued().len(),
    {
        self.queue.len()
    }

    /// The number of pending transactions.
    pub fn pending_count(&self) -> (n: usize)
        ensures
            n == self.pending().len(),
    {
        self.pending.len()
    }

    /// Whether a transaction with this hash is pending.
    pub fn is_pending(&self, tx_hash: TxHashKey) -> (b: bool)
        ensures
            b == self.pending().contains_key(tx_hash),
    {
        self.pending.contains_key(&tx_hash)
    }

    /// Processes a message with the expiry judged at `now` and the priority
    /// at `prio_now`, for a message `age_secs` seconds old (see `processed`).
    /// An expired message is refused whatever the state; any other needs a
    /// free nonce and confirmation times that add up to what a `Duration`
    /// holds.
    pub fn process_message_at(
        &mut self,
        msg: Message,
        now: UtcTime,
        prio_now: UtcTime,
        age_secs: u64,
    ) -> (r: Result<SendRequest, Error>)
        requires
            old(self).wf(),
            is_expired_spec(msg, now) || {
                &&& old(self).gas().total_fits()
                &&& has_free_nonce(old(self).nonces().current(), old(self).nonces().in_flight())
            },
        ensures
            final(self).wf(),
            processed(*old(self), *final(self), msg, now, prio_now, age_secs, r),
    {
        if msg.is_expired_at(now) {
            return Err(Error::MessageExpired);
        }
        let nonce = self.nonce_manager.get_next_available_nonce();
        let urgent = match msg.deadline_factor_at(prio_now) {
            Some(f) => f == URGENT_DEADLINE_BOOST,
            None => false,
        };
        let priority = msg.saturating_priority_at(prio_now, age_secs);
        let (base_fee, priority_fee) = if urgent {
            (self.gas_manager.get_base_fee(), MAX_PRIORITY_FEE)
        } else {
            self.gas_manager.get_gas_price(priority).unwrap()
        };
        Ok(SendRequest { msg, nonce, base_fee, priority_fee, replacement_count: 0 })
    }

    /// Processes a message now: refuses it if it has expired, else binds it
    /// to a nonce and to the fees for its deadline and effective priority.
    /// Whether the message has expired depends on the clock that this
    /// function reads, so it asks for a free nonce and fitting confirmation
    /// times in every case; a caller that must also handle expired messages
    /// without them reads the clock itself and calls `process_message_at`.
    pub fn process_message(&mut self, msg: Message) -> (r: Result<SendRequest, Error>)
        requires
            old(self).wf(),
            old(self).gas().total_fits(),
            has_free_nonce(old(self).nonces().current(), old(self).nonces().in_flight()),
        ensures
            final(self).wf(),
            exists|now: UtcTime, prio_now: UtcTime, age_secs: u64|
                now.wf() && prio_now.wf() && processed(
                    *old(self),
                    *final(self),
                    msg,
                    now,
                    prio_now,
                    age_secs,
                    r,
                ),
            msg.deadline is None ==> r is Ok,
    {
        let now = utc_now();
        let prio_now = utc_now();
        let age_secs = msg.age_secs();
        self.process_message_at(msg, now, prio_now, age_secs)
    }

    /// The fields of the transaction for a request, unless the request has been
    /// replaced too often: then its nonce is released and the request fails.
    pub fn prepare_transaction(&mut self, req: &SendRequest) -> (r: Result<TxFees, Error>)
        ensures
            req@.replacement_count > MAX_REPLACEMENTS ==> {
                &&& r matches Err(e) && e == Error::FeeIncreasesExceeded
                &&& final(self).nonces().current() == old(self).nonces().current()
                &&& final(self).nonces().in_flight() == old(self).nonces().in_flight().remove(req@.nonce)
            },
            req@.replacement_count <= MAX_REPLACEMENTS ==> {
                &&& r == Ok::<TxFees, Error>(TxFees {
                    chain_id: old(self).chain(),
                    nonce: req@.nonce,
                    gas_limit: req@.msg.gas,
                    max_fee_per_gas: (req@.base_fee + req@.priority_fee) as u128,
                    max_priority_fee_per_gas: req@.priority_fee,
                })
                &&& final(self).nonces() == old(self).nonces()
            },
            req@.base_fee + req@.priority_fee <= u128::MAX,
            final(self).gas() == old(self).gas(),
            final(self).queued() == old(self).queued(),
            final(self).pending() == old(self).pending(),
            final(self).chain() == old(self).chain(),
    {
        proof {
            use_type_invariant(req);
        }
        if req.replacement_count > MAX_REPLACEMENTS {
            self.nonce_manager.mark_nonce_available(req.nonce);
            return Err(Error::FeeIncreasesExceeded);
        }
        Ok(TxFees {
            chain_id: self.chain_id,
            nonce: req.nonce,
            gas_limit: req.msg.gas,
            max_fee_per_gas: req.base_fee + req.priority_fee,
            max_priority_fee_per_gas: req.priority_fee,
        })
    }

    /// Tracks a sent transaction under its hash, created now.
    pub fn record_pending(&mut self, tx_hash: TxHashKey, req: SendRequest)
        requires
            old(self).wf(),
            req@.replacement_count <= MAX_REPLACEMENTS,
        ensures
            final(self).wf(),
            final(self).pending().contains_key(tx_hash),
            final(self).pending().remove(tx_hash) == old(self).pending().remove(tx_hash),
            final(self).pending()[tx_hash].msg == req@.msg,
            final(self).pending()[tx_hash].nonce == req@.nonce,
            final(self).pending()[tx_hash].priority_fee == req@.priority_fee,
            final(self).pending()[tx_hash].replacement_count == req@.replacement_count,
            final(self).nonces() == old(self).nonces(),
            final(self).gas() == old(self).gas(),
            final(self).queued() == old(self).queued(),
            final(self).chain() == old(self).chain(),
    {
        proof {
            use_type_invariant(&req);
        }
        let SendRequest { msg, nonce, base_fee: _, priority_fee, replacement_count } = req;
        let pending = PendingTransaction {
            msg,
            nonce,
            priority_fee,
            replacement_count,
            created_at: instant_now(),
        };
        self.pending.insert(tx_hash, pending);
        proof {
            assert(self.pending@.remove(tx_hash) =~= old(self).pending@.remove(tx_hash));
        }
    }

    /// Reacts to a dropped transaction: forgets it, counts a retry for its
    /// message, and either asks for a replacement or gives the message up and
    /// takes its nonce out of flight.
    pub fn handle_transaction_dropped(&mut self, tx_hash: TxHashKey) -> (r: Outcome)
        requires
            old(self).wf(),
        ensures
            final(self).wf(),
            dropped(*old(self), *final(self), tx_hash, r),
    {
        let mut pending_tx = match self.pending.remove(&tx_hash) {
            Some(tx) => tx,
            None => {
                proof {
                    assert(self.pending@ =~= old(self).pending@);
                }
                return Outcome::Untracked;
            },
        };
        proof {
            assert(self.pending@ =~= old(self).pending@.remove(tx_hash));
        }
        if pending_tx.msg.increment_retry() {
            let req = self.bump_transaction_fee(tx_hash, pending_tx);
            return Outcome::Resend(req);
        }
        self.nonce_manager.mark_nonce_available(pending_tx.nonce);
        Outcome::Abandoned(pending_tx.msg)
    }

    /// The replacement for a dropped transaction whose retry was counted.
    fn bump_transaction_fee(&mut self, tx_hash: TxHashKey, pending_tx: PendingTransaction) -> (req: SendRequest)
        requires
            old(self).wf(),
            !old(self).pending().contains_key(tx_hash),
            pending_tx.priority_fee <= fee_ceiling(pending_tx.replacement_count),
            pending_tx.replacement_count <= MAX_REPLACEMENTS,
        ensures
            final(self).wf(),
            req@ == replacement_for(pending_tx, pending_tx.msg),
            final(self).pending() == old(self).pending(),
            final(self).nonces() == old(self).nonces(),
            final(self).gas() == old(self).gas(),
            final(self).queued() == old(self).queued(),
            final(self).chain() == old(self).chain(),
    {
        let base_fee = self.gas_manager.get_base_fee();
        let share = percent_change(pending_tx.priority_fee, GAS_PRICE_INCREASE_PERCENT);
        let increase = if share == 0 {
            1
        } else {
            share
        };
        let new_priority = pending_tx.priority_fee + increase;
        self.pending.remove(&tx_hash);
        proof {
            assert(self.pending@ =~= old(self).pending@);
        }
        SendRequest {
            msg: pending_tx.msg,
            nonce: pending_tx.nonce,
            base_fee,
            priority_fee: new_priority,
            replacement_count: pending_tx.replacement_count + 1,
        }
    }

    /// Reacts to the receipt of a pending transaction. A failed one is handled
    /// as dropped. A successful one is forgotten, its confirmation time and
    /// the priority fee it was sent with go to the gas tracker, and the nonce
    /// tracker moves past its nonce.
    pub fn handle_transaction_receipt(&mut self, tx_hash: TxHashKey, success: bool) -> (r:
        Outcome)
        requires
            old(self).wf(),
        ensures
            final(self).wf(),
            received(*old(self), *final(self), tx_hash, success, r),
    {
        if !success {
            return self.handle_transaction_dropped(tx_hash);
        }
        match self.pending.remove(&tx_hash) {
            None => {
                proof {
                    assert(self.pending@ =~= old(self).pending@);
                }
                Outcome::Untracked
            },
            Some(pending_tx) => {
                proof {
                    assert(self.pending@ =~= old(self).pending@.remove(tx_hash));
                }
                let latency = elapsed_nanos(&pending_tx.created_at);
                self.gas_manager.update_on_confirmation(latency, pending_tx.priority_fee);
                self.nonce_manager.update_current_nonce(pending_tx.nonce);
                Outcome::Confirmed { nonce: pending_tx.nonce }
            },
        }
    }

    /// Reacts to what watching a pending transaction gave: the status of its
    /// receipt, or `None` where the watch failed or timed out or no receipt
    /// could be had, in which case the transaction counts as dropped.
    pub fn handle_watch_result(&mut self, tx_hash: TxHashKey, receipt_status: Option<bool>) -> (r:
        Outcome)
        requires
            old(self).wf(),
        ensures
            final(self).wf(),
            match receipt_status {
                Some(success) => received(*old(self), *final(self), tx_hash, success, r),
                None => dropped(*old(self), *final(self), tx_hash, r),
            },
    {
        match receipt_status {
            Some(success) => self.handle_transaction_receipt(tx_hash, success),
            None => self.handle_transaction_dropped(tx_hash),
        }
    }
}

/// A stuck transaction is replaced at a higher price: the replacement keeps
/// the message's nonce, counts one more replacement, and its priority fee is
/// the old one raised by `GAS_PRICE_INCREASE_PERCENT` percent (rounded down),
/// or by one wei where that share rounds to nothing. So it is strictly higher
/// than the old fee, for every fee a pending transaction can carry.
pub proof fn lemma_replacement_fee(p: PendingTransaction, m: Message)
    requires
        p.priority_fee <= fee_ceiling(p.replacement_count),
        p.replacement_count <= MAX_REPLACEMENTS,
    ensures
        replacement_for(p, m).nonce == p.nonce,
        replacement_for(p, m).msg == m,
        replacement_for(p, m).replacement_count == p.replacement_count + 1,
        replacement_for(p, m).priority_fee > p.priority_fee,
        replacement_for(p, m).priority_fee == p.priority_fee + fee_increase(p.priority_fee),
        replacement_for(p, m).priority_fee * 100 >= p.priority_fee * (100
            + GAS_PRICE_INCREASE_PERCENT) - 99,
        replacement_for(p, m).priority_fee <= fee_ceiling(
            replacement_for(p, m).replacement_count,
        ),
{
}

/// A message less than two block times from its deadline is sent with the
/// highest priority fee.
pub proof fn lemma_urgent_gets_top_fee(
    old: Sender,
    new: Sender,
    msg: Message,
    now: UtcTime,
    prio_now: UtcTime,
    age_secs: u64,
    r: Result<SendRequest, Error>,
)
    requires
        processed(old, new, msg, now, prio_now, age_secs, r),
        is_urgent_spec(msg, prio_now),
        !is_expired_spec(msg, now),
    ensures
        r matches Ok(req) && req@.priority_fee == MAX_PRIORITY_FEE,
{
}

/// Pricing follows age: processing the same unexpired message from the same
/// state, with the same times, gives it the same nonce, and the older it is
/// judged to be, the higher (never lower) its priority fee.
pub proof fn lemma_older_message_not_cheaper(
    old: Sender,
    new_younger: Sender,
    new_older: Sender,
    msg: Message,
    now: UtcTime,
    prio_now: UtcTime,
    younger: u64,
    older: u64,
    r_younger: Result<SendRequest, Error>,
    r_older: Result<SendRequest, Error>,
)
    requires
        processed(old, new_younger, msg, now, prio_now, younger, r_younger),
        processed(old, new_older, msg, now, prio_now, older, r_older),
        !is_expired_spec(msg, now),
        younger <= older <= u32::MAX,
    ensures
        r_younger matches Ok(a) && r_older matches Ok(b) && a@.nonce == b@.nonce
            && a@.priority_fee <= b@.priority_fee,
{
    let a = r_younger.unwrap();
    let b = r_older.unwrap();
    lemma_first_free_unique(old.nonces().current(), old.nonces().in_flight(), a@.nonce, b@.nonce);
    lemma_priority_monotone_in_age(msg, prio_now, younger, older);
    lemma_priority_fee_monotone_in_priority(
        old.gas().base_priority_fee(),
        congestion_of(old.gas().times()),
        saturate_u32(effective_priority_spec(msg, prio_now, younger)),
        saturate_u32(effective_priority_spec(msg, prio_now, older)),
    );
}

} // verus!
