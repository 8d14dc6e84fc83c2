//! Transactions with dependencies, a priority and a bounded number of retries.
use crate::clock::{elapsed_nanos, instant_now, NANOS_PER_SEC};
use crate::gas_price::TransactionUrgency;
use crate::message::saturate_u32;
use crate::{Error, MAX_RETRIES};
use std::time::Instant;
use vstd::prelude::*;
use web3::types::{TransactionParameters, H256};

verus! {

#[verifier::external_type_specification]
#[verifier::external_body]
pub struct ExTransactionParameters(TransactionParameters);

#[verifier::external_type_specification]
#[verifier::external_body]
pub struct ExH256(H256);

/// web3's `Clone::clone` for `TransactionParameters`; nothing is claimed of
/// the value, which Verus cannot see into.
pub assume_specification[ <TransactionParameters as Clone>::clone ](t: &TransactionParameters) -> TransactionParameters;

/// `Clone::clone` for `H256` (from primitive-types), a copy; nothing is claimed
/// of the value.
pub assume_specification[ <H256 as Clone>::clone ](h: &H256) -> H256;

/// The most transactions that one transaction may depend on.
pub const MAX_DEPENDENCIES: usize = 5;

/// A transaction with its scheduling data.
#[derive(Debug, Clone)]
pub struct Transaction {
    pub tx: TransactionParameters,
    pub priority: u32,
    pub urgency: TransactionUrgency,
    pub dependencies: Vec<H256>,
    pub created_at: Instant,
    pub retry_count: u32,
}

/// The effective priority of `t` after `age_secs` seconds in existence: its
/// priority, plus its retries, plus one point per whole minute of age (the age
/// cast to `u32` by truncation, as the computation does).
pub open spec fn transaction_priority_spec(t: Transaction, age_secs: u64) -> int {
    t.priority + t.retry_count + (age_secs as u32) / 60
}

impl Transaction {
    /// Creates a transaction, refusing more than `MAX_DEPENDENCIES` dependencies.
    pub fn new(
        tx: TransactionParameters,
        priority: u32,
        urgency: TransactionUrgency,
        dependencies: Vec<H256>,
    ) -> (r: Result<Transaction, Error>)
        ensures
            dependencies.len() > MAX_DEPENDENCIES <==> r is Err,
            r matches Err(e) ==> e == Error::TooManyDependencies(dependencies.len()),
            r matches Ok(t) ==> {
                &&& t.tx == tx
                &&& t.priority == priority
                &&& t.urgency == urgency
                &&& t.dependencies@ == dependencies@
                &&& t.retry_count == 0
            },
    {
        if dependencies.len() > MAX_DEPENDENCIES {
            return Err(Error::TooManyDependencies(dependencies.len()));
        }
        Ok(Transaction {
            tx,
            priority,
            urgency,
            dependencies,
            created_at: instant_now(),
            retry_count: 0,
        })
    }

    /// The effective priority of the transaction when it is `age_secs` seconds old.
    pub fn effective_priority_at(&self, age_secs: u64) -> (p: u32)
        requires
            transaction_priority_spec(*self, age_secs) <= u32::MAX,
        ensures
            p == transaction_priority_spec(*self, age_secs),
    {
        let age_factor = #[verifier::truncate] (age_secs as u32) / 60;
        self.priority + self.retry_count + age_factor
    }

    /// The effective priority now. Where the sum exceeds `u32::MAX` the result
    /// is `u32::MAX`.
    pub fn effective_priority(&self) -> (p: u32)
        ensures
            exists|age_secs: u64| p == saturate_u32(transaction_priority_spec(*self, age_secs)),
    {
        let age_secs = (elapsed_nanos(&self.created_at) / (NANOS_PER_SEC as u128)) as u64;
        let age_factor = #[verifier::truncate] (age_secs as u32) / 60;
        let sum = self.priority as u64 + self.retry_count as u64 + age_factor as u64;
        assert(sum == transaction_priority_spec(*self, age_secs));
        let p = if sum > u32::MAX as u64 {
            u32::MAX
        } else {
            self.effective_priority_at(age_secs)
        };
        assert(p == saturate_u32(transaction_priority_spec(*self, age_secs)));
        p
    }

    /// The transaction with one more retry counted, saturating at `u32::MAX`.
    pub open spec fn retried(self) -> Transaction {
        Transaction {
            retry_count: if self.retry_count == u32::MAX {
                u32::MAX
            } else {
                (self.retry_count + 1) as u32
            },
            ..self
        }
    }

    /// Counts one more retry, saturating at `u32::MAX`.
    pub fn increment_retry(&mut self)
        ensures
            *final(self) == old(self).retried(),
    {
        self.retry_count = self.retry_count.saturating_add(1);
    }

    /// Whether the transaction may still be retried.
    pub fn can_retry(&self) -> (can: bool)
        ensures
            can == (self.retry_count < MAX_RETRIES),
    {
        self.retry_count < MAX_RETRIES
    }
}

/// One point per whole minute of age: the points a transaction `age_secs`
/// seconds old (within `u32`) earns beyond its priority and retries are the
/// whole minutes in its age.
pub proof fn lemma_transaction_age_whole_minutes(t: Transaction, age_secs: u64)
    requires
        age_secs <= u32::MAX,
    ensures
        (transaction_priority_spec(t, age_secs) - t.priority - t.retry_count) * 60 <= age_secs,
        age_secs < (transaction_priority_spec(t, age_secs) - t.priority - t.retry_count + 1) * 60,
{
    assert((age_secs as u32) == age_secs);
}

/// Waiting one more minute adds one point to a transaction's effective
/// priority, and an older transaction never has a lower one.
pub proof fn lemma_transaction_priority_ages(t: Transaction, younger: u64, older: u64)
    requires
        younger <= older,
        younger + 60 <= u32::MAX,
        older <= u32::MAX,
    ensures
        transaction_priority_spec(t, (younger + 60) as u64) == transaction_priority_spec(t, younger)
            + 1,
        transaction_priority_spec(t, younger) <= transaction_priority_spec(t, older),
        saturate_u32(transaction_priority_spec(t, younger)) <= saturate_u32(
            transaction_priority_spec(t, older),
        ),
{
    let next = (younger + 60) as u64;
    assert((younger as u32) == younger);
    assert((next as u32) == next);
    assert((older as u32) == older);
    assert((older as u32) / 60 >= (younger as u32) / 60) by (nonlinear_arith)
        requires
            (younger as u32) <= (older as u32),
    ;
}

} // verus!
