//! Nonce assignment: the current nonce and the nonces in flight.
use std::collections::BTreeSet;
use vstd::prelude::*;
use vstd::std_specs::btree::spec_btree_keys_iter;
use vstd::std_specs::iter::IteratorSpec;

verus! {

broadcast use {vstd::std_specs::btree::group_btree_axioms, vstd::laws_cmp::group_laws_cmp};

/// Whether some nonce at or above `current` is free of `in_flight`, so that
/// counting up from `current` finds one without overflow.
pub open spec fn has_free_nonce(current: u64, in_flight: Set<u64>) -> bool {
    exists|n: u64| current <= n && !in_flight.contains(n)
}

/// Whether `n` is the first nonce at or above `current` that is not in flight.
pub open spec fn is_first_free(current: u64, in_flight: Set<u64>, n: u64) -> bool {
    &&& current <= n
    &&& !in_flight.contains(n)
    &&& forall|k: u64| current <= k < n ==> in_flight.contains(k)
}

/// The nonces in flight that stay after the current nonce moves to `floor`.
pub open spec fn nonces_from(in_flight: Set<u64>, floor: u64) -> Set<u64> {
    in_flight.filter(|n: u64| n >= floor)
}

/// The current nonce and the nonces in flight after the chain reports
/// `new_nonce`: a nonce ahead of the current one becomes current and the
/// nonces in flight below it are forgotten; any other leaves both as they are.
pub open spec fn advanced_to(current: u64, in_flight: Set<u64>, new_nonce: u64) -> (u64, Set<u64>) {
    if new_nonce > current {
        (new_nonce, nonces_from(in_flight, new_nonce))
    } else {
        (current, in_flight)
    }
}

/// Tracks the current nonce (below it, every nonce is confirmed on chain)
/// and the nonces in flight.
pub struct NonceManager {
    current_nonce: u64,
    in_flight_nonces: BTreeSet<u64>,
}

impl NonceManager {
    /// The current nonce: the lowest one not known to be confirmed.
    pub closed spec fn current(&self) -> u64 {
        self.current_nonce
    }

    /// The nonces that are in flight.
    pub closed spec fn in_flight(&self) -> Set<u64> {
        self.in_flight_nonces@
    }

    /// A manager at the given nonce, with nothing in flight.
    pub fn new(current_nonce: u64) -> (m: NonceManager)
        ensures
            m.current() == current_nonce,
            m.in_flight() == Set::<u64>::empty(),
    {
        NonceManager { current_nonce, in_flight_nonces: BTreeSet::new() }
    }

    /// Assigns the least nonce that is neither confirmed (below the current
    /// nonce) nor in flight, and puts it in flight. A nonce that was taken out
    /// of flight is assigned again before any nonce above it: gaps left by
    /// dropped transactions are filled first.
    pub fn get_next_available_nonce(&mut self) -> (nonce: u64)
        requires
            has_free_nonce(old(self).current(), old(self).in_flight()),
        ensures
            is_first_free(old(self).current(), old(self).in_flight(), nonce),
            final(self).current() == old(self).current(),
            final(self).in_flight() == old(self).in_flight().insert(nonce),
    {
        let mut nonce = self.current_nonce;
        while self.in_flight_nonces.contains(&nonce)
            invariant
                self.current_nonce <= nonce,
                has_free_nonce(nonce, self.in_flight_nonces@),
                forall|k: u64| self.current_nonce <= k < nonce ==> self.in_flight_nonces@.contains(k),
            decreases u64::MAX - nonce,
        {
            proof {
                let n = choose|n: u64| nonce <= n && !self.in_flight_nonces@.contains(n);
                assert(nonce < n);
            }
            nonce = nonce + 1;
        }
        self.in_flight_nonces.insert(nonce);
        nonce
    }

    /// Takes a nonce out of flight.
    pub fn mark_nonce_available(&mut self, nonce: u64)
        ensures
            final(self).current() == old(self).current(),
            final(self).in_flight() == old(self).in_flight().remove(nonce),
    {
        self.in_flight_nonces.remove(&nonce);
    }

    /// Moves the current nonce forward to `new_nonce`, if that is ahead,
    /// and forgets the nonces in flight below it.
    pub fn update_current_nonce(&mut self, new_nonce: u64)
        ensures
            (final(self).current(), final(self).in_flight()) == advanced_to(
                old(self).current(),
                old(self).in_flight(),
                new_nonce,
            ),
    {
        if new_nonce > self.current_nonce {
            self.current_nonce = new_nonce;
            let mut kept: BTreeSet<u64> = BTreeSet::new();
            let ghost all = self.in_flight_nonces@;
            let ghost keys = spec_btree_keys_iter(&self.in_flight_nonces).remaining();
            proof {
                assert(keys.unref().to_set() == all);
            }
            for n in it: self.in_flight_nonces.iter()
                invariant
                    it.seq() == keys,
                    keys.unref().to_set() == all,
                    forall|x: u64| #[trigger] kept@.contains(x) <==> (x >= new_nonce && exists|j: int|
                        0 <= j < it.index() && *keys[j] == x),
            {
                if *n >= new_nonce {
                    kept.insert(*n);
                }
            }
            proof {
                assert forall|x: u64| #[trigger] kept@.contains(x) <==> nonces_from(all, new_nonce).contains(x) by {
                    if all.contains(x) {
                        assert(keys.unref().contains(x));
                        let j = choose|j: int| 0 <= j < keys.unref().len() && keys.unref()[j] == x;
                        assert(*keys[j] == x);
                    }
                    if exists|j: int| 0 <= j < keys.len() && *keys[j] == x {
                        let j = choose|j: int| 0 <= j < keys.len() && *keys[j] == x;
                        assert(keys.unref()[j] == x);
                        assert(keys.unref().contains(x));
                    }
                }
                assert(kept@ == nonces_from(all, new_nonce));
            }
            self.in_flight_nonces = kept;
        }
    }

    /// The current nonce.
    pub fn current_nonce(&self) -> (n: u64)
        ensures
            n == self.current(),
    {
        self.current_nonce
    }

    /// Whether `nonce` is in flight.
    pub fn is_in_flight(&self, nonce: u64) -> (b: bool)
        ensures
            b == self.in_flight().contains(nonce),
    {
        self.in_flight_nonces.contains(&nonce)
    }

    /// The number of nonces in flight.
    pub fn in_flight_count(&self) -> (n: usize)
        ensures
            n == self.in_flight().len(),
    {
        self.in_flight_nonces.len()
    }

    /// The nonce that `get_next_available_nonce` would assign, if counting up
    /// from the current nonce reaches one that is not in flight.
    pub fn first_free_nonce(&self) -> (r: Option<u64>)
        ensures
            r matches Some(n) ==> is_first_free(self.current(), self.in_flight(), n),
            r is None <==> !has_free_nonce(self.current(), self.in_flight()),
    {
        let mut k = self.current_nonce;
        while self.in_flight_nonces.contains(&k)
            invariant
                self.current_nonce <= k,
                forall|j: u64| self.current_nonce <= j < k ==> self.in_flight_nonces@.contains(j),
            decreases u64::MAX - k,
        {
            if k == u64::MAX {
                proof {
                    assert forall|n: u64| self.current_nonce <= n implies self.in_flight_nonces@.contains(n) by {
                        if n < k {
                        } else {
                            assert(n == k);
                        }
                    }
                }
                return None;
            }
            k = k + 1;
        }
        Some(k)
    }
}

/// Whether every nonce in `outstanding` (assigned and not since taken out of
/// flight) is still in flight or below the current nonce.
pub open spec fn tracks(current: u64, in_flight: Set<u64>, outstanding: Set<u64>) -> bool {
    forall|n: u64| #[trigger] outstanding.contains(n) ==> in_flight.contains(n) || n < current
}

/// No two in-flight transactions share a nonce: while the manager tracks the
/// nonces handed out and not since released, the nonce it assigns next is
/// none of them.
pub proof fn lemma_assigned_nonce_unique(
    current: u64,
    in_flight: Set<u64>,
    outstanding: Set<u64>,
    n: u64,
)
    requires
        tracks(current, in_flight, outstanding),
        is_first_free(current, in_flight, n),
    ensures
        !outstanding.contains(n),
{
}

/// A new manager tracks that nothing is outstanding.
pub proof fn lemma_tracks_new(current: u64)
    ensures
        tracks(current, Set::<u64>::empty(), Set::<u64>::empty()),
{
}

/// Assigning a nonce keeps the tracking, with that nonce outstanding.
pub proof fn lemma_tracks_after_assign(
    current: u64,
    in_flight: Set<u64>,
    outstanding: Set<u64>,
    n: u64,
)
    requires
        tracks(current, in_flight, outstanding),
        is_first_free(current, in_flight, n),
    ensures
        tracks(current, in_flight.insert(n), outstanding.insert(n)),
{
}

/// Taking a nonce out of flight keeps the tracking, with that nonce no longer
/// outstanding.
pub proof fn lemma_tracks_after_release(
    current: u64,
    in_flight: Set<u64>,
    outstanding: Set<u64>,
    n: u64,
)
    requires
        tracks(current, in_flight, outstanding),
    ensures
        tracks(current, in_flight.remove(n), outstanding.remove(n)),
{
}

/// Moving to the chain's nonce keeps the tracking.
pub proof fn lemma_tracks_after_advance(
    current: u64,
    in_flight: Set<u64>,
    outstanding: Set<u64>,
    new_nonce: u64,
)
    requires
        tracks(current, in_flight, outstanding),
    ensures
        tracks(
            advanced_to(current, in_flight, new_nonce).0,
            advanced_to(current, in_flight, new_nonce).1,
            outstanding,
        ),
{
}

/// A nonce taken out of flight at or above the current nonce is the first
/// one assigned again when everything below it is in flight.
pub proof fn lemma_released_nonce_refilled(current: u64, in_flight: Set<u64>, n: u64)
    requires
        current <= n,
        forall|k: u64| current <= k < n ==> in_flight.contains(k),
    ensures
        is_first_free(current, in_flight.remove(n), n),
{
}

/// An assigned nonce is never one that is in flight, nor below the current nonce.
pub proof fn lemma_assigned_nonce_fresh(current: u64, in_flight: Set<u64>, n: u64)
    requires
        is_first_free(current, in_flight, n),
    ensures
        !in_flight.contains(n),
        current <= n,
{
}

/// The chain's nonce never moves the current nonce backwards, and afterwards
/// no nonce in flight lies below the current one unless it already did.
pub proof fn lemma_advance_monotone(current: u64, in_flight: Set<u64>, new_nonce: u64)
    ensures
        advanced_to(current, in_flight, new_nonce).0 >= current,
        advanced_to(current, in_flight, new_nonce).0 >= new_nonce,
        advanced_to(current, in_flight, new_nonce).1.subset_of(in_flight),
        new_nonce > current ==> forall|n: u64|
            #[trigger] advanced_to(current, in_flight, new_nonce).1.contains(n) ==> n >= new_nonce,
{
}

/// A call on a nonce manager, as the law over histories sees it:
/// `get_next_available_nonce`, `mark_nonce_available` with its nonce, or
/// `update_current_nonce` with the chain's nonce.
pub enum NonceOp {
    Assign,
    Release(u64),
    Advance(u64),
}

/// The nonce that is first free at or above `current`, where there is one.
pub open spec fn first_free(current: u64, in_flight: Set<u64>) -> u64 {
    choose|n: u64| is_first_free(current, in_flight, n)
}

/// One call applied to a state made of the current nonce, the nonces in
/// flight, and the nonces outstanding (assigned and not since released).
/// An assignment with no free nonce cannot be made, and leaves the state.
pub open spec fn step(s: (u64, Set<u64>, Set<u64>), op: NonceOp) -> (u64, Set<u64>, Set<u64>) {
    match op {
        NonceOp::Assign => if has_free_nonce(s.0, s.1) {
            let n = first_free(s.0, s.1);
            (s.0, s.1.insert(n), s.2.insert(n))
        } else {
            s
        },
        NonceOp::Release(n) => (s.0, s.1.remove(n), s.2.remove(n)),
        NonceOp::Advance(k) => {
            let a = advanced_to(s.0, s.1, k);
            (a.0, a.1, s.2)
        },
    }
}

/// The state after the calls `ops`, in order, on a new manager at `start`.
pub open spec fn run(start: u64, ops: Seq<NonceOp>) -> (u64, Set<u64>, Set<u64>)
    decreases ops.len(),
{
    if ops.len() == 0 {
        (start, Set::<u64>::empty(), Set::<u64>::empty())
    } else {
        step(run(start, ops.drop_last()), ops.last())
    }
}

/// Where some nonce at or above `current` is free, a first one is.
pub proof fn lemma_first_free_exists(current: u64, in_flight: Set<u64>, n: u64)
    requires
        current <= n,
        !in_flight.contains(n),
    ensures
        is_first_free(current, in_flight, first_free(current, in_flight)),
    decreases n - current,
{
    if exists|k: u64| current <= k < n && !in_flight.contains(k) {
        let k = choose|k: u64| current <= k < n && !in_flight.contains(k);
        lemma_first_free_exists(current, in_flight, k);
    } else {
        assert(is_first_free(current, in_flight, n));
    }
}

/// There is only one first free nonce, so the nonce that
/// `get_next_available_nonce` assigns is `first_free`.
pub proof fn lemma_first_free_unique(current: u64, in_flight: Set<u64>, a: u64, b: u64)
    requires
        is_first_free(current, in_flight, a),
        is_first_free(current, in_flight, b),
    ensures
        a == b,
{
    if a < b {
        assert(in_flight.contains(a));
    } else if b < a {
        assert(in_flight.contains(b));
    }
}

/// After any sequence of calls on a new manager, every outstanding nonce is
/// in flight or below the current nonce.
pub proof fn lemma_run_tracks(start: u64, ops: Seq<NonceOp>)
    ensures
        tracks(run(start, ops).0, run(start, ops).1, run(start, ops).2),
    decreases ops.len(),
{
    if ops.len() == 0 {
        lemma_tracks_new(start);
    } else {
        let s = run(start, ops.drop_last());
        lemma_run_tracks(start, ops.drop_last());
        match ops.last() {
            NonceOp::Assign => {
                if has_free_nonce(s.0, s.1) {
                    let w = choose|n: u64| s.0 <= n && !s.1.contains(n);
                    lemma_first_free_exists(s.0, s.1, w);
                    lemma_tracks_after_assign(s.0, s.1, s.2, first_free(s.0, s.1));
                }
            },
            NonceOp::Release(n) => {
                lemma_tracks_after_release(s.0, s.1, s.2, n);
            },
            NonceOp::Advance(k) => {
                lemma_tracks_after_advance(s.0, s.1, s.2, k);
            },
        }
    }
}

/// No two in-flight transactions share a nonce: after any sequence of calls
/// on a new manager, the nonce it assigns next differs from every nonce it
/// assigned before and that has not since been released.
pub proof fn lemma_no_shared_nonce(start: u64, ops: Seq<NonceOp>, n: u64)
    requires
        is_first_free(run(start, ops).0, run(start, ops).1, n),
    ensures
        !run(start, ops).2.contains(n),
{
    lemma_run_tracks(start, ops);
    lemma_assigned_nonce_unique(run(start, ops).0, run(start, ops).1, run(start, ops).2, n);
}

} // verus!
