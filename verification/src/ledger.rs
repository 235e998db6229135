//! The count of live references to a termination token.
//!
//! A token is handed to the coordinator and to every runner. Each holder gives its
//! reference back when it has stopped, and the release that takes the count from one
//! to zero is the one that runs the termination action. Zero is final: a ledger that
//! has reached it counts no new reference and fires no second time.

use vstd::prelude::*;

verus! {

/// How many references to a termination token are live.
#[derive(Clone, Copy, Debug, PartialEq, Eq, Structural)]
pub struct Ledger {
    pub live: u64,
}

/// One step in the life of a ledger.
#[derive(Clone, Copy, Debug, PartialEq, Eq, Structural)]
pub enum LedgerOp {
    /// A holder clones its reference for a new holder.
    Acquire,
    /// A holder gives its reference back.
    Release,
}

impl Ledger {
    /// The ledger of a token that only its creator holds.
    pub open spec fn spec_new() -> Ledger {
        Ledger { live: 1 }
    }

    /// The termination action has run: no reference is live.
    pub open spec fn terminated(self) -> bool {
        self.live == 0
    }

    /// A new reference can be counted: the token is live and the count has room.
    pub open spec fn can_acquire(self) -> bool {
        0 < self.live < u64::MAX
    }

    /// The ledger after one more holder has asked for a reference.
    pub open spec fn spec_acquire(self) -> Ledger {
        if self.can_acquire() {
            Ledger { live: (self.live + 1) as u64 }
        } else {
            self
        }
    }

    /// Giving one reference back runs the termination action: it is the last one.
    pub open spec fn release_fires(self) -> bool {
        self.live == 1
    }

    /// The ledger after one reference has been given back.
    pub open spec fn spec_release(self) -> Ledger {
        if self.live > 0 {
            Ledger { live: (self.live - 1) as u64 }
        } else {
            self
        }
    }

    /// The ledger after `n` more holders have asked for a reference.
    pub open spec fn acquire_n(self, n: nat) -> Ledger
        decreases n,
    {
        if n == 0 {
            self
        } else {
            self.acquire_n((n - 1) as nat).spec_acquire()
        }
    }

    /// The ledger after `n` references have been given back.
    pub open spec fn release_n(self, n: nat) -> Ledger
        decreases n,
    {
        if n == 0 {
            self
        } else {
            self.release_n((n - 1) as nat).spec_release()
        }
    }

    /// How many of the first `n` releases run the termination action.
    pub open spec fn firings(self, n: nat) -> nat
        decreases n,
    {
        if n == 0 {
            0
        } else {
            let earlier = self.firings((n - 1) as nat);
            if self.release_n((n - 1) as nat).release_fires() {
                earlier + 1
            } else {
                earlier
            }
        }
    }

    /// The ledger after the steps of `ops`, taken in order.
    pub open spec fn apply(self, ops: Seq<LedgerOp>) -> Ledger
        decreases ops.len(),
    {
        if ops.len() == 0 {
            self
        } else {
            let before = self.apply(ops.drop_last());
            match ops.last() {
                LedgerOp::Acquire => before.spec_acquire(),
                LedgerOp::Release => before.spec_release(),
            }
        }
    }

    /// How many steps of `ops` run the termination action.
    pub open spec fn firings_of(self, ops: Seq<LedgerOp>) -> nat
        decreases ops.len(),
    {
        if ops.len() == 0 {
            0
        } else {
            let earlier = self.firings_of(ops.drop_last());
            let before = self.apply(ops.drop_last());
            if ops.last() == LedgerOp::Release && before.release_fires() {
                earlier + 1
            } else {
                earlier
            }
        }
    }

    /// A ledger with one live reference, that of the token's creator.
    pub fn new() -> (ledger: Ledger)
        ensures
            ledger == Ledger::spec_new(),
    {
        Ledger { live: 1 }
    }

    /// The number of live references.
    pub fn live(&self) -> (live: u64)
        ensures
            live == self.live,
    {
        self.live
    }

    /// Whether the last reference has been given back.
    pub fn is_terminated(&self) -> (terminated: bool)
        ensures
            terminated == self.terminated(),
    {
        self.live == 0
    }

    /// Counts a reference for a new holder. Returns whether it was counted: a
    /// terminated token, or a full count, takes no new reference.
    pub fn acquire(&mut self) -> (counted: bool)
        ensures
            *final(self) == old(self).spec_acquire(),
            counted == old(self).can_acquire(),
    {
        if 0 < self.live && self.live < u64::MAX {
            self.live = self.live + 1;
            true
        } else {
            false
        }
    }

    /// Gives one reference back. Returns whether the termination action is due:
    /// exactly when this was the last live reference.
    pub fn release(&mut self) -> (fired: bool)
        ensures
            *final(self) == old(self).spec_release(),
            fired == old(self).release_fires(),
    {
        if self.live > 0 {
            self.live = self.live - 1;
            self.live == 0
        } else {
            false
        }
    }
}

/// After `n` acquisitions a live ledger with room for them counts `n` more references.
pub proof fn lemma_acquire_n(ledger: Ledger, n: nat)
    requires
        ledger.live > 0,
        ledger.live + n <= u64::MAX,
    ensures
        ledger.acquire_n(n).live == ledger.live + n,
    decreases n,
{
    if n > 0 {
        lemma_acquire_n(ledger, (n - 1) as nat);
    }
}

/// After `n` releases the count has dropped by `n`, and stays at zero once there.
pub proof fn lemma_release_n(ledger: Ledger, n: nat)
    ensures
        ledger.release_n(n).live == if n <= ledger.live {
            ledger.live - n
        } else {
            0
        },
    decreases n,
{
    if n > 0 {
        lemma_release_n(ledger, (n - 1) as nat);
    }
}

/// Of the first `n` releases exactly one fires once the count has been used up, and
/// none before that. A ledger that starts at zero never fires.
pub proof fn lemma_firings(ledger: Ledger, n: nat)
    ensures
        ledger.firings(n) == if 0 < ledger.live <= n {
            1nat
        } else {
            0nat
        },
    decreases n,
{
    if n > 0 {
        lemma_firings(ledger, (n - 1) as nat);
        lemma_release_n(ledger, (n - 1) as nat);
    }
}

/// The termination action runs exactly once, and only when every reference has been
/// given back: with a coordinator and `k` runners there are `k + 1` references, any
/// `given_back` of them up to `k` fire nothing and leave the rest live, the last one
/// fires, and nothing given back after that fires again.
pub proof fn lemma_last_release_fires_once(k: nat, given_back: nat)
    requires
        k < u64::MAX,
    ensures
        Ledger::spec_new().acquire_n(k).live == k + 1,
        given_back <= k ==> Ledger::spec_new().acquire_n(k).firings(given_back) == 0,
        given_back <= k ==> Ledger::spec_new().acquire_n(k).release_n(given_back).live == k + 1
            - given_back,
        given_back <= k ==> !Ledger::spec_new().acquire_n(k).release_n(given_back).terminated(),
        Ledger::spec_new().acquire_n(k).release_n(k).release_fires(),
        given_back > k ==> Ledger::spec_new().acquire_n(k).firings(given_back) == 1,
        given_back > k ==> Ledger::spec_new().acquire_n(k).release_n(given_back).terminated(),
{
    let shared = Ledger::spec_new().acquire_n(k);
    lemma_acquire_n(Ledger::spec_new(), k);
    lemma_firings(shared, given_back);
    lemma_release_n(shared, given_back);
    lemma_release_n(shared, k);
}

/// Zero is final: whatever steps follow, a terminated ledger stays terminated and
/// fires nothing.
pub proof fn lemma_terminated_is_final(ledger: Ledger, ops: Seq<LedgerOp>)
    requires
        ledger.terminated(),
    ensures
        ledger.apply(ops) == ledger,
        ledger.firings_of(ops) == 0,
    decreases ops.len(),
{
    if ops.len() > 0 {
        lemma_terminated_is_final(ledger, ops.drop_last());
    }
}

/// Whatever the order in which references are cloned and given back, the termination
/// action runs at most once, and it has run exactly when the ledger ends terminated
/// without having started so.
pub proof fn lemma_fires_at_most_once(ledger: Ledger, ops: Seq<LedgerOp>)
    ensures
        ledger.firings_of(ops) <= 1,
        ledger.firings_of(ops) == 1 <==> (!ledger.terminated() && ledger.apply(ops).terminated()),
    decreases ops.len(),
{
    if ledger.terminated() {
        lemma_terminated_is_final(ledger, ops);
    } else if ops.len() > 0 {
        lemma_fires_at_most_once(ledger, ops.drop_last());
        let before = ledger.apply(ops.drop_last());
        if before.terminated() {
            assert(ledger.apply(ops) == before);
        } else {
            assert(ledger.firings_of(ops.drop_last()) == 0);
        }
    }
}

} // verus!
