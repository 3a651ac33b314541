//! A slot for a resource that is constructed at most once, on first use, by
//! whoever asks first, and whose failed construction is not remembered.
//!
//! The slot decides; the caller constructs. A caller claims the slot and is
//! told to construct the resource, to wait for the construction that is under
//! way, or that the resource is there. The constructing caller reports back
//! with [`LazySlot::fulfil`] or [`LazySlot::abandon`].

use vstd::prelude::*;

verus! {

/// The state of the slot.
pub enum LazySlot<T> {
    /// Nothing was constructed, and nobody is constructing.
    Empty,
    /// One caller was told to construct and has not reported back.
    InProgress,
    /// The resource is there, and stays.
    Ready(T),
}

/// What a caller that claimed the slot has to do.
#[derive(Clone, Copy, Debug, PartialEq, Eq, Structural)]
pub enum Claim {
    /// Construct the resource and report back.
    Construct,
    /// Wait until the construction under way has ended, then claim again.
    Wait,
    /// Take the resource from the slot.
    Ready,
}

/// The slot after a claim, and the answer to the claim.
pub open spec fn claim_spec<T>(slot: LazySlot<T>) -> (LazySlot<T>, Claim) {
    match slot {
        LazySlot::Empty => (LazySlot::InProgress, Claim::Construct),
        LazySlot::InProgress => (LazySlot::InProgress, Claim::Wait),
        LazySlot::Ready(value) => (LazySlot::Ready(value), Claim::Ready),
    }
}

/// The slot after the constructing caller delivered `value`.
pub open spec fn fulfil_spec<T>(slot: LazySlot<T>, value: T) -> LazySlot<T> {
    match slot {
        LazySlot::InProgress => LazySlot::Ready(value),
        _ => slot,
    }
}

/// The slot after the constructing caller reported a failure.
pub open spec fn abandon_spec<T>(slot: LazySlot<T>) -> LazySlot<T> {
    match slot {
        LazySlot::InProgress => LazySlot::Empty,
        _ => slot,
    }
}

/// The slot after `count` claims in a row, with nothing reported in between.
pub open spec fn slot_after_claims<T>(slot: LazySlot<T>, count: nat) -> LazySlot<T>
    decreases count,
{
    if count == 0 {
        slot
    } else {
        claim_spec(slot_after_claims(slot, (count - 1) as nat)).0
    }
}

/// The answer to claim number `index`, counted from 0, of a row of claims
/// with nothing reported in between.
pub open spec fn claim_at<T>(slot: LazySlot<T>, index: nat) -> Claim {
    claim_spec(slot_after_claims(slot, index)).1
}

impl<T> LazySlot<T> {
    /// An empty slot.
    pub fn new() -> (slot: LazySlot<T>)
        ensures
            slot == LazySlot::<T>::Empty,
    {
        LazySlot::Empty
    }

    /// Claims the slot. On an empty slot the caller becomes the one that
    /// constructs, and the slot is in progress from then on.
    pub fn claim(&mut self) -> (claim: Claim)
        ensures
            (*final(self), claim) == claim_spec(*old(self)),
    {
        let mut construct = false;
        let claim = match self {
            LazySlot::Empty => {
                construct = true;
                Claim::Construct
            },
            LazySlot::InProgress => Claim::Wait,
            LazySlot::Ready(_) => Claim::Ready,
        };
        if construct {
            *self = LazySlot::InProgress;
        }
        claim
    }

    /// Delivers the constructed resource. It is accepted while a construction
    /// is in progress; otherwise the slot stays as it is and `value` comes
    /// back.
    pub fn fulfil(&mut self, value: T) -> (rejected: Option<T>)
        ensures
            *final(self) == fulfil_spec(*old(self), value),
            rejected == if *old(self) is InProgress {
                None
            } else {
                Some(value)
            },
    {
        match self {
            LazySlot::InProgress => {
                *self = LazySlot::Ready(value);
                None
            },
            _ => Some(value),
        }
    }

    /// Reports that the construction failed. The failure is not kept: the
    /// slot is empty again and the next claim constructs anew. Returns whether
    /// a construction was in progress.
    pub fn abandon(&mut self) -> (was_in_progress: bool)
        ensures
            *final(self) == abandon_spec(*old(self)),
            was_in_progress == (*old(self) is InProgress),
    {
        match self {
            LazySlot::InProgress => {
                *self = LazySlot::Empty;
                true
            },
            _ => false,
        }
    }

    /// The resource, once it is there.
    pub fn get(&self) -> (resource: Option<&T>)
        ensures
            resource == match *self {
                LazySlot::Ready(value) => Some(&value),
                _ => None,
            },
    {
        match self {
            LazySlot::Ready(value) => Some(value),
            _ => None,
        }
    }

    /// Whether the resource is there.
    pub fn is_ready(&self) -> (ready: bool)
        ensures
            ready == (*self is Ready),
    {
        match self {
            LazySlot::Ready(_) => true,
            _ => false,
        }
    }
}

/// Of any number of claims made on an empty slot before the construction has
/// ended, the first is told to construct and every other is told to wait: the
/// resource is constructed once.
pub proof fn lemma_concurrent_claims_construct_once<T>(count: nat)
    ensures
        claim_at(LazySlot::<T>::Empty, 0) == Claim::Construct,
        forall|index: nat|
            1 <= index <= count ==> #[trigger] claim_at(LazySlot::<T>::Empty, index)
                == Claim::Wait,
        count >= 1 ==> slot_after_claims(LazySlot::<T>::Empty, count) == LazySlot::<
            T,
        >::InProgress,
    decreases count,
{
    if count >= 1 {
        lemma_concurrent_claims_construct_once::<T>((count - 1) as nat);
        if count >= 2 {
            assert(claim_at(LazySlot::<T>::Empty, (count - 1) as nat) == Claim::Wait);
        }
        assert(slot_after_claims(LazySlot::<T>::Empty, count) == LazySlot::<T>::InProgress);
        assert(claim_at(LazySlot::<T>::Empty, count) == Claim::Wait);
    }
}

/// Once the construction that any number of callers waited for has delivered
/// `value`, the slot holds `value`, and every claim from then on finds that
/// same resource, however many follow.
pub proof fn lemma_all_claims_resolve_to_one_resource<T>(waiting: nat, value: T, later: nat)
    requires
        waiting >= 1,
    ensures
        fulfil_spec(slot_after_claims(LazySlot::<T>::Empty, waiting), value) == LazySlot::Ready(
            value,
        ),
        slot_after_claims(LazySlot::Ready(value), later) == LazySlot::Ready(value),
        claim_at(LazySlot::Ready(value), later) == Claim::Ready,
    decreases later,
{
    lemma_concurrent_claims_construct_once::<T>(waiting);
    if later >= 1 {
        lemma_all_claims_resolve_to_one_resource::<T>(waiting, value, (later - 1) as nat);
    }
}

/// After a construction that failed, whatever number of callers waited for
/// it, the slot is empty and the next claim is told to construct again.
pub proof fn lemma_failed_construction_is_retried<T>(waiting: nat)
    requires
        waiting >= 1,
    ensures
        abandon_spec(slot_after_claims(LazySlot::<T>::Empty, waiting)) == LazySlot::<T>::Empty,
        claim_spec(abandon_spec(slot_after_claims(LazySlot::<T>::Empty, waiting))) == (
            LazySlot::<T>::InProgress,
            Claim::Construct,
        ),
{
    lemma_concurrent_claims_construct_once::<T>(waiting);
}

} // verus!
