//! Instance sources, and the registry that knows which live instance backs
//! each endpoint without keeping any instance alive.
//!
//! Instances live in an [`InstanceArena`]. Whoever starts an instance owns it,
//! and may share that ownership; when the last owner has released it, the
//! instance is gone. An [`InstanceRef`] is the non-owning reference: it names
//! a slot of the arena and the generation of the instance it was made for, so
//! it resolves while that instance is owned, and never again afterwards, even
//! when the slot has been given to another instance.

use crate::component::{Endpoint, EndpointView};
use vstd::prelude::*;

verus! {

/// What backs an endpoint.
#[derive(Clone, Copy, Debug, PartialEq, Eq, Structural)]
pub enum InstanceSource {
    /// An instance that is reached by a pre-shared address. It has no lease.
    Static,
    /// An instance that is registered in discovery under the lease `lease_id`.
    Dynamic { lease_id: i64 },
}

/// A non-owning reference to an instance of an [`InstanceArena`].
#[derive(Clone, Copy, Debug, PartialEq, Eq, Structural)]
pub struct InstanceRef {
    pub slot: usize,
    pub generation: u64,
}

/// An instance that has at least one owner.
pub struct LiveInstance {
    pub source: InstanceSource,
    /// How many owners the instance has.
    pub owners: nat,
}

/// What an [`InstanceArena`] holds: the instances that are owned, and the
/// references whose instance is gone.
pub struct ArenaView {
    pub live: Map<InstanceRef, LiveInstance>,
    pub gone: Set<InstanceRef>,
}

impl ArenaView {
    /// Every live instance has an owner, and no reference is both live and
    /// gone.
    pub open spec fn wf(self) -> bool {
        forall|r: InstanceRef| #[trigger]
            self.live.contains_key(r) ==> self.live[r].owners >= 1 && !self.gone.contains(r)
    }

    /// The instance that `r` refers to, while it has an owner.
    pub open spec fn resolve(self, r: InstanceRef) -> Option<InstanceSource> {
        if self.live.contains_key(r) {
            Some(self.live[r].source)
        } else {
            None
        }
    }

    /// The arena after one more owner was added to the instance of `r`. A
    /// reference that is not live, or whose owners cannot be counted any
    /// further, changes nothing.
    pub open spec fn share(self, r: InstanceRef) -> ArenaView {
        if self.live.contains_key(r) && self.live[r].owners < usize::MAX {
            ArenaView {
                live: self.live.insert(
                    r,
                    LiveInstance { source: self.live[r].source, owners: self.live[r].owners + 1 },
                ),
                gone: self.gone,
            }
        } else {
            self
        }
    }

    /// The arena after one owner released the instance of `r`. With the last
    /// owner the instance goes. A reference that is not live changes nothing.
    pub open spec fn release(self, r: InstanceRef) -> ArenaView {
        if !self.live.contains_key(r) {
            self
        } else if self.live[r].owners > 1 {
            ArenaView {
                live: self.live.insert(
                    r,
                    LiveInstance {
                        source: self.live[r].source,
                        owners: (self.live[r].owners - 1) as nat,
                    },
                ),
                gone: self.gone,
            }
        } else {
            ArenaView { live: self.live.remove(r), gone: self.gone.insert(r) }
        }
    }

    /// The arena after `count` releases of the instance of `r`.
    pub open spec fn release_times(self, r: InstanceRef, count: nat) -> ArenaView
        decreases count,
    {
        if count == 0 {
            self
        } else {
            self.release(r).release_times(r, (count - 1) as nat)
        }
    }
}

struct Slot {
    generation: u64,
    owners: usize,
    source: InstanceSource,
}

/// The home of the instances of a process.
pub struct InstanceArena {
    slots: Vec<Slot>,
}

impl InstanceArena {
    spec fn is_live(&self, r: InstanceRef) -> bool {
        &&& r.slot < self.slots.len()
        &&& self.slots[r.slot as int].generation == r.generation
        &&& self.slots[r.slot as int].owners > 0
    }

    spec fn is_gone(&self, r: InstanceRef) -> bool {
        &&& r.slot < self.slots.len()
        &&& (r.generation < self.slots[r.slot as int].generation || (r.generation
            == self.slots[r.slot as int].generation && self.slots[r.slot as int].owners == 0))
    }
}

impl View for InstanceArena {
    type V = ArenaView;

    closed spec fn view(&self) -> ArenaView {
        ArenaView {
            live: Map::new(
                |r: InstanceRef| self.is_live(r),
                |r: InstanceRef|
                    LiveInstance {
                        source: self.slots[r.slot as int].source,
                        owners: self.slots[r.slot as int].owners as nat,
                    },
            ),
            gone: Set::new(|r: InstanceRef| self.is_gone(r)),
        }
    }
}

impl InstanceArena {
    /// An arena without instances.
    pub fn new() -> (arena: InstanceArena)
        ensures
            arena@.live == Map::<InstanceRef, LiveInstance>::empty(),
            arena@.gone == Set::<InstanceRef>::empty(),
    {
        let arena = InstanceArena { slots: Vec::new() };
        assert(arena@.live =~= Map::<InstanceRef, LiveInstance>::empty());
        assert(arena@.gone =~= Set::<InstanceRef>::empty());
        arena
    }

    /// What the arena holds is well formed, whatever was done to it.
    pub proof fn lemma_wf(&self)
        ensures
            self@.wf(),
    {
    }

    /// Starts an instance with one owner. The reference that comes back was
    /// never handed out before: it is neither live nor gone.
    pub fn create(&mut self, source: InstanceSource) -> (r: InstanceRef)
        ensures
            !old(self)@.live.contains_key(r),
            !old(self)@.gone.contains(r),
            final(self)@.live == old(self)@.live.insert(r, LiveInstance { source, owners: 1 }),
            final(self)@.gone == old(self)@.gone,
    {
        let mut i: usize = 0;
        while i < self.slots.len()
            invariant
                i <= self.slots.len(),
                *self == *old(self),
            decreases self.slots.len() - i,
        {
            if self.slots[i].owners == 0 && self.slots[i].generation < u64::MAX {
                let generation: u64 = self.slots[i].generation + 1;
                self.slots.set(i, Slot { generation, owners: 1, source });
                let r = InstanceRef { slot: i, generation };
                proof {
                    assert(final(self)@.live =~= old(self)@.live.insert(
                        r,
                        LiveInstance { source, owners: 1 },
                    ));
                    assert(final(self)@.gone =~= old(self)@.gone);
                }
                return r;
            }
            i += 1;
        }
        let slot: usize = self.slots.len();
        self.slots.push(Slot { generation: 0, owners: 1, source });
        let r = InstanceRef { slot, generation: 0 };
        proof {
            assert(final(self)@.live =~= old(self)@.live.insert(
                r,
                LiveInstance { source, owners: 1 },
            ));
            assert(final(self)@.gone =~= old(self)@.gone);
        }
        r
    }

    /// Adds an owner to the instance of `r`. Returns whether an owner was
    /// added: not for a reference that is not live, nor where the owners
    /// cannot be counted any further.
    pub fn share(&mut self, r: InstanceRef) -> (shared: bool)
        ensures
            final(self)@ == old(self)@.share(r),
            shared == (old(self)@.live.contains_key(r) && old(self)@.live[r].owners
                < usize::MAX),
    {
        if r.slot < self.slots.len() && self.slots[r.slot].generation == r.generation
            && self.slots[r.slot].owners > 0 && self.slots[r.slot].owners < usize::MAX {
            let owners: usize = self.slots[r.slot].owners + 1;
            let source = self.slots[r.slot].source;
            self.slots.set(r.slot, Slot { generation: r.generation, owners, source });
            proof {
                assert(final(self)@.live =~= old(self)@.share(r).live);
                assert(final(self)@.gone =~= old(self)@.share(r).gone);
            }
            true
        } else {
            false
        }
    }

    /// Releases one owner of the instance of `r`. With the last owner the
    /// instance goes, and `r` never resolves again. Returns whether an owner
    /// was released: not for a reference that is not live.
    pub fn release(&mut self, r: InstanceRef) -> (released: bool)
        ensures
            final(self)@ == old(self)@.release(r),
            released == old(self)@.live.contains_key(r),
    {
        if r.slot < self.slots.len() && self.slots[r.slot].generation == r.generation
            && self.slots[r.slot].owners > 0 {
            let owners: usize = self.slots[r.slot].owners - 1;
            let source = self.slots[r.slot].source;
            self.slots.set(r.slot, Slot { generation: r.generation, owners, source });
            proof {
                assert(final(self)@.live =~= old(self)@.release(r).live);
                assert(final(self)@.gone =~= old(self)@.release(r).gone);
            }
            true
        } else {
            false
        }
    }

    /// The instance that `r` refers to, while it has an owner.
    pub fn resolve(&self, r: InstanceRef) -> (source: Option<InstanceSource>)
        ensures
            source == self@.resolve(r),
    {
        if r.slot < self.slots.len() && self.slots[r.slot].generation == r.generation
            && self.slots[r.slot].owners > 0 {
            Some(self.slots[r.slot].source)
        } else {
            None
        }
    }

    /// How many owners the instance of `r` has; none if `r` is not live.
    pub fn owners(&self, r: InstanceRef) -> (owners: usize)
        ensures
            owners == if self@.live.contains_key(r) {
                self@.live[r].owners
            } else {
                0
            },
    {
        if r.slot < self.slots.len() && self.slots[r.slot].generation == r.generation {
            self.slots[r.slot].owners
        } else {
            0
        }
    }
}

struct Entry {
    endpoint: Endpoint,
    instance: InstanceRef,
}

spec fn key_at(entries: Seq<Entry>, i: int) -> EndpointView {
    entries[i].endpoint@
}

spec fn distinct_keys(entries: Seq<Entry>) -> bool {
    forall|i: int, j: int|
        0 <= i < j < entries.len() ==> #[trigger] key_at(entries, i) != #[trigger] key_at(
            entries,
            j,
        )
}

spec fn has_key(entries: Seq<Entry>, key: EndpointView) -> bool {
    exists|i: int| 0 <= i < entries.len() && #[trigger] key_at(entries, i) == key
}

spec fn index_of(entries: Seq<Entry>, key: EndpointView) -> int {
    choose|i: int| 0 <= i < entries.len() && #[trigger] key_at(entries, i) == key
}

spec fn entries_map(entries: Seq<Entry>) -> Map<EndpointView, InstanceRef> {
    Map::new(
        |key: EndpointView| has_key(entries, key),
        |key: EndpointView| entries[index_of(entries, key)].instance,
    )
}

proof fn lemma_entry_is_found(entries: Seq<Entry>, i: int)
    requires
        distinct_keys(entries),
        0 <= i < entries.len(),
    ensures
        has_key(entries, key_at(entries, i)),
        index_of(entries, key_at(entries, i)) == i,
        entries_map(entries).contains_key(key_at(entries, i)),
        entries_map(entries)[key_at(entries, i)] == entries[i].instance,
{
    let key = key_at(entries, i);
    let found = index_of(entries, key);
    assert(key_at(entries, found) == key);
    if found < i {
        assert(key_at(entries, found) != key_at(entries, i));
    } else if i < found {
        assert(key_at(entries, i) != key_at(entries, found));
    }
}

proof fn lemma_entry_added(entries: Seq<Entry>, entry: Entry)
    requires
        distinct_keys(entries),
        !has_key(entries, entry.endpoint@),
    ensures
        distinct_keys(entries.push(entry)),
        entries_map(entries.push(entry)) == entries_map(entries).insert(
            entry.endpoint@,
            entry.instance,
        ),
{
    let after = entries.push(entry);
    assert forall|i: int, j: int| 0 <= i < j < after.len() implies #[trigger] key_at(after, i)
        != #[trigger] key_at(after, j) by {
        if j < entries.len() {
            assert(key_at(entries, i) != key_at(entries, j));
        } else {
            assert(key_at(entries, i) == key_at(after, i));
        }
    }
    let expected = entries_map(entries).insert(entry.endpoint@, entry.instance);
    assert forall|key: EndpointView| #[trigger] entries_map(after).contains_key(key)
        == expected.contains_key(key) by {
        if has_key(entries, key) {
            let i = index_of(entries, key);
            assert(key_at(after, i) == key);
        }
        if key == entry.endpoint@ {
            assert(key_at(after, entries.len() as int) == key);
        }
        if has_key(after, key) {
            let i = index_of(after, key);
            if i < entries.len() {
                assert(key_at(entries, i) == key);
            }
        }
    }
    assert forall|key: EndpointView| #[trigger] entries_map(after).contains_key(key) implies 
        entries_map(after)[key] == expected[key] by {
        let i = index_of(after, key);
        lemma_entry_is_found(after, i);
        if i < entries.len() {
            assert(key_at(entries, i) == key);
            lemma_entry_is_found(entries, i);
        }
    }
    assert(entries_map(after) =~= expected);
}

proof fn lemma_entry_replaced(entries: Seq<Entry>, i: int, entry: Entry)
    requires
        distinct_keys(entries),
        0 <= i < entries.len(),
        key_at(entries, i) == entry.endpoint@,
    ensures
        distinct_keys(entries.update(i, entry)),
        entries_map(entries.update(i, entry)) == entries_map(entries).insert(
            entry.endpoint@,
            entry.instance,
        ),
{
    let after = entries.update(i, entry);
    assert forall|a: int| 0 <= a < after.len() implies #[trigger] key_at(after, a) == key_at(
        entries,
        a,
    ) by {}
    assert forall|a: int, b: int| 0 <= a < b < after.len() implies #[trigger] key_at(after, a)
        != #[trigger] key_at(after, b) by {
        assert(key_at(entries, a) != key_at(entries, b));
    }
    let expected = entries_map(entries).insert(entry.endpoint@, entry.instance);
    assert forall|key: EndpointView| #[trigger] entries_map(after).contains_key(key)
        == expected.contains_key(key) by {
        if has_key(entries, key) {
            let a = index_of(entries, key);
            assert(key_at(after, a) == key);
        }
        if key == entry.endpoint@ {
            assert(key_at(after, i) == key);
        }
        if has_key(after, key) {
            let a = index_of(after, key);
            assert(key_at(entries, a) == key);
        }
    }
    assert forall|key: EndpointView| #[trigger] entries_map(after).contains_key(key) implies 
        entries_map(after)[key] == expected[key] by {
        let a = index_of(after, key);
        lemma_entry_is_found(after, a);
        assert(key_at(entries, a) == key);
        lemma_entry_is_found(entries, a);
    }
    assert(entries_map(after) =~= expected);
}

proof fn lemma_entry_removed(entries: Seq<Entry>, i: int)
    requires
        distinct_keys(entries),
        0 <= i < entries.len(),
    ensures
        distinct_keys(entries.remove(i)),
        entries_map(entries.remove(i)) == entries_map(entries).remove(key_at(entries, i)),
{
    let after = entries.remove(i);
    let gone = key_at(entries, i);
    assert forall|a: int| 0 <= a < after.len() implies #[trigger] key_at(after, a) == key_at(
        entries,
        if a < i {
            a
        } else {
            a + 1
        },
    ) by {}
    assert forall|a: int, b: int| 0 <= a < b < after.len() implies #[trigger] key_at(after, a)
        != #[trigger] key_at(after, b) by {
        let before_a = if a < i {
            a
        } else {
            a + 1
        };
        let before_b = if b < i {
            b
        } else {
            b + 1
        };
        assert(key_at(entries, before_a) != key_at(entries, before_b));
    }
    let expected = entries_map(entries).remove(gone);
    assert forall|key: EndpointView| #[trigger] entries_map(after).contains_key(key)
        == expected.contains_key(key) by {
        if has_key(entries, key) && key != gone {
            let a = index_of(entries, key);
            let moved = if a < i {
                a
            } else {
                a - 1
            };
            assert(key_at(after, moved) == key);
        }
        if has_key(after, key) {
            let a = index_of(after, key);
            let before = if a < i {
                a
            } else {
                a + 1
            };
            assert(key_at(entries, before) == key);
            if before < i {
                assert(key_at(entries, before) != key_at(entries, i));
            } else {
                assert(key_at(entries, i) != key_at(entries, before));
            }
        }
    }
    assert forall|key: EndpointView| #[trigger] entries_map(after).contains_key(key) implies 
        entries_map(after)[key] == expected[key] by {
        let a = index_of(after, key);
        lemma_entry_is_found(after, a);
        let before = if a < i {
            a
        } else {
            a + 1
        };
        assert(key_at(entries, before) == key);
        lemma_entry_is_found(entries, before);
    }
    assert(entries_map(after) =~= expected);
}

/// What a lookup of `endpoint` answers, given what the registry and the arena
/// hold: the instance that the endpoint's entry refers to, while that
/// instance has an owner.
pub open spec fn lookup_spec(
    registry: Map<EndpointView, InstanceRef>,
    arena: ArenaView,
    endpoint: EndpointView,
) -> Option<InstanceSource> {
    if registry.contains_key(endpoint) {
        arena.resolve(registry[endpoint])
    } else {
        None
    }
}

/// For each endpoint, a non-owning reference to the instance that serves it.
///
/// The registry never keeps an instance alive. An entry stays until it is
/// replaced or removed, but it answers a lookup only while its instance has an
/// owner.
pub struct InstanceSourceRegistry {
    entries: Vec<Entry>,
}

impl View for InstanceSourceRegistry {
    type V = Map<EndpointView, InstanceRef>;

    closed spec fn view(&self) -> Map<EndpointView, InstanceRef> {
        entries_map(self.entries@)
    }
}

impl InstanceSourceRegistry {
    #[verifier::type_invariant]
    spec fn inv(self) -> bool {
        distinct_keys(self.entries@)
    }

    /// A registry without entries.
    pub fn new() -> (registry: InstanceSourceRegistry)
        ensures
            registry@ == Map::<EndpointView, InstanceRef>::empty(),
    {
        let registry = InstanceSourceRegistry { entries: Vec::new() };
        assert(registry@ =~= Map::<EndpointView, InstanceRef>::empty());
        registry
    }

    /// Moves the entries out, leaving none behind.
    fn take_entries(&mut self) -> (entries: Vec<Entry>)
        ensures
            entries@ == old(self).entries@,
            final(self).entries@ == Seq::<Entry>::empty(),
    {
        let mut entries: Vec<Entry> = Vec::new();
        core::mem::swap(&mut self.entries, &mut entries);
        entries
    }

    fn position(&self, endpoint: &Endpoint) -> (found: Option<usize>)
        ensures
            match found {
                Some(i) => i < self.entries@.len() && key_at(self.entries@, i as int) == endpoint@,
                None => !has_key(self.entries@, endpoint@),
            },
    {
        let mut i: usize = 0;
        while i < self.entries.len()
            invariant
                i <= self.entries.len(),
                forall|j: int| 0 <= j < i ==> #[trigger] key_at(self.entries@, j) != endpoint@,
            decreases self.entries.len() - i,
        {
            if self.entries[i].endpoint.same_as(endpoint) {
                return Some(i);
            }
            i += 1;
        }
        None
    }

    /// Makes `instance` the one that serves `endpoint`, in place of any
    /// earlier one, which is returned.
    pub fn insert(&mut self, endpoint: Endpoint, instance: InstanceRef) -> (previous: Option<
        InstanceRef,
    >)
        ensures
            final(self)@ == old(self)@.insert(endpoint@, instance),
            previous == if old(self)@.contains_key(endpoint@) {
                Some(old(self)@[endpoint@])
            } else {
                None
            },
    {
        proof {
            use_type_invariant(&*self);
        }
        match self.position(&endpoint) {
            Some(i) => {
                let previous = self.entries[i].instance;
                proof {
                    lemma_entry_is_found(self.entries@, i as int);
                    lemma_entry_replaced(self.entries@, i as int, Entry { endpoint, instance });
                }
                let mut entries = self.take_entries();
                entries.set(i, Entry { endpoint, instance });
                self.entries = entries;
                Some(previous)
            },
            None => {
                proof {
                    lemma_entry_added(self.entries@, Entry { endpoint, instance });
                }
                let mut entries = self.take_entries();
                entries.push(Entry { endpoint, instance });
                self.entries = entries;
                None
            },
        }
    }

    /// The reference that is entered for `endpoint`, whether or not its
    /// instance still has an owner.
    pub fn get(&self, endpoint: &Endpoint) -> (instance: Option<InstanceRef>)
        ensures
            instance == if self@.contains_key(endpoint@) {
                Some(self@[endpoint@])
            } else {
                None
            },
    {
        proof {
            use_type_invariant(self);
        }
        match self.position(endpoint) {
            Some(i) => {
                proof {
                    lemma_entry_is_found(self.entries@, i as int);
                }
                Some(self.entries[i].instance)
            },
            None => None,
        }
    }

    /// The instance that serves `endpoint`: the one its entry refers to, if
    /// it still has an owner in `arena`. An endpoint that was never entered,
    /// and one whose instance is gone, both answer `None`.
    pub fn lookup(&self, endpoint: &Endpoint, arena: &InstanceArena) -> (source: Option<
        InstanceSource,
    >)
        ensures
            source == lookup_spec(self@, arena@, endpoint@),
    {
        match self.get(endpoint) {
            Some(instance) => arena.resolve(instance),
            None => None,
        }
    }

    /// Takes the entry of `endpoint` out and returns its reference.
    pub fn remove(&mut self, endpoint: &Endpoint) -> (removed: Option<InstanceRef>)
        ensures
            final(self)@ == old(self)@.remove(endpoint@),
            removed == if old(self)@.contains_key(endpoint@) {
                Some(old(self)@[endpoint@])
            } else {
                None
            },
    {
        proof {
            use_type_invariant(&*self);
        }
        match self.position(endpoint) {
            Some(i) => {
                proof {
                    lemma_entry_is_found(self.entries@, i as int);
                    lemma_entry_removed(self.entries@, i as int);
                }
                let mut entries = self.take_entries();
                let entry = entries.remove(i);
                self.entries = entries;
                Some(entry.instance)
            },
            None => {
                assert(final(self)@ =~= old(self)@.remove(endpoint@));
                None
            },
        }
    }

    /// How many endpoints have an entry.
    pub fn len(&self) -> (len: usize)
        ensures
            len == self@.len(),
            self@.dom().finite(),
    {
        proof {
            use_type_invariant(self);
            lemma_entries_counted(self.entries@);
        }
        self.entries.len()
    }
}

proof fn lemma_entries_counted(entries: Seq<Entry>)
    requires
        distinct_keys(entries),
    ensures
        entries_map(entries).dom().finite(),
        entries_map(entries).len() == entries.len(),
    decreases entries.len(),
{
    if entries.len() == 0 {
        assert(entries_map(entries) =~= Map::<EndpointView, InstanceRef>::empty());
    } else {
        let front = entries.drop_last();
        let last = entries.last();
        assert forall|i: int, j: int| 0 <= i < j < front.len() implies #[trigger] key_at(front, i)
            != #[trigger] key_at(front, j) by {
            assert(key_at(entries, i) != key_at(entries, j));
        }
        lemma_entries_counted(front);
        if has_key(front, last.endpoint@) {
            let i = index_of(front, last.endpoint@);
            assert(key_at(entries, i) != key_at(entries, entries.len() - 1));
        }
        lemma_entry_added(front, last);
        assert(front.push(last) =~= entries);
    }
}

proof fn lemma_release_times(arena: ArenaView, r: InstanceRef, count: nat)
    requires
        arena.wf(),
        arena.live.contains_key(r),
        arena.live[r].owners == count,
    ensures
        !arena.release_times(r, count).live.contains_key(r),
        arena.release_times(r, count).gone.contains(r),
        arena.release_times(r, count).wf(),
    decreases count,
{
    if count > 1 {
        lemma_release_times(arena.release(r), r, (count - 1) as nat);
    } else {
        assert(arena.release(r).release_times(r, 0) == arena.release(r));
    }
}

/// An instance that was entered for an endpoint is found there while it has
/// an owner. Once each of its owners has released it, the endpoint answers
/// `None`, though nothing was removed from the registry: the entry is still
/// there, and refers to an instance that is gone.
pub proof fn lemma_released_instance_is_not_found(
    registry: Map<EndpointView, InstanceRef>,
    arena: ArenaView,
    endpoint: EndpointView,
    r: InstanceRef,
)
    requires
        arena.wf(),
        arena.live.contains_key(r),
    ensures
        lookup_spec(registry.insert(endpoint, r), arena, endpoint) == Some(arena.live[r].source),
        ({
            let released = arena.release_times(r, arena.live[r].owners);
            &&& lookup_spec(registry.insert(endpoint, r), released, endpoint) is None
            &&& registry.insert(endpoint, r).contains_key(endpoint)
            &&& registry.insert(endpoint, r)[endpoint] == r
            &&& released.gone.contains(r)
        }),
{
    lemma_release_times(arena, r, arena.live[r].owners);
}

/// A reference whose instance is gone stays gone and resolves to nothing,
/// whichever instance is shared or released afterwards; and an arena that was
/// well formed stays so.
pub proof fn lemma_gone_stays_gone(arena: ArenaView, r: InstanceRef, other: InstanceRef)
    requires
        arena.wf(),
        arena.gone.contains(r),
    ensures
        arena.resolve(r) is None,
        arena.share(other).wf(),
        arena.share(other).gone.contains(r),
        arena.share(other).resolve(r) is None,
        arena.release(other).wf(),
        arena.release(other).gone.contains(r),
        arena.release(other).resolve(r) is None,
{
}

/// An endpoint that was never entered answers `None`, whatever the arena
/// holds.
pub proof fn lemma_unknown_endpoint_is_not_found(arena: ArenaView, endpoint: EndpointView)
    ensures
        lookup_spec(Map::<EndpointView, InstanceRef>::empty(), arena, endpoint) is None,
{
}

} // verus!
