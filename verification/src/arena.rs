//! A bounded arena of generation-checked slots.
//!
//! A slot's generation advances each time its resource is taken; the last
//! generation retires the slot for good, so a released handle never names a
//! live resource again.
use vstd::prelude::*;

use crate::codes::{MAX_GENERATION, MAX_SLOTS};
use crate::error::BridgeError;
use crate::handle::{
    decode_handle, encode_handle, handle_generation, handle_index, handle_value, handle_well_formed, lemma_handle_decompose, lemma_handle_roundtrip, next_generation, spec_next_generation,
};
use crate::labels::{ResourceKind, TypeLabel};
use crate::resources::{resource_kind, Resource};

verus! {

/// One arena slot: its current generation and the resource it owns, if any.
pub struct Slot {
    pub generation: u16,
    pub resource: Option<Resource>,
}

/// The handle table: slots addressed by handles, and the number of owned resources.
pub struct Arena {
    pub slots: Vec<Slot>,
    pub live: u32,
}

/// `1` for a slot that owns a resource, else `0`.
pub open spec fn occupied(s: Slot) -> nat {
    if s.resource is Some {
        1
    } else {
        0
    }
}

/// The number of slots that own a resource.
pub open spec fn occupied_count(s: Seq<Slot>) -> nat
    decreases s.len(),
{
    if s.len() == 0 {
        0
    } else {
        occupied_count(s.drop_last()) + occupied(s.last())
    }
}

/// A slot that can take a new resource at its current generation.
pub open spec fn reusable(s: Slot) -> bool {
    s.resource is None && s.generation != 0
}

/// A slot's generation within the arena's limits, and never zero while it owns a resource.
pub open spec fn slot_ok(s: Slot) -> bool {
    &&& s.generation <= MAX_GENERATION
    &&& s.resource is Some ==> s.generation != 0
}

/// The order in which a slot's generations succeed each other; the retired
/// generation `0` comes last.
pub open spec fn generation_rank(g: u16) -> int {
    if g == 0 {
        65536
    } else {
        g as int
    }
}

proof fn lemma_count_bound(s: Seq<Slot>)
    ensures
        occupied_count(s) <= s.len(),
    decreases s.len(),
{
    if s.len() > 0 {
        lemma_count_bound(s.drop_last());
    }
}

proof fn lemma_count_update(s: Seq<Slot>, i: int, v: Slot)
    requires
        0 <= i < s.len(),
    ensures
        occupied_count(s.update(i, v)) == occupied_count(s) - occupied(s[i]) + occupied(v),
    decreases s.len(),
{
    let t = s.update(i, v);
    if i == s.len() - 1 {
        assert(t.drop_last() == s.drop_last());
    } else {
        lemma_count_update(s.drop_last(), i, v);
        assert(t.drop_last() == s.drop_last().update(i, v));
    }
}

proof fn lemma_count_push(s: Seq<Slot>, v: Slot)
    ensures
        occupied_count(s.push(v)) == occupied_count(s) + occupied(v),
{
    assert(s.push(v).drop_last() == s);
}

/// Builds the error for a handle that owns a resource of another kind.
pub fn wrong_resource_type(handle: u32, expected: ResourceKind, actual: &Resource) -> (e:
    BridgeError)
    ensures
        e == (BridgeError::WrongResourceType {
            handle,
            expected: TypeLabel::Resource(expected),
            actual: TypeLabel::Resource(resource_kind(*actual)),
        }),
{
    BridgeError::WrongResourceType {
        handle,
        expected: TypeLabel::Resource(expected),
        actual: TypeLabel::Resource(actual.kind()),
    }
}

impl Arena {
    /// The arena's invariant.
    pub open spec fn wf(&self) -> bool {
        &&& self.slots@.len() <= MAX_SLOTS
        &&& forall|i: int| 0 <= i < self.slots@.len() ==> slot_ok(#[trigger] self.slots@[i])
        &&& self.live == occupied_count(self.slots@)
    }

    /// Whether `h` names a resource owned by this arena.
    pub open spec fn valid(&self, h: u32) -> bool {
        &&& handle_well_formed(h)
        &&& handle_index(h) < self.slots@.len()
        &&& self.slots@[handle_index(h)].generation == handle_generation(h)
        &&& self.slots@[handle_index(h)].resource is Some
    }

    /// The resource `h` names, if any.
    pub open spec fn lookup(&self, h: u32) -> Option<Resource> {
        if self.valid(h) {
            self.slots@[handle_index(h)].resource
        } else {
            None
        }
    }

    /// Whether one more resource can be inserted.
    pub open spec fn spec_can_insert(&self) -> bool {
        ||| exists|i: int| 0 <= i < self.slots@.len() && reusable(#[trigger] self.slots@[i])
        ||| self.slots@.len() < MAX_SLOTS
    }

    /// Whether slot `i` is where the next insertion goes: the first reusable
    /// slot, or a new slot after the last when none is reusable.
    pub open spec fn is_insert_index(&self, i: int) -> bool {
        &&& 0 <= i <= self.slots@.len()
        &&& forall|j: int| 0 <= j < i ==> !reusable(#[trigger] self.slots@[j])
        &&& i < self.slots@.len() ==> reusable(self.slots@[i])
    }

    /// Whether `h` is a handle whose slot has moved past its generation.
    pub open spec fn retired(&self, h: u32) -> bool {
        &&& handle_well_formed(h)
        &&& handle_index(h) < self.slots@.len()
        &&& generation_rank(self.slots@[handle_index(h)].generation) > handle_generation(h)
    }

    /// Every handle other than `h` names the same resource in `self` and `other`.
    pub open spec fn same_except(&self, other: &Arena, h: u32) -> bool {
        forall|x: u32| x != h ==> #[trigger] other.lookup(x) == self.lookup(x)
    }

    /// Every handle other than `h1` and `h2` names the same resource in `self` and `other`.
    pub open spec fn same_except2(&self, other: &Arena, h1: u32, h2: u32) -> bool {
        forall|x: u32| x != h1 && x != h2 ==> #[trigger] other.lookup(x) == self.lookup(x)
    }

    /// No slot of `self` is lost or goes back to an earlier generation in `later`.
    pub open spec fn progressed_to(&self, later: &Arena) -> bool {
        &&& self.slots@.len() <= later.slots@.len()
        &&& forall|i: int|
            #![trigger later.slots@[i]]
            0 <= i < self.slots@.len() ==> generation_rank(self.slots@[i].generation)
                <= generation_rank(later.slots@[i].generation)
    }

    /// `later` is `self` with `r` inserted under the new handle `h`.
    pub open spec fn inserted(&self, later: &Arena, r: Resource, h: u32) -> bool {
        &&& self.inserted_at(later, h)
        &&& later.lookup(h) == Some(r)
    }

    /// `later` is `self` with some resource inserted under the new handle `h`.
    pub open spec fn inserted_at(&self, later: &Arena, h: u32) -> bool {
        &&& self.is_insert_index(handle_index(h))
        &&& handle_well_formed(h)
        &&& handle_generation(h) == (if handle_index(h) < self.slots@.len() {
            self.slots@[handle_index(h)].generation as int
        } else {
            1
        })
        &&& self.lookup(h) is None
        &&& later.lookup(h) is Some
        &&& self.same_except(later, h)
        &&& self.progressed_to(later)
        &&& later.live == self.live + 1
        &&& later.slots@.len() <= self.slots@.len() + 1
    }

    /// `later` is `self` with the resource `r` that `h` named removed and `h` retired.
    pub open spec fn removed(&self, later: &Arena, h: u32, r: Resource) -> bool {
        &&& self.lookup(h) == Some(r)
        &&& later.lookup(h) is None
        &&& later.retired(h)
        &&& self.same_except(later, h)
        &&& self.progressed_to(later)
        &&& later.slots@.len() == self.slots@.len()
        &&& later.slots@[handle_index(h)].generation == spec_next_generation(
            handle_generation(h) as u16,
        )
        &&& later.live == self.live - 1
        &&& (self.spec_can_insert() || handle_generation(h) != MAX_GENERATION)
            ==> later.spec_can_insert()
    }

    /// `later` is `self` with the resource `h` names replaced by `r`.
    pub open spec fn replaced(&self, later: &Arena, h: u32, r: Resource) -> bool {
        &&& later.lookup(h) == Some(r)
        &&& self.same_except(later, h)
        &&& later.slots@.len() == self.slots@.len()
        &&& forall|i: int|
            #![trigger later.slots@[i]]
            0 <= i < self.slots@.len() ==> later.slots@[i].generation == self.slots@[i].generation
        &&& later.live == self.live
        &&& later.spec_can_insert() == self.spec_can_insert()
    }

    /// `later` is `self` with the resource `h` named taken out (and `h` retired)
    /// and `r` inserted under the new handle `k`.
    pub open spec fn exchanged(&self, later: &Arena, h: u32, k: u32, r: Resource) -> bool {
        &&& self.lookup(h) is Some
        &&& later.lookup(h) is None
        &&& later.retired(h)
        &&& k != h
        &&& self.lookup(k) is None
        &&& later.lookup(k) == Some(r)
        &&& self.same_except2(later, h, k)
        &&& self.progressed_to(later)
        &&& later.live == self.live
    }

    /// The error an access to `h` expecting `expected` fails with, if any.
    pub open spec fn access_error(&self, h: u32, expected: ResourceKind) -> Option<BridgeError> {
        if !self.valid(h) {
            Some(BridgeError::InvalidHandle { handle: h })
        } else if resource_kind(self.lookup(h)->0) != expected {
            Some(
                BridgeError::WrongResourceType {
                    handle: h,
                    expected: TypeLabel::Resource(expected),
                    actual: TypeLabel::Resource(resource_kind(self.lookup(h)->0)),
                },
            )
        } else {
            None
        }
    }

    /// An empty arena.
    pub fn new() -> (arena: Arena)
        ensures
            arena.wf(),
            arena.slots@.len() == 0,
            arena.live == 0,
    {
        Arena { slots: Vec::new(), live: 0 }
    }

    /// Reports whether one more resource can be inserted.
    pub fn can_insert(&self) -> (b: bool)
        requires
            self.wf(),
        ensures
            b == self.spec_can_insert(),
    {
        let mut i: usize = 0;
        while i < self.slots.len()
            invariant
                i <= self.slots@.len(),
                forall|j: int| 0 <= j < i ==> !reusable(#[trigger] self.slots@[j]),
            decreases self.slots@.len() - i,
        {
            if self.slots[i].resource.is_none() && self.slots[i].generation != 0 {
                assert(reusable(self.slots@[i as int]));
                return true;
            }
            i = i + 1;
        }
        self.slots.len() < MAX_SLOTS
    }

    /// Stores `resource` in the first reusable slot, or in a new slot, and returns
    /// its handle; fails with `HandleLimit` (dropping `resource`) when every slot is
    /// occupied or retired and no slot can be added.
    pub fn insert(&mut self, resource: Resource) -> (res: Result<u32, BridgeError>)
        requires
            old(self).wf(),
        ensures
            final(self).wf(),
            res is Ok <==> old(self).spec_can_insert(),
            match res {
                Ok(h) => old(self).inserted(final(self), resource, h),
                Err(e) => e == BridgeError::HandleLimit && *final(self) == *old(self),
            },
    {
        proof {
            lemma_count_bound(self.slots@);
        }
        let mut i: usize = 0;
        while i < self.slots.len()
            invariant
                self.wf(),
                *self == *old(self),
                i <= self.slots@.len(),
                forall|j: int| 0 <= j < i ==> !reusable(#[trigger] self.slots@[j]),
                occupied_count(self.slots@) <= self.slots@.len(),
            decreases self.slots@.len() - i,
        {
            if self.slots[i].resource.is_none() && self.slots[i].generation != 0 {
                let generation = self.slots[i].generation;
                let ghost before = self.slots@;
                let ghost slot = Slot { generation, resource: Some(resource) };
                proof {
                    lemma_count_update(before, i as int, slot);
                    lemma_handle_roundtrip(i as int, generation as int);
                }
                self.slots.set(i, Slot { generation, resource: Some(resource) });
                self.live = self.live + 1;
                let h = encode_handle(i, generation);
                proof {
                    assert forall|x: u32| x != h implies #[trigger] self.lookup(x) == old(self).lookup(x) by {
                        if handle_well_formed(x) && handle_index(x) == i {
                            lemma_handle_decompose(x);
                        }
                    }
                    assert(forall|j: int| 0 <= j < before.len() ==> slot_ok(#[trigger] self.slots@[j]));
                }
                return Ok(h);
            }
            i = i + 1;
        }
        if self.slots.len() == MAX_SLOTS {
            return Err(BridgeError::HandleLimit);
        }
        let index = self.slots.len();
        let ghost before = self.slots@;
        let ghost slot = Slot { generation: 1, resource: Some(resource) };
        proof {
            lemma_count_push(before, slot);
            lemma_handle_roundtrip(index as int, 1);
        }
        self.slots.push(Slot { generation: 1, resource: Some(resource) });
        self.live = self.live + 1;
        let h = encode_handle(index, 1);
        proof {
            assert forall|x: u32| x != h implies #[trigger] self.lookup(x) == old(self).lookup(
                x,
            ) by {
                if handle_well_formed(x) && handle_index(x) == index {
                    lemma_handle_decompose(x);
                }
            }
            assert(forall|j: int| 0 <= j < self.slots@.len() ==> slot_ok(#[trigger] self.slots@[j]));
        }
        Ok(h)
    }

    /// Returns the resource `h` names; fails with `InvalidHandle` when it names none.
    pub fn resource(&self, h: u32) -> (res: Result<&Resource, BridgeError>)
        requires
            self.wf(),
        ensures
            res is Ok <==> self.valid(h),
            res matches Ok(r) ==> self.lookup(h) == Some(*r),
            res matches Err(e) ==> e == (BridgeError::InvalidHandle { handle: h }),
    {
        let (index, generation) = match decode_handle(h) {
            Ok(pair) => pair,
            Err(e) => {
                return Err(e);
            },
        };
        if index >= self.slots.len() || self.slots[index].generation != generation {
            return Err(BridgeError::InvalidHandle { handle: h });
        }
        match &self.slots[index].resource {
            Some(r) => Ok(r),
            None => Err(BridgeError::InvalidHandle { handle: h }),
        }
    }

    /// Returns the resource `h` names if it is of kind `expected`.
    pub fn typed(&self, h: u32, expected: ResourceKind) -> (res: Result<&Resource, BridgeError>)
        requires
            self.wf(),
        ensures
            res is Ok <==> self.access_error(h, expected) is None,
            res matches Ok(r) ==> self.lookup(h) == Some(*r) && resource_kind(*r) == expected,
            res matches Err(e) ==> self.access_error(h, expected) == Some(e),
    {
        let r = match self.resource(h) {
            Ok(r) => r,
            Err(e) => {
                return Err(e);
            },
        };
        if r.kind() != expected {
            return Err(wrong_resource_type(h, expected, r));
        }
        Ok(r)
    }

    /// Puts `new` in the place of the resource `h` names and returns the old one.
    pub fn replace(&mut self, h: u32, new: Resource) -> (previous: Resource)
        requires
            old(self).wf(),
            old(self).valid(h),
        ensures
            final(self).wf(),
            old(self).lookup(h) == Some(previous),
            old(self).replaced(final(self), h, new),
    {
        let low: u32 = h & 0xffffu32;
        proof {
            assert(h & 0xffffu32 == h % 65536) by (bit_vector);
            lemma_handle_decompose(h);
        }
        let index = low as usize - 1;
        let ghost before = self.slots@;
        let generation = self.slots[index].generation;
        let mut slot = Slot { generation, resource: Some(new) };
        proof {
            lemma_count_update(before, index as int, slot);
        }
        self.slots.set_and_swap(index, &mut slot);
        proof {
            assert forall|x: u32| x != h implies #[trigger] self.lookup(x) == old(self).lookup(x) by {
                if handle_well_formed(x) && handle_index(x) == index {
                    lemma_handle_decompose(x);
                }
            }
            assert(forall|j: int| 0 <= j < self.slots@.len() ==> slot_ok(#[trigger] self.slots@[j]));
            assert(forall|j: int| 0 <= j < before.len() ==> reusable(#[trigger] self.slots@[j]) == reusable(before[j]));
            if old(self).spec_can_insert() && before.len() >= MAX_SLOTS {
                let j = choose|j: int| 0 <= j < before.len() && reusable(#[trigger] before[j]);
                assert(reusable(self.slots@[j]));
            }
            if self.spec_can_insert() && before.len() >= MAX_SLOTS {
                let j = choose|j: int| 0 <= j < before.len() && reusable(#[trigger] self.slots@[j]);
                assert(reusable(before[j]));
            }
        }
        match slot.resource {
            Some(r) => r,
            None => new_placeholder(),
        }
    }

    /// Removes the resource `h` names if it is of kind `expected`, advancing (or
    /// retiring) the slot's generation so that `h` is never valid again.
    pub fn take(&mut self, h: u32, expected: ResourceKind) -> (res: Result<Resource, BridgeError>)
        requires
            old(self).wf(),
        ensures
            final(self).wf(),
            res is Ok <==> old(self).access_error(h, expected) is None,
            match res {
                Ok(r) => resource_kind(r) == expected && old(self).removed(final(self), h, r),
                Err(e) => old(self).access_error(h, expected) == Some(e) && *final(self) == *old(self),
            },
    {
        match self.typed(h, expected) {
            Ok(_) => {},
            Err(e) => {
                return Err(e);
            },
        }
        let low: u32 = h & 0xffffu32;
        let high: u32 = h >> 16u32;
        proof {
            assert(h & 0xffffu32 == h % 65536) by (bit_vector);
            assert(h >> 16u32 == h / 65536) by (bit_vector);
            lemma_handle_decompose(h);
        }
        let index = low as usize - 1;
        let generation = high as u16;
        let ghost before = self.slots@;
        let mut slot = Slot { generation: next_generation(generation), resource: None };
        proof {
            lemma_count_update(before, index as int, slot);
        }
        self.slots.set_and_swap(index, &mut slot);
        self.live = self.live - 1;
        proof {
            assert forall|x: u32| x != h implies #[trigger] self.lookup(x) == old(self).lookup(x) by {
                if handle_well_formed(x) && handle_index(x) == index {
                    lemma_handle_decompose(x);
                }
            }
            assert(forall|j: int| 0 <= j < self.slots@.len() ==> slot_ok(#[trigger] self.slots@[j]));
            if old(self).spec_can_insert() && before.len() >= MAX_SLOTS {
                let j = choose|j: int| 0 <= j < before.len() && reusable(#[trigger] before[j]);
                assert(j != index);
                assert(reusable(self.slots@[j]));
            }
            if generation != MAX_GENERATION {
                assert(reusable(self.slots@[index as int]));
            }
        }
        match slot.resource {
            Some(r) => Ok(r),
            None => Err(BridgeError::InvalidHandle { handle: h }),
        }
    }

    /// Checks that the resource `h` names is of kind `expected` and that, once it
    /// is taken, a replacement can be inserted.
    pub fn ensure_insert_capacity_after_take(&self, h: u32, expected: ResourceKind) -> (res: Result<(), BridgeError>)
        requires
            self.wf(),
        ensures
            match res {
                Ok(()) => self.access_error(h, expected) is None && (self.spec_can_insert()
                    || handle_generation(h) != MAX_GENERATION),
                Err(e) => match self.access_error(h, expected) {
                    Some(a) => e == a,
                    None => e == BridgeError::HandleLimit && !self.spec_can_insert()
                        && handle_generation(h) == MAX_GENERATION,
                },
            },
    {
        match self.typed(h, expected) {
            Ok(_) => {},
            Err(e) => {
                return Err(e);
            },
        }
        let high: u32 = h >> 16u32;
        proof {
            assert(h >> 16u32 == h / 65536) by (bit_vector);
            lemma_handle_decompose(h);
        }
        let generation = high as u16;
        if generation == MAX_GENERATION && !self.can_insert() {
            return Err(BridgeError::HandleLimit);
        }
        Ok(())
    }

    /// Drops every slot and resource.
    pub fn clear(&mut self)
        ensures
            final(self).wf(),
            final(self).slots@.len() == 0,
            final(self).live == 0,
    {
        self.slots = Vec::new();
        self.live = 0;
    }
}

/// A stand-in resource for a branch that cannot be reached.
fn new_placeholder() -> (r: Resource)
    ensures
        r matches Resource::Buffer(b) && b@.len() == 0,
{
    Resource::Buffer(Vec::new())
}

/// A handle whose slot has moved past its generation names no resource.
pub proof fn lemma_retired_is_invalid(a: &Arena, h: u32)
    requires
        a.retired(h),
    ensures
        a.lookup(h) is None,
{
}

/// Progress is transitive.
pub proof fn lemma_progress_transitive(a: &Arena, b: &Arena, c: &Arena)
    requires
        a.progressed_to(b),
        b.progressed_to(c),
    ensures
        a.progressed_to(c),
{
    assert forall|i: int| #![trigger c.slots@[i]] 0 <= i < a.slots@.len() implies generation_rank(
        a.slots@[i].generation,
    ) <= generation_rank(c.slots@[i].generation) by {
        assert(generation_rank(a.slots@[i].generation) <= generation_rank(b.slots@[i].generation));
        assert(generation_rank(b.slots@[i].generation) <= generation_rank(c.slots@[i].generation));
    }
}

/// A released handle stays released: once its slot has moved past its
/// generation, no later arena that only progressed from it lets the handle
/// name a resource again.
pub proof fn lemma_released_handle_stays_invalid(a: &Arena, later: &Arena, h: u32)
    requires
        a.retired(h),
        a.progressed_to(later),
    ensures
        later.retired(h),
        later.lookup(h) is None,
{
    assert(generation_rank(a.slots@[handle_index(h)].generation) <= generation_rank(
        later.slots@[handle_index(h)].generation,
    ));
}

/// Two replacements under one handle make one.
pub proof fn lemma_replaced_twice(a: &Arena, b: &Arena, c: &Arena, h: u32, r1: Resource, r2: Resource)
    requires
        a.replaced(b, h, r1),
        b.replaced(c, h, r2),
    ensures
        a.replaced(c, h, r2),
{
    assert forall|x: u32| x != h implies #[trigger] c.lookup(x) == a.lookup(x) by {
        assert(b.lookup(x) == a.lookup(x));
        assert(c.lookup(x) == b.lookup(x));
    }
    assert forall|i: int| #![trigger c.slots@[i]] 0 <= i < a.slots@.len() implies c.slots@[i].generation == a.slots@[i].generation by {
        assert(b.slots@[i].generation == a.slots@[i].generation);
    }
}

/// A replacement loses no slot and moves no generation.
pub proof fn lemma_replaced_progress(a: &Arena, b: &Arena, h: u32, r: Resource)
    requires
        a.replaced(b, h, r),
    ensures
        a.progressed_to(b),
{
    assert forall|i: int| #![trigger b.slots@[i]] 0 <= i < a.slots@.len() implies generation_rank(
        a.slots@[i].generation,
    ) <= generation_rank(b.slots@[i].generation) by {
        assert(b.slots@[i].generation == a.slots@[i].generation);
    }
}

/// Taking a resource out and then inserting one exchanges the two handles.
pub proof fn lemma_take_then_insert(a: &Arena, b: &Arena, c: &Arena, h: u32, r0: Resource, k: u32, r: Resource)
    requires
        a.wf(),
        b.wf(),
        a.removed(b, h, r0),
        b.inserted(c, r, k),
    ensures
        a.exchanged(c, h, k, r),
{
    crate::handle::lemma_handle_decompose(h);
    crate::handle::lemma_handle_decompose(k);
    if k == h {
        assert(b.slots@[handle_index(h)].generation == spec_next_generation(handle_generation(h) as u16));
        assert(false);
    }
    assert(b.lookup(k) == a.lookup(k));
    lemma_progress_transitive(a, b, c);
    lemma_released_handle_stays_invalid(b, c, h);
    assert forall|x: u32| x != h && x != k implies #[trigger] c.lookup(x) == a.lookup(x) by {
        assert(b.lookup(x) == a.lookup(x));
        assert(c.lookup(x) == b.lookup(x));
    }
}

} // verus!
