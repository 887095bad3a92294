//! Dispatch handles: every backend object that is handed to the caller lives
//! in a record that starts with the loader's tag, and is named by a handle
//! that is checked on every use.
//!
//! A table owns the records of one object kind. A handle names a slot of the
//! table and the generation of the slot at the time the handle was formed, so
//! a handle that was released never names a later object.
use crate::sys;
use vstd::prelude::*;

verus! {

/// The record behind a handle: the loader's tag, then the backend object.
pub struct Dispatch<T> {
    pub loader: usize,
    pub imp: T,
}

/// The name of one record of a table.
#[derive(Clone, Copy, PartialEq, Eq, Debug, Structural)]
pub struct Handle {
    pub index: usize,
    pub generation: u64,
}

/// One place of a table: the generation of the next or the present tenant,
/// and the tenant's record.
struct Slot<T> {
    generation: u64,
    record: Option<Dispatch<T>>,
}

/// The records of one object kind, each owned by the table until released.
pub struct HandleTable<T> {
    slots: Vec<Slot<T>>,
}

impl<T> HandleTable<T> {
    /// Every record carries the loader's tag, and a slot whose generations
    /// are used up holds no record.
    pub closed spec fn wf(&self) -> bool {
        forall|i: int|
            0 <= i < self.slots@.len() ==> match (#[trigger] self.slots@[i]).record {
                Some(record) => record.loader == sys::ICD_LOADER_MAGIC && self.slots@[i].generation
                    < u64::MAX,
                None => true,
            }
    }

    /// Whether the handle names a record that the table owns now.
    pub closed spec fn is_live(&self, handle: Handle) -> bool {
        &&& handle.index < self.slots@.len()
        &&& self.slots@[handle.index as int].generation == handle.generation
        &&& self.slots@[handle.index as int].record is Some
    }

    /// Whether the handle was ever formed by this table, live or released.
    pub closed spec fn was_issued(&self, handle: Handle) -> bool {
        &&& handle.index < self.slots@.len()
        &&& (handle.generation < self.slots@[handle.index as int].generation
            || self.is_live(handle))
    }

    /// The backend object behind a live handle.
    pub closed spec fn payload(&self, handle: Handle) -> T {
        self.slots@[handle.index as int].record->Some_0.imp
    }

    /// The tag at the start of the record behind a live handle.
    pub closed spec fn tag(&self, handle: Handle) -> usize {
        self.slots@[handle.index as int].record->Some_0.loader
    }

    /// The live handles, each with the one object that it owns.
    pub open spec fn live(&self) -> Map<Handle, T> {
        Map::new(|handle: Handle| self.is_live(handle), |handle: Handle| self.payload(handle))
    }

    /// The handles formed so far.
    pub open spec fn issued(&self) -> Set<Handle> {
        Set::new(|handle: Handle| self.was_issued(handle))
    }

    /// A live handle was issued.
    pub proof fn lemma_live_is_issued(&self, handle: Handle)
        requires
            self.live().contains_key(handle),
        ensures
            self.issued().contains(handle),
    {
    }

    /// A handle that was never issued is not live.
    pub proof fn lemma_not_issued_is_not_live(&self, handle: Handle)
        requires
            !self.was_issued(handle),
        ensures
            !self.is_live(handle),
            !self.live().contains_key(handle),
    {
    }

    /// A live handle was issued, and the record behind it carries the
    /// loader's tag.
    pub proof fn lemma_live_is_issued_and_tagged(&self, handle: Handle)
        requires
            self.wf(),
            self.is_live(handle),
        ensures
            self.was_issued(handle),
            self.live().contains_key(handle),
            self.issued().contains(handle),
            self.tag(handle) == sys::ICD_LOADER_MAGIC,
    {
    }

    /// A table without records.
    pub fn new() -> (r: Self)
        ensures
            r.wf(),
            r.live() == Map::<Handle, T>::empty(),
            r.issued() == Set::<Handle>::empty(),
    {
        let r = HandleTable { slots: Vec::new() };
        assert(r.live() =~= Map::<Handle, T>::empty());
        assert(r.issued() =~= Set::<Handle>::empty());
        r
    }

    /// Whether the slot at `i` can take a record: it holds none, and its
    /// generations are not used up.
    spec fn can_take(&self, i: int) -> bool {
        &&& 0 <= i < self.slots@.len()
        &&& self.slots@[i].record is None
        &&& self.slots@[i].generation < u64::MAX
    }

    /// The first slot that can take a record; `None` exactly when no slot
    /// can.
    fn free_slot(&self) -> (r: Option<usize>)
        ensures
            match r {
                Some(i) => self.can_take(i as int) && forall|j: int|
                    0 <= j < i ==> !self.can_take(j),
                None => forall|j: int| 0 <= j < self.slots@.len() ==> !self.can_take(j),
            },
    {
        let mut i: usize = 0;
        while i < self.slots.len()
            invariant
                i <= self.slots@.len(),
                forall|j: int| 0 <= j < i ==> !self.can_take(j),
            decreases self.slots@.len() - i,
        {
            if self.slots[i].record.is_none() && self.slots[i].generation < u64::MAX {
                return Some(i);
            }
            i = i + 1;
        }
        None
    }

    /// Puts a backend object into a record of its own and returns the handle
    /// that owns it. The handle was never issued before, and no other handle
    /// changes.
    pub fn form(&mut self, imp: T) -> (handle: Handle)
        requires
            old(self).wf(),
        ensures
            final(self).wf(),
            !old(self).was_issued(handle),
            final(self).is_live(handle),
            final(self).payload(handle) == imp,
            final(self).tag(handle) == sys::ICD_LOADER_MAGIC,
            final(self).live() == old(self).live().insert(handle, imp),
            final(self).issued() == old(self).issued().insert(handle),
    {
        let record = Dispatch { loader: sys::ICD_LOADER_MAGIC, imp };
        let handle = match self.free_slot() {
            Some(i) => {
                let generation: u64 = self.slots[i].generation;
                self.slots.set(i, Slot { generation, record: Some(record) });
                Handle { index: i, generation }
            },
            None => {
                let index: usize = self.slots.len();
                self.slots.push(Slot { generation: 0, record: Some(record) });
                Handle { index, generation: 0 }
            },
        };
        assert(self.live() =~= old(self).live().insert(handle, imp));
        assert(self.issued() =~= old(self).issued().insert(handle));
        handle
    }

    /// Puts each backend object of a list into a record of its own and
    /// returns the handles in the order of the list. The handles are new and
    /// differ from one another, and no other handle changes.
    pub fn form_all(&mut self, items: Vec<T>) -> (handles: Vec<Handle>)
        requires
            old(self).wf(),
        ensures
            final(self).wf(),
            handles@.len() == items@.len(),
            forall|i: int|
                0 <= i < handles@.len() ==> {
                    &&& !old(self).issued().contains(#[trigger] handles@[i])
                    &&& final(self).live().contains_key(handles@[i])
                    &&& final(self).live()[handles@[i]] == items@[i]
                },
            forall|i: int, j: int|
                0 <= i < j < handles@.len() ==> #[trigger] handles@[i] != #[trigger] handles@[j],
            forall|h: Handle| #[trigger]
                old(self).live().contains_key(h) ==> final(self).live().contains_key(h)
                    && final(self).live()[h] == old(self).live()[h],
            forall|h: Handle| #[trigger]
                final(self).live().contains_key(h) ==> old(self).live().contains_key(h)
                    || handles@.contains(h),
            forall|h: Handle| #[trigger]
                final(self).issued().contains(h) <==> old(self).issued().contains(h)
                    || handles@.contains(h),
    {
        let ghost all = items@;
        let mut items = items;
        let n: usize = items.len();
        let mut handles: Vec<Handle> = vec![Handle { index: 0, generation: 0 }; n];
        let mut j: usize = n;
        while j > 0
            invariant
                self.wf(),
                old(self).wf(),
                j <= n,
                n == all.len(),
                handles@.len() == n,
                items@ == all.subrange(0, j as int),
                forall|i: int|
                    j <= i < n ==> {
                        &&& !old(self).issued().contains(#[trigger] handles@[i])
                        &&& self.live().contains_key(handles@[i])
                        &&& self.live()[handles@[i]] == all[i]
                    },
                forall|i: int, k: int|
                    j <= i < k < n ==> #[trigger] handles@[i] != #[trigger] handles@[k],
                forall|h: Handle| #[trigger]
                    old(self).live().contains_key(h) ==> self.live().contains_key(h)
                        && self.live()[h] == old(self).live()[h],
                forall|h: Handle| #[trigger]
                    self.live().contains_key(h) ==> old(self).live().contains_key(h) || exists|i: int|
                        j <= i < n && handles@[i] == h,
                forall|h: Handle| #[trigger]
                    self.issued().contains(h) <==> old(self).issued().contains(h) || exists|i: int|
                        j <= i < n && handles@[i] == h,
            decreases j,
        {
            let ghost before = *self;
            let ghost formed = handles@;
            let item = items.pop().unwrap();
            j = j - 1;
            let handle = self.form(item);
            handles.set(j, handle);
            proof {
                assert(item == all[j as int]);
                assert(!before.issued().contains(handle));
                assert forall|h: Handle| #[trigger]
                    self.live().contains_key(h) implies old(self).live().contains_key(h) || exists|i: int|
                        j <= i < n && handles@[i] == h by {
                    if h == handle {
                        assert(handles@[j as int] == h);
                    } else {
                        assert(before.live().contains_key(h));
                        if !old(self).live().contains_key(h) {
                            let i = choose|i: int| j + 1 <= i < n && formed[i] == h;
                            assert(handles@[i] == h);
                        }
                    }
                }
                assert forall|h: Handle| #[trigger]
                    self.issued().contains(h) <==> old(self).issued().contains(h) || exists|i: int|
                        j <= i < n && handles@[i] == h by {
                    if h == handle {
                        assert(handles@[j as int] == h);
                    } else if before.issued().contains(h) && !old(self).issued().contains(h) {
                        let i = choose|i: int| j + 1 <= i < n && formed[i] == h;
                        assert(handles@[i] == h);
                    } else if exists|i: int| j <= i < n && handles@[i] == h {
                        let i = choose|i: int| j <= i < n && handles@[i] == h;
                        assert(formed[i] == h);
                    }
                }
                assert forall|h: Handle| #[trigger]
                    old(self).live().contains_key(h) implies self.live().contains_key(h)
                    && self.live()[h] == old(self).live()[h] by {
                    before.lemma_live_is_issued(h);
                }
                assert forall|i: int| j <= i < n implies {
                    &&& !old(self).issued().contains(#[trigger] handles@[i])
                    &&& self.live().contains_key(handles@[i])
                    &&& self.live()[handles@[i]] == all[i]
                } by {
                    if i > j {
                        assert(formed[i] == handles@[i]);
                        before.lemma_live_is_issued(formed[i]);
                    }
                }
                assert forall|i: int, k: int| j <= i < k < n implies #[trigger] handles@[i]
                    != #[trigger] handles@[k] by {
                    assert(formed[k] == handles@[k]);
                    if i == j {
                        before.lemma_live_is_issued(formed[k]);
                    } else {
                        assert(formed[i] == handles@[i]);
                    }
                }
            }
        }
        assert(all.subrange(0, 0) =~= Seq::<T>::empty());
        handles
    }

    /// Whether the handle names a record that the table owns now.
    pub fn contains(&self, handle: Handle) -> (r: bool)
        ensures
            r == self.is_live(handle),
    {
        handle.index < self.slots.len() && self.slots[handle.index].generation == handle.generation
            && self.slots[handle.index].record.is_some()
    }

    /// Borrows the backend object behind a handle; `None` for a handle that
    /// is not live.
    pub fn cast(&self, handle: Handle) -> (r: Option<&T>)
        ensures
            self.is_live(handle) ==> r == Some(&self.payload(handle)),
            !self.is_live(handle) ==> r is None,
    {
        if handle.index >= self.slots.len() {
            return None;
        }
        let slot = &self.slots[handle.index];
        if slot.generation != handle.generation {
            return None;
        }
        match &slot.record {
            Some(record) => Some(&record.imp),
            None => None,
        }
    }

    /// The tag at the start of the record behind a handle; `None` for a
    /// handle that is not live.
    pub fn loader_tag(&self, handle: Handle) -> (r: Option<usize>)
        requires
            self.wf(),
        ensures
            self.is_live(handle) ==> r == Some(sys::ICD_LOADER_MAGIC),
            !self.is_live(handle) ==> r is None,
    {
        if handle.index >= self.slots.len() {
            return None;
        }
        let slot = &self.slots[handle.index];
        if slot.generation != handle.generation {
            return None;
        }
        match &slot.record {
            Some(record) => Some(record.loader),
            None => None,
        }
    }

    /// Releases the record behind a handle and gives its backend object back
    /// to the caller. The handle stays issued and is never live again. A
    /// handle that is not live leaves the table as it was.
    pub fn release(&mut self, handle: Handle) -> (r: Option<T>)
        requires
            old(self).wf(),
        ensures
            final(self).wf(),
            !final(self).is_live(handle),
            final(self).issued() == old(self).issued(),
            old(self).is_live(handle) ==> r == Some(old(self).payload(handle)),
            old(self).is_live(handle) ==> final(self).live() == old(self).live().remove(handle),
            !old(self).is_live(handle) ==> r is None && final(self).live() == old(self).live(),
    {
        if !self.contains(handle) {
            assert(self.live() =~= old(self).live());
            return None;
        }
        let mut slot = Slot { generation: handle.generation + 1, record: None };
        self.slots.set_and_swap(handle.index, &mut slot);
        assert(self.live() =~= old(self).live().remove(handle));
        assert(self.issued() =~= old(self).issued());
        match slot.record {
            Some(record) => Some(record.imp),
            None => None,
        }
    }
}

} // verus!
