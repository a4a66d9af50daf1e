use vstd::prelude::*;

verus! {

/// An opaque token for an object held in a [`HandleTable`]: a slot and the
/// generation of that slot when the object was put there.
#[derive(Debug, Clone, Copy, PartialEq, Eq, Hash, Structural)]
pub struct Handle {
    pub index: usize,
    pub generation: u64,
}

/// A table of objects that are handed out by handle.
///
/// Each slot carries a generation counter that grows whenever the slot is
/// filled again, so a handle whose object was removed never refers to an object
/// again: looking it up or removing it a second time gives `None` instead of
/// touching another object.
pub struct HandleTable<T> {
    slots: Vec<Option<T>>,
    generations: Vec<u64>,
    issued: Ghost<Set<Handle>>,
}

impl<T> View for HandleTable<T> {
    type V = Map<Handle, T>;

    /// The live handles and the objects they refer to.
    closed spec fn view(&self) -> Map<Handle, T> {
        Map::new(|h: Handle| self.live(h), |h: Handle| self.slots@[h.index as int]->Some_0)
    }
}

impl<T> HandleTable<T> {
    closed spec fn live(&self, h: Handle) -> bool {
        &&& h.index < self.slots@.len()
        &&& self.generations@[h.index as int] == h.generation
        &&& self.slots@[h.index as int] is Some
    }

    /// Every handle that this table has handed out, live or removed.
    pub closed spec fn issued(&self) -> Set<Handle> {
        self.issued@
    }

    /// The table's internal invariant.
    pub closed spec fn wf(&self) -> bool {
        &&& self.slots@.len() == self.generations@.len()
        &&& forall|h: Handle| #[trigger]
            self.issued@.contains(h) ==> h.index < self.slots@.len() && h.generation
                <= self.generations@[h.index as int]
        &&& forall|i: int|
            0 <= i < self.slots@.len() && (#[trigger] self.slots@[i]) is Some ==> self.issued@.contains(
                Handle { index: i as usize, generation: self.generations@[i] },
            )
    }

    /// An empty table.
    pub fn new() -> (r: Self)
        ensures
            r.wf(),
            r@ == Map::<Handle, T>::empty(),
            r.issued() == Set::<Handle>::empty(),
    {
        let r = HandleTable { slots: Vec::new(), generations: Vec::new(), issued: Ghost(Set::empty()) };
        assert(r@ =~= Map::<Handle, T>::empty());
        r
    }

    /// Puts `value` into the table and returns a handle that was never handed
    /// out before. A free slot is reused with its generation raised by one; a
    /// slot whose generation has reached `u64::MAX` is not used again.
    pub fn insert(&mut self, value: T) -> (h: Handle)
        requires
            old(self).wf(),
        ensures
            final(self).wf(),
            !old(self).issued().contains(h),
            final(self).issued() == old(self).issued().insert(h),
            final(self)@ == old(self)@.insert(h, value),
    {
        let n = self.slots.len();
        let mut i: usize = 0;
        while i < n
            invariant
                self.wf(),
                *self == *old(self),
                n == self.slots@.len(),
                0 <= i <= n,
            decreases n - i,
        {
            if self.slots[i].is_none() && self.generations[i] < u64::MAX {
                let g = self.generations[i] + 1;
                let h = Handle { index: i, generation: g };
                let ghost old_view = self@;
                let ghost prev = *self;
                self.generations.set(i, g);
                self.slots.set(i, Some(value));
                proof {
                    self.issued@ = self.issued@.insert(h);
                    assert forall|hh: Handle| #[trigger] self.issued@.contains(hh) implies hh.index
                        < self.slots@.len() && hh.generation <= self.generations@[hh.index as int] by {
                        if hh != h {
                            assert(prev.issued@.contains(hh));
                        }
                    }
                    assert forall|j: int|
                        0 <= j < self.slots@.len() && (#[trigger] self.slots@[j]) is Some implies self.issued@.contains(
                        Handle { index: j as usize, generation: self.generations@[j] },
                    ) by {
                        if j != i {
                            assert(prev.slots@[j] is Some);
                        }
                    }
                    assert(self@ =~= old_view.insert(h, value));
                }
                return h;
            }
            i = i + 1;
        }
        let h = Handle { index: n, generation: 0 };
        let ghost old_view = self@;
        let ghost prev = *self;
        self.slots.push(Some(value));
        self.generations.push(0);
        proof {
            self.issued@ = self.issued@.insert(h);
            assert forall|hh: Handle| #[trigger] self.issued@.contains(hh) implies hh.index
                < self.slots@.len() && hh.generation <= self.generations@[hh.index as int] by {
                if hh != h {
                    assert(prev.issued@.contains(hh));
                }
            }
            assert forall|j: int|
                0 <= j < self.slots@.len() && (#[trigger] self.slots@[j]) is Some implies self.issued@.contains(
                Handle { index: j as usize, generation: self.generations@[j] },
            ) by {
                if j != n {
                    assert(prev.slots@[j] is Some);
                }
            }
            assert(self@ =~= old_view.insert(h, value));
        }
        h
    }

    /// Whether `h` refers to an object of this table.
    pub fn contains(&self, h: Handle) -> (r: bool)
        requires
            self.wf(),
        ensures
            r == self@.contains_key(h),
    {
        h.index < self.slots.len() && self.generations[h.index] == h.generation
            && self.slots[h.index].is_some()
    }

    /// The object that `h` refers to, or `None` for a handle that is not live.
    pub fn get(&self, h: Handle) -> (r: Option<&T>)
        requires
            self.wf(),
        ensures
            match r {
                Some(v) => self@.contains_key(h) && *v == self@[h],
                None => !self@.contains_key(h),
            },
    {
        if h.index < self.slots.len() && self.generations[h.index] == h.generation {
            self.slots[h.index].as_ref()
        } else {
            None
        }
    }

    /// A mutable reference to the object that `h` refers to, or `None` for a
    /// handle that is not live.
    pub fn get_mut(&mut self, h: Handle) -> (r: Option<&mut T>)
        requires
            old(self).wf(),
        ensures
            final(self).wf(),
            final(self).issued() == old(self).issued(),
            match r {
                Some(v) => {
                    &&& old(self)@.contains_key(h)
                    &&& *v == old(self)@[h]
                    &&& final(self)@ == old(self)@.insert(h, *final(v))
                },
                None => !old(self)@.contains_key(h) && final(self)@ == old(self)@,
            },
    {
        if h.index < self.slots.len() && self.generations[h.index] == h.generation {
            self.slots[h.index].as_mut()
        } else {
            None
        }
    }

    /// Takes the object that `h` refers to out of the table. The handle is dead
    /// from then on; a second removal gives `None`.
    pub fn remove(&mut self, h: Handle) -> (r: Option<T>)
        requires
            old(self).wf(),
        ensures
            final(self).wf(),
            final(self).issued() == old(self).issued(),
            final(self)@ == old(self)@.remove(h),
            match r {
                Some(v) => old(self)@.contains_key(h) && v == old(self)@[h],
                None => !old(self)@.contains_key(h),
            },
    {
        if h.index < self.slots.len() && self.generations[h.index] == h.generation
            && self.slots[h.index].is_some() {
            let ghost old_view = self@;
            let ghost prev = *self;
            let mut taken: Option<T> = None;
            self.slots.set_and_swap(h.index, &mut taken);
            proof {
                assert forall|hh: Handle| #[trigger] self.issued@.contains(hh) implies hh.index
                    < self.slots@.len() && hh.generation <= self.generations@[hh.index as int] by {
                    assert(prev.issued@.contains(hh));
                }
                assert forall|j: int|
                    0 <= j < self.slots@.len() && (#[trigger] self.slots@[j]) is Some implies self.issued@.contains(
                    Handle { index: j as usize, generation: self.generations@[j] },
                ) by {
                    assert(prev.slots@[j] is Some);
                }
            }
            assert(self@ =~= old_view.remove(h));
            taken
        } else {
            assert(self@ =~= old(self)@.remove(h));
            None
        }
    }
}

impl<T> HandleTable<T> {
    /// Every live handle is one that the table has handed out.
    pub proof fn lemma_live_handles_issued(&self)
        requires
            self.wf(),
        ensures
            forall|h: Handle| #[trigger] self@.contains_key(h) ==> self.issued().contains(h),
    {
        assert forall|h: Handle| #[trigger] self@.contains_key(h) implies self.issued().contains(h) by {
            assert(self.slots@[h.index as int] is Some);
        }
    }
}

/// One call that changes a table, as the contracts of [`HandleTable::insert`],
/// [`HandleTable::remove`] and [`HandleTable::get_mut`] describe it.
pub enum TableOp<T> {
    Insert(Handle, T),
    Remove(Handle),
    Update(Handle, T),
}

/// Whether `t2` is what `op` leaves of table `t`.
pub open spec fn spec_step<T>(t: HandleTable<T>, op: TableOp<T>, t2: HandleTable<T>) -> bool {
    &&& t2.wf()
    &&& match op {
        TableOp::Insert(h, v) => {
            &&& !t.issued().contains(h)
            &&& t2.issued() == t.issued().insert(h)
            &&& t2@ == t@.insert(h, v)
        },
        TableOp::Remove(h) => t2.issued() == t.issued() && t2@ == t@.remove(h),
        TableOp::Update(h, v) => {
            &&& t@.contains_key(h)
            &&& t2.issued() == t.issued()
            &&& t2@ == t@.insert(h, v)
        },
    }
}

/// A handle that was removed (freed, or consumed by finalization) stays dead
/// along any run of calls on its table: it is never handed out again, so every
/// later lookup or removal of it finds nothing and a second free never reaches
/// an object.
pub proof fn lemma_removed_handle_stays_dead<T>(
    run: Seq<HandleTable<T>>,
    ops: Seq<TableOp<T>>,
    h: Handle,
)
    requires
        run.len() == ops.len() + 1,
        forall|i: int| 0 <= i < ops.len() ==> spec_step(run[i], #[trigger] ops[i], run[i + 1]),
        run[0].issued().contains(h),
        !run[0]@.contains_key(h),
    ensures
        forall|i: int|
            0 <= i < run.len() ==> !(#[trigger] run[i])@.contains_key(h) && run[i].issued().contains(h),
    decreases ops.len(),
{
    if ops.len() > 0 {
        let n = ops.len() - 1;
        lemma_removed_handle_stays_dead(run.take(n + 1), ops.take(n), h);
        assert(run.take(n + 1)[n] == run[n]);
        assert(spec_step(run[n], ops[n], run[n + 1]));
        assert forall|i: int| 0 <= i < run.len() implies !(#[trigger] run[i])@.contains_key(h)
            && run[i].issued().contains(h) by {
            if i < n + 1 {
                assert(run.take(n + 1)[i] == run[i]);
            }
        }
    }
}

/// Removing the same handle twice: the first removal takes the object and the
/// handle is no longer live, so the second one finds nothing and changes
/// nothing.
pub proof fn lemma_double_remove<T>(t: HandleTable<T>, t1: HandleTable<T>, t2: HandleTable<T>, h: Handle)
    requires
        spec_step(t, TableOp::Remove(h), t1),
        spec_step(t1, TableOp::Remove(h), t2),
    ensures
        !t1@.contains_key(h),
        t2@ == t1@,
{
    assert(t2@ =~= t1@);
}

} // verus!
