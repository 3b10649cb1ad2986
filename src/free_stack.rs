use vstd::prelude::*;

verus! {

/// The stack after one instance is offered to it: kept on top while there is
/// room below `capacity`, discarded otherwise.
pub open spec fn offered<T>(s: Seq<T>, capacity: nat, item: T) -> Seq<T> {
    if s.len() < capacity {
        s.push(item)
    } else {
        s
    }
}

/// The stack after its top instance, if any, is taken out.
pub open spec fn taken<T>(s: Seq<T>) -> Seq<T> {
    if s.len() == 0 {
        s
    } else {
        s.drop_last()
    }
}

/// The stack after a run of operations: `Some(x)` offers `x`, `None` takes
/// the top instance out.
pub open spec fn after_ops<T>(s: Seq<T>, capacity: nat, ops: Seq<Option<T>>) -> Seq<T>
    decreases ops.len(),
{
    if ops.len() == 0 {
        s
    } else {
        let next = match ops[0] {
            Some(item) => offered(s, capacity, item),
            None => taken(s),
        };
        after_ops(next, capacity, ops.subrange(1, ops.len() as int))
    }
}

/// However instances are taken from and offered to a stack that starts
/// within its capacity, it never holds more than its capacity.
pub proof fn lemma_ops_stay_within_capacity<T>(s: Seq<T>, capacity: nat, ops: Seq<Option<T>>)
    requires
        s.len() <= capacity,
    ensures
        after_ops(s, capacity, ops).len() <= capacity,
    decreases ops.len(),
{
    if ops.len() > 0 {
        let next = match ops[0] {
            Some(item) => offered(s, capacity, item),
            None => taken(s),
        };
        lemma_ops_stay_within_capacity(next, capacity, ops.subrange(1, ops.len() as int));
    }
}

/// Relies on `Vec::len`, which neither panics nor opens an invariant. (vstd's
/// specification of it does not say that it opens none, which the return
/// path of a dropped handle needs.)
#[verifier::external_body]
fn slot_count<T>(slots: &Vec<Option<T>>) -> (r: usize)
    ensures
        r == slots@.len(),
    opens_invariants none
    no_unwind
{
    slots.len()
}

/// Relies on `std::mem::swap` through `Vec`'s `IndexMut`, which for an index
/// in bounds neither panics nor opens an invariant. (vstd's specification of
/// `IndexMut` for `Vec` does not say that it opens none.)
#[verifier::external_body]
fn swap_slot<T>(slots: &mut Vec<Option<T>>, i: usize, value: &mut Option<T>)
    requires
        i < old(slots)@.len(),
    ensures
        final(slots)@ == old(slots)@.update(i as int, *old(value)),
        *final(value) == old(slots)@[i as int],
    opens_invariants none
    no_unwind
{
    std::mem::swap(&mut slots[i], value)
}

/// Relies on `Vec::new`, which allocates nothing and so cannot fail.
#[verifier::external_body]
fn no_slots<T>() -> (r: Vec<Option<T>>)
    ensures
        r@ == Seq::<Option<T>>::empty(),
    opens_invariants none
    no_unwind
{
    Vec::new()
}

/// A bounded stack of idle instances. It is built with a fixed number of
/// slots; the first `len` of them are filled and the others are empty.
pub struct FreeStack<T> {
    slots: Vec<Option<T>>,
    len: usize,
}

impl<T> FreeStack<T> {
    #[verifier::type_invariant]
    spec fn well_formed(self) -> bool {
        &&& self.len <= self.slots@.len()
        &&& forall|i: int| 0 <= i < self.slots@.len() ==> (#[trigger] self.slots@[i] is Some <==> i < self.len)
    }

    /// The idle instances, bottom first.
    pub closed spec fn view(self) -> Seq<T> {
        Seq::new(self.len as nat, |i: int| self.slots@[i]->Some_0)
    }

    /// How many idle instances the stack can hold.
    pub closed spec fn spec_capacity(self) -> nat {
        self.slots@.len()
    }

    /// An empty stack with room for `capacity` instances.
    pub fn new(capacity: usize) -> (r: Self)
        ensures
            r@ == Seq::<T>::empty(),
            r.spec_capacity() == capacity,
    {
        let mut slots: Vec<Option<T>> = Vec::with_capacity(capacity);
        let mut i: usize = 0;
        while i < capacity
            invariant
                i <= capacity,
                slots@.len() == i,
                forall|j: int| 0 <= j < i ==> #[trigger] slots@[j] is None,
            decreases capacity - i,
        {
            slots.push(None);
            i = i + 1;
        }
        FreeStack { slots, len: 0 }
    }

    /// An empty stack with no room at all; it allocates nothing.
    pub fn empty() -> (r: Self)
        ensures
            r@ == Seq::<T>::empty(),
            r.spec_capacity() == 0,
        opens_invariants none
        no_unwind
    {
        FreeStack { slots: no_slots(), len: 0 }
    }

    /// The number of idle instances held.
    pub fn len(&self) -> (r: usize)
        ensures
            r == self@.len(),
            self@.len() <= self.spec_capacity(),
        opens_invariants none
        no_unwind
    {
        proof {
            use_type_invariant(self);
        }
        self.len
    }

    /// How many idle instances the stack can hold.
    pub fn capacity(&self) -> (r: usize)
        ensures
            r == self.spec_capacity(),
    {
        self.slots.len()
    }

    /// Takes the most recently offered instance out, if there is one.
    pub fn pop(&mut self) -> (r: Option<T>)
        ensures
            final(self)@ == taken(old(self)@),
            old(self)@.len() == 0 ==> r is None,
            old(self)@.len() > 0 ==> r == Some(old(self)@.last()),
            final(self).spec_capacity() == old(self).spec_capacity(),
            final(self)@.len() <= final(self).spec_capacity(),
        opens_invariants none
        no_unwind
    {
        proof {
            use_type_invariant(&*self);
        }
        if self.len == 0 {
            return None;
        }
        let mut whole = FreeStack::empty();
        std::mem::swap(self, &mut whole);
        let FreeStack { mut slots, len } = whole;
        let top = len - 1;
        let mut out: Option<T> = None;
        swap_slot(&mut slots, top, &mut out);
        *self = FreeStack { slots, len: top };
        assert(self@ =~= old(self)@.drop_last());
        out
    }

    /// Offers an instance to the stack. It is kept if there is room, and
    /// dropped otherwise; the result says whether it was kept.
    pub fn offer(&mut self, item: T) -> (kept: bool)
        ensures
            kept == (old(self)@.len() < old(self).spec_capacity()),
            final(self)@ == offered(old(self)@, old(self).spec_capacity(), item),
            final(self).spec_capacity() == old(self).spec_capacity(),
            final(self)@.len() <= final(self).spec_capacity(),
        opens_invariants none
        no_unwind
    {
        proof {
            use_type_invariant(&*self);
        }
        if self.len < slot_count(&self.slots) {
            let mut whole = FreeStack::empty();
            std::mem::swap(self, &mut whole);
            let FreeStack { mut slots, len } = whole;
            let mut slot: Option<T> = Some(item);
            swap_slot(&mut slots, len, &mut slot);
            *self = FreeStack { slots, len: len + 1 };
            assert(self@ =~= old(self)@.push(item));
            true
        } else {
            false
        }
    }
}

} // verus!
