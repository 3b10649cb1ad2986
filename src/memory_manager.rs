use crate::free_stack::FreeStack;
use std::sync::atomic::{AtomicUsize, Ordering};
use vstd::prelude::*;

verus! {

#[verifier::external_type_specification]
#[verifier::external_body]
#[verifier::reject_recursive_types(R)]
#[verifier::reject_recursive_types(T)]
pub struct ExLockMutex<R, T: ?Sized>(lock_api::Mutex<R, T>);

/// The lock on a manager's stack of idle instances, held until dropped. It
/// is a struct of its own because lock_api's `MutexGuard` cannot be declared
/// here: its type parameter is bound by an outside trait.
#[verifier::external_body]
#[verifier::reject_recursive_types(T)]
struct StackGuard<'a, T> {
    guard: parking_lot::MutexGuard<'a, Option<FreeStack<T>>>,
}

#[verifier::external_type_specification]
#[verifier::external_body]
pub struct ExRawMutex(parking_lot::RawMutex);

/// Relies on parking_lot's `Mutex::new`: wraps the stack in an unlocked mutex.
#[verifier::external_body]
fn new_locked_stack<T>(stack: FreeStack<T>) -> parking_lot::Mutex<Option<FreeStack<T>>> {
    parking_lot::Mutex::new(Some(stack))
}

/// Relies on parking_lot's `Mutex::try_lock`: never waits; `None` when the
/// lock is held elsewhere.
#[verifier::external_body]
fn try_lock_stack<T>(m: &parking_lot::Mutex<Option<FreeStack<T>>>) -> Option<StackGuard<'_, T>>
    opens_invariants none
    no_unwind
{
    m.try_lock().map(|guard| StackGuard { guard })
}

/// Relies on the guard's `DerefMut` and `Option::take`: moves the locked
/// stack out, leaving `None`.
#[verifier::external_body]
fn take_stack<T>(g: &mut StackGuard<'_, T>) -> Option<FreeStack<T>>
    opens_invariants none
    no_unwind
{
    g.guard.take()
}

/// Relies on the guard's `DerefMut`: puts a stack back under the lock.
#[verifier::external_body]
fn restore_stack<T>(g: &mut StackGuard<'_, T>, stack: FreeStack<T>)
    opens_invariants none
    no_unwind
{
    *g.guard = Some(stack);
}

/// Relies on `AtomicUsize::fetch_sub`, which wraps rather than panics and
/// opens no invariant (vstd's own specification of it promises neither).
#[verifier::external_body]
fn decrement(counter: &AtomicUsize)
    opens_invariants none
    no_unwind
{
    counter.fetch_sub(1, Ordering::Relaxed);
}

/// The instance to hand out: the idle one if there was one, else a fresh
/// default instance.
pub fn idle_or_default<T: Default>(idle: Option<T>) -> (r: T)
    ensures
        idle matches Some(v) ==> r == v,
        idle is None ==> call_ensures(T::default, (), r),
{
    match idle {
        Some(v) => v,
        None => T::default(),
    }
}

/// The instance inside a filled option, for writing.
fn held_mut<T>(o: &mut Option<T>) -> (r: &mut T)
    requires
        *old(o) is Some,
    ensures
        *r == (*old(o))->Some_0,
        *final(o) == Some(*final(r)),
    no_unwind
{
    match o {
        Some(v) => v,
        None => unreached(),
    }
}

/// A pool of reusable `T` instances with a live-allocation counter. It is
/// shared by reference between threads; the stack of idle instances is only
/// ever locked with `try_lock`, so no operation waits for another.
#[verifier::reject_recursive_types(T)]
pub struct MemoryManager<T> {
    pool: parking_lot::Mutex<Option<FreeStack<T>>>,
    max_pool_size: usize,
    allocations: AtomicUsize,
}

impl<T> MemoryManager<T> {
    /// How many idle instances the pool keeps at most.
    pub closed spec fn spec_max_pool_size(&self) -> usize {
        self.max_pool_size
    }

    /// Creates a manager whose pool keeps at most `max_pool_size` idle instances.
    pub fn new(max_pool_size: usize) -> (r: Self)
        ensures
            r.spec_max_pool_size() == max_pool_size,
    {
        MemoryManager {
            pool: new_locked_stack(FreeStack::new(max_pool_size)),
            max_pool_size,
            allocations: AtomicUsize::new(0),
        }
    }

    /// The current number of outstanding allocations.
    pub fn get_number_of_allocations(&self) -> usize {
        self.allocations.load(Ordering::Relaxed)
    }

    /// Takes an idle instance from the pool if the lock is free and the pool is
    /// not empty.
    fn take_idle(&self) -> Option<T> {
        match try_lock_stack(&self.pool) {
            Some(mut guard) => match take_stack(&mut guard) {
                Some(mut stack) => {
                    let r = stack.pop();
                    restore_stack(&mut guard, stack);
                    r
                },
                None => None,
            },
            None => None,
        }
    }

    /// Hands out an instance: an idle one from the pool when it can be had
    /// without waiting, else a fresh default one.
    pub fn allocate(&self) -> (r: MemoryBlock<'_, T>)
        where T: Default,
        ensures
            r.manager() == self,
    {
        let value = idle_or_default(self.take_idle());
        self.allocations.fetch_add(1, Ordering::Relaxed);
        MemoryBlock { lease: Lease { value: Some(value), manager: self } }
    }

    /// Builds `size` default instances, outside the pool; counts as one allocation.
    pub fn allocate_array(&self, size: usize) -> (r: Vec<T>)
        where T: Default,
        ensures
            r@.len() == size,
            forall|i: int| 0 <= i < size ==> call_ensures(T::default, (), #[trigger] r@[i]),
    {
        let mut items: Vec<T> = Vec::with_capacity(size);
        let mut i: usize = 0;
        while i < size
            invariant
                i <= size,
                items@.len() == i,
                forall|j: int| 0 <= j < i ==> call_ensures(T::default, (), #[trigger] items@[j]),
            decreases size - i,
        {
            items.push(T::default());
            i = i + 1;
        }
        self.allocations.fetch_add(1, Ordering::Relaxed);
        items
    }

    /// Gives back what a handle held: the instance goes onto the pool if the
    /// lock is free and there is room, else it is dropped, and the counter
    /// goes down by one either way. A handle that holds nothing any more gives
    /// nothing back and leaves the counter alone.
    fn return_to_pool(&self, held: Option<T>)
        opens_invariants none
        no_unwind
    {
        match held {
            Some(item) => {
                match try_lock_stack(&self.pool) {
                    Some(mut guard) => match take_stack(&mut guard) {
                        Some(mut stack) => {
                            if stack.len() < self.max_pool_size {
                                let _kept = stack.offer(item);
                            }
                            restore_stack(&mut guard, stack);
                        },
                        None => {},
                    },
                    None => {},
                }
                decrement(&self.allocations);
            },
            None => {},
        }
    }
}

/// The loan of one instance from a manager. Dropping it gives the instance
/// back; once it has, it holds `None`.
#[verifier::reject_recursive_types(T)]
struct Lease<'a, T> {
    value: Option<T>,
    manager: &'a MemoryManager<T>,
}

impl<'a, T> Drop for Lease<'a, T> {
    fn drop(&mut self)
        opens_invariants none
        no_unwind
    {
        let mut held: Option<T> = None;
        std::mem::swap(&mut self.value, &mut held);
        self.manager.return_to_pool(held)
    }
}

/// Exclusive use of one instance lent out by a `MemoryManager`. It can be
/// moved but not copied; dropping it drops its lease, which gives the
/// instance back exactly once.
#[verifier::reject_recursive_types(T)]
pub struct MemoryBlock<'a, T> {
    lease: Lease<'a, T>,
}

impl<'a, T> MemoryBlock<'a, T> {
    #[verifier::type_invariant]
    spec fn holds_value(self) -> bool {
        self.lease.value is Some
    }

    /// The instance the handle holds.
    pub closed spec fn spec_value(&self) -> T {
        self.lease.value->Some_0
    }

    fn value_mut(&mut self) -> (r: &mut T)
        ensures
            *r == old(self).spec_value(),
            final(self).spec_value() == *final(r),
        no_unwind
    {
        proof {
            use_type_invariant(&*self);
        }
        held_mut(&mut self.lease.value)
    }

    /// The manager the instance came from.
    pub closed spec fn manager(&self) -> &'a MemoryManager<T> {
        self.lease.manager
    }
}

impl<'a, T> std::ops::Deref for MemoryBlock<'a, T> {
    type Target = T;

    fn deref(&self) -> (r: &T)
        ensures
            *r == self.spec_value(),
    {
        proof {
            use_type_invariant(self);
        }
        self.lease.value.as_ref().unwrap()
    }
}

impl<'a, T> std::ops::DerefMut for MemoryBlock<'a, T> {
    fn deref_mut(&mut self) -> (r: &mut T)
        ensures
            *r == old(self).spec_value(),
            final(self).spec_value() == *final(r),
    {
        self.value_mut()
    }
}

} // verus!
