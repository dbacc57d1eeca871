//! One store behind a lock, for all connections of a service.
//!
//! [`SharedStore::apply`] is the only function that takes the lock. It holds
//! it for one lookup or insertion and gives it up before it returns. Nothing
//! in this library waits on the network, so the lock is never held across a
//! read or a write of a connection, and a task that is dropped while it waits
//! has either served its request or not begun to.
//!
//! What the store holds can change between any two calls, at the hands of
//! other connections, so no contract here speaks of the table that a handle
//! leads to now: a response is said to be right for the table that the store
//! held when the request was served. What does not change is the table that
//! the store was created with, and [`SharedStore::new`] says that it is empty.
//! The exact contracts are those of [`Store`](crate::store::Store), which the
//! lock gives access to.

use crate::protocol::{reply_to, Request, Response};
use crate::store::{Store, Table};
use std::sync::{Arc, Mutex, MutexGuard};
use vstd::prelude::*;

verus! {

/// `std::sync::Mutex`, opaque to the verifier.
#[verifier::external_type_specification]
#[verifier::external_body]
#[verifier::reject_recursive_types(T)]
pub struct ExMutex<T: ?Sized>(Mutex<T>);

/// `std::sync::MutexGuard`, opaque to the verifier.
#[verifier::external_type_specification]
#[verifier::external_body]
#[verifier::reject_recursive_types(T)]
pub struct ExMutexGuard<'a, T: ?Sized + 'a>(MutexGuard<'a, T>);

/// The table of the store that a lock was created around. It is fixed when
/// the lock is made and says nothing of what the store holds later.
pub uninterp spec fn made_with(lock: Mutex<Store>) -> Table;

/// Calls `Mutex::lock` and waits for the lock. Nothing is claimed of the
/// store behind the guard: other holders may have changed it. A poisoned lock
/// is taken all the same, through `PoisonError::into_inner`, so the call does
/// not panic. It would not return on a thread that holds the lock already:
/// its one caller drops the guard before it returns, and no guard leaves this
/// file.
#[verifier::external_body]
fn acquire<'a>(lock: &'a Arc<Mutex<Store>>) -> MutexGuard<'a, Store> {
    match lock.lock() {
        Ok(guard) => guard,
        Err(poisoned) => poisoned.into_inner(),
    }
}

/// Calls `MutexGuard::deref_mut`: the store that the guard gives access to.
#[verifier::external_body]
fn held<'a, 'b>(guard: &'a mut MutexGuard<'b, Store>) -> &'a mut Store {
    &mut **guard
}

/// Calls `Arc::clone`: a second handle to the same lock.
#[verifier::external_body]
fn another(handle: &Arc<Mutex<Store>>) -> (other: Arc<Mutex<Store>>)
    ensures
        other == *handle,
{
    Arc::clone(handle)
}

/// A handle to the one store of a service.
pub struct SharedStore {
    inner: Arc<Mutex<Store>>,
}

impl SharedStore {
    /// A new store, created empty behind a lock, and the first handle to it.
    pub fn new() -> (shared: SharedStore)
        ensures
            shared.started_with() == Table::empty(),
    {
        SharedStore { inner: Arc::new(guarded(Store::new())) }
    }

    /// The table that the store held when it was created. Every handle to one
    /// store gives the same.
    pub closed spec fn started_with(&self) -> Table {
        made_with(*self.inner)
    }

    /// Another handle to the same store.
    pub fn share(&self) -> (other: SharedStore)
        ensures
            other == *self,
    {
        SharedStore { inner: another(&self.inner) }
    }

    /// Serves one request on the shared store, with the lock held: the
    /// response is what [`reply_to`] gives for the table that the store held
    /// at that moment.
    pub fn apply(&self, request: Request) -> (response: Response)
        ensures
            exists|table: Table| response@ == reply_to(table, request@),
    {
        let mut guard = acquire(&self.inner);
        let store = held(&mut guard);
        store.apply(request)
    }
}

/// Calls `Mutex::new`. Trusted: the new lock protects the very store that it
/// was given, so the table of that store is what [`made_with`] names for the
/// lock.
#[verifier::external_body]
fn guarded(store: Store) -> (lock: Mutex<Store>)
    ensures
        made_with(lock) == store@,
{
    Mutex::new(store)
}

} // verus!
