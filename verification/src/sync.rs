//! A shared cell: one value reachable from several execution contexts
//! behind a reader/writer lock. The current-state snapshot slot, the
//! storage handles and the liveness flag are all cells of this kind.
//!
//! A reader takes a copy of the whole value and a writer replaces the
//! whole value, so a reader always observes a value some writer stored in
//! full, never a partially updated one. Because other contexts may write
//! between any two operations, nothing relates what `snapshot` returns to
//! what this context last stored; callers are verified for every value
//! that can come back.

use vstd::prelude::*;
use std::sync::Arc;
use std::sync::RwLock;

verus! {

#[verifier::external_type_specification]
#[verifier::external_body]
#[verifier::reject_recursive_types(T)]
pub struct ExRwLock<T: ?Sized>(RwLock<T>);

/// Relies on std::sync::RwLock::new: wraps the value in a fresh lock.
#[verifier::external_body]
fn rwlock_new<T>(value: T) -> RwLock<T> {
    RwLock::new(value)
}

/// A value shared across execution contexts; clones of the handle refer
/// to the same cell.
#[derive(Clone, Debug)]
#[verifier::reject_recursive_types(T)]
pub struct Shared<T> {
    cell: Arc<RwLock<T>>,
}

impl<T: Clone> Shared<T> {
    pub fn new(value: T) -> Shared<T> {
        Shared { cell: Arc::new(rwlock_new(value)) }
    }

    /// Relies on std::sync::RwLock::read: hands back a copy of the value
    /// the cell holds at some instant. A write that poisoned the lock
    /// still left a whole value behind; that value is copied out the same
    /// way.
    #[verifier::external_body]
    pub fn snapshot(&self) -> T {
        match self.cell.read() {
            Ok(guard) => guard.clone(),
            Err(poisoned) => poisoned.into_inner().clone(),
        }
    }

    /// Relies on std::sync::Arc::clone: another handle to the same cell,
    /// indistinguishable from this one.
    #[verifier::external_body]
    pub fn clone_handle(&self) -> (r: Shared<T>)
        ensures
            r == *self,
    {
        Shared { cell: Arc::clone(&self.cell) }
    }

    /// Relies on std::sync::RwLock::write: replaces the held value in
    /// full.
    #[verifier::external_body]
    pub fn replace(&self, value: T) {
        match self.cell.write() {
            Ok(mut guard) => *guard = value,
            Err(poisoned) => *poisoned.into_inner() = value,
        }
    }
}

} // verus!
