//! A value behind a lock that several owners share.

use vstd::prelude::*;

use std::sync::{Arc, Mutex};

verus! {

/// A value behind a lock, held through a counted reference.
#[verifier::reject_recursive_types(T)]
pub struct SharedMutRef<T>(Arc<Mutex<T>>);

impl<T> SharedMutRef<T> {
    /// Puts `value` behind a new lock.
    pub fn new(value: T) -> (shared: Self) {
        SharedMutRef(Arc::new(Mutex::new(value)))
    }

    /// The lock that holds the value.
    pub closed spec fn cell(&self) -> Arc<Mutex<T>> {
        self.0
    }

    /// Another reference to the same lock.
    pub fn new_ref(&self) -> (other: Arc<Mutex<T>>)
        ensures
            other == self.cell(),
    {
        Arc::clone(&self.0)
    }
}

impl<T> std::ops::Deref for SharedMutRef<T> {
    type Target = Arc<Mutex<T>>;

    fn deref(&self) -> (cell: &Arc<Mutex<T>>)
        ensures
            *cell == self.cell(),
    {
        &self.0
    }
}

} // verus!
