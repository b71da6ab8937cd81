//! The registry of secondary windows: a mapping from window identity to the
//! host's handle token. Kept as an extension point for multi-window support;
//! its only invariant is that keys are unique, which the map view carries by
//! construction. The main window is owned by the loop and never stored here.

use std::collections::HashMap;

use vstd::prelude::*;

verus! {

broadcast use vstd::std_specs::hash::group_hash_axioms;

/// Secondary windows, keyed by their window identity. Values are opaque
/// handle tokens the host assigns; the loop never reads into them.
pub struct WindowRegistry {
    table: HashMap<u64, u64>,
}

impl View for WindowRegistry {
    type V = Map<u64, u64>;

    closed spec fn view(&self) -> Map<u64, u64> {
        self.table@
    }
}

impl WindowRegistry {
    /// An empty registry; the application starts with no secondary windows.
    pub fn new() -> (r: Self)
        ensures
            r@ == Map::<u64, u64>::empty(),
    {
        WindowRegistry { table: HashMap::new() }
    }

    /// How many secondary windows are registered.
    pub fn len(&self) -> (n: usize)
        ensures
            n == self@.len(),
    {
        self.table.len()
    }

    /// Record a window under its identity; an existing entry for the same
    /// identity is replaced, so keys stay unique.
    pub fn register(&mut self, id: u64, handle: u64)
        ensures
            final(self)@ == old(self)@.insert(id, handle),
    {
        self.table.insert(id, handle);
    }

    /// Forget the window of this identity, if one is registered.
    pub fn unregister(&mut self, id: u64)
        ensures
            final(self)@ == old(self)@.remove(id),
    {
        self.table.remove(&id);
    }

    /// Is a window of this identity registered?
    pub fn contains(&self, id: u64) -> (present: bool)
        ensures
            present == self@.contains_key(id),
    {
        self.table.contains_key(&id)
    }

    /// The handle token registered under this identity, if any.
    pub fn lookup(&self, id: u64) -> (handle: Option<u64>)
        ensures
            handle == if self@.contains_key(id) {
                Some(self@[id])
            } else {
                None::<u64>
            },
    {
        match self.table.get(&id) {
            Some(h) => Some(*h),
            None => None,
        }
    }
}

} // verus!
