//! What a program gets from outside of it.

use vstd::prelude::*;

verus! {

/// A list of what was got from outside, one entry for each time, from the first to the
/// last. Only the function that gets a thing adds it: there is no other way to an entry.
#[verifier::reject_recursive_types(T)]
pub struct Log<T> {
    entries: Ghost<Seq<T>>,
}

impl<T> View for Log<T> {
    type V = Seq<T>;

    closed spec fn view(&self) -> Seq<T> {
        self.entries@
    }
}

impl<T> Log<T> {
    /// A list without entries.
    pub fn new() -> (log: Log<T>)
        ensures
            log@ == Seq::<T>::empty(),
    {
        Log { entries: Ghost(Seq::empty()) }
    }
}

} // verus!
