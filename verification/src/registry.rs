//! Bookkeeping for the values with a destructor that are placed in an
//! arena: how many were registered, and when that many is suspicious.
use vstd::prelude::*;

verus! {

/// The number of registrations from which a warning is due.
pub const THRESHOLD: usize = 16;

/// Counts registrations of values with a destructor; when `check` is set,
/// too many of them call for a warning.
#[derive(Debug, Clone, Copy, PartialEq, Eq, Structural)]
pub struct Registry {
    pub check: bool,
    pub counter: usize,
}

impl Registry {
    /// A registry with no registration yet.
    pub fn new(check: bool) -> (r: Self)
        ensures
            r.check == check,
            r.counter == 0,
    {
        Registry { check, counter: 0 }
    }

    /// Counts one more registration when checking is on, and says whether
    /// the count has reached [`THRESHOLD`], in which case a warning is due.
    pub fn _check_threshold(&mut self) -> (warn: bool)
        requires
            old(self).check ==> old(self).counter < usize::MAX,
        ensures
            final(self).check == old(self).check,
            old(self).check ==> final(self).counter == old(self).counter + 1,
            old(self).check ==> warn == (final(self).counter >= THRESHOLD),
            !old(self).check ==> *final(self) == *old(self) && !warn,
    {
        if self.check {
            self.counter = self.counter + 1;
            self.counter >= THRESHOLD
        } else {
            false
        }
    }
}

} // verus!
