//! The guard that tells the handle issued last from every earlier one.
//!
//! A cursor owns one guard. Each handle carries the stamp that the guard gave
//! out when the handle was issued. The guard admits a stamp only while it is
//! the newest one and has not been invalidated, so a handle that was kept
//! past the next advance of its cursor is recognised and refused.
use vstd::prelude::*;

verus! {

/// The mark a handle carries: the count of handles issued up to and including
/// its own.
pub struct Stamp {
    serial: u64,
}

impl View for Stamp {
    type V = nat;

    closed spec fn view(&self) -> nat {
        self.serial as nat
    }
}

/// Counts the stamps given out and remembers whether the newest one is still
/// good.
pub struct StalenessGuard {
    issued: u64,
    active: bool,
}

impl StalenessGuard {
    /// How many stamps have been given out so far.
    pub closed spec fn issued(&self) -> nat {
        self.issued as nat
    }

    /// Whether the newest stamp is still good.
    pub closed spec fn active(&self) -> bool {
        self.active
    }

    /// Whether a handle carrying `stamp` may still be used.
    pub open spec fn admits(&self, stamp: Stamp) -> bool {
        self.active() && stamp@ == self.issued()
    }

    /// A guard that has given out nothing and admits nothing.
    pub fn new() -> (guard: Self)
        ensures
            guard.issued() == 0,
            !guard.active(),
    {
        StalenessGuard { issued: 0, active: false }
    }

    /// Marks the newest stamp as stale. Afterwards no stamp is admitted until
    /// the next one is issued.
    pub fn invalidate_previous(&mut self)
        ensures
            final(self).issued() == old(self).issued(),
            !final(self).active(),
    {
        self.active = false;
    }

    /// Gives out a fresh stamp, the only one admitted from now on.
    pub fn issue(&mut self) -> (stamp: Stamp)
        requires
            old(self).issued() < u64::MAX,
        ensures
            final(self).issued() == old(self).issued() + 1,
            final(self).active(),
            stamp@ == final(self).issued(),
    {
        self.issued = self.issued + 1;
        self.active = true;
        Stamp { serial: self.issued }
    }

    /// Tells whether `stamp` is still admitted.
    pub fn check(&self, stamp: &Stamp) -> (fresh: bool)
        ensures
            fresh == self.admits(*stamp),
    {
        self.active && stamp.serial == self.issued
    }
}

} // verus!
