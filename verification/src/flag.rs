//! A flag that threads raise for each other to see.

use std::sync::atomic::{AtomicBool, Ordering};
use std::sync::Arc;

use vstd::prelude::*;

use crate::call::{call1, call2, call3};

verus! {

/// The role of the one who hands out the ends of a flag.
pub const MAKER: u8 = 0;

/// The role of those who may raise a flag.
pub const RAISER: u8 = 1;

/// The role of the one who looks whether a flag is up.
pub const WATCHER: u8 = 2;

/// One holder's end of a flag. All holders see the flag once one of them has raised it, and nobody
/// lowers it again.
///
/// What a holder can do with the flag depends on its `ROLE`. Nobody but a [`RAISER`] can raise it, and
/// nobody but the [`MAKER`] can make someone else a holder.
pub struct Flag<const ROLE: u8> {
    flag: Arc<AtomicBool>,
    raised: Ghost<bool>,
}

impl<const ROLE: u8> Flag<ROLE> {
    /// The atomic variable that all holders share.
    pub closed spec fn shared(&self) -> Arc<AtomicBool> {
        self.flag
    }

    /// Whether it was this holder who raised the flag.
    pub closed spec fn was_raised_here(&self) -> bool {
        self.raised@
    }

    /// Whether the holder may find the flag up, or may find it down, when it looks.
    pub open spec fn may_be(&self, up: bool) -> bool {
        call_ensures(AtomicBool::load, (&*self.shared(), Ordering::Relaxed), up)
    }

    /// Whether the flag has been raised for all holders to see.
    pub open spec fn has_been_raised(&self) -> bool {
        call_ensures(AtomicBool::store, (&*self.shared(), true, Ordering::Relaxed), ())
    }
}

impl Flag<MAKER> {
    /// A new flag, which is down.
    pub(crate) fn new() -> (flag: Self)
        ensures
            call_ensures(AtomicBool::new, (false,), *flag.shared()),
            !flag.was_raised_here(),
    {
        Flag { flag: Arc::new(call1(AtomicBool::new, false)), raised: Ghost(false) }
    }

    /// The end of the same flag for one who may raise it.
    pub(crate) fn share(&self) -> (flag: Flag<RAISER>)
        ensures
            flag.shared() == self.shared(),
            !flag.was_raised_here(),
    {
        Flag { flag: self.flag.clone(), raised: Ghost(false) }
    }

    /// The end of the same flag for the one who looks at it. There are no further ends after that.
    pub(crate) fn watch(self) -> (flag: Flag<WATCHER>)
        ensures
            flag.shared() == self.shared(),
            !flag.was_raised_here(),
    {
        Flag { flag: self.flag, raised: Ghost(false) }
    }
}

impl Flag<WATCHER> {
    /// Looks whether the flag is up.
    pub(crate) fn is_up(&self) -> (up: bool)
        ensures
            self.may_be(up),
    {
        call2(AtomicBool::load, &*self.flag, Ordering::Relaxed)
    }
}

impl Flag<RAISER> {
    /// Raises the flag.
    pub(crate) fn raise(&mut self)
        ensures
            final(self).shared() == old(self).shared(),
            final(self).was_raised_here(),
            final(self).has_been_raised(),
    {
        call3(AtomicBool::store, &*self.flag, true, Ordering::Relaxed);
        self.raised = Ghost(true);
    }
}

} // verus!
