//! The lock protocol of the main interpreter and its sub-interpreters.
//!
//! Each interpreter has one lock; code runs against an interpreter only while the
//! calling thread holds its lock. The main interpreter boots holding its lock and gives
//! it up so that sub-interpreters can be made; a sub-interpreter is made while the main
//! lock is held for a moment, and comes back with its own lock released. The types here
//! record those states for the host, which does the work; their contracts turn a lock
//! taken twice, or an interpreter ended while in the wrong state, into a caller that does
//! not verify.

use vstd::prelude::*;

verus! {

/// Where the main interpreter stands.
#[derive(Debug, Clone, Copy, PartialEq, Eq)]
pub enum MainState {
    /// The lock is held by the calling thread
    Active,
    /// The lock is released, free for workers to create sub-interpreters
    Suspended,
}

/// The main interpreter's lock state, and how many sub-interpreters are alive.
#[derive(Debug)]
pub struct MainLifecycle {
    pub state: MainState,
    pub live_subs: usize,
}

/// The lock state of one sub-interpreter.
#[derive(Debug)]
pub struct SubLifecycle {
    pub held: bool,
}

/// A sub-interpreter that has been ended.
#[derive(Debug)]
pub struct EndedSub {
    _ended: (),
}

impl MainLifecycle {
    /// The runtime has booted, and released its lock so that workers can take over.
    pub fn booted() -> (r: Self)
        ensures
            r.state == MainState::Suspended,
            r.live_subs == 0,
    {
        MainLifecycle { state: MainState::Suspended, live_subs: 0 }
    }

    /// Record that the calling thread took the main lock.
    pub fn acquire(&mut self)
        requires
            old(self).state == MainState::Suspended,
        ensures
            final(self).state == MainState::Active,
            final(self).live_subs == old(self).live_subs,
    {
        self.state = MainState::Active;
    }

    /// Record that the calling thread gave the main lock up.
    pub fn release(&mut self)
        requires
            old(self).state == MainState::Active,
        ensures
            final(self).state == MainState::Suspended,
            final(self).live_subs == old(self).live_subs,
    {
        self.state = MainState::Suspended;
    }

    /// Record that a sub-interpreter was made. The host takes the main lock for the
    /// creation and releases it again, and releases the new interpreter's own lock, so the
    /// new interpreter starts with its lock free.
    pub fn create_sub(&mut self) -> (r: SubLifecycle)
        requires
            old(self).state == MainState::Suspended,
            old(self).live_subs < usize::MAX,
        ensures
            final(self).state == MainState::Suspended,
            final(self).live_subs == old(self).live_subs + 1,
            !r.held,
    {
        self.live_subs = self.live_subs + 1;
        SubLifecycle { held: false }
    }

    /// Record that a sub-interpreter was ended. The host must hold its lock when it ends
    /// it, so the caller takes that lock again first if it gave it up.
    pub fn end_sub(&mut self, sub: SubLifecycle) -> (r: EndedSub)
        requires
            old(self).live_subs > 0,
            sub.held,
        ensures
            final(self).state == old(self).state,
            final(self).live_subs == old(self).live_subs - 1,
    {
        let SubLifecycle { held: _ } = sub;
        self.live_subs = self.live_subs - 1;
        EndedSub { _ended: () }
    }

    /// Whether the runtime can be finalized: its lock is free to take and no
    /// sub-interpreter is alive.
    pub fn can_finalize(&self) -> (r: bool)
        ensures
            r == (self.state == MainState::Suspended && self.live_subs == 0),
    {
        matches!(self.state, MainState::Suspended) && self.live_subs == 0
    }
}

impl SubLifecycle {
    /// Record that the calling thread took this interpreter's lock.
    pub fn acquire(&mut self)
        requires
            !old(self).held,
        ensures
            final(self).held,
    {
        self.held = true;
    }

    /// Record that the calling thread gave this interpreter's lock up.
    pub fn release(&mut self)
        requires
            old(self).held,
        ensures
            !final(self).held,
    {
        self.held = false;
    }
}

} // verus!
