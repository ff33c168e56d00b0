//! The shared session-handle ledger: who still owns the engine session, and
//! when its one-time teardown runs.
//!
//! An engine session (a read or a write state machine) is shared between its
//! root owner (a reader or writer) and every entry view derived from it. The
//! engine object must be closed and then freed exactly once, by whichever
//! owner lets go last. [`SessionHandle`] is the verified ledger of that
//! discipline: the embedder keeps one ledger per engine session, records
//! every new owner with [`SessionHandle::share`], records every dropped owner
//! with [`SessionHandle::release`], and performs the engine calls that
//! `release` hands back — nothing else may close or free the session.

use vstd::prelude::*;

use crate::entry::ArchiveEntryIOType;

verus! {

/// The engine teardown that the last release orders: close the session, then
/// free it, with the call pair picked by the session's mode.
#[derive(Debug, Clone, Copy, PartialEq, Eq, Structural)]
pub enum Teardown {
    /// Run the read-session pair: read-close, then read-free.
    ReadSession,
    /// Run the write-session pair: write-close, then write-free.
    WriteSession,
}

/// The teardown pair that a session of the given mode requires.
pub open spec fn teardown_for(mode: ArchiveEntryIOType) -> Teardown {
    match mode {
        ArchiveEntryIOType::ReaderEntry => Teardown::ReadSession,
        ArchiveEntryIOType::WriterEntry => Teardown::WriteSession,
    }
}

/// Ledger for one shared engine session: its mode, its live owner count, and
/// how many close and free orders have been issued for it.
#[derive(Debug, Clone, Copy, PartialEq, Eq, Structural)]
pub struct SessionHandle {
    /// Whether the session is a read session or a write session; fixed at
    /// creation, picks the teardown call pair.
    pub mode: ArchiveEntryIOType,
    /// Number of live owners: the root reader or writer plus every entry view
    /// still sharing the session.
    pub owners: u64,
    /// Number of close orders issued so far; never exceeds one.
    pub closes: u64,
    /// Number of free orders issued so far; always equals `closes`.
    pub frees: u64,
}

impl SessionHandle {
    /// The ledger is consistent: teardown was ordered at most once, close and
    /// free always travel together, and never while an owner is alive.
    pub open spec fn wf(self) -> bool {
        &&& self.closes <= 1
        &&& self.frees == self.closes
        &&& self.owners > 0 ==> self.closes == 0
    }

    /// The session may still be used: someone owns it and it has not been
    /// torn down.
    pub open spec fn live(self) -> bool {
        self.owners > 0 && self.closes == 0
    }

    /// The ledger after one release, together with the teardown it orders:
    /// the last owner's release orders the mode's close/free pair, any
    /// earlier release orders nothing.
    pub open spec fn released(self) -> (SessionHandle, Option<Teardown>) {
        if self.owners == 1 {
            (
                SessionHandle {
                    owners: 0,
                    closes: (self.closes + 1) as u64,
                    frees: (self.frees + 1) as u64,
                    ..self
                },
                Some(teardown_for(self.mode)),
            )
        } else {
            (SessionHandle { owners: (self.owners - 1) as u64, ..self }, None)
        }
    }

    /// Opens the ledger for a fresh engine session with its single root owner.
    pub fn new(mode: ArchiveEntryIOType) -> (s: SessionHandle)
        ensures
            s == (SessionHandle { mode, owners: 1, closes: 0, frees: 0 }),
            s.wf(),
            s.live(),
    {
        SessionHandle { mode, owners: 1, closes: 0, frees: 0 }
    }

    /// Records one more owner of the live session: a cloned handle or a new
    /// entry view.
    pub fn share(&mut self)
        requires
            old(self).wf(),
            old(self).live(),
            old(self).owners < u64::MAX,
        ensures
            *final(self) == (SessionHandle { owners: (old(self).owners + 1) as u64, ..*old(self) }),
            final(self).wf(),
            final(self).live(),
    {
        self.owners = self.owners + 1;
    }

    /// Records that one owner let go. Exactly when the last owner releases,
    /// the mode-appropriate close/free pair is ordered — once, and never
    /// while another owner is alive.
    pub fn release(&mut self) -> (order: Option<Teardown>)
        requires
            old(self).wf(),
            old(self).live(),
        ensures
            (*final(self), order) == old(self).released(),
            final(self).wf(),
            final(self).mode == old(self).mode,
            final(self).owners == old(self).owners - 1,
            old(self).owners == 1 <==> order == Some(teardown_for(old(self).mode)),
            old(self).owners > 1 <==> order == None::<Teardown>,
            order is Some ==> final(self).closes == 1 && final(self).frees == 1,
            order is None ==> final(self).closes == 0 && final(self).frees == 0,
    {
        if self.owners == 1 {
            self.owners = 0;
            self.closes = self.closes + 1;
            self.frees = self.frees + 1;
            Some(match self.mode {
                ArchiveEntryIOType::ReaderEntry => Teardown::ReadSession,
                ArchiveEntryIOType::WriterEntry => Teardown::WriteSession,
            })
        } else {
            self.owners = self.owners - 1;
            None
        }
    }

    /// How many owners are still alive.
    pub fn owner_count(&self) -> (n: u64)
        ensures
            n == self.owners,
    {
        self.owners
    }
}

/// The ledger after `k` releases, ignoring the orders they hand back.
pub open spec fn released_times(s: SessionHandle, k: nat) -> SessionHandle
    decreases k,
{
    if k == 0 {
        s
    } else {
        released_times(s, (k - 1) as nat).released().0
    }
}

/// Teardown runs exactly once, and only at the very last release.
///
/// From a live session with `n` owners: as long as any owner remains — after
/// fewer than `n` releases — no close or free has been ordered; once every
/// owner has released, exactly one close and one free have been ordered. So
/// dropping an entry view while its reader (or any sibling view) is alive
/// never touches the engine session, and exhausting the owners tears it down
/// once, never zero times and never twice.
pub proof fn lemma_teardown_exactly_once(s: SessionHandle, k: nat)
    requires
        s.wf(),
        s.live(),
        k <= s.owners,
    ensures
        k < s.owners ==> released_times(s, k).closes == 0 && released_times(s, k).frees == 0,
        k == s.owners ==> released_times(s, k).closes == 1 && released_times(s, k).frees == 1,
        released_times(s, k).owners == s.owners - k,
        released_times(s, k).wf(),
    decreases k,
{
    if k > 0 {
        lemma_teardown_exactly_once(s, (k - 1) as nat);
    }
}

} // verus!
