//! The process-wide slot naming the ephemeral workspace directory, and what an
//! interrupt does with it.
//!
//! The slot is shared by the main flow, which sets it once the directory is
//! created, and by the interrupt handler, which reads it from another thread.
//! Every access goes through one lock, held only for the copy in or out.
use vstd::prelude::*;
use vstd::rwlock::{RwLock, RwLockPredicate};

verus! {

/// A value that the slot can hold: nothing, or a non-empty path.
pub open spec fn slot_ok(slot: Option<String>) -> bool {
    slot matches Some(p) ==> p@.len() > 0
}

/// The slot value that naming `path` gives: an empty path names no
/// workspace.
pub open spec fn slot_of(path: Seq<char>) -> Option<Seq<char>> {
    if path.len() == 0 {
        None
    } else {
        Some(path)
    }
}

/// The view of a slot value: the path it holds, if any.
pub open spec fn slot_view(slot: Option<String>) -> Option<Seq<char>> {
    match slot {
        Some(p) => Some(p@),
        None => None,
    }
}

/// The lock's invariant: every value behind it is a well-formed slot.
pub struct SlotInvariant;

impl RwLockPredicate<Option<String>> for SlotInvariant {
    open spec fn inv(self, v: Option<String>) -> bool {
        slot_ok(v)
    }
}

/// What the interrupt handler does before the process exits.
#[derive(Debug, PartialEq, Eq)]
pub struct Cleanup {
    /// The directory to remove recursively, if any. Failure to remove it is
    /// ignored: termination goes ahead regardless.
    pub remove: Option<String>,
    /// The status the process exits with.
    pub exit_code: i32,
}

/// The cleanup for a slot holding `slot`: remove the workspace if there is
/// one, and exit with status 0 in every case.
pub fn cleanup_plan(slot: Option<String>) -> (r: Cleanup)
    ensures
        r.exit_code == 0,
        slot_view(r.remove) == slot_view(slot),
        slot is None ==> r.remove is None,
{
    Cleanup { remove: slot, exit_code: 0 }
}

/// The slot value for `path`.
pub fn slot_for(path: String) -> (r: Option<String>)
    ensures
        slot_ok(r),
        slot_view(r) == slot_of(path@),
{
    if path.as_str().is_empty() {
        None
    } else {
        Some(path)
    }
}

/// Copies a slot value.
fn copy_slot(slot: &Option<String>) -> (r: Option<String>)
    ensures
        r == *slot,
{
    match slot {
        Some(p) => Some(p.clone()),
        None => None,
    }
}

/// The lock-protected slot naming the workspace directory.
pub struct WorkspaceRegistry {
    slot: RwLock<Option<String>, SlotInvariant>,
}

impl WorkspaceRegistry {
    /// A registry whose slot is unset.
    pub fn new() -> (r: Self) {
        WorkspaceRegistry { slot: RwLock::new(None, Ghost(SlotInvariant)) }
    }

    /// Stores `path` as the workspace, replacing what was there. An empty path
    /// unsets the slot.
    pub fn set(&self, path: String) {
        let new_slot = slot_for(path);
        let (_previous, handle) = self.slot.acquire_write();
        handle.release_write(new_slot);
    }

    /// Unsets the slot: from now on there is no workspace to remove.
    pub fn clear(&self) {
        let (_previous, handle) = self.slot.acquire_write();
        handle.release_write(None);
    }

    /// What the slot holds now. Whatever other threads do meanwhile, the
    /// value read is one that a writer stored whole: no workspace, or a
    /// complete non-empty path.
    pub fn get(&self) -> (r: Option<String>)
        ensures
            slot_ok(r),
    {
        let handle = self.slot.acquire_read();
        let r = copy_slot(handle.borrow());
        handle.release_read();
        r
    }

    /// The cleanup that an interrupt performs now: remove the workspace that
    /// the slot names, if any, then exit with status 0.
    pub fn cleanup(&self) -> (r: Cleanup)
        ensures
            r.exit_code == 0,
            slot_ok(r.remove),
    {
        cleanup_plan(self.get())
    }
}

} // verus!
