use crate::keycode::KeyCode;
use crate::notes::{NotesSnapshot, NotesState};
use vstd::prelude::*;
use vstd::rwlock::{RwLock, RwLockPredicate};

verus! {

/// What every state held in the cell satisfies.
pub struct WellFormed;

impl RwLockPredicate<NotesState> for WellFormed {
    open spec fn inv(self, v: NotesState) -> bool {
        v@.wf()
    }
}

/// The recorder's state behind one lock, shared between the key feed and the
/// readers. Each operation runs whole under the lock, so none sees another
/// half done.
pub struct SharedNotes {
    lock: RwLock<NotesState, WellFormed>,
}

impl SharedNotes {
    /// A cell that holds a fresh recorder.
    pub fn new() -> (r: SharedNotes) {
        SharedNotes { lock: RwLock::new(NotesState::new(), Ghost(WellFormed)) }
    }

    /// Applies one key press under the lock.
    pub fn mutate(&self, key: KeyCode) {
        let (mut state, handle) = self.lock.acquire_write();
        state.handle_key(key);
        handle.release_write(state);
    }

    /// A copy of the state taken under exclusive access. The buffer is empty unless
    /// the copy shows recording.
    pub fn read(&self) -> (r: NotesSnapshot)
        ensures
            r@.wf(),
    {
        let (state, handle) = self.lock.acquire_write();
        let r = state.snapshot();
        handle.release_write(state);
        r
    }

    /// Empties the notes under the lock, leaving the flag and the buffer.
    pub fn clear_notes(&self) {
        let (mut state, handle) = self.lock.acquire_write();
        state.clear_notes();
        handle.release_write(state);
    }
}

impl Default for SharedNotes {
    fn default() -> (r: SharedNotes) {
        SharedNotes::new()
    }
}

} // verus!
