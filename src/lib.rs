//! Keystroke notes: a recording state machine driven by classified key presses,
//! and a lock-guarded cell that shares its state between an event feed and readers.

mod classifier;
mod keycode;
mod laws;
mod notes;
mod shared;
mod text;

pub use classifier::{classify, event_of, glyph_of, key_char, key_to_char, ClassifiedEvent, Direction};
pub use keycode::KeyCode;
pub use laws::{
    lemma_cancel_idempotent, lemma_cancel_never_commits, lemma_delete_on_empty, lemma_notes_kept,
    lemma_recording_parity, lemma_run_keeps_wf, lemma_unmapped_key,
};
pub use notes::{
    edit, notes_view, run, step, toggles_since_cancel, NotesModel, NotesSnapshot, NotesState,
};
pub use shared::{SharedNotes, WellFormed};
pub use text::{blank, is_blank, is_white_space};
