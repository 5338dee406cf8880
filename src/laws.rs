use crate::classifier::{event_of, key_char, ClassifiedEvent};
use crate::keycode::KeyCode;
use crate::notes::{run, step, toggles_since_cancel, NotesModel};
use vstd::prelude::*;

verus! {

/// Starting from the initial state, the recorder is recording exactly when an
/// odd number of toggles has come since the last cancel: each toggle flips the
/// flag and each cancel forces it off.
pub proof fn lemma_recording_parity(es: Seq<ClassifiedEvent>)
    ensures
        run(NotesModel::initial(), es).recording == (toggles_since_cancel(es) % 2 == 1),
    decreases es.len(),
{
    if es.len() > 0 {
        lemma_recording_parity(es.drop_last());
    }
}

/// Every state reached from the initial one holds no text unless it is recording.
pub proof fn lemma_run_keeps_wf(es: Seq<ClassifiedEvent>)
    ensures
        run(NotesModel::initial(), es).wf(),
    decreases es.len(),
{
    if es.len() > 0 {
        lemma_run_keeps_wf(es.drop_last());
    }
}

/// Committed notes are never changed: whatever events follow, the notes held
/// before them stay, in order, at the front of the list.
pub proof fn lemma_notes_kept(m: NotesModel, es: Seq<ClassifiedEvent>)
    ensures
        run(m, es).notes.len() >= m.notes.len(),
        run(m, es).notes.take(m.notes.len() as int) == m.notes,
    decreases es.len(),
{
    if es.len() > 0 {
        let p = run(m, es.drop_last());
        lemma_notes_kept(m, es.drop_last());
        let q = step(p, es.last());
        assert(q.notes.take(m.notes.len() as int) =~= m.notes) by {
            assert(p.notes.take(m.notes.len() as int) == m.notes);
        }
    } else {
        assert(m.notes.take(m.notes.len() as int) =~= m.notes);
    }
}

/// A cancel never adds a note.
pub proof fn lemma_cancel_never_commits(m: NotesModel)
    ensures
        step(m, ClassifiedEvent::Cancel).notes == m.notes,
        !step(m, ClassifiedEvent::Cancel).recording,
        step(m, ClassifiedEvent::Cancel).current_note.len() == 0,
{
}

/// Two cancels in a row leave the same state as one.
pub proof fn lemma_cancel_idempotent(m: NotesModel)
    ensures
        step(step(m, ClassifiedEvent::Cancel), ClassifiedEvent::Cancel) == step(
            m,
            ClassifiedEvent::Cancel,
        ),
{
}

/// Deleting from an empty buffer changes nothing.
pub proof fn lemma_delete_on_empty(m: NotesModel)
    requires
        m.current_note.len() == 0,
    ensures
        step(m, ClassifiedEvent::DeleteLast) == m,
{
}

/// A key outside the control keys and the printable ones is classified as
/// ignored, and applying it changes nothing, the buffer's length included.
pub proof fn lemma_unmapped_key(m: NotesModel, k: KeyCode)
    requires
        key_char(k) is None,
        k != KeyCode::F9,
        k != KeyCode::Escape,
        k != KeyCode::Return,
        k != KeyCode::Space,
        k != KeyCode::Backspace,
        k != KeyCode::UpArrow,
        k != KeyCode::DownArrow,
        k != KeyCode::LeftArrow,
        k != KeyCode::RightArrow,
    ensures
        event_of(k) == ClassifiedEvent::Ignored,
        step(m, event_of(k)) == m,
        step(m, event_of(k)).current_note.len() == m.current_note.len(),
{
}

} // verus!
