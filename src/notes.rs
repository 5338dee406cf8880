use crate::classifier::{classify, event_of, glyph_of, key_char, ClassifiedEvent};
use crate::keycode::KeyCode;
use crate::text::{blank, is_blank, pop_char, push_char};
use vstd::prelude::*;

verus! {

/// The recorder's state as mathematical values.
pub struct NotesModel {
    pub recording: bool,
    pub current_note: Seq<char>,
    pub notes: Seq<Seq<char>>,
}

impl NotesModel {
    /// The state at start-up: not recording, nothing typed, no notes.
    pub open spec fn initial() -> NotesModel {
        NotesModel { recording: false, current_note: Seq::empty(), notes: Seq::empty() }
    }

    /// The buffer holds text only while recording.
    pub open spec fn wf(self) -> bool {
        !self.recording ==> self.current_note.len() == 0
    }
}

/// How an editing event changes the buffer while recording.
pub open spec fn edit(buf: Seq<char>, e: ClassifiedEvent) -> Seq<char> {
    match e {
        ClassifiedEvent::Newline => buf.push('\n'),
        ClassifiedEvent::Space => buf.push(' '),
        ClassifiedEvent::DeleteLast => if buf.len() == 0 {
            buf
        } else {
            buf.drop_last()
        },
        ClassifiedEvent::Arrow(d) => buf.push(glyph_of(d)),
        ClassifiedEvent::Char(c) => buf.push(c),
        _ => buf,
    }
}

/// One transition of the recorder.
pub open spec fn step(m: NotesModel, e: ClassifiedEvent) -> NotesModel {
    match e {
        ClassifiedEvent::ToggleRecording => if m.recording {
            NotesModel {
                recording: false,
                current_note: Seq::empty(),
                notes: if blank(m.current_note) {
                    m.notes
                } else {
                    m.notes.push(m.current_note)
                },
            }
        } else {
            NotesModel { recording: true, current_note: m.current_note, notes: m.notes }
        },
        ClassifiedEvent::Cancel => NotesModel {
            recording: false,
            current_note: Seq::empty(),
            notes: m.notes,
        },
        _ => if m.recording {
            NotesModel { recording: true, current_note: edit(m.current_note, e), notes: m.notes }
        } else {
            m
        },
    }
}

/// The state reached from `m` by applying `es` in order.
pub open spec fn run(m: NotesModel, es: Seq<ClassifiedEvent>) -> NotesModel
    decreases es.len(),
{
    if es.len() == 0 {
        m
    } else {
        step(run(m, es.drop_last()), es.last())
    }
}

/// The number of toggle events after the last cancel in `es` (all of them
/// when there is no cancel).
pub open spec fn toggles_since_cancel(es: Seq<ClassifiedEvent>) -> nat
    decreases es.len(),
{
    if es.len() == 0 {
        0
    } else {
        match es.last() {
            ClassifiedEvent::Cancel => 0,
            ClassifiedEvent::ToggleRecording => toggles_since_cancel(es.drop_last()) + 1,
            _ => toggles_since_cancel(es.drop_last()),
        }
    }
}

/// The notes as sequences of characters.
pub open spec fn notes_view(v: Vec<String>) -> Seq<Seq<char>> {
    v@.map_values(|s: String| s@)
}

/// The recorder: whether it is recording, the note being typed, and the
/// committed notes, oldest first.
#[derive(Debug)]
pub struct NotesState {
    pub recording: bool,
    pub current_note: String,
    pub notes: Vec<String>,
}

/// A copy of the recorder's three fields, taken at one instant.
#[derive(Debug)]
pub struct NotesSnapshot {
    pub recording: bool,
    pub current_note: String,
    pub notes: Vec<String>,
}

impl View for NotesState {
    type V = NotesModel;

    open spec fn view(&self) -> NotesModel {
        NotesModel {
            recording: self.recording,
            current_note: self.current_note@,
            notes: notes_view(self.notes),
        }
    }
}

impl View for NotesSnapshot {
    type V = NotesModel;

    open spec fn view(&self) -> NotesModel {
        NotesModel {
            recording: self.recording,
            current_note: self.current_note@,
            notes: notes_view(self.notes),
        }
    }
}

fn copy_notes(v: &Vec<String>) -> (r: Vec<String>)
    ensures
        notes_view(r) == notes_view(*v),
{
    let mut r: Vec<String> = Vec::new();
    let mut i: usize = 0;
    while i < v.len()
        invariant
            i <= v.len(),
            r@.len() == i,
            forall|k: int| 0 <= k < i ==> (#[trigger] r@[k])@ == v@[k]@,
        decreases v.len() - i,
    {
        let s = v[i].clone();
        r.push(s);
        i = i + 1;
    }
    assert(notes_view(r) =~= notes_view(*v));
    r
}

impl NotesState {
    /// A recorder that is not recording and holds no text.
    pub fn new() -> (r: NotesState)
        ensures
            r@ == NotesModel::initial(),
    {
        let r = NotesState { recording: false, current_note: String::new(), notes: Vec::new() };
        assert(r@.notes =~= Seq::<Seq<char>>::empty());
        r
    }

    /// Applies one classified event.
    pub fn apply(&mut self, event: ClassifiedEvent)
        ensures
            final(self)@ == step(old(self)@, event),
            old(self)@.wf() ==> final(self)@.wf(),
    {
        match event {
            ClassifiedEvent::ToggleRecording => {
                self.recording = !self.recording;
                if !self.recording {
                    if !is_blank(self.current_note.as_str()) {
                        let note = self.current_note.clone();
                        self.notes.push(note);
                        assert(notes_view(self.notes) =~= notes_view(old(self).notes).push(
                            old(self).current_note@,
                        ));
                    }
                    self.current_note = String::new();
                }
            },
            ClassifiedEvent::Cancel => {
                self.recording = false;
                self.current_note = String::new();
            },
            _ => {
                if self.recording {
                    match event {
                        ClassifiedEvent::Newline => push_char(&mut self.current_note, '\n'),
                        ClassifiedEvent::Space => push_char(&mut self.current_note, ' '),
                        ClassifiedEvent::DeleteLast => {
                            pop_char(&mut self.current_note);
                        },
                        ClassifiedEvent::Arrow(d) => push_char(&mut self.current_note, d.glyph()),
                        ClassifiedEvent::Char(c) => push_char(&mut self.current_note, c),
                        _ => {},
                    }
                }
            },
        }
    }

    /// Classifies a key press and applies it.
    pub fn handle_key(&mut self, key: KeyCode)
        ensures
            final(self)@ == step(old(self)@, event_of(key)),
            old(self)@.wf() ==> final(self)@.wf(),
    {
        let event = classify(key);
        self.apply(event);
    }

    /// Empties the notes, leaving the recording flag and the buffer as they are.
    pub fn clear_notes(&mut self)
        ensures
            final(self)@ == (NotesModel {
                recording: old(self)@.recording,
                current_note: old(self)@.current_note,
                notes: Seq::empty(),
            }),
    {
        self.notes = Vec::new();
        assert(notes_view(self.notes) =~= Seq::<Seq<char>>::empty());
    }

    /// A copy of the three fields, independent of later changes.
    pub fn snapshot(&self) -> (r: NotesSnapshot)
        ensures
            r@ == self@,
    {
        NotesSnapshot {
            recording: self.recording,
            current_note: self.current_note.clone(),
            notes: copy_notes(&self.notes),
        }
    }
}

impl Default for NotesState {
    fn default() -> (r: NotesState)
        ensures
            r@ == NotesModel::initial(),
    {
        NotesState::new()
    }
}

} // verus!
