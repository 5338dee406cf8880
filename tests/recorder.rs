use keynotes::{
    classify, is_blank, key_to_char, ClassifiedEvent, Direction, KeyCode, NotesState, SharedNotes,
};

fn type_keys(s: &mut NotesState, keys: &[KeyCode]) {
    for k in keys {
        s.handle_key(*k);
    }
}

fn apply_all(s: &mut NotesState, events: &[ClassifiedEvent]) {
    for e in events {
        s.apply(*e);
    }
}

fn recording_with(buffer_keys: &[KeyCode]) -> NotesState {
    let mut s = NotesState::new();
    s.handle_key(KeyCode::F9);
    type_keys(&mut s, buffer_keys);
    s
}

#[test]
fn classify_control_keys() {
    assert_eq!(classify(KeyCode::F9), ClassifiedEvent::ToggleRecording);
    assert_eq!(classify(KeyCode::Escape), ClassifiedEvent::Cancel);
    assert_eq!(classify(KeyCode::Return), ClassifiedEvent::Newline);
    assert_eq!(classify(KeyCode::Space), ClassifiedEvent::Space);
    assert_eq!(classify(KeyCode::Backspace), ClassifiedEvent::DeleteLast);
    assert_eq!(classify(KeyCode::UpArrow), ClassifiedEvent::Arrow(Direction::Up));
    assert_eq!(classify(KeyCode::DownArrow), ClassifiedEvent::Arrow(Direction::Down));
    assert_eq!(classify(KeyCode::LeftArrow), ClassifiedEvent::Arrow(Direction::Left));
    assert_eq!(classify(KeyCode::RightArrow), ClassifiedEvent::Arrow(Direction::Right));
}

#[test]
fn classify_printable_keys() {
    assert_eq!(classify(KeyCode::KeyA), ClassifiedEvent::Char('a'));
    assert_eq!(classify(KeyCode::KeyZ), ClassifiedEvent::Char('z'));
    assert_eq!(classify(KeyCode::Num0), ClassifiedEvent::Char('0'));
    assert_eq!(classify(KeyCode::Kp7), ClassifiedEvent::Char('7'));
    assert_eq!(classify(KeyCode::BackSlash), ClassifiedEvent::Char('\\'));
    assert_eq!(classify(KeyCode::Quote), ClassifiedEvent::Char('\''));
}

#[test]
fn key_to_char_table() {
    assert_eq!(key_to_char(KeyCode::KeyQ), Some('q'));
    assert_eq!(key_to_char(KeyCode::KeyM), Some('m'));
    assert_eq!(key_to_char(KeyCode::Num9), Some('9'));
    assert_eq!(key_to_char(KeyCode::Kp9), Some('9'));
    assert_eq!(key_to_char(KeyCode::Num5), key_to_char(KeyCode::Kp5));
    assert_eq!(key_to_char(KeyCode::Minus), Some('-'));
    assert_eq!(key_to_char(KeyCode::Equal), Some('='));
    assert_eq!(key_to_char(KeyCode::LeftBracket), Some('['));
    assert_eq!(key_to_char(KeyCode::RightBracket), Some(']'));
    assert_eq!(key_to_char(KeyCode::SemiColon), Some(';'));
    assert_eq!(key_to_char(KeyCode::BackQuote), Some('`'));
    assert_eq!(key_to_char(KeyCode::Comma), Some(','));
    assert_eq!(key_to_char(KeyCode::Dot), Some('.'));
    assert_eq!(key_to_char(KeyCode::Slash), Some('/'));
    assert_eq!(key_to_char(KeyCode::F9), None);
    assert_eq!(key_to_char(KeyCode::Space), None);
    assert_eq!(key_to_char(KeyCode::KpMinus), None);
}

#[test]
fn direction_glyphs() {
    assert_eq!(Direction::Up.glyph(), '\u{2191}');
    assert_eq!(Direction::Down.glyph(), '\u{2193}');
    assert_eq!(Direction::Left.glyph(), '\u{2190}');
    assert_eq!(Direction::Right.glyph(), '\u{2192}');
}

#[test]
fn blank_strings() {
    assert!(is_blank(""));
    assert!(is_blank("   "));
    assert!(is_blank(" \t\n\r"));
    assert!(is_blank("\u{3000}\u{a0}"));
    assert!(!is_blank("  hello  "));
    assert!(!is_blank("x"));
    assert!(!is_blank("\u{2191}"));
}

#[test]
fn new_and_default_are_empty() {
    for s in [NotesState::new(), NotesState::default()] {
        assert!(!s.recording);
        assert_eq!(s.current_note, "");
        assert!(s.notes.is_empty());
    }
}

#[test]
fn recording_follows_toggles_and_cancels() {
    let mut s = NotesState::new();
    let seq = [
        (ClassifiedEvent::ToggleRecording, true),
        (ClassifiedEvent::Char('a'), true),
        (ClassifiedEvent::ToggleRecording, false),
        (ClassifiedEvent::ToggleRecording, true),
        (ClassifiedEvent::Cancel, false),
        (ClassifiedEvent::Cancel, false),
        (ClassifiedEvent::Newline, false),
        (ClassifiedEvent::ToggleRecording, true),
        (ClassifiedEvent::Ignored, true),
    ];
    for (e, expected) in seq {
        s.apply(e);
        assert_eq!(s.recording, expected);
    }
}

#[test]
fn cancel_twice_equals_once() {
    let mut once = recording_with(&[KeyCode::KeyA, KeyCode::KeyB]);
    once.notes.push("kept".to_string());
    let mut twice = recording_with(&[KeyCode::KeyA, KeyCode::KeyB]);
    twice.notes.push("kept".to_string());
    once.apply(ClassifiedEvent::Cancel);
    twice.apply(ClassifiedEvent::Cancel);
    twice.apply(ClassifiedEvent::Cancel);
    assert_eq!(once.recording, twice.recording);
    assert_eq!(once.current_note, twice.current_note);
    assert_eq!(once.notes, twice.notes);
    assert!(!twice.recording);
    assert_eq!(twice.current_note, "");
    assert_eq!(twice.notes, vec!["kept".to_string()]);
}

#[test]
fn delete_on_empty_buffer_is_noop() {
    let mut s = recording_with(&[]);
    s.apply(ClassifiedEvent::DeleteLast);
    assert!(s.recording);
    assert_eq!(s.current_note, "");
    assert!(s.notes.is_empty());
    let mut idle = NotesState::new();
    idle.apply(ClassifiedEvent::DeleteLast);
    assert!(!idle.recording);
    assert_eq!(idle.current_note, "");
}

#[test]
fn delete_removes_last_char() {
    let mut s = recording_with(&[KeyCode::KeyA, KeyCode::UpArrow]);
    assert_eq!(s.current_note, "a\u{2191}");
    s.handle_key(KeyCode::Backspace);
    assert_eq!(s.current_note, "a");
    s.handle_key(KeyCode::Backspace);
    assert_eq!(s.current_note, "");
}

#[test]
fn commit_keeps_untrimmed_buffer() {
    let mut s = recording_with(&[
        KeyCode::Space,
        KeyCode::Space,
        KeyCode::KeyH,
        KeyCode::KeyE,
        KeyCode::KeyL,
        KeyCode::KeyL,
        KeyCode::KeyO,
        KeyCode::Space,
        KeyCode::Space,
    ]);
    assert_eq!(s.current_note, "  hello  ");
    s.apply(ClassifiedEvent::ToggleRecording);
    assert_eq!(s.notes, vec!["  hello  ".to_string()]);
    assert_eq!(s.current_note, "");
    assert!(!s.recording);
}

#[test]
fn whitespace_buffer_is_discarded() {
    let mut s = recording_with(&[KeyCode::Space, KeyCode::Space, KeyCode::Space]);
    assert_eq!(s.current_note, "   ");
    s.apply(ClassifiedEvent::ToggleRecording);
    assert!(s.notes.is_empty());
    assert_eq!(s.current_note, "");
    assert!(!s.recording);
}

#[test]
fn empty_buffer_is_discarded() {
    let mut s = recording_with(&[]);
    s.apply(ClassifiedEvent::ToggleRecording);
    assert!(s.notes.is_empty());
}

#[test]
fn scenario_hi_newline_bang() {
    let mut s = NotesState::new();
    apply_all(
        &mut s,
        &[
            ClassifiedEvent::ToggleRecording,
            ClassifiedEvent::Char('h'),
            ClassifiedEvent::Char('i'),
            ClassifiedEvent::Newline,
            ClassifiedEvent::Char('!'),
            ClassifiedEvent::ToggleRecording,
        ],
    );
    assert!(!s.recording);
    assert_eq!(s.current_note, "");
    assert_eq!(s.notes, vec!["hi\n!".to_string()]);
}

#[test]
fn scenario_cancelled_note_not_committed() {
    let mut s = NotesState::new();
    apply_all(
        &mut s,
        &[
            ClassifiedEvent::ToggleRecording,
            ClassifiedEvent::Char('x'),
            ClassifiedEvent::Cancel,
            ClassifiedEvent::ToggleRecording,
            ClassifiedEvent::Char('y'),
            ClassifiedEvent::ToggleRecording,
        ],
    );
    assert_eq!(s.notes, vec!["y".to_string()]);
    assert!(!s.recording);
    assert_eq!(s.current_note, "");
}

#[test]
fn clear_empties_notes_only() {
    let mut s = NotesState::new();
    type_keys(
        &mut s,
        &[KeyCode::F9, KeyCode::KeyA, KeyCode::F9, KeyCode::F9, KeyCode::KeyB, KeyCode::F9],
    );
    assert_eq!(s.notes, vec!["a".to_string(), "b".to_string()]);
    type_keys(&mut s, &[KeyCode::F9, KeyCode::KeyC]);
    s.clear_notes();
    assert!(s.notes.is_empty());
    assert!(s.recording);
    assert_eq!(s.current_note, "c");
}

#[test]
fn unmapped_keys_are_ignored() {
    for k in [KeyCode::F1, KeyCode::Tab, KeyCode::ShiftLeft, KeyCode::KpPlus, KeyCode::Unknown(77)] {
        assert_eq!(classify(k), ClassifiedEvent::Ignored);
        let mut s = recording_with(&[KeyCode::KeyQ]);
        s.handle_key(k);
        assert_eq!(s.current_note.chars().count(), 1);
        assert_eq!(s.current_note, "q");
        assert!(s.recording);
    }
}

#[test]
fn events_dropped_while_not_recording() {
    let mut s = NotesState::new();
    type_keys(&mut s, &[KeyCode::KeyA, KeyCode::Return, KeyCode::Space, KeyCode::LeftArrow]);
    assert!(!s.recording);
    assert_eq!(s.current_note, "");
    assert!(s.notes.is_empty());
}

#[test]
fn editing_keys_append_their_text() {
    let mut s = recording_with(&[
        KeyCode::KeyA,
        KeyCode::Return,
        KeyCode::Space,
        KeyCode::RightArrow,
        KeyCode::DownArrow,
        KeyCode::LeftArrow,
        KeyCode::Kp1,
        KeyCode::Dot,
    ]);
    assert_eq!(s.current_note, "a\n \u{2192}\u{2193}\u{2190}1.");
    s.handle_key(KeyCode::F9);
    assert_eq!(s.notes, vec!["a\n \u{2192}\u{2193}\u{2190}1.".to_string()]);
}

#[test]
fn snapshot_is_independent_copy() {
    let mut s = recording_with(&[KeyCode::KeyZ]);
    s.notes.push("old".to_string());
    let snap = s.snapshot();
    s.handle_key(KeyCode::KeyY);
    s.clear_notes();
    assert!(snap.recording);
    assert_eq!(snap.current_note, "z");
    assert_eq!(snap.notes, vec!["old".to_string()]);
}

#[test]
fn shared_cell_operations() {
    let cell = SharedNotes::new();
    for k in [KeyCode::F9, KeyCode::KeyO, KeyCode::KeyK, KeyCode::F9, KeyCode::F9, KeyCode::KeyG] {
        cell.mutate(k);
    }
    let snap = cell.read();
    assert!(snap.recording);
    assert_eq!(snap.current_note, "g");
    assert_eq!(snap.notes, vec!["ok".to_string()]);
    cell.clear_notes();
    let after = cell.read();
    assert!(after.notes.is_empty());
    assert!(after.recording);
    assert_eq!(after.current_note, "g");
    cell.mutate(KeyCode::Escape);
    let cancelled = cell.read();
    assert!(!cancelled.recording);
    assert_eq!(cancelled.current_note, "");
    assert!(cancelled.notes.is_empty());
}

fn shareable<T: Send + Sync + 'static>() {}

#[test]
fn shared_cell_is_shareable_across_threads() {
    shareable::<SharedNotes>();
    shareable::<std::sync::Arc<SharedNotes>>();
}
