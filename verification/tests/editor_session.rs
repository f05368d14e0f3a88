use stickymd::instruction::AppIntent;
use stickymd::interaction::session::{EditorSession, ImeCompositionState, ImeSignal};
use stickymd::model::{EditKind, Generation, Selection};
use stickymd::shell::controls::ControlState;

fn edit_selection(intent: &AppIntent) -> Selection {
    match intent {
        AppIntent::Edit { selection, .. } => *selection,
        other => panic!("expected an edit, got {other:?}"),
    }
}

fn normalized(selection: Selection) -> std::ops::Range<usize> {
    selection.start()..selection.end()
}

#[test]
fn preedit_updates_only_session_and_commit_emits_one_intent() {
    let generation = Generation::initial();
    let mut session = EditorSession {
        selection: Selection::new(0, 3),
        ..EditorSession::default()
    };
    assert_eq!(session.handle_ime(ImeSignal::Enabled, generation, 0), None);
    assert_eq!(
        session.handle_ime(
            ImeSignal::Preedit {
                text: "nihao".to_owned(),
                cursor: Some(5..5),
            },
            generation,
            1,
        ),
        None
    );
    let intent = session
        .handle_ime(ImeSignal::Commit("你好".to_owned()), generation, 2)
        .unwrap();
    assert!(matches!(
        intent,
        AppIntent::Edit {
            selection,
            kind: EditKind::ImeCommit,
            ..
        } if selection == Selection::new(0, 3)
    ));
    assert!(!session.is_composing());
}

#[test]
fn keyboard_text_after_commit_is_not_guessed_to_be_a_duplicate() {
    let generation = Generation::initial();
    let mut session = EditorSession::default();
    session.handle_ime(ImeSignal::Enabled, generation, 0);
    session.handle_ime(
        ImeSignal::Preedit {
            text: "nihao".to_owned(),
            cursor: None,
        },
        generation,
        1,
    );
    assert!(session
        .handle_keyboard_text("nihao", generation, 2)
        .is_none());
    assert!(session
        .handle_ime(ImeSignal::Commit("你好".to_owned()), generation, 3)
        .is_some());
    assert!(session
        .handle_keyboard_text("你好", generation, 4)
        .is_some());
}

#[test]
fn empty_preedit_cancels_without_intent() {
    let generation = Generation::initial();
    let mut session = EditorSession::default();
    session.handle_ime(ImeSignal::Enabled, generation, 0);
    session.handle_ime(
        ImeSignal::Preedit {
            text: "x".to_owned(),
            cursor: None,
        },
        generation,
        1,
    );
    assert_eq!(
        session.handle_ime(
            ImeSignal::Preedit {
                text: String::new(),
                cursor: None,
            },
            generation,
            2,
        ),
        None
    );
    assert_eq!(session.ime, ImeCompositionState::Enabled);
}

#[test]
fn backspace_and_delete_remove_complete_graphemes() {
    for grapheme in ["a", "中", "é", "e\u{301}", "🙂", "👨‍👩‍👧‍👦", "🇨🇳"] {
        let backspace = EditorSession {
            selection: Selection::caret(grapheme.len()),
            ..EditorSession::default()
        }
        .backspace(grapheme, Generation::initial(), 0)
        .unwrap();
        assert_eq!(normalized(edit_selection(&backspace)), 0..grapheme.len());

        let delete = EditorSession::default()
            .delete_forward(grapheme, Generation::initial(), 0)
            .unwrap();
        assert_eq!(normalized(edit_selection(&delete)), 0..grapheme.len());
    }
}

#[test]
fn movement_preserves_or_extends_selection_direction() {
    let text = "a中🙂";
    let mut session = EditorSession {
        selection: Selection::caret(text.len()),
        ..EditorSession::default()
    };
    session.move_horizontal(text, -1, true);
    assert_eq!(session.selection, Selection::new(text.len(), 4));
    session.move_horizontal(text, -1, true);
    assert_eq!(session.selection, Selection::new(text.len(), 1));
    session.move_horizontal(text, -1, false);
    assert_eq!(session.selection, Selection::caret(1));
}

#[test]
fn preedit_cursor_off_a_char_boundary_is_dropped() {
    let generation = Generation::initial();
    let mut session = EditorSession::default();
    session.handle_ime(
        ImeSignal::Preedit {
            text: "中".to_owned(),
            cursor: Some(1..3),
        },
        generation,
        0,
    );
    match &session.ime {
        ImeCompositionState::Preediting { cursor, .. } => assert_eq!(cursor, &None),
        other => panic!("expected a composition, got {other:?}"),
    }
    session.handle_ime(
        ImeSignal::Preedit {
            text: "中".to_owned(),
            cursor: Some(0..3),
        },
        generation,
        1,
    );
    let visual = session.preedit_visual().unwrap();
    assert_eq!(visual.cursor, Some(0..3));
    assert_eq!(visual.text, "中");
}

#[test]
fn composition_blocks_deletion_and_movement_until_cancelled() {
    let generation = Generation::initial();
    let text = "ab";
    let mut session = EditorSession {
        selection: Selection::caret(1),
        ..EditorSession::default()
    };
    session.handle_ime(
        ImeSignal::Preedit {
            text: "x".to_owned(),
            cursor: None,
        },
        generation,
        0,
    );
    assert!(session.backspace(text, generation, 1).is_none());
    assert!(session.delete_forward(text, generation, 1).is_none());
    session.move_horizontal(text, 1, false);
    assert_eq!(session.selection, Selection::caret(1));
    session.cancel_preedit();
    assert_eq!(session.ime, ImeCompositionState::Enabled);
    session.move_horizontal(text, 1, false);
    assert_eq!(session.selection, Selection::caret(2));
}

#[test]
fn backspace_at_start_and_delete_at_end_do_nothing() {
    let generation = Generation::initial();
    let text = "ab";
    assert!(EditorSession::default()
        .backspace(text, generation, 0)
        .is_none());
    let at_end = EditorSession {
        selection: Selection::caret(2),
        ..EditorSession::default()
    };
    assert!(at_end.delete_forward(text, generation, 0).is_none());
    let ranged = EditorSession {
        selection: Selection::new(2, 0),
        ..EditorSession::default()
    };
    let intent = ranged.backspace(text, generation, 7).unwrap();
    assert_eq!(
        intent,
        AppIntent::Edit {
            expected_generation: generation,
            selection: Selection::new(2, 0),
            inserted: String::new(),
            kind: EditKind::SelectionReplace,
            timestamp_ms: 7,
        }
    );
}

#[test]
fn line_and_document_moves_extend_from_the_anchor() {
    let text = "one\ntwo\nthree";
    let mut session = EditorSession {
        selection: Selection::caret(5),
        ..EditorSession::default()
    };
    session.move_line_boundary(text, true, true);
    assert_eq!(session.selection, Selection::new(5, 7));
    session.move_line_boundary(text, false, false);
    assert_eq!(session.selection, Selection::caret(4));
    session.move_document_boundary(text.len(), true, true);
    assert_eq!(session.selection, Selection::new(4, text.len()));
    session.preferred_x = Some(7);
    session.move_to(0, false);
    assert_eq!(session.selection, Selection::caret(0));
    assert_eq!(session.preferred_x, None);
}

#[test]
fn phase8_opacity_slider_and_input_clamp_only_on_commit() {
    let mut state = ControlState::new(96);
    state.replace_input("7".into());
    assert_eq!(state.opacity_input, "7");
    assert_eq!(state.opacity_preview, 96);
    assert_eq!(state.commit_input(), Some(40));
    state.replace_input("x".into());
    assert_eq!(state.opacity_input, "40");
}

#[test]
fn opacity_input_accepts_three_digits_and_parses_like_u16() {
    let mut state = ControlState::new(10);
    assert_eq!(state.opacity_preview, 40);
    assert_eq!(state.opacity_input, "40");
    state.replace_input("1000".into());
    assert_eq!(state.opacity_input, "40");
    state.replace_input("250".into());
    assert_eq!(state.commit_input(), Some(100));
    assert_eq!(state.opacity_input, "100");
    state.opacity_input = "+75".into();
    assert_eq!(state.commit_input(), Some(75));
    state.opacity_input = String::new();
    assert_eq!(state.commit_input(), None);
    assert_eq!(state.opacity_preview, 75);
    state.opacity_input = "65536".into();
    assert_eq!(state.commit_input(), None);
    assert_eq!(state.preview(0), 40);
}
