use sha2::{Digest, Sha256};

use stickymd::config::runtime::ViewMode;
use stickymd::export_plan::{ExportImageKind, ExportPlan};
use stickymd::flow::completion::{
    completion_step, quit_may_continue, CompletionDiagnostic, CompletionEvent, NoteSaveOutcome,
    ShellAction, ShellFlowState, TemporaryCleanup,
};
use stickymd::model::{DiskFingerprint, ExternalFileState, Generation};
use stickymd::shell::input::{ClipboardAlias, SearchOpenAction, ShellKey, ZoomCommand};
use stickymd::shell::keys::{
    key_text_kind, route_key, EditingAction, KeyContext, KeyModifiers, KeyRoute, KeyTextKind,
    ResolutionAction, SearchKeyAction, ShortcutAction,
};
use stickymd::shell::monitor::hex_identity;
use stickymd::text::path_key::path_key;

fn plain() -> KeyModifiers {
    KeyModifiers {
        shift: false,
        control: false,
        alt: false,
        super_key: false,
    }
}

fn ctrl() -> KeyModifiers {
    KeyModifiers {
        control: true,
        ..plain()
    }
}

fn editing() -> KeyContext {
    KeyContext {
        opacity_input_focused: false,
        recovery_pending: false,
        recovery_operation_pending: false,
        conflict_open: false,
        resolving_keep_local: false,
        window_accepts_mutation: true,
        asset_reconcile_pending: false,
        search_open: false,
        search_composing: false,
        search_replacement_allowed: false,
        preview_focused: false,
        composing: false,
        text: KeyTextKind::Absent,
    }
}

#[test]
fn escape_cancels_a_composition_or_else_goes_to_the_window() {
    assert_eq!(
        route_key(Some(ShellKey::Escape), plain(), editing()),
        KeyRoute::Edit(EditingAction::WindowEscape)
    );
    let composing = KeyContext {
        composing: true,
        ..editing()
    };
    assert_eq!(
        route_key(Some(ShellKey::Escape), plain(), composing),
        KeyRoute::Edit(EditingAction::CancelPreedit)
    );
    assert_eq!(
        route_key(Some(ShellKey::Enter), plain(), composing),
        KeyRoute::Edit(EditingAction::Swallowed)
    );
}

#[test]
fn enter_and_tab_insert_newline_and_indent() {
    assert_eq!(
        route_key(Some(ShellKey::Enter), plain(), editing()),
        KeyRoute::Edit(EditingAction::InsertNewline)
    );
    assert_eq!(
        route_key(Some(ShellKey::NumpadEnter), plain(), editing()),
        KeyRoute::Edit(EditingAction::InsertNewline)
    );
    assert_eq!(
        route_key(Some(ShellKey::Tab), plain(), editing()),
        KeyRoute::Edit(EditingAction::InsertIndent)
    );
}

#[test]
fn ctrl_f_and_ctrl_h_open_search_and_search_owns_the_keyboard() {
    assert_eq!(
        route_key(Some(ShellKey::KeyF), ctrl(), editing()),
        KeyRoute::OpenSearch(SearchOpenAction::Open { replace: false })
    );
    assert_eq!(
        route_key(Some(ShellKey::KeyH), ctrl(), editing()),
        KeyRoute::OpenSearch(SearchOpenAction::Open { replace: true })
    );
    let searching = KeyContext {
        search_open: true,
        ..editing()
    };
    assert_eq!(
        route_key(Some(ShellKey::KeyF), ctrl(), searching),
        KeyRoute::OpenSearch(SearchOpenAction::Close)
    );
    assert_eq!(
        route_key(Some(ShellKey::Escape), plain(), searching),
        KeyRoute::Search(SearchKeyAction::Close)
    );
    assert_eq!(
        route_key(Some(ShellKey::Enter), ctrl(), searching),
        KeyRoute::Search(SearchKeyAction::Ignore)
    );
    let replacing = KeyContext {
        search_replacement_allowed: true,
        ..searching
    };
    let ctrl_shift = KeyModifiers {
        shift: true,
        ..ctrl()
    };
    assert_eq!(
        route_key(Some(ShellKey::Enter), ctrl_shift, replacing),
        KeyRoute::Search(SearchKeyAction::ReplaceAll)
    );
    let typed = KeyContext {
        text: KeyTextKind::Printable,
        ..searching
    };
    assert_eq!(
        route_key(Some(ShellKey::Other), plain(), typed),
        KeyRoute::Search(SearchKeyAction::InsertText)
    );
}

#[test]
fn f6_and_f7_resolve_before_the_input_gate() {
    let conflict = KeyContext {
        conflict_open: true,
        ..editing()
    };
    assert_eq!(
        route_key(Some(ShellKey::F6), plain(), conflict),
        KeyRoute::Resolve(ResolutionAction::LoadExternal)
    );
    assert_eq!(
        route_key(Some(ShellKey::F7), plain(), conflict),
        KeyRoute::Resolve(ResolutionAction::KeepLocal)
    );
    let recovery = KeyContext {
        recovery_pending: true,
        ..editing()
    };
    assert_eq!(
        route_key(Some(ShellKey::F6), plain(), recovery),
        KeyRoute::Resolve(ResolutionAction::RestoreTemporary)
    );
    assert_eq!(
        route_key(Some(ShellKey::Backspace), plain(), recovery),
        KeyRoute::Blocked
    );
    assert_eq!(route_key(Some(ShellKey::F6), plain(), editing()), KeyRoute::Ignore);
}

#[test]
fn ctrl_shortcuts_zoom_view_modes_and_clipboard_aliases() {
    assert_eq!(
        route_key(Some(ShellKey::Equal), ctrl(), editing()),
        KeyRoute::Zoom(ZoomCommand::Step(10))
    );
    assert_eq!(
        route_key(Some(ShellKey::Digit2), ctrl(), editing()),
        KeyRoute::SetViewMode(ViewMode::Split)
    );
    assert_eq!(
        route_key(Some(ShellKey::Insert), ctrl(), editing()),
        KeyRoute::Clipboard(ClipboardAlias::Copy)
    );
    assert_eq!(
        route_key(
            Some(ShellKey::KeyS),
            KeyModifiers {
                shift: true,
                ..ctrl()
            },
            editing()
        ),
        KeyRoute::Shortcut(ShortcutAction::Export)
    );
    assert_eq!(
        route_key(Some(ShellKey::KeyZ), ctrl(), editing()),
        KeyRoute::Shortcut(ShortcutAction::Undo)
    );
}

#[test]
fn typed_text_needs_no_ctrl_and_no_control_characters() {
    let printable = key_text_kind(&Some(vec!['a', 'é']));
    assert_eq!(printable, KeyTextKind::Printable);
    assert_eq!(key_text_kind(&Some(vec!['\u{8}'])), KeyTextKind::Control);
    assert_eq!(key_text_kind(&Some(Vec::new())), KeyTextKind::Empty);
    assert_eq!(key_text_kind(&None), KeyTextKind::Absent);
    let typed = KeyContext {
        text: printable,
        ..editing()
    };
    assert_eq!(route_key(Some(ShellKey::Other), plain(), typed), KeyRoute::TypeText);
    assert_eq!(route_key(Some(ShellKey::Other), ctrl(), typed), KeyRoute::Ignore);
    let preview = KeyContext {
        preview_focused: true,
        ..typed
    };
    assert!(matches!(
        route_key(Some(ShellKey::Other), plain(), preview),
        KeyRoute::Preview(_)
    ));
}

#[test]
fn opacity_field_takes_keys_first() {
    let field = KeyContext {
        opacity_input_focused: true,
        text: KeyTextKind::Printable,
        ..editing()
    };
    assert_eq!(route_key(Some(ShellKey::Enter), plain(), field), KeyRoute::OpacityCommit);
    assert_eq!(route_key(Some(ShellKey::Escape), plain(), field), KeyRoute::OpacityCancel);
    assert_eq!(
        route_key(Some(ShellKey::Other), plain(), field),
        KeyRoute::OpacityReplaceInput
    );
}

fn digest_of(bytes: &[u8]) -> [u8; 32] {
    Sha256::digest(bytes).into()
}

#[test]
fn export_reuses_sources_and_contents_and_names_new_copies_by_digest() {
    let mut plan = ExportPlan::new();
    let first = "C:/notes/images/a.png".to_string();
    let step = plan.plan_copied_image(&first, b"alpha", "png").unwrap();
    let hex = hex_identity(digest_of(b"alpha"));
    assert_eq!(step.kind, ExportImageKind::NewAsset);
    assert_eq!(step.name, format!("stickymd-{}.png", &hex[..20]));
    assert_eq!(plan.known_source(&first), Some(step.name.clone()));

    let again = plan.plan_export_image(&first, [9; 32], "gif").unwrap();
    assert_eq!(again.kind, ExportImageKind::ReuseSource);
    assert_eq!(again.name, step.name);

    let copy = "C:/elsewhere/a-copy.png".to_string();
    let same = plan.plan_copied_image(&copy, b"alpha", "png").unwrap();
    assert_eq!(same.kind, ExportImageKind::ReuseContent);
    assert_eq!(same.name, step.name);

    let other = "C:/notes/images/b.jpg".to_string();
    let fresh = plan.plan_copied_image(&other, b"beta", "jpg").unwrap();
    assert_eq!(fresh.kind, ExportImageKind::NewAsset);
    assert_eq!(
        fresh.name,
        format!("stickymd-{}.jpg", &hex_identity(digest_of(b"beta"))[..20])
    );
    assert_eq!(plan.copied_assets(), 2);
    assert_eq!(plan.known_source(&"C:/none.png".to_string()), None);
}

fn settled() -> ShellFlowState {
    ShellFlowState {
        quit_pending: true,
        resolving_keep_local: true,
        recovery_pending: false,
    }
}

#[test]
fn mismatched_save_receipt_counts_as_failure() {
    let (state, actions) = completion_step(
        settled(),
        CompletionEvent::Note {
            submitted: Generation(4),
            outcome: NoteSaveOutcome::Saved {
                generation: Generation(3),
                fingerprint: DiskFingerprint([1; 32]),
            },
        },
    );
    assert!(!state.resolving_keep_local);
    assert!(state.quit_pending);
    assert_eq!(
        actions,
        vec![
            ShellAction::AcknowledgeNoteJob,
            ShellAction::NoteSaveFailed,
            ShellAction::FailRecoveryOperation,
            ShellAction::Report(CompletionDiagnostic::ReceiptGenerationMismatch {
                submitted: Generation(4),
                result: Generation(3),
            }),
            ShellAction::Redraw,
        ]
    );
    let (_, ok) = completion_step(
        settled(),
        CompletionEvent::Note {
            submitted: Generation(4),
            outcome: NoteSaveOutcome::Saved {
                generation: Generation(4),
                fingerprint: DiskFingerprint([1; 32]),
            },
        },
    );
    assert_eq!(
        ok[1],
        ShellAction::NoteSaved {
            generation: Generation(4),
            fingerprint: DiskFingerprint([1; 32]),
        }
    );
}

#[test]
fn save_conflict_cancels_quit_and_goes_to_recovery_or_reconciliation() {
    let event = CompletionEvent::Note {
        submitted: Generation(2),
        outcome: NoteSaveOutcome::Conflict {
            observed: ExternalFileState::Missing,
        },
    };
    let (state, actions) = completion_step(settled(), event.clone());
    assert!(!state.quit_pending);
    assert_eq!(
        actions[2],
        ShellAction::ReconcileExternal(ExternalFileState::Missing)
    );
    let recovering = ShellFlowState {
        recovery_pending: true,
        ..settled()
    };
    let (_, actions) = completion_step(recovering, event);
    assert_eq!(
        actions[2],
        ShellAction::RecoverySaveConflict(ExternalFileState::Missing)
    );
}

#[test]
fn other_completions_report_and_continue() {
    let (_, actions) = completion_step(
        settled(),
        CompletionEvent::ExternalRead {
            observed: ExternalFileState::Missing,
        },
    );
    assert_eq!(actions[1], ShellAction::ContinueQuitIfSettled);
    assert!(quit_may_continue(true, false, false, false));
    assert!(!quit_may_continue(true, false, false, true));
    let (_, actions) = completion_step(
        settled(),
        CompletionEvent::TemporaryRemoved {
            purpose: TemporaryCleanup::RecoveryResolved,
            removed: false,
        },
    );
    assert_eq!(actions[0], ShellAction::FailRecoveryOperation);
    let (_, actions) = completion_step(
        settled(),
        CompletionEvent::CanonicalPreserved { preserved: true },
    );
    assert_eq!(actions, vec![ShellAction::SubmitKeepLocalSave]);
    let (state, actions) = completion_step(settled(), CompletionEvent::ConfigSaved);
    assert_eq!(state, settled());
    assert!(actions.is_empty());
    let (state, _) = completion_step(
        settled(),
        CompletionEvent::Note {
            submitted: Generation(1),
            outcome: NoteSaveOutcome::Failed,
        },
    );
    assert!(!state.quit_pending && !state.resolving_keep_local);
}

#[test]
fn export_treats_spellings_of_one_source_path_as_one_source() {
    let mut plan = ExportPlan::new();
    let first = plan
        .plan_copied_image(&"C:/notes/images/a.png".to_string(), b"alpha", "png")
        .unwrap();
    for spelling in [
        "C:\\notes\\images\\a.png",
        "c:/notes//images/./a.png",
        "C:/notes/images/a.png/",
    ] {
        let step = plan
            .plan_copied_image(&spelling.to_string(), b"changed meanwhile", "png")
            .unwrap();
        assert_eq!(step.kind, ExportImageKind::ReuseSource, "{spelling}");
        assert_eq!(step.name, first.name);
    }
    let other = plan
        .plan_copied_image(&"C:/notes/images/A.png".to_string(), b"alpha", "png")
        .unwrap();
    assert_eq!(other.kind, ExportImageKind::ReuseContent);
    assert_eq!(plan.copied_assets(), 1);
}

#[test]
fn path_keys_follow_windows_component_rules() {
    assert_eq!(path_key("C:/a//b/./c/"), "C:\\a\\b\\c\\");
    assert_eq!(path_key("c:\\a\\b\\c"), path_key("C:/a/b/c"));
    assert_ne!(path_key("./images/a.png"), path_key("images/a.png"));
    assert_eq!(path_key("images/./a.png"), path_key("images/a.png"));
    assert_ne!(path_key("/a"), path_key("a"));
    assert_eq!(path_key("//server/share/x"), "\\\\server\\share\\x\\");
    assert_ne!(path_key("C:a"), path_key("C:/a"));
}
