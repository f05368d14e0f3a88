use std::path::{Path, PathBuf};

use stickymd::assets::path::{resolve_local_image, LocalImagePathError};
use stickymd::shell::input::{
    clipboard_alias, mutation_input_allowed, preview_command, search_open_action,
    zoom_key_command, resize_edge, ClipboardAlias, PreviewCommand, SearchOpenAction, ShellKey,
    WindowResizeEdge, ZoomCommand,
};
use stickymd::shell::monitor::{hex_identity, identity_for_native, ActiveDisplay};
use stickymd::shell::tray::tray_icon;
use stickymd::model::Selection;
use stickymd::text::navigation::{
    clamp_selection, logical_line_end, logical_line_start, next_grapheme_boundary, previous_grapheme_boundary,
};
use stickymd::window::geometry::MonitorIdentity;
use stickymd::window::state::{effective_topmost, WindowGuardSnapshot};

/// The native path a destination resolves to, joined to the note directory
/// when it is relative (what the shell does with the library's result).
fn resolved(note: &Path, destination: &str) -> PathBuf {
    let path = PathBuf::from(resolve_local_image(destination).unwrap());
    if path.is_absolute() {
        path
    } else {
        note.join(path)
    }
}

#[test]
fn recovery_pending_rejects_ime_commits_and_preedit() {
    assert!(!mutation_input_allowed(true, false, false, false));
    assert!(!mutation_input_allowed(false, true, false, false));
    assert!(mutation_input_allowed(false, false, false, false));
}

#[test]
fn quit_and_asset_reconcile_freeze_keyboard_and_ime_mutations() {
    assert!(!mutation_input_allowed(false, false, true, false));
    assert!(!mutation_input_allowed(false, false, false, true));
}

#[test]
fn phase10_clipboard_aliases_are_unambiguous() {
    assert_eq!(
        clipboard_alias(Some(ShellKey::Insert), true, false),
        Some(ClipboardAlias::Copy)
    );
    assert_eq!(
        clipboard_alias(Some(ShellKey::Delete), false, true),
        Some(ClipboardAlias::Cut)
    );
    assert_eq!(
        clipboard_alias(Some(ShellKey::Insert), false, true),
        Some(ClipboardAlias::Paste)
    );
    assert_eq!(clipboard_alias(Some(ShellKey::Delete), false, false), None);
}

#[test]
fn phase10_zoom_keys_and_high_resolution_wheel_are_deterministic() {
    for key in [ShellKey::Equal, ShellKey::NumpadAdd] {
        assert_eq!(zoom_key_command(Some(key)), Some(ZoomCommand::Step(10)));
    }
    for key in [ShellKey::Minus, ShellKey::NumpadSubtract] {
        assert_eq!(zoom_key_command(Some(key)), Some(ZoomCommand::Step(-10)));
    }
    for key in [ShellKey::Digit0, ShellKey::Numpad0] {
        assert_eq!(zoom_key_command(Some(key)), Some(ZoomCommand::Reset));
    }
    assert_eq!(zoom_key_command(Some(ShellKey::Other)), None);
    assert_eq!(zoom_key_command(None), None);
}

#[test]
fn ctrl_f_toggles_and_ctrl_h_expands_one_search_session() {
    assert_eq!(
        search_open_action(false, false),
        SearchOpenAction::Open { replace: false }
    );
    assert_eq!(search_open_action(true, false), SearchOpenAction::Close);
    assert_eq!(
        search_open_action(false, true),
        SearchOpenAction::Open { replace: true }
    );
    assert_eq!(
        search_open_action(true, true),
        SearchOpenAction::ExpandReplace
    );
}

#[test]
fn phase8_monitor_identity_fallback_is_case_stable_without_hmonitor_authority() {
    assert_eq!(
        identity_for_native(&[], "\\\\.\\display2"),
        MonitorIdentity::new("gdi:\\\\.\\DISPLAY2")
    );
}

#[test]
fn monitor_identity_prefers_the_stable_identity_of_a_case_insensitive_match() {
    let mut bytes = [0u8; 32];
    bytes[0] = 0xab;
    bytes[31] = 0x0f;
    let active = vec![
        ActiveDisplay {
            gdi_device_name: "\\\\.\\DISPLAY1".to_owned(),
            stable_identity: None,
        },
        ActiveDisplay {
            gdi_device_name: "\\\\.\\DISPLAY2".to_owned(),
            stable_identity: Some(bytes),
        },
    ];
    let expected = format!("ab{}0f", "0".repeat(60));
    assert_eq!(hex_identity(bytes), expected);
    assert_eq!(
        identity_for_native(&active, "\\\\.\\display2"),
        MonitorIdentity::new(&expected)
    );
    assert_eq!(
        identity_for_native(&active, "\\\\.\\Display1"),
        MonitorIdentity::new("gdi:\\\\.\\DISPLAY1")
    );
    assert_eq!(
        identity_for_native(&active, "stra\u{df}e"),
        MonitorIdentity::new("gdi:STRASSE")
    );
}

#[test]
fn phase8_tray_icon_is_fully_owned_rgba() {
    let icon = tray_icon();
    assert_eq!(
        icon.rgba.len(),
        icon.width as usize * icon.height as usize * 4
    );
    assert!(icon.rgba.chunks_exact(4).any(|pixel| pixel[3] == 255));
}

#[test]
fn tray_icon_corners_are_transparent_and_the_frame_is_opaque() {
    let icon = tray_icon();
    let pixel = |x: usize, y: usize| &icon.rgba[(y * 32 + x) * 4..(y * 32 + x) * 4 + 4];
    assert_eq!(pixel(0, 0), &[0, 0, 0, 0]);
    assert_eq!(pixel(31, 31), &[0, 0, 0, 0]);
    assert_eq!(pixel(3, 2), &[120, 96, 38, 255]);
    assert_eq!(pixel(8, 7), &[54, 48, 36, 255]);
    assert_eq!(pixel(15, 7), &[250, 238, 188, 255]);
    assert_eq!(pixel(15, 15), &[54, 48, 36, 255]);
}

#[test]
fn relative_parent_unicode_and_percent_encoded_paths_resolve_from_note() {
    let note = Path::new("C:/Sticky/note");
    assert_eq!(
        resolved(note, "images/%E6%95%B0%E5%AD%A6%20%E5%9B%BE.png"),
        note.join("images/数学 图.png")
    );
    assert_eq!(
        resolved(note, "../shared/a.png"),
        note.join("../shared/a.png")
    );
}

#[test]
fn file_urls_are_strict_but_plain_windows_percent_is_literal() {
    assert_eq!(
        resolve_local_image("file:///C:/My%20Notes/a.png").unwrap(),
        "C:/My Notes/a.png"
    );
    assert_eq!(
        resolve_local_image("file://server/share/a.png").unwrap(),
        r"\\server\share\a.png"
    );
    assert_eq!(
        resolved(Path::new("note"), "100%.png"),
        Path::new("note").join("100%.png")
    );
    assert!(resolve_local_image("file:///C:/bad%2.png").is_err());
}

#[test]
fn phase7_non_uri_unicode_destination_is_resolved_without_panicking() {
    let note_dir = Path::new("note");
    assert_eq!(
        resolved(note_dir, "数学图像.png"),
        note_dir.join("数学图像.png")
    );
}

#[test]
fn file_url_prefix_is_case_insensitive_and_whitespace_is_trimmed() {
    assert_eq!(
        resolve_local_image("  FILE:///D:/a%2Fb.png \n").unwrap(),
        "D:/a/b.png"
    );
    assert_eq!(
        resolve_local_image("File://host/x%20y").unwrap(),
        r"\\host\x y"
    );
}

#[test]
fn file_url_errors_name_the_undecoded_rest() {
    assert_eq!(
        resolve_local_image("file:///C:/bad%2.png"),
        Err(LocalImagePathError::InvalidPercentEncoding(
            "C:/bad%2.png".to_owned()
        ))
    );
    assert_eq!(
        resolve_local_image("file://srv/%FF.png"),
        Err(LocalImagePathError::InvalidUtf8("srv/%FF.png".to_owned()))
    );
    assert_eq!(resolve_local_image("%FF.png").unwrap(), "%FF.png");
}

#[test]
fn effective_topmost_keeps_configured_and_sensor_authorities_separate() {
    assert!(!effective_topmost(false, false));
    assert!(effective_topmost(true, false));
    assert!(effective_topmost(false, true));
    assert!(effective_topmost(true, true));
}

#[test]
fn all_auto_collapse_guards_are_explicit() {
    for blocked in [
        WindowGuardSnapshot {
            window_focused: true,
            ..Default::default()
        },
        WindowGuardSnapshot {
            ime_composing: true,
            ..Default::default()
        },
        WindowGuardSnapshot {
            dragging: true,
            ..Default::default()
        },
        WindowGuardSnapshot {
            popup_open: true,
            ..Default::default()
        },
        WindowGuardSnapshot {
            conflict_or_recovery: true,
            ..Default::default()
        },
    ] {
        assert!(blocked.blocks_auto_collapse());
    }
    assert!(!WindowGuardSnapshot::default().blocks_auto_collapse());
}

#[test]
fn arrows_step_over_complete_graphemes() {
    for grapheme in ["a", "中", "é", "e\u{301}", "🙂", "👨‍👩‍👧‍👦", "🇨🇳"] {
        assert_eq!(next_grapheme_boundary(grapheme, 0), grapheme.len());
        assert_eq!(previous_grapheme_boundary(grapheme, grapheme.len()), 0);
    }
}

#[test]
fn logical_line_bounds_exclude_newline() {
    let text = "first\n第二行\nlast";
    let position = text.find('行').unwrap();
    assert_eq!(
        &text[logical_line_start(text, position)..logical_line_end(text, position)],
        "第二行"
    );
}

#[test]
fn invalid_mid_codepoint_positions_are_clamped_without_panicking() {
    let text = "a中b";
    assert_eq!(previous_grapheme_boundary(text, 2), 0);
    assert_eq!(next_grapheme_boundary(text, 2), 4);
    assert_eq!(logical_line_start(text, 2), 0);
    assert_eq!(logical_line_end(text, 2), text.len());
}

#[test]
fn offsets_past_the_end_clamp_to_the_text() {
    let text = "ab";
    assert_eq!(next_grapheme_boundary(text, 99), 2);
    assert_eq!(previous_grapheme_boundary(text, 99), 1);
    assert_eq!(previous_grapheme_boundary(text, 0), 0);
}

#[test]
fn preview_shortcuts_are_read_only_and_reserve_copy_select_all_and_save() {
    assert_eq!(
        preview_command(Some(ShellKey::KeyA), true, false),
        PreviewCommand::SelectAll
    );
    assert_eq!(
        preview_command(Some(ShellKey::KeyC), true, false),
        PreviewCommand::Copy
    );
    assert_eq!(
        preview_command(Some(ShellKey::KeyS), true, false),
        PreviewCommand::Save
    );
    for blocked in [ShellKey::KeyX, ShellKey::KeyV, ShellKey::Backspace] {
        assert_eq!(
            preview_command(Some(blocked), true, false),
            PreviewCommand::Ignored
        );
    }
    assert_eq!(
        preview_command(Some(ShellKey::Insert), true, false),
        PreviewCommand::Copy
    );
    assert_eq!(
        preview_command(Some(ShellKey::Delete), false, true),
        PreviewCommand::Ignored
    );
    assert_eq!(
        preview_command(Some(ShellKey::Insert), false, true),
        PreviewCommand::Ignored
    );
}

#[test]
fn escape_clears_the_preview_selection_only_without_modifiers() {
    assert_eq!(
        preview_command(Some(ShellKey::Escape), false, false),
        PreviewCommand::ClearSelection
    );
    assert_eq!(
        preview_command(Some(ShellKey::Escape), true, false),
        PreviewCommand::Ignored
    );
    assert_eq!(preview_command(None, true, false), PreviewCommand::Ignored);
}

/// The border bands a point of a `width` × `height` window falls in, at
/// 6 DIP per band (what the shell measures before asking for an edge).
fn resize_direction(width: u32, height: u32, x: f64, y: f64, scale: f64) -> Option<WindowResizeEdge> {
    let border = 6.0 * scale.max(0.5);
    let left = x >= 0.0 && x < border;
    let right = x <= f64::from(width) && x >= f64::from(width) - border;
    let top = y >= 0.0 && y < border;
    let bottom = y <= f64::from(height) && y >= f64::from(height) - border;
    resize_edge(left, right, top, bottom)
}

#[test]
fn phase8_resize_hit_test_prioritizes_all_eight_border_regions() {
    assert_eq!(
        resize_direction(520, 680, 1.0, 1.0, 1.0),
        Some(WindowResizeEdge::NorthWest)
    );
    assert_eq!(
        resize_direction(520, 680, 519.0, 679.0, 1.0),
        Some(WindowResizeEdge::SouthEast)
    );
    assert_eq!(resize_direction(520, 680, 260.0, 340.0, 1.0), None);
}

#[test]
fn corners_win_over_sides_and_left_over_right() {
    assert_eq!(resize_edge(true, true, false, false), Some(WindowResizeEdge::West));
    assert_eq!(resize_edge(false, true, true, true), Some(WindowResizeEdge::NorthEast));
    assert_eq!(resize_edge(false, false, false, true), Some(WindowResizeEdge::South));
    assert_eq!(resize_edge(false, false, false, false), None);
}

#[test]
fn reloaded_selection_is_clamped_to_char_boundaries_of_the_new_text() {
    // "aé" is three bytes; offset 2 falls inside 'é'.
    let clamped = clamp_selection("aé", Selection::new(2, 40));
    assert_eq!(clamped.anchor.byte, 1);
    assert_eq!(clamped.active.byte, 3);
    let kept = clamp_selection("abc", Selection::new(3, 0));
    assert_eq!(kept.anchor.byte, 3);
    assert_eq!(kept.active.byte, 0);
}
