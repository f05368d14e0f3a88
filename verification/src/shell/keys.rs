//! Where one pressed key goes: the opacity field, a conflict or recovery
//! choice, the search field, the Preview, a shortcut, an editing command or
//! typed text.

use vstd::prelude::*;

use crate::config::runtime::ViewMode;
use crate::shell::input::{
    clipboard_alias, mutation_input_allowed, preview_command, search_open_action,
    spec_clipboard_alias, spec_preview_command, spec_zoom_key_command, zoom_key_command,
    ClipboardAlias, PreviewCommand, SearchOpenAction, ShellKey, ZoomCommand,
};

verus! {

/// The modifier keys held with a key.
#[derive(Debug, Clone, Copy, PartialEq, Eq, Structural)]
pub struct KeyModifiers {
    pub shift: bool,
    pub control: bool,
    pub alt: bool,
    pub super_key: bool,
}

/// What text a key press produced.
#[derive(Debug, Clone, Copy, PartialEq, Eq, Structural)]
pub enum KeyTextKind {
    /// The key produced no text.
    Absent,
    /// The key produced an empty text.
    Empty,
    /// Non-empty text without control characters.
    Printable,
    /// Text with at least one control character.
    Control,
}

/// The state of the shell that decides where a key goes.
#[derive(Debug, Clone, Copy, PartialEq, Eq, Structural)]
pub struct KeyContext {
    /// The opacity popup is open and its number field has the keyboard.
    pub opacity_input_focused: bool,
    pub recovery_pending: bool,
    /// A recovery choice is already being carried out.
    pub recovery_operation_pending: bool,
    pub conflict_open: bool,
    /// Keeping the local text over a conflict is being saved.
    pub resolving_keep_local: bool,
    /// The window shell accepts editor mutations (not quitting).
    pub window_accepts_mutation: bool,
    pub asset_reconcile_pending: bool,
    pub search_open: bool,
    pub search_composing: bool,
    /// The search session may replace (`replacement_allowed`).
    pub search_replacement_allowed: bool,
    pub preview_focused: bool,
    /// The editor session holds an IME composition.
    pub composing: bool,
    pub text: KeyTextKind,
}

/// F6 / F7 while a recovery choice or a conflict waits for them.
#[derive(Debug, Clone, Copy, PartialEq, Eq, Structural)]
pub enum ResolutionAction {
    RecoveryBusy,
    RestoreTemporary,
    UseCanonical,
    ConflictBusy,
    LoadExternal,
    KeepLocal,
}

/// What a key does to the open search session.
#[derive(Debug, Clone, Copy, PartialEq, Eq, Structural)]
pub enum SearchKeyAction {
    Ignore,
    Close,
    FocusNext,
    Navigate { reverse: bool },
    ReplaceAll,
    ReplaceCurrent,
    Backspace,
    Delete,
    MoveCursor { right: bool },
    ToggleCase,
    PasteClipboard,
    InsertText,
}

/// The Ctrl shortcuts of the editor.
#[derive(Debug, Clone, Copy, PartialEq, Eq, Structural)]
pub enum ShortcutAction {
    SelectAll,
    Copy,
    Cut,
    Paste,
    /// Undo, or cancel an IME composition.
    Undo,
    /// Redo, or cancel an IME composition.
    Redo,
    Save,
    Export,
    DocumentBoundary { end: bool, extend: bool },
}

/// The unmodified editing keys of the editor.
#[derive(Debug, Clone, Copy, PartialEq, Eq, Structural)]
pub enum EditingAction {
    Backspace,
    DeleteForward,
    MoveHorizontal { forward: bool, extend: bool },
    MoveVertical { down: bool, extend: bool },
    LineBoundary { end: bool, extend: bool },
    InsertNewline,
    /// Insert four spaces.
    InsertIndent,
    CancelPreedit,
    /// Escape outside a composition: the window shell decides (collapse).
    WindowEscape,
    /// A key swallowed by an open composition.
    Swallowed,
}

/// Where one pressed key goes.
#[derive(Debug, Clone, Copy, PartialEq, Eq, Structural)]
pub enum KeyRoute {
    OpacityCommit,
    OpacityBackspace,
    OpacityCancel,
    OpacityReplaceInput,
    Resolve(ResolutionAction),
    /// Document input is gated off; the key does nothing.
    Blocked,
    OpenSearch(SearchOpenAction),
    Search(SearchKeyAction),
    Zoom(ZoomCommand),
    SetViewMode(ViewMode),
    Preview(PreviewCommand),
    Clipboard(ClipboardAlias),
    Shortcut(ShortcutAction),
    Edit(EditingAction),
    TypeText,
    Ignore,
}

/// A control character: U+0000..=U+001F or U+007F..=U+009F.
pub open spec fn is_control_char(c: char) -> bool {
    (c as u32) <= 0x1F || (0x7F <= (c as u32) && (c as u32) <= 0x9F)
}

pub open spec fn spec_key_text_kind(text: Option<Seq<char>>) -> KeyTextKind {
    match text {
        None => KeyTextKind::Absent,
        Some(t) => if exists|i: int| 0 <= i < t.len() && is_control_char(#[trigger] t[i]) {
            KeyTextKind::Control
        } else if t.len() == 0 {
            KeyTextKind::Empty
        } else {
            KeyTextKind::Printable
        },
    }
}

/// Classifies the text a key press produced.
pub fn key_text_kind(text: &Option<Vec<char>>) -> (r: KeyTextKind)
    ensures
        r == spec_key_text_kind(
            match text {
                Some(t) => Some(t@),
                None => None,
            },
        ),
{
    match text {
        None => KeyTextKind::Absent,
        Some(t) => {
            let mut i: usize = 0;
            while i < t.len()
                invariant
                    i <= t@.len(),
                    text matches Some(x) && x@ == t@,
                    forall|k: int| 0 <= k < i ==> !is_control_char(#[trigger] t@[k]),
                decreases t@.len() - i,
            {
                let c = t[i];
                let u = c as u32;
                if u <= 0x1F || (0x7F <= u && u <= 0x9F) {
                    assert(is_control_char(t@[i as int]));
                    assert(spec_key_text_kind(Some(t@)) == KeyTextKind::Control);
                    return KeyTextKind::Control;
                }
                i += 1;
            }
            if t.len() == 0 {
                KeyTextKind::Empty
            } else {
                KeyTextKind::Printable
            }
        },
    }
}

/// F6 (primary) or F7 while a recovery choice or a conflict is open; `None`
/// when neither waits for the key.
pub open spec fn spec_resolution_action(primary: bool, ctx: KeyContext) -> Option<ResolutionAction> {
    if ctx.recovery_pending {
        if ctx.recovery_operation_pending {
            Some(ResolutionAction::RecoveryBusy)
        } else if primary {
            Some(ResolutionAction::RestoreTemporary)
        } else {
            Some(ResolutionAction::UseCanonical)
        }
    } else if ctx.conflict_open {
        if ctx.resolving_keep_local {
            Some(ResolutionAction::ConflictBusy)
        } else if primary {
            Some(ResolutionAction::LoadExternal)
        } else {
            Some(ResolutionAction::KeepLocal)
        }
    } else {
        None
    }
}

pub fn resolution_action(primary: bool, ctx: KeyContext) -> (r: Option<ResolutionAction>)
    ensures
        r == spec_resolution_action(primary, ctx),
{
    if ctx.recovery_pending {
        if ctx.recovery_operation_pending {
            Some(ResolutionAction::RecoveryBusy)
        } else if primary {
            Some(ResolutionAction::RestoreTemporary)
        } else {
            Some(ResolutionAction::UseCanonical)
        }
    } else if ctx.conflict_open {
        if ctx.resolving_keep_local {
            Some(ResolutionAction::ConflictBusy)
        } else if primary {
            Some(ResolutionAction::LoadExternal)
        } else {
            Some(ResolutionAction::KeepLocal)
        }
    } else {
        None
    }
}

/// While search is open it owns the keyboard: a composition swallows every
/// key; Escape closes, Tab switches fields, F3 / Enter / arrows navigate,
/// Ctrl+Enter replaces (Ctrl+Shift+Enter replaces all) when replacement is
/// allowed, Alt+C toggles case, Ctrl+V pastes, and plain printable text is
/// typed into the field.
pub open spec fn spec_search_key_action(key: Option<ShellKey>, mods: KeyModifiers, ctx: KeyContext) -> SearchKeyAction {
    let shortcut = mods.control && !mods.alt;
    if ctx.search_composing {
        SearchKeyAction::Ignore
    } else {
        match key {
            Some(ShellKey::Escape) => SearchKeyAction::Close,
            Some(ShellKey::Tab) => SearchKeyAction::FocusNext,
            Some(ShellKey::F3) => SearchKeyAction::Navigate { reverse: mods.shift },
            Some(ShellKey::Enter) | Some(ShellKey::NumpadEnter) => if shortcut {
                if ctx.search_replacement_allowed {
                    if mods.shift {
                        SearchKeyAction::ReplaceAll
                    } else {
                        SearchKeyAction::ReplaceCurrent
                    }
                } else {
                    SearchKeyAction::Ignore
                }
            } else {
                SearchKeyAction::Navigate { reverse: mods.shift }
            },
            Some(ShellKey::Backspace) => SearchKeyAction::Backspace,
            Some(ShellKey::Delete) => SearchKeyAction::Delete,
            Some(ShellKey::ArrowLeft) => SearchKeyAction::MoveCursor { right: false },
            Some(ShellKey::ArrowRight) => SearchKeyAction::MoveCursor { right: true },
            Some(ShellKey::ArrowUp) => SearchKeyAction::Navigate { reverse: true },
            Some(ShellKey::ArrowDown) => SearchKeyAction::Navigate { reverse: false },
            _ => if key == Some(ShellKey::KeyC) && mods.alt {
                SearchKeyAction::ToggleCase
            } else if key == Some(ShellKey::KeyV) && shortcut {
                SearchKeyAction::PasteClipboard
            } else if !shortcut && !mods.alt && !mods.super_key && ctx.text
                == KeyTextKind::Printable {
                SearchKeyAction::InsertText
            } else {
                SearchKeyAction::Ignore
            },
        }
    }
}

pub fn search_key_action(key: Option<ShellKey>, mods: KeyModifiers, ctx: KeyContext) -> (r:
    SearchKeyAction)
    ensures
        r == spec_search_key_action(key, mods, ctx),
{
    let shortcut = mods.control && !mods.alt;
    if ctx.search_composing {
        return SearchKeyAction::Ignore;
    }
    match key {
        Some(ShellKey::Escape) => SearchKeyAction::Close,
        Some(ShellKey::Tab) => SearchKeyAction::FocusNext,
        Some(ShellKey::F3) => SearchKeyAction::Navigate { reverse: mods.shift },
        Some(ShellKey::Enter) | Some(ShellKey::NumpadEnter) => if shortcut {
            if ctx.search_replacement_allowed {
                if mods.shift {
                    SearchKeyAction::ReplaceAll
                } else {
                    SearchKeyAction::ReplaceCurrent
                }
            } else {
                SearchKeyAction::Ignore
            }
        } else {
            SearchKeyAction::Navigate { reverse: mods.shift }
        },
        Some(ShellKey::Backspace) => SearchKeyAction::Backspace,
        Some(ShellKey::Delete) => SearchKeyAction::Delete,
        Some(ShellKey::ArrowLeft) => SearchKeyAction::MoveCursor { right: false },
        Some(ShellKey::ArrowRight) => SearchKeyAction::MoveCursor { right: true },
        Some(ShellKey::ArrowUp) => SearchKeyAction::Navigate { reverse: true },
        Some(ShellKey::ArrowDown) => SearchKeyAction::Navigate { reverse: false },
        Some(ShellKey::KeyC) if mods.alt => SearchKeyAction::ToggleCase,
        Some(ShellKey::KeyV) if shortcut => SearchKeyAction::PasteClipboard,
        _ => if !shortcut && !mods.alt && !mods.super_key && ctx.text == KeyTextKind::Printable {
            SearchKeyAction::InsertText
        } else {
            SearchKeyAction::Ignore
        },
    }
}

/// Ctrl+A selects all, Ctrl+C / X / V copy, cut and paste, Ctrl+Z / Y undo
/// and redo, Ctrl+S saves (Ctrl+Shift+S exports), Ctrl+Home / End move to
/// the document's start or end.
pub open spec fn spec_shortcut_action(key: Option<ShellKey>, shift: bool) -> Option<ShortcutAction> {
    match key {
        Some(ShellKey::KeyA) => Some(ShortcutAction::SelectAll),
        Some(ShellKey::KeyC) => Some(ShortcutAction::Copy),
        Some(ShellKey::KeyX) => Some(ShortcutAction::Cut),
        Some(ShellKey::KeyV) => Some(ShortcutAction::Paste),
        Some(ShellKey::KeyZ) => Some(ShortcutAction::Undo),
        Some(ShellKey::KeyY) => Some(ShortcutAction::Redo),
        Some(ShellKey::KeyS) => if shift {
            Some(ShortcutAction::Export)
        } else {
            Some(ShortcutAction::Save)
        },
        Some(ShellKey::Home) => Some(ShortcutAction::DocumentBoundary { end: false, extend: shift }),
        Some(ShellKey::End) => Some(ShortcutAction::DocumentBoundary { end: true, extend: shift }),
        _ => None,
    }
}

pub fn shortcut_action(key: Option<ShellKey>, shift: bool) -> (r: Option<ShortcutAction>)
    ensures
        r == spec_shortcut_action(key, shift),
{
    match key {
        Some(ShellKey::KeyA) => Some(ShortcutAction::SelectAll),
        Some(ShellKey::KeyC) => Some(ShortcutAction::Copy),
        Some(ShellKey::KeyX) => Some(ShortcutAction::Cut),
        Some(ShellKey::KeyV) => Some(ShortcutAction::Paste),
        Some(ShellKey::KeyZ) => Some(ShortcutAction::Undo),
        Some(ShellKey::KeyY) => Some(ShortcutAction::Redo),
        Some(ShellKey::KeyS) => if shift {
            Some(ShortcutAction::Export)
        } else {
            Some(ShortcutAction::Save)
        },
        Some(ShellKey::Home) => Some(ShortcutAction::DocumentBoundary { end: false, extend: shift }),
        Some(ShellKey::End) => Some(ShortcutAction::DocumentBoundary { end: true, extend: shift }),
        _ => None,
    }
}

/// Backspace and Delete delete, arrows move (Shift extends), Home / End go to
/// the line's boundary, Enter inserts a newline and Tab four spaces unless a
/// composition is open, Escape cancels a composition or else goes to the
/// window shell.
pub open spec fn spec_editing_action(key: Option<ShellKey>, shift: bool, composing: bool) -> Option<
    EditingAction,
> {
    match key {
        Some(ShellKey::Backspace) => Some(EditingAction::Backspace),
        Some(ShellKey::Delete) => Some(EditingAction::DeleteForward),
        Some(ShellKey::ArrowLeft) => Some(EditingAction::MoveHorizontal { forward: false, extend: shift }),
        Some(ShellKey::ArrowRight) => Some(EditingAction::MoveHorizontal { forward: true, extend: shift }),
        Some(ShellKey::ArrowUp) => Some(EditingAction::MoveVertical { down: false, extend: shift }),
        Some(ShellKey::ArrowDown) => Some(EditingAction::MoveVertical { down: true, extend: shift }),
        Some(ShellKey::Home) => Some(EditingAction::LineBoundary { end: false, extend: shift }),
        Some(ShellKey::End) => Some(EditingAction::LineBoundary { end: true, extend: shift }),
        Some(ShellKey::Enter) | Some(ShellKey::NumpadEnter) => if composing {
            Some(EditingAction::Swallowed)
        } else {
            Some(EditingAction::InsertNewline)
        },
        Some(ShellKey::Tab) => if composing {
            Some(EditingAction::Swallowed)
        } else {
            Some(EditingAction::InsertIndent)
        },
        Some(ShellKey::Escape) => if composing {
            Some(EditingAction::CancelPreedit)
        } else {
            Some(EditingAction::WindowEscape)
        },
        _ => None,
    }
}

pub fn editing_action(key: Option<ShellKey>, shift: bool, composing: bool) -> (r: Option<
    EditingAction,
>)
    ensures
        r == spec_editing_action(key, shift, composing),
{
    match key {
        Some(ShellKey::Backspace) => Some(EditingAction::Backspace),
        Some(ShellKey::Delete) => Some(EditingAction::DeleteForward),
        Some(ShellKey::ArrowLeft) => Some(EditingAction::MoveHorizontal { forward: false, extend: shift }),
        Some(ShellKey::ArrowRight) => Some(EditingAction::MoveHorizontal { forward: true, extend: shift }),
        Some(ShellKey::ArrowUp) => Some(EditingAction::MoveVertical { down: false, extend: shift }),
        Some(ShellKey::ArrowDown) => Some(EditingAction::MoveVertical { down: true, extend: shift }),
        Some(ShellKey::Home) => Some(EditingAction::LineBoundary { end: false, extend: shift }),
        Some(ShellKey::End) => Some(EditingAction::LineBoundary { end: true, extend: shift }),
        Some(ShellKey::Enter) | Some(ShellKey::NumpadEnter) => if composing {
            Some(EditingAction::Swallowed)
        } else {
            Some(EditingAction::InsertNewline)
        },
        Some(ShellKey::Tab) => if composing {
            Some(EditingAction::Swallowed)
        } else {
            Some(EditingAction::InsertIndent)
        },
        Some(ShellKey::Escape) => if composing {
            Some(EditingAction::CancelPreedit)
        } else {
            Some(EditingAction::WindowEscape)
        },
        _ => None,
    }
}

/// Ctrl+1 / 2 / 3 choose Source, Split or Preview.
pub open spec fn spec_view_mode_key(key: Option<ShellKey>) -> Option<ViewMode> {
    match key {
        Some(ShellKey::Digit1) => Some(ViewMode::Source),
        Some(ShellKey::Digit2) => Some(ViewMode::Split),
        Some(ShellKey::Digit3) => Some(ViewMode::Preview),
        _ => None,
    }
}

/// Where one pressed key goes, in the shell's order of precedence:
/// the focused opacity field; F6 / F7 for an open recovery choice or
/// conflict; the input gate; Ctrl+F / Ctrl+H; the open search; Ctrl zoom
/// keys; Ctrl+1 / 2 / 3; the focused Preview; the clipboard aliases; the Ctrl
/// shortcuts; the editing keys; and last, typed text without control
/// characters. Ctrl means Control without Alt.
pub open spec fn spec_route_key(key: Option<ShellKey>, mods: KeyModifiers, ctx: KeyContext) -> KeyRoute {
    let shortcut = mods.control && !mods.alt;
    if ctx.opacity_input_focused && (key == Some(ShellKey::Enter) || key == Some(
        ShellKey::NumpadEnter,
    )) {
        KeyRoute::OpacityCommit
    } else if ctx.opacity_input_focused && key == Some(ShellKey::Backspace) {
        KeyRoute::OpacityBackspace
    } else if ctx.opacity_input_focused && key == Some(ShellKey::Escape) {
        KeyRoute::OpacityCancel
    } else if ctx.opacity_input_focused && ctx.text != KeyTextKind::Absent {
        KeyRoute::OpacityReplaceInput
    } else if key == Some(ShellKey::F6) && spec_resolution_action(true, ctx) is Some {
        KeyRoute::Resolve(spec_resolution_action(true, ctx)->0)
    } else if key == Some(ShellKey::F7) && spec_resolution_action(false, ctx) is Some {
        KeyRoute::Resolve(spec_resolution_action(false, ctx)->0)
    } else if ctx.recovery_pending || !ctx.window_accepts_mutation || ctx.asset_reconcile_pending {
        KeyRoute::Blocked
    } else if shortcut && (key == Some(ShellKey::KeyF) || key == Some(ShellKey::KeyH)) {
        KeyRoute::OpenSearch(
            if !ctx.search_open {
                SearchOpenAction::Open { replace: key == Some(ShellKey::KeyH) }
            } else if key == Some(ShellKey::KeyH) {
                SearchOpenAction::ExpandReplace
            } else {
                SearchOpenAction::Close
            },
        )
    } else if ctx.search_open {
        KeyRoute::Search(spec_search_key_action(key, mods, ctx))
    } else if shortcut && spec_zoom_key_command(key) is Some {
        KeyRoute::Zoom(spec_zoom_key_command(key)->0)
    } else if shortcut && spec_view_mode_key(key) is Some {
        KeyRoute::SetViewMode(spec_view_mode_key(key)->0)
    } else if ctx.preview_focused {
        KeyRoute::Preview(spec_preview_command(key, shortcut, mods.shift))
    } else if spec_clipboard_alias(key, shortcut, mods.shift) is Some {
        KeyRoute::Clipboard(spec_clipboard_alias(key, shortcut, mods.shift)->0)
    } else if shortcut && spec_shortcut_action(key, mods.shift) is Some {
        KeyRoute::Shortcut(spec_shortcut_action(key, mods.shift)->0)
    } else if spec_editing_action(key, mods.shift, ctx.composing) is Some {
        KeyRoute::Edit(spec_editing_action(key, mods.shift, ctx.composing)->0)
    } else if !shortcut && !mods.super_key && (ctx.text == KeyTextKind::Empty || ctx.text
        == KeyTextKind::Printable) {
        KeyRoute::TypeText
    } else {
        KeyRoute::Ignore
    }
}

/// Routes one pressed key; the shell carries out the route.
pub fn route_key(key: Option<ShellKey>, mods: KeyModifiers, ctx: KeyContext) -> (r: KeyRoute)
    ensures
        r == spec_route_key(key, mods, ctx),
{
    let shortcut = mods.control && !mods.alt;
    if ctx.opacity_input_focused {
        match key {
            Some(ShellKey::Enter) | Some(ShellKey::NumpadEnter) => return KeyRoute::OpacityCommit,
            Some(ShellKey::Backspace) => return KeyRoute::OpacityBackspace,
            Some(ShellKey::Escape) => return KeyRoute::OpacityCancel,
            _ => if ctx.text != KeyTextKind::Absent {
                return KeyRoute::OpacityReplaceInput;
            },
        }
    }
    if key == Some(ShellKey::F6) {
        if let Some(action) = resolution_action(true, ctx) {
            return KeyRoute::Resolve(action);
        }
    }
    if key == Some(ShellKey::F7) {
        if let Some(action) = resolution_action(false, ctx) {
            return KeyRoute::Resolve(action);
        }
    }
    if !mutation_input_allowed(
        ctx.recovery_pending,
        false,
        !ctx.window_accepts_mutation,
        ctx.asset_reconcile_pending,
    ) {
        return KeyRoute::Blocked;
    }
    if shortcut && (key == Some(ShellKey::KeyF) || key == Some(ShellKey::KeyH)) {
        return KeyRoute::OpenSearch(
            search_open_action(ctx.search_open, key == Some(ShellKey::KeyH)),
        );
    }
    if ctx.search_open {
        return KeyRoute::Search(search_key_action(key, mods, ctx));
    }
    if shortcut {
        if let Some(command) = zoom_key_command(key) {
            return KeyRoute::Zoom(command);
        }
        match key {
            Some(ShellKey::Digit1) => return KeyRoute::SetViewMode(ViewMode::Source),
            Some(ShellKey::Digit2) => return KeyRoute::SetViewMode(ViewMode::Split),
            Some(ShellKey::Digit3) => return KeyRoute::SetViewMode(ViewMode::Preview),
            _ => {},
        }
    }
    if ctx.preview_focused {
        return KeyRoute::Preview(preview_command(key, shortcut, mods.shift));
    }
    if let Some(alias) = clipboard_alias(key, shortcut, mods.shift) {
        return KeyRoute::Clipboard(alias);
    }
    if shortcut {
        if let Some(action) = shortcut_action(key, mods.shift) {
            return KeyRoute::Shortcut(action);
        }
    }
    if let Some(action) = editing_action(key, mods.shift, ctx.composing) {
        return KeyRoute::Edit(action);
    }
    if !shortcut && !mods.super_key && (ctx.text == KeyTextKind::Empty || ctx.text
        == KeyTextKind::Printable) {
        KeyRoute::TypeText
    } else {
        KeyRoute::Ignore
    }
}


/// Ctrl+Z is the only undo key and Ctrl+Y the only redo key, with or without
/// Shift; the two never map to the same action.
pub proof fn lemma_undo_and_redo_keys(key: Option<ShellKey>, shift: bool)
    ensures
        spec_shortcut_action(key, shift) == Some(ShortcutAction::Undo) <==> key == Some(
            ShellKey::KeyZ,
        ),
        spec_shortcut_action(key, shift) == Some(ShortcutAction::Redo) <==> key == Some(
            ShellKey::KeyY,
        ),
        spec_shortcut_action(Some(ShellKey::KeyZ), shift) != spec_shortcut_action(
            Some(ShellKey::KeyY),
            shift,
        ),
{
}

/// In the editor, with no field, search, Preview or gate in the way, Ctrl+Z
/// routes to undo and Ctrl+Y to redo.
pub proof fn lemma_ctrl_z_undoes_and_ctrl_y_redoes(mods: KeyModifiers, ctx: KeyContext)
    requires
        mods.control && !mods.alt,
        !ctx.opacity_input_focused,
        !ctx.recovery_pending,
        ctx.window_accepts_mutation,
        !ctx.asset_reconcile_pending,
        !ctx.search_open,
        !ctx.preview_focused,
    ensures
        spec_route_key(Some(ShellKey::KeyZ), mods, ctx) == KeyRoute::Shortcut(ShortcutAction::Undo),
        spec_route_key(Some(ShellKey::KeyY), mods, ctx) == KeyRoute::Shortcut(ShortcutAction::Redo),
{
}

} // verus!
