//! Keyboard decisions of the shell: which inputs may mutate the document and
//! which keys alias clipboard and zoom commands.

use vstd::prelude::*;

verus! {

/// Keyboard and IME input may change the document only when no recovery
/// choice, read-only Preview, quit or asset reconciliation is pending.
pub fn mutation_input_allowed(
    recovery_pending: bool,
    preview_only: bool,
    quit_pending: bool,
    asset_reconcile_pending: bool,
) -> (r: bool)
    ensures
        r == (!recovery_pending && !preview_only && !quit_pending && !asset_reconcile_pending),
{
    !recovery_pending && !preview_only && !quit_pending && !asset_reconcile_pending
}

/// The physical keys the shell's keyboard decisions look at; every other key
/// is `Other`.
#[derive(Debug, Clone, Copy, PartialEq, Eq, Structural)]
pub enum ShellKey {
    Insert,
    Delete,
    Escape,
    Backspace,
    KeyA,
    KeyC,
    KeyS,
    KeyV,
    KeyX,
    Equal,
    NumpadAdd,
    Minus,
    NumpadSubtract,
    Digit0,
    Numpad0,
    Digit1,
    Digit2,
    Digit3,
    KeyF,
    KeyH,
    KeyY,
    KeyZ,
    F3,
    F6,
    F7,
    Home,
    End,
    ArrowLeft,
    ArrowRight,
    ArrowUp,
    ArrowDown,
    Enter,
    NumpadEnter,
    Tab,
    Other,
}

#[derive(Debug, Clone, Copy, PartialEq, Eq, Structural)]
pub enum ClipboardAlias {
    Copy,
    Cut,
    Paste,
}

/// The legacy clipboard keys: Ctrl+Insert copies, Shift+Delete cuts and
/// Shift+Insert pastes.
pub open spec fn spec_clipboard_alias(code: Option<ShellKey>, shortcut: bool, shift: bool) -> Option<
    ClipboardAlias,
> {
    match code {
        Some(ShellKey::Insert) => if shortcut {
            Some(ClipboardAlias::Copy)
        } else if shift {
            Some(ClipboardAlias::Paste)
        } else {
            None
        },
        Some(ShellKey::Delete) => if !shortcut && shift {
            Some(ClipboardAlias::Cut)
        } else {
            None
        },
        _ => None,
    }
}

pub fn clipboard_alias(code: Option<ShellKey>, shortcut: bool, shift: bool) -> (r: Option<
    ClipboardAlias,
>)
    ensures
        r == spec_clipboard_alias(code, shortcut, shift),
{
    match code {
        Some(ShellKey::Insert) => if shortcut {
            Some(ClipboardAlias::Copy)
        } else if shift {
            Some(ClipboardAlias::Paste)
        } else {
            None
        },
        Some(ShellKey::Delete) => if !shortcut && shift {
            Some(ClipboardAlias::Cut)
        } else {
            None
        },
        _ => None,
    }
}

#[derive(Debug, Clone, Copy, PartialEq, Eq, Structural)]
pub enum ZoomCommand {
    Step(i16),
    Reset,
}

/// `=`/`+` zoom in by ten percent, `-` zooms out by ten, `0` resets.
pub open spec fn spec_zoom_key_command(code: Option<ShellKey>) -> Option<ZoomCommand> {
    match code {
        Some(ShellKey::Equal) | Some(ShellKey::NumpadAdd) => Some(ZoomCommand::Step(10i16)),
        Some(ShellKey::Minus) | Some(ShellKey::NumpadSubtract) => Some(ZoomCommand::Step(-10i16)),
        Some(ShellKey::Digit0) | Some(ShellKey::Numpad0) => Some(ZoomCommand::Reset),
        _ => None,
    }
}

pub fn zoom_key_command(code: Option<ShellKey>) -> (r: Option<ZoomCommand>)
    ensures
        r == spec_zoom_key_command(code),
{
    match code {
        Some(ShellKey::Equal) | Some(ShellKey::NumpadAdd) => Some(ZoomCommand::Step(10i16)),
        Some(ShellKey::Minus) | Some(ShellKey::NumpadSubtract) => Some(ZoomCommand::Step(-10i16)),
        Some(ShellKey::Digit0) | Some(ShellKey::Numpad0) => Some(ZoomCommand::Reset),
        _ => None,
    }
}

/// What Ctrl+F / Ctrl+H do to the one search session.
#[derive(Debug, Clone, Copy, PartialEq, Eq, Structural)]
pub enum SearchOpenAction {
    Open { replace: bool },
    Close,
    ExpandReplace,
}

/// Ctrl+F toggles the session; Ctrl+H opens it with replacement or expands
/// an open session to show replacement.
pub fn search_open_action(open: bool, replace_shortcut: bool) -> (r: SearchOpenAction)
    ensures
        !open ==> r == (SearchOpenAction::Open { replace: replace_shortcut }),
        open && !replace_shortcut ==> r == SearchOpenAction::Close,
        open && replace_shortcut ==> r == SearchOpenAction::ExpandReplace,
{
    if !open {
        SearchOpenAction::Open { replace: replace_shortcut }
    } else if replace_shortcut {
        SearchOpenAction::ExpandReplace
    } else {
        SearchOpenAction::Close
    }
}

/// What a key does while the read-only Preview has the keyboard.
#[derive(Debug, Clone, Copy, PartialEq, Eq, Structural)]
pub enum PreviewCommand {
    Ignored,
    ClearSelection,
    SelectAll,
    Copy,
    Save,
}

/// Preview keeps only read-only shortcuts: Escape clears the selection,
/// Ctrl+A selects all, Ctrl+C or Ctrl+Insert copies and Ctrl+S saves; every
/// other key, editing ones included, does nothing.
pub open spec fn spec_preview_command(code: Option<ShellKey>, shortcut: bool, shift: bool) -> PreviewCommand {
    match code {
        Some(ShellKey::Escape) => if !shortcut && !shift {
            PreviewCommand::ClearSelection
        } else {
            PreviewCommand::Ignored
        },
        Some(ShellKey::KeyA) => if shortcut {
            PreviewCommand::SelectAll
        } else {
            PreviewCommand::Ignored
        },
        Some(ShellKey::KeyC) | Some(ShellKey::Insert) => if shortcut {
            PreviewCommand::Copy
        } else {
            PreviewCommand::Ignored
        },
        Some(ShellKey::KeyS) => if shortcut {
            PreviewCommand::Save
        } else {
            PreviewCommand::Ignored
        },
        _ => PreviewCommand::Ignored,
    }
}

pub fn preview_command(code: Option<ShellKey>, shortcut: bool, shift: bool) -> (r: PreviewCommand)
    ensures
        r == spec_preview_command(code, shortcut, shift),
{
    match code {
        Some(ShellKey::Escape) => if !shortcut && !shift {
            PreviewCommand::ClearSelection
        } else {
            PreviewCommand::Ignored
        },
        Some(ShellKey::KeyA) => if shortcut {
            PreviewCommand::SelectAll
        } else {
            PreviewCommand::Ignored
        },
        Some(ShellKey::KeyC) | Some(ShellKey::Insert) => if shortcut {
            PreviewCommand::Copy
        } else {
            PreviewCommand::Ignored
        },
        Some(ShellKey::KeyS) => if shortcut {
            PreviewCommand::Save
        } else {
            PreviewCommand::Ignored
        },
        _ => PreviewCommand::Ignored,
    }
}

/// The window border a resize starts from.
#[derive(Debug, Clone, Copy, PartialEq, Eq, Structural)]
pub enum WindowResizeEdge {
    North,
    NorthEast,
    East,
    SouthEast,
    South,
    SouthWest,
    West,
    NorthWest,
}

/// The resize edge for a pointer inside the left, right, top and bottom
/// border bands: corners win over sides, left over right and top over bottom.
pub open spec fn spec_resize_edge(left: bool, right: bool, top: bool, bottom: bool) -> Option<
    WindowResizeEdge,
> {
    if left && top {
        Some(WindowResizeEdge::NorthWest)
    } else if right && top {
        Some(WindowResizeEdge::NorthEast)
    } else if left && bottom {
        Some(WindowResizeEdge::SouthWest)
    } else if right && bottom {
        Some(WindowResizeEdge::SouthEast)
    } else if left {
        Some(WindowResizeEdge::West)
    } else if right {
        Some(WindowResizeEdge::East)
    } else if top {
        Some(WindowResizeEdge::North)
    } else if bottom {
        Some(WindowResizeEdge::South)
    } else {
        None
    }
}

pub fn resize_edge(left: bool, right: bool, top: bool, bottom: bool) -> (r: Option<WindowResizeEdge>)
    ensures
        r == spec_resize_edge(left, right, top, bottom),
{
    if left && top {
        Some(WindowResizeEdge::NorthWest)
    } else if right && top {
        Some(WindowResizeEdge::NorthEast)
    } else if left && bottom {
        Some(WindowResizeEdge::SouthWest)
    } else if right && bottom {
        Some(WindowResizeEdge::SouthEast)
    } else if left {
        Some(WindowResizeEdge::West)
    } else if right {
        Some(WindowResizeEdge::East)
    } else if top {
        Some(WindowResizeEdge::North)
    } else if bottom {
        Some(WindowResizeEdge::South)
    } else {
        None
    }
}

} // verus!
