//! Window-domain values. No UI handle or platform type is authoritative here.

use vstd::prelude::*;

use super::geometry::{EdgeFrames, MonitorMetrics, PhysicalRect};

verus! {

pub const HOVER_REVEAL_DELAY_MS: u64 = 100;

pub const HOVER_LEAVE_COLLAPSE_DELAY_MS: u64 = 500;

pub const AUTO_COLLAPSE_DELAY_MS: u64 = 700;

pub const ANIMATION_DURATION_MS: u64 = 140;

pub const ANIMATION_FRAME_MS: u64 = 16;

#[derive(Debug, Clone, Copy, PartialEq, Eq, Hash, Structural)]
pub enum DockEdge {
    Left,
    Right,
    Top,
}

impl DockEdge {
    pub open spec fn spec_tie_break_order(self) -> u8 {
        match self {
            DockEdge::Left => 0,
            DockEdge::Right => 1,
            DockEdge::Top => 2,
        }
    }

    /// Preference among edges that are equally near: left, then right, then top.
    pub fn tie_break_order(self) -> (r: u8)
        ensures
            r == self.spec_tie_break_order(),
    {
        match self {
            DockEdge::Left => 0,
            DockEdge::Right => 1,
            DockEdge::Top => 2,
        }
    }
}

#[derive(Debug, Clone, Copy, PartialEq, Eq, Structural)]
pub enum StableVisibility {
    Floating,
    DockedExpanded(DockEdge),
    DockedCollapsed(DockEdge),
}

impl StableVisibility {
    pub open spec fn spec_dock_edge(self) -> Option<DockEdge> {
        match self {
            StableVisibility::Floating => None,
            StableVisibility::DockedExpanded(edge) => Some(edge),
            StableVisibility::DockedCollapsed(edge) => Some(edge),
        }
    }

    pub fn dock_edge(self) -> (r: Option<DockEdge>)
        ensures
            r == self.spec_dock_edge(),
    {
        match self {
            StableVisibility::Floating => None,
            StableVisibility::DockedExpanded(edge) => Some(edge),
            StableVisibility::DockedCollapsed(edge) => Some(edge),
        }
    }
}

/// The expanded stable state for a dock edge, or floating without one.
pub open spec fn expanded_for(edge: Option<DockEdge>) -> StableVisibility {
    match edge {
        None => StableVisibility::Floating,
        Some(edge) => StableVisibility::DockedExpanded(edge),
    }
}

#[derive(Debug, Clone, Copy, PartialEq, Eq, Structural)]
pub struct AnimationState {
    pub from: PhysicalRect,
    pub to: PhysicalRect,
    pub started_ms: u64,
    pub end_ms: u64,
    pub next_frame_ms: u64,
    pub final_visibility: StableVisibility,
}

#[derive(Debug, Clone, Copy, PartialEq, Eq, Structural)]
pub enum VisibilityState {
    Presented(StableVisibility),
    AwaitingHideSave { restore: StableVisibility },
    HiddenToTray { restore: StableVisibility },
    Animating(AnimationState),
}

#[derive(Debug, Clone, PartialEq, Eq)]
pub struct DockState {
    pub edge: Option<DockEdge>,
    pub monitor: MonitorMetrics,
    pub manually_hidden: bool,
    pub hover_revealed: bool,
}

#[derive(Debug, Clone, Copy, PartialEq, Eq, Structural)]
pub struct WindowGuardSnapshot {
    pub window_focused: bool,
    pub ime_composing: bool,
    pub dragging: bool,
    pub popup_open: bool,
    pub conflict_or_recovery: bool,
    pub paste_pending: bool,
    pub asset_transaction_pending: bool,
    pub note_save_required: bool,
    pub note_save_in_flight: bool,
}

impl Default for WindowGuardSnapshot {
    fn default() -> (r: WindowGuardSnapshot)
        ensures
            !r.window_focused && !r.ime_composing && !r.dragging && !r.popup_open
                && !r.conflict_or_recovery && !r.paste_pending && !r.asset_transaction_pending
                && !r.note_save_required && !r.note_save_in_flight,
    {
        WindowGuardSnapshot {
            window_focused: false,
            ime_composing: false,
            dragging: false,
            popup_open: false,
            conflict_or_recovery: false,
            paste_pending: false,
            asset_transaction_pending: false,
            note_save_required: false,
            note_save_in_flight: false,
        }
    }
}

impl WindowGuardSnapshot {
    pub open spec fn spec_blocks_auto_collapse(self) -> bool {
        self.window_focused || self.ime_composing || self.dragging || self.popup_open
            || self.conflict_or_recovery
    }

    pub open spec fn spec_blocks_quit(self) -> bool {
        self.conflict_or_recovery
    }

    pub open spec fn spec_requires_note_barrier(self) -> bool {
        self.note_save_required || self.note_save_in_flight
    }

    pub open spec fn spec_paste_unsettled(self) -> bool {
        self.paste_pending || self.asset_transaction_pending
    }

    /// Focus, composition, dragging, an open popup, or a conflict or recovery
    /// each keep a docked window from collapsing on its own.
    pub fn blocks_auto_collapse(self) -> (r: bool)
        ensures
            r == self.spec_blocks_auto_collapse(),
    {
        self.window_focused || self.ime_composing || self.dragging || self.popup_open
            || self.conflict_or_recovery
    }

    /// An unresolved conflict or recovery choice blocks quitting.
    pub fn blocks_quit(self) -> (r: bool)
        ensures
            r == self.spec_blocks_quit(),
    {
        self.conflict_or_recovery
    }

    /// A required or in-flight note save must finish before destructive steps.
    pub fn requires_note_barrier(self) -> (r: bool)
        ensures
            r == self.spec_requires_note_barrier(),
    {
        self.note_save_required || self.note_save_in_flight
    }
}

#[derive(Debug, Clone, Copy, PartialEq, Eq, Structural)]
pub struct WindowDeadlines {
    pub hover_reveal_ms: Option<u64>,
    pub auto_collapse_ms: Option<u64>,
    pub hover_leave_collapse_ms: Option<u64>,
}

pub open spec fn min_opt(a: Option<u64>, b: Option<u64>) -> Option<u64> {
    match (a, b) {
        (Some(x), Some(y)) => Some(if x <= y { x } else { y }),
        (Some(x), None) => Some(x),
        (None, Some(y)) => Some(y),
        (None, None) => None,
    }
}

pub fn min_option(a: Option<u64>, b: Option<u64>) -> (r: Option<u64>)
    ensures
        r == min_opt(a, b),
{
    match (a, b) {
        (Some(x), Some(y)) => Some(if x <= y { x } else { y }),
        (Some(x), None) => Some(x),
        (None, Some(y)) => Some(y),
        (None, None) => None,
    }
}

impl Default for WindowDeadlines {
    fn default() -> (r: WindowDeadlines)
        ensures
            r == WindowDeadlines::none(),
    {
        WindowDeadlines { hover_reveal_ms: None, auto_collapse_ms: None, hover_leave_collapse_ms: None }
    }
}

impl WindowDeadlines {
    pub open spec fn none() -> WindowDeadlines {
        WindowDeadlines { hover_reveal_ms: None, auto_collapse_ms: None, hover_leave_collapse_ms: None }
    }

    pub open spec fn spec_next(self) -> Option<u64> {
        min_opt(min_opt(self.hover_reveal_ms, self.auto_collapse_ms), self.hover_leave_collapse_ms)
    }

    /// The earliest pending deadline, if any.
    pub fn next(self) -> (r: Option<u64>)
        ensures
            r == self.spec_next(),
            r is None <==> (self.hover_reveal_ms is None && self.auto_collapse_ms is None
                && self.hover_leave_collapse_ms is None),
            r matches Some(d) ==> (self.hover_reveal_ms == Some(d) || self.auto_collapse_ms == Some(
                d,
            ) || self.hover_leave_collapse_ms == Some(d)),
            r matches Some(d) ==> (self.hover_reveal_ms matches Some(h) ==> d <= h),
            r matches Some(d) ==> (self.auto_collapse_ms matches Some(a) ==> d <= a),
            r matches Some(d) ==> (self.hover_leave_collapse_ms matches Some(l) ==> d <= l),
    {
        min_option(min_option(self.hover_reveal_ms, self.auto_collapse_ms), self.hover_leave_collapse_ms)
    }

    /// Cancels every pending deadline.
    pub fn clear(&mut self)
        ensures
            *final(self) == WindowDeadlines::none(),
    {
        *self = WindowDeadlines { hover_reveal_ms: None, auto_collapse_ms: None, hover_leave_collapse_ms: None };
    }
}

#[derive(Debug, Clone, Copy, PartialEq, Eq, Structural)]
pub enum QuitStage {
    AwaitingPaste,
    AwaitingNoteSave,
    AwaitingAssetGc,
    AwaitingConfig,
    ReadyToExit,
}

#[derive(Debug, Clone, Copy, PartialEq, Eq, Structural)]
pub enum LifecycleState {
    Running,
    Quitting(QuitStage),
}

impl LifecycleState {
    pub fn is_quitting(self) -> (r: bool)
        ensures
            r == (self is Quitting),
    {
        match self {
            LifecycleState::Running => false,
            LifecycleState::Quitting(_) => true,
        }
    }
}

#[derive(Debug, Clone, Copy, PartialEq, Eq, Structural)]
pub enum QuitBarrier {
    Paste,
    NoteSave,
    AssetGc,
    Config,
}

#[derive(Debug, Clone, Copy, PartialEq, Eq, Structural)]
pub enum ShowReason {
    Tray,
    SecondInstance,
}

#[derive(Debug, Clone, Copy, PartialEq, Eq, Structural)]
pub enum WindowSaveReason {
    HideToTray,
    Shutdown,
}

/// Events handed to the window reducer. Geometry that depends on the
/// floating-point display scale (the expanded frames of a placement, the
/// snapped edge of a drag) arrives already converted to pixels.
#[derive(Debug, Clone, PartialEq, Eq)]
pub enum WindowIntent {
    CloseRequested { now_ms: u64, guards: WindowGuardSnapshot },
    ShowRequested { reason: ShowReason, now_ms: u64 },
    TrayToggleRequested { now_ms: u64, guards: WindowGuardSnapshot },
    TrayQuitRequested { guards: WindowGuardSnapshot },
    ManualCollapse { now_ms: u64 },
    EscapePressed { now_ms: u64 },
    SensorEntered { now_ms: u64 },
    PointerLeft { now_ms: u64 },
    GuardsChanged { guards: WindowGuardSnapshot, now_ms: u64 },
    /// A finished drag, with the dock edge chosen for it and the expanded
    /// frames of the placement derived from the dropped frame.
    DragEnded {
        edge: Option<DockEdge>,
        monitor: MonitorMetrics,
        expanded: EdgeFrames,
        now_ms: u64,
    },
    /// The display the placement was recovered onto after a topology change,
    /// and the expanded frames of the placement on it.
    DisplayTopologyChanged { monitor: MonitorMetrics, expanded: EdgeFrames },
    SplitModeChanged { split: bool },
    Tick { now_ms: u64 },
    PasteSettled { guards: WindowGuardSnapshot },
    HideSaveCompleted { succeeded: bool, guards: WindowGuardSnapshot },
    QuitBarrierCompleted { barrier: QuitBarrier, succeeded: bool, guards: WindowGuardSnapshot },
}

#[derive(Debug, Clone, Copy, PartialEq, Eq, Structural)]
pub enum WindowEffect {
    ApplyFrame(PhysicalRect),
    SetTemporarySensorTopmost(bool),
    SetVisible(bool),
    FocusWindow,
    CancelImePreedit,
    SetImeAllowed(bool),
    SetEditorInputEnabled(bool),
    RequestNoteSave(WindowSaveReason),
    RequestSafeAssetGc,
    RequestConfigFlush,
    ExitProcess,
    /// Persist the placement that produced the current frames, with this edge.
    CommitPlacement { dock_edge: Option<DockEdge> },
    ReleaseHiddenCaches,
    ReportTrayUnavailable,
    HideBlocked,
    HideCancelled,
    QuitBlocked,
    QuitCancelled(QuitBarrier),
    QuitWarning(QuitBarrier),
    RequestRedraw,
    WakeAt(u64),
}

#[derive(Debug, Clone, PartialEq, Eq)]
pub struct WindowShellState {
    pub visibility: VisibilityState,
    pub dock: DockState,
    /// Expanded frames of the current placement on the current display.
    pub expanded: EdgeFrames,
    pub frame: PhysicalRect,
    pub guards: WindowGuardSnapshot,
    pub deadlines: WindowDeadlines,
    pub lifecycle: LifecycleState,
    pub tray_available: bool,
    pub hide_save_pending: bool,
    pub temporary_sensor_topmost: bool,
}

pub open spec fn spec_min_u64(a: u64, b: u64) -> u64 {
    if a <= b {
        a
    } else {
        b
    }
}

impl WindowShellState {
    pub open spec fn spec_next_deadline_ms(self) -> Option<u64> {
        let animation = match self.visibility {
            VisibilityState::Animating(a) => Some(spec_min_u64(a.next_frame_ms, a.end_ms)),
            _ => None,
        };
        min_opt(self.deadlines.spec_next(), animation)
    }

    pub open spec fn spec_accepts_editor_mutation(self) -> bool {
        &&& self.lifecycle == LifecycleState::Running
        &&& (self.visibility matches VisibilityState::Presented(s) && !(s is DockedCollapsed))
        &&& !(self.dock.hover_revealed && !self.guards.window_focused)
    }

    pub fn visibility(&self) -> (r: VisibilityState)
        ensures
            r == self.visibility,
    {
        self.visibility
    }

    pub fn dock(&self) -> (r: &DockState)
        ensures
            *r == self.dock,
    {
        &self.dock
    }

    pub fn frame(&self) -> (r: PhysicalRect)
        ensures
            r == self.frame,
    {
        self.frame
    }

    /// Whether the edge sensor needs an effective topmost projection without
    /// changing the user's configured always-on-top preference.
    pub fn temporary_sensor_topmost(&self) -> (r: bool)
        ensures
            r == self.temporary_sensor_topmost,
    {
        self.temporary_sensor_topmost
    }

    pub fn lifecycle(&self) -> (r: LifecycleState)
        ensures
            r == self.lifecycle,
    {
        self.lifecycle
    }

    /// The earliest wake-up the shell needs: a pending deadline or the next
    /// animation frame.
    pub fn next_deadline_ms(&self) -> (r: Option<u64>)
        ensures
            r == self.spec_next_deadline_ms(),
    {
        let animation = match self.visibility {
            VisibilityState::Animating(a) => Some(
                if a.next_frame_ms <= a.end_ms {
                    a.next_frame_ms
                } else {
                    a.end_ms
                },
            ),
            _ => None,
        };
        min_option(self.deadlines.next(), animation)
    }

    /// Editor mutations are accepted only while running, presented expanded or
    /// floating, and not merely hover-revealed without focus.
    pub fn accepts_editor_mutation(&self) -> (r: bool)
        ensures
            r == self.spec_accepts_editor_mutation(),
    {
        self.lifecycle == LifecycleState::Running && match self.visibility {
            VisibilityState::Presented(StableVisibility::Floating) => true,
            VisibilityState::Presented(StableVisibility::DockedExpanded(_)) => true,
            _ => false,
        } && !(self.dock.hover_revealed && !self.guards.window_focused)
    }
}

/// Resolves the actual z-order projection without mutating the configured
/// always-on-top preference.
pub fn effective_topmost(configured: bool, temporary_sensor: bool) -> (r: bool)
    ensures
        r == (configured || temporary_sensor),
{
    configured || temporary_sensor
}

}
