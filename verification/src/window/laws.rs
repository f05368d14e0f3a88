//! Properties of the window reducer that span its handlers.

use vstd::prelude::*;

use super::geometry::{spec_collapsed_frame, EdgeFrames, MonitorMetrics, PhysicalRect};
use super::reducer::{
    expected_barrier, is_quitting, restored_visibility, s_advance_quit, s_complete_hide,
    s_complete_hide_save, s_complete_quit_barrier, s_finish_drag, s_hide_to_tray,
    s_paste_settled, s_recover_topology, s_request_quit, s_set_topmost, s_show, s_start_animation,
    s_start_collapse, s_start_expand, s_tick, s_tick_deadlines, s_update_guards, sat_add, spec_dispatch, stable_of,
    with_guards, Step,
};
use super::state::{
    expanded_for, spec_min_u64, DockEdge, DockState, LifecycleState, QuitBarrier, QuitStage,
    StableVisibility, VisibilityState, WindowDeadlines, WindowEffect, WindowGuardSnapshot,
    WindowIntent, WindowSaveReason, WindowShellState, ANIMATION_FRAME_MS, AUTO_COLLAPSE_DELAY_MS,
    HOVER_LEAVE_COLLAPSE_DELAY_MS, HOVER_REVEAL_DELAY_MS,
};

verus! {

/// Once the shell is ready to exit, no intent brings it back.
pub proof fn lemma_ready_to_exit_is_terminal(
    s: WindowShellState,
    intent: WindowIntent,
    animated: PhysicalRect,
)
    requires
        s.lifecycle == LifecycleState::Quitting(QuitStage::ReadyToExit),
    ensures
        spec_dispatch(s, intent, animated).0.lifecycle == LifecycleState::Quitting(
            QuitStage::ReadyToExit,
        ),
{
    match intent {
        WindowIntent::CloseRequested { .. } => {},
        WindowIntent::ShowRequested { .. } => {},
        WindowIntent::TrayToggleRequested { .. } => {},
        WindowIntent::TrayQuitRequested { .. } => {},
        WindowIntent::ManualCollapse { .. } => {},
        WindowIntent::EscapePressed { .. } => {},
        WindowIntent::SensorEntered { .. } => {},
        WindowIntent::PointerLeft { .. } => {},
        WindowIntent::GuardsChanged { .. } => {},
        WindowIntent::DragEnded { .. } => {},
        WindowIntent::DisplayTopologyChanged { .. } => {},
        WindowIntent::SplitModeChanged { .. } => {},
        WindowIntent::Tick { .. } => {},
        WindowIntent::PasteSettled { .. } => {},
        WindowIntent::HideSaveCompleted { .. } => {},
        WindowIntent::QuitBarrierCompleted { .. } => {},
    }
}

/// No effect of the sequence ends the process or collects assets.
pub open spec fn all_quiet(effs: Seq<WindowEffect>) -> bool {
    forall|i: int|
        0 <= i < effs.len() ==> !(#[trigger] effs[i] is ExitProcess) && !(effs[i] is RequestSafeAssetGc)
}

proof fn lemma_quiet_push(effs: Seq<WindowEffect>, e: WindowEffect)
    requires
        all_quiet(effs),
        !(e is ExitProcess) && !(e is RequestSafeAssetGc),
    ensures
        all_quiet(effs.push(e)),
{
    assert forall|i: int| 0 <= i < effs.push(e).len() implies !(#[trigger] effs.push(e)[i] is ExitProcess)
        && !(effs.push(e)[i] is RequestSafeAssetGc) by {
        if i < effs.len() {
            assert(effs.push(e)[i] == effs[i]);
        }
    }
}

proof fn lemma_quiet_topmost(st: Step, enabled: bool)
    requires all_quiet(st.1),
    ensures all_quiet(s_set_topmost(st, enabled).1),
{
    lemma_quiet_push(st.1, WindowEffect::SetTemporarySensorTopmost(enabled));
}

proof fn lemma_quiet_animation(st: Step, now: u64, target: PhysicalRect, fin: StableVisibility, animated: PhysicalRect)
    requires all_quiet(st.1),
    ensures all_quiet(s_start_animation(st, now, target, fin, animated).1),
{
    let end = sat_add(now, super::state::ANIMATION_DURATION_MS);
    let next = spec_min_u64(sat_add(now, ANIMATION_FRAME_MS), end);
    lemma_quiet_push(st.1, WindowEffect::RequestRedraw);
    lemma_quiet_push(st.1.push(WindowEffect::RequestRedraw), WindowEffect::WakeAt(next));
}

proof fn lemma_quiet_collapse(st: Step, now: u64, animated: PhysicalRect)
    requires all_quiet(st.1),
    ensures all_quiet(s_start_collapse(st, now, animated).1),
{
    let cur = stable_of(st.0.visibility);
    if let Some(edge) = cur.spec_dock_edge() {
        if !(cur is DockedCollapsed) {
            let s1 = WindowShellState {
                deadlines: WindowDeadlines::none(),
                dock: DockState { edge: Some(edge), hover_revealed: false, ..st.0.dock },
                ..st.0
            };
            lemma_quiet_topmost((s1, st.1), true);
            let st2 = s_set_topmost((s1, st.1), true);
            let target = spec_collapsed_frame(st2.0.expanded.spec_for_edge(Some(edge)), edge, st2.0.dock.monitor);
            lemma_quiet_animation(st2, now, target, StableVisibility::DockedCollapsed(edge), animated);
        }
    }
}

proof fn lemma_quiet_expand(st: Step, now: u64, hover: bool, animated: PhysicalRect)
    requires all_quiet(st.1),
    ensures all_quiet(s_start_expand(st, now, hover, animated).1),
{
    let cur = stable_of(st.0.visibility);
    if let Some(edge) = cur.spec_dock_edge() {
        let s1 = WindowShellState {
            deadlines: WindowDeadlines::none(),
            dock: DockState { hover_revealed: hover, manually_hidden: false, ..st.0.dock },
            ..st.0
        };
        lemma_quiet_topmost((s1, st.1), hover && !s1.guards.window_focused);
        let st2 = s_set_topmost((s1, st.1), hover && !s1.guards.window_focused);
        lemma_quiet_animation(st2, now, st2.0.expanded.spec_for_edge(Some(edge)), StableVisibility::DockedExpanded(edge), animated);
    }
}

proof fn lemma_quiet_guards(st: Step, guards: WindowGuardSnapshot, now: u64, animated: PhysicalRect)
    requires all_quiet(st.1),
    ensures all_quiet(s_update_guards(st, guards, now, animated).1),
{
    let s1: Step = (WindowShellState { guards, ..st.0 }, st.1);
    lemma_quiet_topmost(s1, false);
    let gained = !st.0.guards.window_focused && guards.window_focused;
    let s2 = if gained { s_set_topmost(s1, false) } else { s1 };
    let s3 = WindowShellState {
        deadlines: WindowDeadlines { auto_collapse_ms: None, hover_leave_collapse_ms: None, ..s2.0.deadlines },
        ..s2.0
    };
    lemma_quiet_expand((s3, s2.1), now, false, animated);
    lemma_quiet_push(s2.1, WindowEffect::WakeAt(sat_add(now, AUTO_COLLAPSE_DELAY_MS)));
}

proof fn lemma_quiet_hide(st: Step, restore: StableVisibility)
    requires all_quiet(st.1),
    ensures all_quiet(s_complete_hide(st, restore).1),
{
    let s1 = WindowShellState { visibility: VisibilityState::HiddenToTray { restore }, hide_save_pending: false, ..st.0 };
    lemma_quiet_topmost((s1, st.1), false);
    let s2 = s_set_topmost((s1, st.1), false);
    lemma_quiet_push(s2.1, WindowEffect::SetVisible(false));
    lemma_quiet_push(s2.1.push(WindowEffect::SetVisible(false)), WindowEffect::ReleaseHiddenCaches);
}

proof fn lemma_quiet_tick_deadlines(st: Step, now: u64, animated: PhysicalRect)
    requires all_quiet(st.1),
    ensures all_quiet(s_tick_deadlines(st, now, animated).1),
{
    let dl = st.0.deadlines;
    let s = WindowShellState {
        deadlines: WindowDeadlines { auto_collapse_ms: None, hover_leave_collapse_ms: None, ..dl },
        ..st.0
    };
    lemma_quiet_collapse((s, st.1), now, animated);
    let fire = (dl.auto_collapse_ms matches Some(d) && now >= d) || (dl.hover_leave_collapse_ms matches Some(d) && now >= d);
    let st2 = if fire {
        if !s.guards.spec_blocks_auto_collapse() { s_start_collapse((s, st.1), now, animated) } else { (s, st.1) }
    } else { st };
    let s4 = WindowShellState { deadlines: WindowDeadlines { hover_reveal_ms: None, ..st2.0.deadlines }, ..st2.0 };
    lemma_quiet_expand((s4, st2.1), now, true, animated);
}

proof fn lemma_quiet_tick(st: Step, now: u64, animated: PhysicalRect)
    requires all_quiet(st.1),
    ensures all_quiet(s_tick(st, now, animated).1),
{
    match st.0.visibility {
        VisibilityState::Animating(a) => if now < a.end_ms {
            let e1 = st.1.push(WindowEffect::ApplyFrame(animated));
            let e2 = e1.push(WindowEffect::RequestRedraw);
            lemma_quiet_push(st.1, WindowEffect::ApplyFrame(animated));
            lemma_quiet_push(e1, WindowEffect::RequestRedraw);
            lemma_quiet_push(e2, WindowEffect::WakeAt(spec_min_u64(sat_add(now, ANIMATION_FRAME_MS), a.end_ms)));
        } else {
            let e1 = st.1.push(WindowEffect::ApplyFrame(a.to));
            lemma_quiet_push(st.1, WindowEffect::ApplyFrame(a.to));
            lemma_quiet_push(e1, WindowEffect::RequestRedraw);
            let s1 = WindowShellState {
                frame: a.to,
                visibility: VisibilityState::Presented(a.final_visibility),
                ..st.0
            };
            lemma_quiet_tick_deadlines((s1, e1.push(WindowEffect::RequestRedraw)), now, animated);
        },
        _ => lemma_quiet_tick_deadlines(st, now, animated),
    }
}

proof fn lemma_quiet_drag(st: Step, edge: Option<DockEdge>, monitor: MonitorMetrics, expanded: EdgeFrames, now: u64)
    requires all_quiet(st.1),
    ensures all_quiet(s_finish_drag(st, edge, monitor, expanded, now).1),
{
    if !is_quitting(st.0) {
        let s1 = WindowShellState {
            deadlines: WindowDeadlines::none(),
            expanded,
            dock: DockState { edge, monitor, manually_hidden: false, hover_revealed: false },
            ..st.0
        };
        lemma_quiet_topmost((s1, st.1), false);
        let s2 = s_set_topmost((s1, st.1), false);
        let frame = expanded.spec_for_edge(edge);
        lemma_quiet_push(s2.1, WindowEffect::ApplyFrame(frame));
        lemma_quiet_push(s2.1.push(WindowEffect::ApplyFrame(frame)), WindowEffect::CommitPlacement { dock_edge: edge });
        lemma_quiet_push(s2.1.push(WindowEffect::ApplyFrame(frame)).push(WindowEffect::CommitPlacement { dock_edge: edge }),
            WindowEffect::WakeAt(sat_add(now, AUTO_COLLAPSE_DELAY_MS)));
    }
}

proof fn lemma_quiet_topology(st: Step, monitor: MonitorMetrics, expanded: EdgeFrames)
    requires all_quiet(st.1),
    ensures all_quiet(s_recover_topology(st, monitor, expanded).1),
{
    let prior = stable_of(st.0.visibility);
    let edge = prior.spec_dock_edge();
    let stable = if st.0.visibility is HiddenToTray { prior } else { expanded_for(edge) };
    let s1 = WindowShellState { expanded, dock: DockState { monitor, edge, hover_revealed: false, ..st.0.dock }, ..st.0 };
    lemma_quiet_topmost((s1, st.1), stable is DockedCollapsed);
    let s2 = s_set_topmost((s1, st.1), stable is DockedCollapsed);
    let r = s_recover_topology(st, monitor, expanded);
    lemma_quiet_push(s2.1, WindowEffect::ApplyFrame(r.0.frame));
    let eff = if r.0.visibility is Presented { s2.1.push(WindowEffect::ApplyFrame(r.0.frame)) } else { s2.1 };
    lemma_quiet_push(eff, WindowEffect::CommitPlacement { dock_edge: edge });
}

proof fn lemma_quiet_show(st: Step)
    requires all_quiet(st.1),
    ensures all_quiet(s_show(st).1),
{
    lemma_quiet_push(st.1, WindowEffect::FocusWindow);
    if !is_quitting(st.0) && (st.0.visibility is HiddenToTray || st.0.visibility is AwaitingHideSave) {
        let r = restored_visibility(stable_of(st.0.visibility));
        let s1 = WindowShellState {
            visibility: VisibilityState::Presented(r),
            dock: DockState { edge: r.spec_dock_edge(), manually_hidden: false, hover_revealed: false, ..st.0.dock },
            ..st.0
        };
        lemma_quiet_topmost((s1, st.1), false);
        let s2 = s_set_topmost((s1, st.1), false);
        let frame = s2.0.expanded.spec_for_edge(r.spec_dock_edge());
        let e0 = s2.1;
        let e1 = e0.push(WindowEffect::ApplyFrame(frame));
        let e2 = e1.push(WindowEffect::SetVisible(true));
        let e3 = e2.push(WindowEffect::FocusWindow);
        let e4 = e3.push(WindowEffect::SetImeAllowed(true));
        let e5 = e4.push(WindowEffect::SetEditorInputEnabled(true));
        lemma_quiet_push(e0, WindowEffect::ApplyFrame(frame));
        lemma_quiet_push(e1, WindowEffect::SetVisible(true));
        lemma_quiet_push(e2, WindowEffect::FocusWindow);
        lemma_quiet_push(e3, WindowEffect::SetImeAllowed(true));
        lemma_quiet_push(e4, WindowEffect::SetEditorInputEnabled(true));
        lemma_quiet_push(e5, WindowEffect::RequestRedraw);
    }
}

/// The process is told to exit only when the configuration barrier of a quit
/// completes, and the shell is then ready to exit.
pub proof fn lemma_exit_only_after_config_barrier(
    s: WindowShellState,
    intent: WindowIntent,
    animated: PhysicalRect,
)
    requires
        spec_dispatch(s, intent, animated).1.contains(WindowEffect::ExitProcess),
    ensures
        s.lifecycle == LifecycleState::Quitting(QuitStage::AwaitingConfig),
        intent matches WindowIntent::QuitBarrierCompleted { barrier, .. } && barrier
            == QuitBarrier::Config,
        spec_dispatch(s, intent, animated).0.lifecycle == LifecycleState::Quitting(
            QuitStage::ReadyToExit,
        ),
{
    lemma_effect_sources(s, intent, animated);
}

/// Destructive asset collection is requested only by a quitting shell with no
/// unresolved conflict, no unsettled paste, and no outstanding note save.
pub proof fn lemma_asset_gc_only_when_safe(
    s: WindowShellState,
    intent: WindowIntent,
    animated: PhysicalRect,
)
    requires
        spec_dispatch(s, intent, animated).1.contains(WindowEffect::RequestSafeAssetGc),
    ensures
        ({
            let n = spec_dispatch(s, intent, animated).0;
            &&& n.lifecycle == LifecycleState::Quitting(QuitStage::AwaitingAssetGc)
            &&& !n.guards.conflict_or_recovery
            &&& !n.guards.spec_paste_unsettled()
            &&& !n.guards.spec_requires_note_barrier()
        }),
{
    lemma_effect_sources(s, intent, animated);
}

/// Where the process-ending and asset-collecting effects come from.
proof fn lemma_effect_sources(s: WindowShellState, intent: WindowIntent, animated: PhysicalRect)
    ensures
        ({
            let r = spec_dispatch(s, intent, animated);
            &&& r.1.contains(WindowEffect::ExitProcess) ==> (s.lifecycle == LifecycleState::Quitting(QuitStage::AwaitingConfig)
                && (intent matches WindowIntent::QuitBarrierCompleted { barrier, .. } && barrier == QuitBarrier::Config)
                && r.0.lifecycle == LifecycleState::Quitting(QuitStage::ReadyToExit))
            &&& r.1.contains(WindowEffect::RequestSafeAssetGc) ==> (
                r.0.lifecycle == LifecycleState::Quitting(QuitStage::AwaitingAssetGc)
                && !r.0.guards.conflict_or_recovery
                && !r.0.guards.spec_paste_unsettled()
                && !r.0.guards.spec_requires_note_barrier())
        }),
{
    let e = Seq::<WindowEffect>::empty();
    assert(all_quiet(e));
    match intent {
        WindowIntent::CloseRequested { guards, .. } => lemma_quit_path_hide((with_guards(s, guards), e)),
        WindowIntent::ShowRequested { .. } => lemma_quiet_show((s, e)),
        WindowIntent::TrayToggleRequested { guards, .. } => {
            lemma_quiet_show((with_guards(s, guards), e));
            lemma_quit_path_hide((with_guards(s, guards), e));
        },
        WindowIntent::TrayQuitRequested { guards } => lemma_quit_path_request((with_guards(s, guards), e)),
        WindowIntent::ManualCollapse { now_ms } => {
            lemma_quiet_push(e, WindowEffect::CancelImePreedit);
            lemma_quiet_collapse((WindowShellState { dock: DockState { manually_hidden: true, ..s.dock }, ..s }, e.push(WindowEffect::CancelImePreedit)), now_ms, animated);
        },
        WindowIntent::EscapePressed { now_ms } => {
            lemma_quiet_push(e, WindowEffect::CancelImePreedit);
            lemma_quiet_collapse((WindowShellState { dock: DockState { manually_hidden: true, ..s.dock }, ..s }, e.push(WindowEffect::CancelImePreedit)), now_ms, animated);
        },
        WindowIntent::SensorEntered { now_ms } => lemma_quiet_push(e, WindowEffect::WakeAt(sat_add(now_ms, HOVER_REVEAL_DELAY_MS))),
        WindowIntent::PointerLeft { now_ms } => lemma_quiet_push(e, WindowEffect::WakeAt(sat_add(now_ms, HOVER_LEAVE_COLLAPSE_DELAY_MS))),
        WindowIntent::GuardsChanged { guards, now_ms } => lemma_quiet_guards((s, e), guards, now_ms, animated),
        WindowIntent::DragEnded { edge, monitor, expanded, now_ms } => lemma_quiet_drag((s, e), edge, monitor, expanded, now_ms),
        WindowIntent::DisplayTopologyChanged { monitor, expanded } => lemma_quiet_topology((s, e), monitor, expanded),
        WindowIntent::SplitModeChanged { .. } => {},
        WindowIntent::Tick { now_ms } => lemma_quiet_tick((s, e), now_ms, animated),
        WindowIntent::PasteSettled { guards } => lemma_quit_path_paste((with_guards(s, guards), e)),
        WindowIntent::HideSaveCompleted { succeeded, guards } => lemma_quit_path_hide_save((with_guards(s, guards), e), succeeded),
        WindowIntent::QuitBarrierCompleted { barrier, succeeded, guards } => lemma_quit_path_barrier((with_guards(s, guards), e), barrier, succeeded),
    }
}

/// What a step that may end the process or collect assets promises.
pub open spec fn sources_ok(r: Step) -> bool {
    &&& !r.1.contains(WindowEffect::ExitProcess)
    &&& r.1.contains(WindowEffect::RequestSafeAssetGc) ==> (
        r.0.lifecycle == LifecycleState::Quitting(QuitStage::AwaitingAssetGc)
        && !r.0.guards.conflict_or_recovery
        && !r.0.guards.spec_paste_unsettled()
        && !r.0.guards.spec_requires_note_barrier())
}

proof fn lemma_quit_path_advance(st: Step)
    requires all_quiet(st.1),
    ensures sources_ok(s_advance_quit(st)),
{
    let g = st.0.guards;
    lemma_quiet_push(st.1, WindowEffect::QuitBlocked);
    lemma_quiet_push(st.1, WindowEffect::RequestNoteSave(WindowSaveReason::Shutdown));
    if !g.spec_blocks_quit() && !g.spec_paste_unsettled() && !g.spec_requires_note_barrier() {
        let r = s_advance_quit(st);
        assert forall|i: int| 0 <= i < r.1.len() implies !(#[trigger] r.1[i] is ExitProcess) by {
            if i < st.1.len() { assert(r.1[i] == st.1[i]); }
        }
    }
}

proof fn lemma_quit_path_request(st: Step)
    requires all_quiet(st.1),
    ensures sources_ok(s_request_quit(st)),
{
    lemma_quiet_push(st.1, WindowEffect::QuitBlocked);
    lemma_quiet_push(st.1, WindowEffect::SetEditorInputEnabled(false));
    lemma_quit_path_advance((WindowShellState { deadlines: WindowDeadlines::none(), ..st.0 }, st.1.push(WindowEffect::SetEditorInputEnabled(false))));
}

proof fn lemma_quit_path_hide(st: Step)
    requires all_quiet(st.1),
    ensures sources_ok(s_hide_to_tray(st)),
{
    lemma_quiet_push(st.1, WindowEffect::ReportTrayUnavailable);
    lemma_quit_path_request((st.0, st.1.push(WindowEffect::ReportTrayUnavailable)));
    lemma_quiet_push(st.1, WindowEffect::HideBlocked);
    let restore = stable_of(st.0.visibility);
    let pending = st.0.guards.spec_paste_unsettled();
    let s1 = WindowShellState { deadlines: WindowDeadlines::none(), hide_save_pending: pending, ..st.0 };
    let e1 = st.1.push(WindowEffect::CancelImePreedit);
    let e2 = e1.push(WindowEffect::SetImeAllowed(false));
    let e3 = e2.push(WindowEffect::SetEditorInputEnabled(false));
    lemma_quiet_push(st.1, WindowEffect::CancelImePreedit);
    lemma_quiet_push(e1, WindowEffect::SetImeAllowed(false));
    lemma_quiet_push(e2, WindowEffect::SetEditorInputEnabled(false));
    lemma_quiet_hide((s1, e3), restore);
    let st2 = if s1.guards.note_save_required || pending {
        (WindowShellState { visibility: VisibilityState::AwaitingHideSave { restore }, ..s1 }, e3)
    } else {
        s_complete_hide((s1, e3), restore)
    };
    lemma_quiet_push(st2.1, WindowEffect::RequestNoteSave(WindowSaveReason::HideToTray));
}

proof fn lemma_quit_path_paste(st: Step)
    requires all_quiet(st.1),
    ensures sources_ok(s_paste_settled(st)),
{
    let s1 = WindowShellState { hide_save_pending: false, ..st.0 };
    lemma_quiet_push(st.1, WindowEffect::RequestNoteSave(WindowSaveReason::HideToTray));
    lemma_quiet_hide((s1, st.1), stable_of(s1.visibility));
    let st1 = if st.0.visibility is AwaitingHideSave && !st.0.guards.spec_paste_unsettled() {
        if s1.guards.note_save_required {
            (s1, st.1.push(WindowEffect::RequestNoteSave(WindowSaveReason::HideToTray)))
        } else {
            s_complete_hide((s1, st.1), stable_of(s1.visibility))
        }
    } else {
        st
    };
    lemma_quit_path_advance(st1);
}

proof fn lemma_quit_path_hide_save(st: Step, succeeded: bool)
    requires all_quiet(st.1),
    ensures sources_ok(s_complete_hide_save(st, succeeded)),
{
    let e1 = st.1.push(WindowEffect::SetImeAllowed(st.0.guards.window_focused));
    let e2 = e1.push(WindowEffect::SetEditorInputEnabled(true));
    let e3 = e2.push(WindowEffect::HideCancelled);
    lemma_quiet_push(st.1, WindowEffect::SetImeAllowed(st.0.guards.window_focused));
    lemma_quiet_push(e1, WindowEffect::SetEditorInputEnabled(true));
    lemma_quiet_push(e2, WindowEffect::HideCancelled);
    lemma_quiet_push(e3, WindowEffect::RequestRedraw);
    lemma_quiet_push(st.1, WindowEffect::RequestNoteSave(WindowSaveReason::HideToTray));
    if let VisibilityState::AwaitingHideSave { restore } = st.0.visibility {
        lemma_quiet_hide(st, restore);
    }
}

proof fn lemma_quit_path_barrier(st: Step, barrier: QuitBarrier, succeeded: bool)
    requires all_quiet(st.1),
    ensures
        ({
            let r = s_complete_quit_barrier(st, barrier, succeeded);
            &&& r.1.contains(WindowEffect::ExitProcess) ==> (st.0.lifecycle == LifecycleState::Quitting(QuitStage::AwaitingConfig)
                && barrier == QuitBarrier::Config
                && r.0.lifecycle == LifecycleState::Quitting(QuitStage::ReadyToExit))
            &&& r.1.contains(WindowEffect::RequestSafeAssetGc) ==> (
                r.0.lifecycle == LifecycleState::Quitting(QuitStage::AwaitingAssetGc)
                && !r.0.guards.conflict_or_recovery
                && !r.0.guards.spec_paste_unsettled()
                && !r.0.guards.spec_requires_note_barrier())
        }),
{
    lemma_quit_path_advance(st);
    lemma_quiet_push(st.1, WindowEffect::QuitWarning(barrier));
    let eff = if !succeeded { st.1.push(WindowEffect::QuitWarning(barrier)) } else { st.1 };
    lemma_quit_path_advance((st.0, eff));
    lemma_quiet_push(eff, WindowEffect::RequestConfigFlush);
    lemma_quiet_push(st.1, WindowEffect::SetEditorInputEnabled(true));
    lemma_quiet_push(st.1.push(WindowEffect::SetEditorInputEnabled(true)), WindowEffect::QuitCancelled(barrier));
    if barrier == QuitBarrier::Config && expected_barrier(st.0.lifecycle) == Some(barrier) {
        let r = s_complete_quit_barrier(st, barrier, succeeded);
        assert(r.1 == eff.push(WindowEffect::ExitProcess));
        assert forall|i: int| 0 <= i < r.1.len() implies !(#[trigger] r.1[i] is RequestSafeAssetGc) by {
            if i < eff.len() { assert(r.1[i] == eff[i]); }
        }
    }
}

/// While quitting, showing, collapsing, hovering the sensor and finishing a
/// drag change nothing and emit nothing.
pub proof fn lemma_quitting_freezes_window_moves(
    s: WindowShellState,
    intent: WindowIntent,
    animated: PhysicalRect,
)
    requires
        is_quitting(s),
        intent is ShowRequested || intent is ManualCollapse || intent is EscapePressed
            || intent is SensorEntered || intent is DragEnded,
    ensures
        spec_dispatch(s, intent, animated) == (s, Seq::<WindowEffect>::empty()),
{
}

/// A conflict or a pending recovery choice blocks hiding a running shell: the
/// only effect is the report, and the window stays as it was.
pub proof fn lemma_conflict_blocks_hide(
    s: WindowShellState,
    now_ms: u64,
    guards: super::state::WindowGuardSnapshot,
    animated: PhysicalRect,
)
    requires
        !is_quitting(s),
        s.tray_available,
        guards.conflict_or_recovery,
    ensures
        spec_dispatch(s, WindowIntent::CloseRequested { now_ms, guards }, animated) == (
            with_guards(s, guards),
            seq![WindowEffect::HideBlocked],
        ),
{
}

/// A window hidden to the tray never holds the temporary sensor topmost
/// projection, whatever intent arrives.
pub proof fn lemma_hidden_window_is_never_topmost(
    s: WindowShellState,
    intent: WindowIntent,
    animated: PhysicalRect,
)
    requires
        s.visibility is HiddenToTray ==> !s.temporary_sensor_topmost,
    ensures
        ({
            let n = spec_dispatch(s, intent, animated).0;
            n.visibility is HiddenToTray ==> !n.temporary_sensor_topmost
        }),
{
    match intent {
        WindowIntent::CloseRequested { .. } => {},
        WindowIntent::ShowRequested { .. } => {},
        WindowIntent::TrayToggleRequested { .. } => {},
        WindowIntent::TrayQuitRequested { .. } => {},
        WindowIntent::ManualCollapse { .. } => {},
        WindowIntent::EscapePressed { .. } => {},
        WindowIntent::SensorEntered { .. } => {},
        WindowIntent::PointerLeft { .. } => {},
        WindowIntent::GuardsChanged { .. } => {},
        WindowIntent::DragEnded { .. } => {},
        WindowIntent::DisplayTopologyChanged { .. } => {},
        WindowIntent::SplitModeChanged { .. } => {},
        WindowIntent::Tick { .. } => {},
        WindowIntent::PasteSettled { .. } => {},
        WindowIntent::HideSaveCompleted { .. } => {},
        WindowIntent::QuitBarrierCompleted { .. } => {},
    }
}

/// Whether the window is animating toward its collapsed sensor strip.
pub open spec fn collapsing(v: VisibilityState) -> bool {
    v matches VisibilityState::Animating(a) && a.final_visibility is DockedCollapsed
}

/// While a guard blocks auto-collapse (focus, IME composition, a drag, an
/// open popup, a conflict or recovery choice), a timer tick never starts
/// collapsing a presented window.
pub proof fn lemma_guards_block_tick_collapse(s: WindowShellState, now: u64, animated: PhysicalRect)
    requires
        s.guards.spec_blocks_auto_collapse(),
        s.visibility is Presented,
    ensures
        !collapsing(spec_dispatch(s, WindowIntent::Tick { now_ms: now }, animated).0.visibility),
{
}

} // verus!
