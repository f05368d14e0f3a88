//! Deterministic mutation owner for window, docking, timers, and quit staging.
//!
//! The reducer's transition function is stated in `spec_dispatch`; every
//! executable handler is proved to follow it exactly.

use vstd::prelude::*;

use super::geometry::{
    collapsed_frame, spec_collapsed_frame, EdgeFrames, MonitorMetrics, PhysicalRect,
};
use super::state::{
    expanded_for, spec_min_u64, AnimationState, DockEdge, DockState, LifecycleState, QuitBarrier,
    QuitStage, StableVisibility, VisibilityState, WindowDeadlines, WindowEffect,
    WindowGuardSnapshot, WindowIntent, WindowSaveReason, WindowShellState, ANIMATION_DURATION_MS,
    ANIMATION_FRAME_MS, AUTO_COLLAPSE_DELAY_MS, HOVER_LEAVE_COLLAPSE_DELAY_MS,
    HOVER_REVEAL_DELAY_MS,
};

verus! {

/// A window state together with the effects emitted so far.
pub type Step = (WindowShellState, Seq<WindowEffect>);

pub open spec fn sat_add(a: u64, b: u64) -> u64 {
    if a + b > u64::MAX {
        u64::MAX
    } else {
        (a + b) as u64
    }
}

fn saturating_add(a: u64, b: u64) -> (r: u64)
    ensures
        r == sat_add(a, b),
{
    if a > u64::MAX - b {
        u64::MAX
    } else {
        a + b
    }
}

/// The stable visibility the window is in or is heading to.
pub open spec fn stable_of(v: VisibilityState) -> StableVisibility {
    match v {
        VisibilityState::Presented(s) => s,
        VisibilityState::AwaitingHideSave { restore } => restore,
        VisibilityState::HiddenToTray { restore } => restore,
        VisibilityState::Animating(a) => a.final_visibility,
    }
}

pub open spec fn is_quitting(s: WindowShellState) -> bool {
    s.lifecycle is Quitting
}

pub open spec fn s_set_topmost(st: Step, enabled: bool) -> Step {
    if st.0.temporary_sensor_topmost != enabled {
        (
            WindowShellState { temporary_sensor_topmost: enabled, ..st.0 },
            st.1.push(WindowEffect::SetTemporarySensorTopmost(enabled)),
        )
    } else {
        st
    }
}

pub open spec fn s_start_animation(
    st: Step,
    now: u64,
    target: PhysicalRect,
    fin: StableVisibility,
    animated: PhysicalRect,
) -> Step {
    let from = if st.0.visibility is Animating {
        animated
    } else {
        st.0.frame
    };
    let end = sat_add(now, ANIMATION_DURATION_MS);
    let next = spec_min_u64(sat_add(now, ANIMATION_FRAME_MS), end);
    (
        WindowShellState {
            frame: from,
            visibility: VisibilityState::Animating(
                AnimationState {
                    from,
                    to: target,
                    started_ms: now,
                    end_ms: end,
                    next_frame_ms: next,
                    final_visibility: fin,
                },
            ),
            ..st.0
        },
        st.1.push(WindowEffect::RequestRedraw).push(WindowEffect::WakeAt(next)),
    )
}

pub open spec fn s_start_collapse(st: Step, now: u64, animated: PhysicalRect) -> Step {
    let cur = stable_of(st.0.visibility);
    match cur.spec_dock_edge() {
        None => st,
        Some(edge) => if cur is DockedCollapsed {
            st
        } else {
            let s1 = WindowShellState {
                deadlines: WindowDeadlines::none(),
                dock: DockState { edge: Some(edge), hover_revealed: false, ..st.0.dock },
                ..st.0
            };
            let st2 = s_set_topmost((s1, st.1), true);
            let target = spec_collapsed_frame(
                st2.0.expanded.spec_for_edge(Some(edge)),
                edge,
                st2.0.dock.monitor,
            );
            s_start_animation(st2, now, target, StableVisibility::DockedCollapsed(edge), animated)
        },
    }
}

pub open spec fn s_start_expand(st: Step, now: u64, hover: bool, animated: PhysicalRect) -> Step {
    let cur = stable_of(st.0.visibility);
    match cur.spec_dock_edge() {
        None => st,
        Some(edge) => if cur is DockedExpanded && !(st.0.visibility is Animating) {
            st
        } else {
            let s1 = WindowShellState {
                deadlines: WindowDeadlines::none(),
                dock: DockState { hover_revealed: hover, manually_hidden: false, ..st.0.dock },
                ..st.0
            };
            let st2 = s_set_topmost((s1, st.1), hover && !s1.guards.window_focused);
            let target = st2.0.expanded.spec_for_edge(Some(edge));
            s_start_animation(st2, now, target, StableVisibility::DockedExpanded(edge), animated)
        },
    }
}

pub open spec fn s_update_guards(
    st: Step,
    guards: WindowGuardSnapshot,
    now: u64,
    animated: PhysicalRect,
) -> Step {
    let gained = !st.0.guards.window_focused && guards.window_focused;
    let s1: Step = (WindowShellState { guards, ..st.0 }, st.1);
    let s2 = if gained {
        s_set_topmost(s1, false)
    } else {
        s1
    };
    if guards.spec_blocks_auto_collapse() {
        let s3 = WindowShellState {
            deadlines: WindowDeadlines {
                auto_collapse_ms: None,
                hover_leave_collapse_ms: None,
                ..s2.0.deadlines
            },
            ..s2.0
        };
        if !s3.dock.manually_hidden && (s3.visibility matches VisibilityState::Animating(a)
            && a.final_visibility is DockedCollapsed) {
            s_start_expand((s3, s2.1), now, false, animated)
        } else {
            (s3, s2.1)
        }
    } else if stable_of(s2.0.visibility) is DockedExpanded && s2.0.deadlines.auto_collapse_ms is None
        && !is_quitting(s2.0) {
        let d = sat_add(now, AUTO_COLLAPSE_DELAY_MS);
        (
            WindowShellState {
                deadlines: WindowDeadlines { auto_collapse_ms: Some(d), ..s2.0.deadlines },
                ..s2.0
            },
            s2.1.push(WindowEffect::WakeAt(d)),
        )
    } else {
        s2
    }
}

pub open spec fn s_finish_drag(
    st: Step,
    edge: Option<DockEdge>,
    monitor: MonitorMetrics,
    expanded: EdgeFrames,
    now: u64,
) -> Step {
    if is_quitting(st.0) {
        st
    } else {
        let s1 = WindowShellState {
            deadlines: WindowDeadlines::none(),
            expanded,
            dock: DockState { edge, monitor, manually_hidden: false, hover_revealed: false },
            ..st.0
        };
        let s2 = s_set_topmost((s1, st.1), false);
        let frame = expanded.spec_for_edge(edge);
        let s3 = WindowShellState {
            frame,
            visibility: VisibilityState::Presented(expanded_for(edge)),
            ..s2.0
        };
        let eff = s2.1.push(WindowEffect::ApplyFrame(frame)).push(
            WindowEffect::CommitPlacement { dock_edge: edge },
        );
        if edge is Some && !s3.guards.spec_blocks_auto_collapse() {
            let d = sat_add(now, AUTO_COLLAPSE_DELAY_MS);
            (
                WindowShellState {
                    deadlines: WindowDeadlines { auto_collapse_ms: Some(d), ..s3.deadlines },
                    ..s3
                },
                eff.push(WindowEffect::WakeAt(d)),
            )
        } else {
            (s3, eff)
        }
    }
}

pub open spec fn s_recover_topology(st: Step, monitor: MonitorMetrics, expanded: EdgeFrames) -> Step {
    let prior = stable_of(st.0.visibility);
    let edge = prior.spec_dock_edge();
    let stable = if st.0.visibility is HiddenToTray {
        prior
    } else {
        expanded_for(edge)
    };
    let s1 = WindowShellState {
        expanded,
        dock: DockState { monitor, edge, hover_revealed: false, ..st.0.dock },
        ..st.0
    };
    let s2 = s_set_topmost((s1, st.1), stable is DockedCollapsed && !(st.0.visibility is HiddenToTray));
    let exp = expanded.spec_for_edge(edge);
    let frame = match stable {
        StableVisibility::DockedCollapsed(e) => spec_collapsed_frame(exp, e, monitor),
        _ => exp,
    };
    let vis = match st.0.visibility {
        VisibilityState::HiddenToTray { .. } => VisibilityState::HiddenToTray { restore: stable },
        VisibilityState::AwaitingHideSave { .. } => VisibilityState::AwaitingHideSave {
            restore: stable,
        },
        _ => VisibilityState::Presented(stable),
    };
    let eff = if vis is Presented {
        s2.1.push(WindowEffect::ApplyFrame(frame))
    } else {
        s2.1
    };
    (
        WindowShellState { frame, visibility: vis, ..s2.0 },
        eff.push(WindowEffect::CommitPlacement { dock_edge: edge }),
    )
}

pub open spec fn s_tick_deadlines(st: Step, now: u64, animated: PhysicalRect) -> Step {
    let dl = st.0.deadlines;
    let fire = (dl.auto_collapse_ms matches Some(d) && now >= d) || (dl.hover_leave_collapse_ms matches Some(
        d,
    ) && now >= d);
    let st2 = if fire {
        let s = WindowShellState {
            deadlines: WindowDeadlines {
                auto_collapse_ms: None,
                hover_leave_collapse_ms: None,
                ..dl
            },
            ..st.0
        };
        if !s.guards.spec_blocks_auto_collapse() {
            s_start_collapse((s, st.1), now, animated)
        } else {
            (s, st.1)
        }
    } else {
        st
    };
    if st2.0.deadlines.hover_reveal_ms matches Some(d) && now >= d {
        let s = WindowShellState {
            deadlines: WindowDeadlines { hover_reveal_ms: None, ..st2.0.deadlines },
            ..st2.0
        };
        s_start_expand((s, st2.1), now, true, animated)
    } else {
        st2
    }
}

pub open spec fn s_tick(st: Step, now: u64, animated: PhysicalRect) -> Step {
    match st.0.visibility {
        VisibilityState::Animating(a) => if now < a.end_ms {
            let next = spec_min_u64(sat_add(now, ANIMATION_FRAME_MS), a.end_ms);
            (
                WindowShellState {
                    frame: animated,
                    visibility: VisibilityState::Animating(
                        AnimationState { next_frame_ms: next, ..a },
                    ),
                    ..st.0
                },
                st.1.push(WindowEffect::ApplyFrame(animated)).push(
                    WindowEffect::RequestRedraw,
                ).push(WindowEffect::WakeAt(next)),
            )
        } else {
            let s1 = WindowShellState {
                frame: a.to,
                visibility: VisibilityState::Presented(a.final_visibility),
                ..st.0
            };
            s_tick_deadlines(
                (
                    s1,
                    st.1.push(WindowEffect::ApplyFrame(a.to)).push(WindowEffect::RequestRedraw),
                ),
                now,
                animated,
            )
        },
        _ => s_tick_deadlines(st, now, animated),
    }
}

pub open spec fn s_complete_hide(st: Step, restore: StableVisibility) -> Step {
    let s1 = WindowShellState {
        visibility: VisibilityState::HiddenToTray { restore },
        hide_save_pending: false,
        ..st.0
    };
    let s2 = s_set_topmost((s1, st.1), false);
    (s2.0, s2.1.push(WindowEffect::SetVisible(false)).push(WindowEffect::ReleaseHiddenCaches))
}

pub open spec fn s_advance_quit(st: Step) -> Step {
    let g = st.0.guards;
    if g.spec_blocks_quit() {
        (
            WindowShellState { lifecycle: LifecycleState::Running, ..st.0 },
            st.1.push(WindowEffect::QuitBlocked),
        )
    } else if g.spec_paste_unsettled() {
        (
            WindowShellState {
                lifecycle: LifecycleState::Quitting(QuitStage::AwaitingPaste),
                ..st.0
            },
            st.1,
        )
    } else if g.spec_requires_note_barrier() {
        (
            WindowShellState {
                lifecycle: LifecycleState::Quitting(QuitStage::AwaitingNoteSave),
                ..st.0
            },
            if !g.note_save_in_flight {
                st.1.push(WindowEffect::RequestNoteSave(WindowSaveReason::Shutdown))
            } else {
                st.1
            },
        )
    } else {
        (
            WindowShellState {
                lifecycle: LifecycleState::Quitting(QuitStage::AwaitingAssetGc),
                ..st.0
            },
            st.1.push(WindowEffect::RequestSafeAssetGc),
        )
    }
}

pub open spec fn s_request_quit(st: Step) -> Step {
    if is_quitting(st.0) {
        st
    } else if st.0.guards.spec_blocks_quit() {
        (st.0, st.1.push(WindowEffect::QuitBlocked))
    } else {
        s_advance_quit(
            (
                WindowShellState { deadlines: WindowDeadlines::none(), ..st.0 },
                st.1.push(WindowEffect::SetEditorInputEnabled(false)),
            ),
        )
    }
}

pub open spec fn s_hide_to_tray(st: Step) -> Step {
    if is_quitting(st.0) {
        st
    } else if !st.0.tray_available {
        s_request_quit((st.0, st.1.push(WindowEffect::ReportTrayUnavailable)))
    } else if st.0.guards.conflict_or_recovery {
        (st.0, st.1.push(WindowEffect::HideBlocked))
    } else if st.0.visibility is AwaitingHideSave || st.0.visibility is HiddenToTray {
        st
    } else {
        let restore = stable_of(st.0.visibility);
        let pending = st.0.guards.spec_paste_unsettled();
        let s1 = WindowShellState {
            deadlines: WindowDeadlines::none(),
            hide_save_pending: pending,
            ..st.0
        };
        let eff = st.1.push(WindowEffect::CancelImePreedit).push(
            WindowEffect::SetImeAllowed(false),
        ).push(WindowEffect::SetEditorInputEnabled(false));
        let st2 = if s1.guards.note_save_required || pending {
            (WindowShellState { visibility: VisibilityState::AwaitingHideSave { restore }, ..s1 }, eff)
        } else {
            s_complete_hide((s1, eff), restore)
        };
        if st2.0.guards.note_save_required && !st2.0.hide_save_pending {
            (st2.0, st2.1.push(WindowEffect::RequestNoteSave(WindowSaveReason::HideToTray)))
        } else {
            st2
        }
    }
}

pub open spec fn restored_visibility(restore: StableVisibility) -> StableVisibility {
    match restore {
        StableVisibility::DockedCollapsed(edge) => StableVisibility::DockedExpanded(edge),
        other => other,
    }
}

pub open spec fn s_show(st: Step) -> Step {
    if is_quitting(st.0) {
        st
    } else if st.0.visibility is HiddenToTray || st.0.visibility is AwaitingHideSave {
        let r = restored_visibility(stable_of(st.0.visibility));
        let s1 = WindowShellState {
            visibility: VisibilityState::Presented(r),
            dock: DockState {
                edge: r.spec_dock_edge(),
                manually_hidden: false,
                hover_revealed: false,
                ..st.0.dock
            },
            ..st.0
        };
        let s2 = s_set_topmost((s1, st.1), false);
        let frame = s2.0.expanded.spec_for_edge(r.spec_dock_edge());
        (
            WindowShellState { deadlines: WindowDeadlines::none(), frame, ..s2.0 },
            s2.1.push(WindowEffect::ApplyFrame(frame)).push(WindowEffect::SetVisible(true)).push(
                WindowEffect::FocusWindow,
            ).push(WindowEffect::SetImeAllowed(true)).push(
                WindowEffect::SetEditorInputEnabled(true),
            ).push(WindowEffect::RequestRedraw),
        )
    } else {
        (st.0, st.1.push(WindowEffect::FocusWindow))
    }
}

pub open spec fn s_paste_settled(st: Step) -> Step {
    let st1 = if st.0.visibility is AwaitingHideSave && !st.0.guards.spec_paste_unsettled() {
        let s1 = WindowShellState { hide_save_pending: false, ..st.0 };
        if s1.guards.note_save_required {
            (s1, st.1.push(WindowEffect::RequestNoteSave(WindowSaveReason::HideToTray)))
        } else {
            s_complete_hide((s1, st.1), stable_of(s1.visibility))
        }
    } else {
        st
    };
    if st1.0.lifecycle == LifecycleState::Quitting(QuitStage::AwaitingPaste) {
        s_advance_quit(st1)
    } else {
        st1
    }
}

pub open spec fn s_complete_hide_save(st: Step, succeeded: bool) -> Step {
    match st.0.visibility {
        VisibilityState::AwaitingHideSave { restore } => if !succeeded {
            (
                WindowShellState {
                    visibility: VisibilityState::Presented(restore),
                    hide_save_pending: false,
                    ..st.0
                },
                st.1.push(WindowEffect::SetImeAllowed(st.0.guards.window_focused)).push(
                    WindowEffect::SetEditorInputEnabled(true),
                ).push(WindowEffect::HideCancelled).push(WindowEffect::RequestRedraw),
            )
        } else if st.0.guards.spec_paste_unsettled() {
            (WindowShellState { hide_save_pending: true, ..st.0 }, st.1)
        } else if st.0.guards.note_save_required {
            (st.0, st.1.push(WindowEffect::RequestNoteSave(WindowSaveReason::HideToTray)))
        } else {
            s_complete_hide(st, restore)
        },
        _ => st,
    }
}

/// The barrier a quitting shell waits for in its current stage.
pub open spec fn expected_barrier(l: LifecycleState) -> Option<QuitBarrier> {
    match l {
        LifecycleState::Quitting(QuitStage::AwaitingPaste) => Some(QuitBarrier::Paste),
        LifecycleState::Quitting(QuitStage::AwaitingNoteSave) => Some(QuitBarrier::NoteSave),
        LifecycleState::Quitting(QuitStage::AwaitingAssetGc) => Some(QuitBarrier::AssetGc),
        LifecycleState::Quitting(QuitStage::AwaitingConfig) => Some(QuitBarrier::Config),
        _ => None,
    }
}

pub open spec fn s_complete_quit_barrier(st: Step, barrier: QuitBarrier, succeeded: bool) -> Step {
    if expected_barrier(st.0.lifecycle) != Some(barrier) {
        st
    } else {
        match barrier {
            QuitBarrier::AssetGc => {
                let eff = if !succeeded {
                    st.1.push(WindowEffect::QuitWarning(QuitBarrier::AssetGc))
                } else {
                    st.1
                };
                if st.0.guards.spec_paste_unsettled() || st.0.guards.spec_requires_note_barrier() {
                    s_advance_quit((st.0, eff))
                } else {
                    (
                        WindowShellState {
                            lifecycle: LifecycleState::Quitting(QuitStage::AwaitingConfig),
                            ..st.0
                        },
                        eff.push(WindowEffect::RequestConfigFlush),
                    )
                }
            },
            QuitBarrier::Config => {
                let eff = if !succeeded {
                    st.1.push(WindowEffect::QuitWarning(QuitBarrier::Config))
                } else {
                    st.1
                };
                (
                    WindowShellState {
                        lifecycle: LifecycleState::Quitting(QuitStage::ReadyToExit),
                        ..st.0
                    },
                    eff.push(WindowEffect::ExitProcess),
                )
            },
            _ => if succeeded {
                s_advance_quit(st)
            } else {
                (
                    WindowShellState { lifecycle: LifecycleState::Running, ..st.0 },
                    st.1.push(WindowEffect::SetEditorInputEnabled(true)).push(
                        WindowEffect::QuitCancelled(barrier),
                    ),
                )
            },
        }
    }
}

pub open spec fn s_manual_collapse(st: Step, now: u64, animated: PhysicalRect) -> Step {
    if !is_quitting(st.0) && stable_of(st.0.visibility).spec_dock_edge() is Some {
        s_start_collapse(
            (
                WindowShellState {
                    dock: DockState { manually_hidden: true, ..st.0.dock },
                    ..st.0
                },
                st.1.push(WindowEffect::CancelImePreedit),
            ),
            now,
            animated,
        )
    } else {
        st
    }
}

pub open spec fn with_guards(s: WindowShellState, guards: WindowGuardSnapshot) -> WindowShellState {
    WindowShellState { guards, ..s }
}

/// The reducer's transition: the state after one intent and the effects it
/// emits, given the frame the running animation shows at the intent's time.
pub open spec fn spec_dispatch(
    s: WindowShellState,
    intent: WindowIntent,
    animated: PhysicalRect,
) -> Step {
    let e = Seq::<WindowEffect>::empty();
    match intent {
        WindowIntent::CloseRequested { guards, .. } => s_hide_to_tray((with_guards(s, guards), e)),
        WindowIntent::ShowRequested { .. } => s_show((s, e)),
        WindowIntent::TrayToggleRequested { guards, .. } => {
            let s1 = with_guards(s, guards);
            if s1.visibility is HiddenToTray {
                s_show((s1, e))
            } else {
                s_hide_to_tray((s1, e))
            }
        },
        WindowIntent::TrayQuitRequested { guards } => s_request_quit((with_guards(s, guards), e)),
        WindowIntent::ManualCollapse { now_ms } => s_manual_collapse((s, e), now_ms, animated),
        WindowIntent::EscapePressed { now_ms } => s_manual_collapse((s, e), now_ms, animated),
        WindowIntent::SensorEntered { now_ms } => if stable_of(s.visibility) is DockedCollapsed
            && !is_quitting(s) {
            let d = sat_add(now_ms, HOVER_REVEAL_DELAY_MS);
            (
                WindowShellState {
                    deadlines: WindowDeadlines { hover_reveal_ms: Some(d), ..s.deadlines },
                    ..s
                },
                e.push(WindowEffect::WakeAt(d)),
            )
        } else {
            (s, e)
        },
        WindowIntent::PointerLeft { now_ms } => {
            let s1 = WindowShellState {
                deadlines: WindowDeadlines { hover_reveal_ms: None, ..s.deadlines },
                ..s
            };
            if s1.dock.hover_revealed && !s1.guards.spec_blocks_auto_collapse() && !is_quitting(
                s1,
            ) {
                let d = sat_add(now_ms, HOVER_LEAVE_COLLAPSE_DELAY_MS);
                (
                    WindowShellState {
                        deadlines: WindowDeadlines {
                            hover_leave_collapse_ms: Some(d),
                            ..s1.deadlines
                        },
                        ..s1
                    },
                    e.push(WindowEffect::WakeAt(d)),
                )
            } else {
                (s1, e)
            }
        },
        WindowIntent::GuardsChanged { guards, now_ms } => s_update_guards(
            (s, e),
            guards,
            now_ms,
            animated,
        ),
        WindowIntent::DragEnded { edge, monitor, expanded, now_ms } => s_finish_drag(
            (s, e),
            edge,
            monitor,
            expanded,
            now_ms,
        ),
        WindowIntent::DisplayTopologyChanged { monitor, expanded } => s_recover_topology(
            (s, e),
            monitor,
            expanded,
        ),
        WindowIntent::SplitModeChanged { .. } => (s, e),
        WindowIntent::Tick { now_ms } => s_tick((s, e), now_ms, animated),
        WindowIntent::PasteSettled { guards } => s_paste_settled((with_guards(s, guards), e)),
        WindowIntent::HideSaveCompleted { succeeded, guards } => s_complete_hide_save(
            (with_guards(s, guards), e),
            succeeded,
        ),
        WindowIntent::QuitBarrierCompleted { barrier, succeeded, guards } => s_complete_quit_barrier(
            (with_guards(s, guards), e),
            barrier,
            succeeded,
        ),
    }
}

/// The initial state of the shell for a placement's expanded frames on a display.
pub open spec fn spec_initial_state(
    expanded: EdgeFrames,
    initial_visibility: StableVisibility,
    monitor: MonitorMetrics,
    tray_available: bool,
) -> WindowShellState {
    let edge = initial_visibility.spec_dock_edge();
    let exp = expanded.spec_for_edge(edge);
    WindowShellState {
        visibility: VisibilityState::Presented(initial_visibility),
        dock: DockState {
            edge,
            monitor,
            manually_hidden: initial_visibility is DockedCollapsed,
            hover_revealed: false,
        },
        expanded,
        frame: match initial_visibility {
            StableVisibility::DockedCollapsed(e) => spec_collapsed_frame(exp, e, monitor),
            _ => exp,
        },
        guards: WindowGuardSnapshot {
            window_focused: false,
            ime_composing: false,
            dragging: false,
            popup_open: false,
            conflict_or_recovery: false,
            paste_pending: false,
            asset_transaction_pending: false,
            note_save_required: false,
            note_save_in_flight: false,
        },
        deadlines: WindowDeadlines::none(),
        lifecycle: LifecycleState::Running,
        tray_available,
        hide_save_pending: false,
        temporary_sensor_topmost: initial_visibility is DockedCollapsed,
    }
}

pub struct WindowShellCoordinator {
    pub state: WindowShellState,
}

impl WindowShellCoordinator {
    /// A shell presenting `initial_visibility` for a placement whose expanded
    /// frames on `monitor` are `expanded`.
    pub fn new(
        expanded: EdgeFrames,
        initial_visibility: StableVisibility,
        monitor: MonitorMetrics,
        tray_available: bool,
    ) -> (r: WindowShellCoordinator)
        ensures
            r.state == spec_initial_state(expanded, initial_visibility, monitor, tray_available),
    {
        let edge = initial_visibility.dock_edge();
        let exp = expanded.for_edge(edge);
        let collapsed = match initial_visibility {
            StableVisibility::DockedCollapsed(_) => true,
            _ => false,
        };
        let frame = match initial_visibility {
            StableVisibility::DockedCollapsed(e) => collapsed_frame(exp, e, &monitor),
            _ => exp,
        };
        WindowShellCoordinator {
            state: WindowShellState {
                visibility: VisibilityState::Presented(initial_visibility),
                dock: DockState { edge, monitor, manually_hidden: collapsed, hover_revealed: false },
                expanded,
                frame,
                guards: WindowGuardSnapshot::default(),
                deadlines: WindowDeadlines::default(),
                lifecycle: LifecycleState::Running,
                tray_available,
                hide_save_pending: false,
                temporary_sensor_topmost: collapsed,
            },
        }
    }

    pub fn state(&self) -> (r: &WindowShellState)
        ensures
            *r == self.state,
    {
        &self.state
    }

    /// The stable visibility the window is in or is heading to.
    pub fn current_stable(&self) -> (r: StableVisibility)
        ensures
            r == stable_of(self.state.visibility),
    {
        match self.state.visibility {
            VisibilityState::Presented(stable) => stable,
            VisibilityState::AwaitingHideSave { restore } => restore,
            VisibilityState::HiddenToTray { restore } => restore,
            VisibilityState::Animating(animation) => animation.final_visibility,
        }
    }

    /// Applies one intent. `animated` is the frame the running animation shows
    /// at the intent's time; it is read only while the window is animating.
    pub fn dispatch(&mut self, intent: WindowIntent, animated: PhysicalRect) -> (effects: Vec<
        WindowEffect,
    >)
        ensures
            (final(self).state, effects@) == spec_dispatch(old(self).state, intent, animated),
    {
        let mut effects: Vec<WindowEffect> = Vec::new();
        match intent {
            WindowIntent::CloseRequested { guards, .. } => {
                self.state.guards = guards;
                self.hide_to_tray(&mut effects);
            },
            WindowIntent::ShowRequested { .. } => self.show(&mut effects),
            WindowIntent::TrayToggleRequested { guards, .. } => {
                self.state.guards = guards;
                if let VisibilityState::HiddenToTray { .. } = self.state.visibility {
                    self.show(&mut effects);
                } else {
                    self.hide_to_tray(&mut effects);
                }
            },
            WindowIntent::TrayQuitRequested { guards } => {
                self.state.guards = guards;
                self.request_quit(&mut effects);
            },
            WindowIntent::ManualCollapse { now_ms } => self.manual_collapse(
                now_ms,
                animated,
                &mut effects,
            ),
            WindowIntent::EscapePressed { now_ms } => self.manual_collapse(
                now_ms,
                animated,
                &mut effects,
            ),
            WindowIntent::SensorEntered { now_ms } => {
                let collapsed = match self.current_stable() {
                    StableVisibility::DockedCollapsed(_) => true,
                    _ => false,
                };
                if collapsed && !self.state.lifecycle.is_quitting() {
                    let deadline = saturating_add(now_ms, HOVER_REVEAL_DELAY_MS);
                    self.state.deadlines.hover_reveal_ms = Some(deadline);
                    effects.push(WindowEffect::WakeAt(deadline));
                }
            },
            WindowIntent::PointerLeft { now_ms } => {
                self.state.deadlines.hover_reveal_ms = None;
                if self.state.dock.hover_revealed && !self.state.guards.blocks_auto_collapse()
                    && !self.state.lifecycle.is_quitting() {
                    let deadline = saturating_add(now_ms, HOVER_LEAVE_COLLAPSE_DELAY_MS);
                    self.state.deadlines.hover_leave_collapse_ms = Some(deadline);
                    effects.push(WindowEffect::WakeAt(deadline));
                }
            },
            WindowIntent::GuardsChanged { guards, now_ms } => {
                self.update_guards(guards, now_ms, animated, &mut effects);
            },
            WindowIntent::DragEnded { edge, monitor, expanded, now_ms } => {
                self.finish_drag(edge, monitor, expanded, now_ms, &mut effects);
            },
            WindowIntent::DisplayTopologyChanged { monitor, expanded } => {
                self.recover_topology(monitor, expanded, &mut effects);
            },
            WindowIntent::SplitModeChanged { .. } => {
                // Every view mode keeps the user-selected width; Split is a
                // projection of the panes, not a geometry policy.
            },
            WindowIntent::Tick { now_ms } => self.tick(now_ms, animated, &mut effects),
            WindowIntent::PasteSettled { guards } => {
                self.state.guards = guards;
                self.paste_settled(&mut effects);
            },
            WindowIntent::HideSaveCompleted { succeeded, guards } => {
                self.state.guards = guards;
                self.complete_hide_save(succeeded, &mut effects);
            },
            WindowIntent::QuitBarrierCompleted { barrier, succeeded, guards } => {
                self.state.guards = guards;
                self.complete_quit_barrier(barrier, succeeded, &mut effects);
            },
        }
        effects
    }

    fn manual_collapse(&mut self, now_ms: u64, animated: PhysicalRect, effects: &mut Vec<WindowEffect>)
        ensures
            (final(self).state, final(effects)@) == s_manual_collapse(
                (old(self).state, old(effects)@),
                now_ms,
                animated,
            ),
    {
        if !self.state.lifecycle.is_quitting() && self.current_stable().dock_edge().is_some() {
            effects.push(WindowEffect::CancelImePreedit);
            self.state.dock.manually_hidden = true;
            self.start_collapse(now_ms, animated, effects);
        }
    }

    fn set_temporary_sensor_topmost(&mut self, enabled: bool, effects: &mut Vec<WindowEffect>)
        ensures
            (final(self).state, final(effects)@) == s_set_topmost(
                (old(self).state, old(effects)@),
                enabled,
            ),
    {
        if self.state.temporary_sensor_topmost != enabled {
            self.state.temporary_sensor_topmost = enabled;
            effects.push(WindowEffect::SetTemporarySensorTopmost(enabled));
        }
    }

    fn start_animation(
        &mut self,
        now_ms: u64,
        target: PhysicalRect,
        final_visibility: StableVisibility,
        animated: PhysicalRect,
        effects: &mut Vec<WindowEffect>,
    )
        ensures
            (final(self).state, final(effects)@) == s_start_animation(
                (old(self).state, old(effects)@),
                now_ms,
                target,
                final_visibility,
                animated,
            ),
    {
        let from = match self.state.visibility {
            VisibilityState::Animating(_) => animated,
            _ => self.state.frame,
        };
        let end_ms = saturating_add(now_ms, ANIMATION_DURATION_MS);
        let step = saturating_add(now_ms, ANIMATION_FRAME_MS);
        let next_frame_ms = if step <= end_ms {
            step
        } else {
            end_ms
        };
        self.state.frame = from;
        self.state.visibility = VisibilityState::Animating(
            AnimationState {
                from,
                to: target,
                started_ms: now_ms,
                end_ms,
                next_frame_ms,
                final_visibility,
            },
        );
        effects.push(WindowEffect::RequestRedraw);
        effects.push(WindowEffect::WakeAt(next_frame_ms));
    }

    fn start_collapse(&mut self, now_ms: u64, animated: PhysicalRect, effects: &mut Vec<WindowEffect>)
        ensures
            (final(self).state, final(effects)@) == s_start_collapse(
                (old(self).state, old(effects)@),
                now_ms,
                animated,
            ),
    {
        let current = self.current_stable();
        let edge = match current.dock_edge() {
            Some(edge) => edge,
            None => return ,
        };
        if let StableVisibility::DockedCollapsed(_) = current {
            return ;
        }
        self.state.deadlines.clear();
        self.state.dock.edge = Some(edge);
        self.state.dock.hover_revealed = false;
        self.set_temporary_sensor_topmost(true, effects);
        let expanded = self.state.expanded.for_edge(Some(edge));
        let target = collapsed_frame(expanded, edge, &self.state.dock.monitor);
        self.start_animation(
            now_ms,
            target,
            StableVisibility::DockedCollapsed(edge),
            animated,
            effects,
        );
    }

    fn start_expand(
        &mut self,
        now_ms: u64,
        hover_revealed: bool,
        animated: PhysicalRect,
        effects: &mut Vec<WindowEffect>,
    )
        ensures
            (final(self).state, final(effects)@) == s_start_expand(
                (old(self).state, old(effects)@),
                now_ms,
                hover_revealed,
                animated,
            ),
    {
        let current = self.current_stable();
        let edge = match current.dock_edge() {
            Some(edge) => edge,
            None => return ,
        };
        let animating = match self.state.visibility {
            VisibilityState::Animating(_) => true,
            _ => false,
        };
        if let StableVisibility::DockedExpanded(_) = current {
            if !animating {
                return ;
            }
        }
        self.state.deadlines.clear();
        self.state.dock.hover_revealed = hover_revealed;
        self.state.dock.manually_hidden = false;
        let focused = self.state.guards.window_focused;
        self.set_temporary_sensor_topmost(hover_revealed && !focused, effects);
        let target = self.state.expanded.for_edge(Some(edge));
        self.start_animation(
            now_ms,
            target,
            StableVisibility::DockedExpanded(edge),
            animated,
            effects,
        );
    }

    fn update_guards(
        &mut self,
        guards: WindowGuardSnapshot,
        now_ms: u64,
        animated: PhysicalRect,
        effects: &mut Vec<WindowEffect>,
    )
        ensures
            (final(self).state, final(effects)@) == s_update_guards(
                (old(self).state, old(effects)@),
                guards,
                now_ms,
                animated,
            ),
    {
        // Guards are refreshed for IME, persistence, and drag facts too. Only
        // a real focus acquisition may revoke the collapsed sensor's temporary
        // z-order; replaying an unchanged focused snapshot after manual hide
        // must not make the edge recovery path unreachable.
        let gained_focus = !self.state.guards.window_focused && guards.window_focused;
        self.state.guards = guards;
        if gained_focus {
            self.set_temporary_sensor_topmost(false, effects);
        }
        if guards.blocks_auto_collapse() {
            self.state.deadlines.auto_collapse_ms = None;
            self.state.deadlines.hover_leave_collapse_ms = None;
            let collapsing = match self.state.visibility {
                VisibilityState::Animating(a) => match a.final_visibility {
                    StableVisibility::DockedCollapsed(_) => true,
                    _ => false,
                },
                _ => false,
            };
            if !self.state.dock.manually_hidden && collapsing {
                self.start_expand(now_ms, false, animated, effects);
            }
        } else {
            let expanded = match self.current_stable() {
                StableVisibility::DockedExpanded(_) => true,
                _ => false,
            };
            if expanded && self.state.deadlines.auto_collapse_ms.is_none()
                && !self.state.lifecycle.is_quitting() {
                let deadline = saturating_add(now_ms, AUTO_COLLAPSE_DELAY_MS);
                self.state.deadlines.auto_collapse_ms = Some(deadline);
                effects.push(WindowEffect::WakeAt(deadline));
            }
        }
    }

    fn finish_drag(
        &mut self,
        edge: Option<DockEdge>,
        monitor: MonitorMetrics,
        expanded: EdgeFrames,
        now_ms: u64,
        effects: &mut Vec<WindowEffect>,
    )
        ensures
            (final(self).state, final(effects)@) == s_finish_drag(
                (old(self).state, old(effects)@),
                edge,
                monitor,
                expanded,
                now_ms,
            ),
    {
        if self.state.lifecycle.is_quitting() {
            return ;
        }
        self.state.deadlines.clear();
        self.state.expanded = expanded;
        self.state.dock.edge = edge;
        self.state.dock.monitor = monitor;
        self.state.dock.manually_hidden = false;
        self.state.dock.hover_revealed = false;
        self.set_temporary_sensor_topmost(false, effects);
        self.state.frame = self.state.expanded.for_edge(edge);
        let stable = match edge {
            None => StableVisibility::Floating,
            Some(edge) => StableVisibility::DockedExpanded(edge),
        };
        self.state.visibility = VisibilityState::Presented(stable);
        effects.push(WindowEffect::ApplyFrame(self.state.frame));
        effects.push(WindowEffect::CommitPlacement { dock_edge: edge });
        if edge.is_some() && !self.state.guards.blocks_auto_collapse() {
            let deadline = saturating_add(now_ms, AUTO_COLLAPSE_DELAY_MS);
            self.state.deadlines.auto_collapse_ms = Some(deadline);
            effects.push(WindowEffect::WakeAt(deadline));
        }
    }

    fn recover_topology(
        &mut self,
        monitor: MonitorMetrics,
        expanded: EdgeFrames,
        effects: &mut Vec<WindowEffect>,
    )
        ensures
            (final(self).state, final(effects)@) == s_recover_topology(
                (old(self).state, old(effects)@),
                monitor,
                expanded,
            ),
    {
        let prior = self.current_stable();
        let edge = prior.dock_edge();
        let old_visibility = self.state.visibility;
        let stable = match old_visibility {
            VisibilityState::HiddenToTray { .. } => prior,
            _ => match edge {
                None => StableVisibility::Floating,
                Some(edge) => StableVisibility::DockedExpanded(edge),
            },
        };
        let exp = expanded.for_edge(edge);
        let frame = match stable {
            StableVisibility::DockedCollapsed(e) => collapsed_frame(exp, e, &monitor),
            _ => exp,
        };
        self.state.expanded = expanded;
        self.state.dock.monitor = monitor;
        self.state.dock.edge = edge;
        self.state.dock.hover_revealed = false;
        let sensor_topmost = match (stable, old_visibility) {
            (_, VisibilityState::HiddenToTray { .. }) => false,
            (StableVisibility::DockedCollapsed(_), _) => true,
            _ => false,
        };
        self.set_temporary_sensor_topmost(sensor_topmost, effects);
        self.state.frame = frame;
        self.state.visibility = match old_visibility {
            VisibilityState::HiddenToTray { .. } => VisibilityState::HiddenToTray { restore: stable },
            VisibilityState::AwaitingHideSave { .. } => VisibilityState::AwaitingHideSave {
                restore: stable,
            },
            _ => VisibilityState::Presented(stable),
        };
        if let VisibilityState::Presented(_) = self.state.visibility {
            effects.push(WindowEffect::ApplyFrame(frame));
        }
        effects.push(WindowEffect::CommitPlacement { dock_edge: edge });
    }

    fn tick_deadlines(&mut self, now_ms: u64, animated: PhysicalRect, effects: &mut Vec<WindowEffect>)
        ensures
            (final(self).state, final(effects)@) == s_tick_deadlines(
                (old(self).state, old(effects)@),
                now_ms,
                animated,
            ),
    {
        let auto_due = match self.state.deadlines.auto_collapse_ms {
            Some(deadline) => now_ms >= deadline,
            None => false,
        };
        let leave_due = match self.state.deadlines.hover_leave_collapse_ms {
            Some(deadline) => now_ms >= deadline,
            None => false,
        };
        if auto_due || leave_due {
            self.state.deadlines.auto_collapse_ms = None;
            self.state.deadlines.hover_leave_collapse_ms = None;
            if !self.state.guards.blocks_auto_collapse() {
                self.start_collapse(now_ms, animated, effects);
            }
        }
        let reveal_due = match self.state.deadlines.hover_reveal_ms {
            Some(deadline) => now_ms >= deadline,
            None => false,
        };
        if reveal_due {
            self.state.deadlines.hover_reveal_ms = None;
            self.start_expand(now_ms, true, animated, effects);
        }
    }

    fn tick(&mut self, now_ms: u64, animated: PhysicalRect, effects: &mut Vec<WindowEffect>)
        ensures
            (final(self).state, final(effects)@) == s_tick(
                (old(self).state, old(effects)@),
                now_ms,
                animated,
            ),
    {
        if let VisibilityState::Animating(animation) = self.state.visibility {
            if now_ms < animation.end_ms {
                self.state.frame = animated;
                effects.push(WindowEffect::ApplyFrame(animated));
                effects.push(WindowEffect::RequestRedraw);
                let step = saturating_add(now_ms, ANIMATION_FRAME_MS);
                let next = if step <= animation.end_ms {
                    step
                } else {
                    animation.end_ms
                };
                self.state.visibility = VisibilityState::Animating(
                    AnimationState { next_frame_ms: next, ..animation },
                );
                effects.push(WindowEffect::WakeAt(next));
                return ;
            }
            self.state.frame = animation.to;
            effects.push(WindowEffect::ApplyFrame(animation.to));
            effects.push(WindowEffect::RequestRedraw);
            self.state.visibility = VisibilityState::Presented(animation.final_visibility);
        }
        self.tick_deadlines(now_ms, animated, effects);
    }

    fn complete_hide(&mut self, restore: StableVisibility, effects: &mut Vec<WindowEffect>)
        ensures
            (final(self).state, final(effects)@) == s_complete_hide(
                (old(self).state, old(effects)@),
                restore,
            ),
    {
        self.state.visibility = VisibilityState::HiddenToTray { restore };
        self.state.hide_save_pending = false;
        self.set_temporary_sensor_topmost(false, effects);
        effects.push(WindowEffect::SetVisible(false));
        effects.push(WindowEffect::ReleaseHiddenCaches);
    }

    fn advance_quit(&mut self, effects: &mut Vec<WindowEffect>)
        ensures
            (final(self).state, final(effects)@) == s_advance_quit((old(self).state, old(effects)@)),
    {
        let guards = self.state.guards;
        if guards.blocks_quit() {
            self.state.lifecycle = LifecycleState::Running;
            effects.push(WindowEffect::QuitBlocked);
        } else if guards.paste_pending || guards.asset_transaction_pending {
            self.state.lifecycle = LifecycleState::Quitting(QuitStage::AwaitingPaste);
        } else if guards.requires_note_barrier() {
            self.state.lifecycle = LifecycleState::Quitting(QuitStage::AwaitingNoteSave);
            if !guards.note_save_in_flight {
                effects.push(WindowEffect::RequestNoteSave(WindowSaveReason::Shutdown));
            }
        } else {
            self.state.lifecycle = LifecycleState::Quitting(QuitStage::AwaitingAssetGc);
            effects.push(WindowEffect::RequestSafeAssetGc);
        }
    }

    fn request_quit(&mut self, effects: &mut Vec<WindowEffect>)
        ensures
            (final(self).state, final(effects)@) == s_request_quit((old(self).state, old(effects)@)),
    {
        if self.state.lifecycle.is_quitting() {
            return ;
        }
        if self.state.guards.blocks_quit() {
            effects.push(WindowEffect::QuitBlocked);
            return ;
        }
        self.state.deadlines.clear();
        effects.push(WindowEffect::SetEditorInputEnabled(false));
        self.advance_quit(effects);
    }

    fn hide_to_tray(&mut self, effects: &mut Vec<WindowEffect>)
        ensures
            (final(self).state, final(effects)@) == s_hide_to_tray((old(self).state, old(effects)@)),
    {
        if self.state.lifecycle.is_quitting() {
            return ;
        }
        if !self.state.tray_available {
            effects.push(WindowEffect::ReportTrayUnavailable);
            self.request_quit(effects);
            return ;
        }
        if self.state.guards.conflict_or_recovery {
            effects.push(WindowEffect::HideBlocked);
            return ;
        }
        match self.state.visibility {
            VisibilityState::AwaitingHideSave { .. } => return ,
            VisibilityState::HiddenToTray { .. } => return ,
            _ => {},
        }
        let restore = self.current_stable();
        self.state.deadlines.clear();
        self.state.hide_save_pending = self.state.guards.paste_pending
            || self.state.guards.asset_transaction_pending;
        effects.push(WindowEffect::CancelImePreedit);
        effects.push(WindowEffect::SetImeAllowed(false));
        effects.push(WindowEffect::SetEditorInputEnabled(false));
        if self.state.guards.note_save_required || self.state.hide_save_pending {
            self.state.visibility = VisibilityState::AwaitingHideSave { restore };
        } else {
            self.complete_hide(restore, effects);
        }
        if self.state.guards.note_save_required && !self.state.hide_save_pending {
            effects.push(WindowEffect::RequestNoteSave(WindowSaveReason::HideToTray));
        }
    }

    fn show(&mut self, effects: &mut Vec<WindowEffect>)
        ensures
            (final(self).state, final(effects)@) == s_show((old(self).state, old(effects)@)),
    {
        if self.state.lifecycle.is_quitting() {
            return ;
        }
        let restore = match self.state.visibility {
            VisibilityState::HiddenToTray { restore } => restore,
            VisibilityState::AwaitingHideSave { restore } => restore,
            _ => {
                effects.push(WindowEffect::FocusWindow);
                return ;
            },
        };
        let restore = match restore {
            StableVisibility::DockedCollapsed(edge) => StableVisibility::DockedExpanded(edge),
            other => other,
        };
        self.state.visibility = VisibilityState::Presented(restore);
        self.state.dock.edge = restore.dock_edge();
        self.state.dock.manually_hidden = false;
        self.state.dock.hover_revealed = false;
        self.set_temporary_sensor_topmost(false, effects);
        self.state.deadlines.clear();
        self.state.frame = self.state.expanded.for_edge(restore.dock_edge());
        effects.push(WindowEffect::ApplyFrame(self.state.frame));
        effects.push(WindowEffect::SetVisible(true));
        effects.push(WindowEffect::FocusWindow);
        effects.push(WindowEffect::SetImeAllowed(true));
        effects.push(WindowEffect::SetEditorInputEnabled(true));
        effects.push(WindowEffect::RequestRedraw);
    }

    fn paste_settled(&mut self, effects: &mut Vec<WindowEffect>)
        ensures
            (final(self).state, final(effects)@) == s_paste_settled((old(self).state, old(effects)@)),
    {
        if let VisibilityState::AwaitingHideSave { restore } = self.state.visibility {
            if !self.state.guards.paste_pending && !self.state.guards.asset_transaction_pending {
                self.state.hide_save_pending = false;
                if self.state.guards.note_save_required {
                    effects.push(WindowEffect::RequestNoteSave(WindowSaveReason::HideToTray));
                } else {
                    self.complete_hide(restore, effects);
                }
            }
        }
        if self.state.lifecycle == LifecycleState::Quitting(QuitStage::AwaitingPaste) {
            self.advance_quit(effects);
        }
    }

    fn complete_hide_save(&mut self, succeeded: bool, effects: &mut Vec<WindowEffect>)
        ensures
            (final(self).state, final(effects)@) == s_complete_hide_save(
                (old(self).state, old(effects)@),
                succeeded,
            ),
    {
        let restore = match self.state.visibility {
            VisibilityState::AwaitingHideSave { restore } => restore,
            _ => return ,
        };
        if !succeeded {
            self.state.visibility = VisibilityState::Presented(restore);
            self.state.hide_save_pending = false;
            effects.push(WindowEffect::SetImeAllowed(self.state.guards.window_focused));
            effects.push(WindowEffect::SetEditorInputEnabled(true));
            effects.push(WindowEffect::HideCancelled);
            effects.push(WindowEffect::RequestRedraw);
            return ;
        }
        if self.state.guards.paste_pending || self.state.guards.asset_transaction_pending {
            self.state.hide_save_pending = true;
        } else if self.state.guards.note_save_required {
            effects.push(WindowEffect::RequestNoteSave(WindowSaveReason::HideToTray));
        } else {
            self.complete_hide(restore, effects);
        }
    }

    fn complete_quit_barrier(
        &mut self,
        barrier: QuitBarrier,
        succeeded: bool,
        effects: &mut Vec<WindowEffect>,
    )
        ensures
            (final(self).state, final(effects)@) == s_complete_quit_barrier(
                (old(self).state, old(effects)@),
                barrier,
                succeeded,
            ),
    {
        let expected = match self.state.lifecycle {
            LifecycleState::Quitting(QuitStage::AwaitingPaste) => QuitBarrier::Paste,
            LifecycleState::Quitting(QuitStage::AwaitingNoteSave) => QuitBarrier::NoteSave,
            LifecycleState::Quitting(QuitStage::AwaitingAssetGc) => QuitBarrier::AssetGc,
            LifecycleState::Quitting(QuitStage::AwaitingConfig) => QuitBarrier::Config,
            _ => return ,
        };
        if barrier != expected {
            return ;
        }
        match barrier {
            QuitBarrier::AssetGc => {
                if !succeeded {
                    effects.push(WindowEffect::QuitWarning(QuitBarrier::AssetGc));
                }
                if self.state.guards.paste_pending || self.state.guards.asset_transaction_pending
                    || self.state.guards.requires_note_barrier() {
                    self.advance_quit(effects);
                } else {
                    self.state.lifecycle = LifecycleState::Quitting(QuitStage::AwaitingConfig);
                    effects.push(WindowEffect::RequestConfigFlush);
                }
            },
            QuitBarrier::Config => {
                if !succeeded {
                    effects.push(WindowEffect::QuitWarning(QuitBarrier::Config));
                }
                self.state.lifecycle = LifecycleState::Quitting(QuitStage::ReadyToExit);
                effects.push(WindowEffect::ExitProcess);
            },
            _ => {
                if succeeded {
                    self.advance_quit(effects);
                } else {
                    self.state.lifecycle = LifecycleState::Running;
                    effects.push(WindowEffect::SetEditorInputEnabled(true));
                    effects.push(WindowEffect::QuitCancelled(barrier));
                }
            },
        }
    }
}

}
