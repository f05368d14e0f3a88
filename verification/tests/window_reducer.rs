use stickymd::window::geometry::{
    collapsed_frame, drag_dock_edge, recovery_monitor, should_undock, EdgeFrames, MonitorIdentity,
    MonitorMetrics, PhysicalRect,
};
use stickymd::window::reducer::WindowShellCoordinator;
use stickymd::window::state::{
    effective_topmost, AnimationState, DockEdge, LifecycleState, QuitBarrier, QuitStage,
    ShowReason, StableVisibility, VisibilityState, WindowEffect, WindowGuardSnapshot,
    WindowIntent, WindowSaveReason, ANIMATION_DURATION_MS, AUTO_COLLAPSE_DELAY_MS,
    HOVER_LEAVE_COLLAPSE_DELAY_MS, HOVER_REVEAL_DELAY_MS,
};

// ---- the shell's floating-point placement geometry, as the app computes it --

#[derive(Debug, Clone)]
struct Monitor {
    identity: String,
    work_area: PhysicalRect,
    scale_factor: f64,
    primary: bool,
}

#[derive(Debug, Clone)]
struct Placement {
    width_dip: f64,
    height_dip: f64,
    monitor_identity: Option<String>,
    dock_offset_ratio: f64,
    floating_x_ratio: f64,
    floating_y_ratio: f64,
}

fn monitor(identity: &str, x: i32, scale: f64, primary: bool) -> Monitor {
    Monitor {
        identity: identity.to_owned(),
        work_area: PhysicalRect::new(x, -200, 1920, 1080),
        scale_factor: scale,
        primary,
    }
}

fn placement(width_dip: f64, height_dip: f64, identity: Option<&str>) -> Placement {
    Placement {
        width_dip,
        height_dip,
        monitor_identity: identity.map(str::to_owned),
        dock_offset_ratio: 0.5,
        floating_x_ratio: 0.5,
        floating_y_ratio: 0.25,
    }
}

fn dip_to_px(dip: f64, scale: f64) -> u32 {
    (dip.max(0.0) * scale).round().clamp(0.0, f64::from(u32::MAX)) as u32
}

fn metrics(monitor: &Monitor) -> MonitorMetrics {
    MonitorMetrics {
        identity: MonitorIdentity::new(&monitor.identity),
        work_area: monitor.work_area,
        primary: monitor.primary,
        sensor_px: dip_to_px(3.0, monitor.scale_factor).max(1),
        undock_px: dip_to_px(16.0, monitor.scale_factor),
    }
}

fn ratio_offset(available: u32, ratio: f64) -> i64 {
    (f64::from(available) * ratio.clamp(0.0, 1.0)).round() as i64
}

fn expanded_frame(placement: &Placement, edge: Option<DockEdge>, monitor: &Monitor) -> PhysicalRect {
    let work = monitor.work_area;
    let width = dip_to_px(placement.width_dip, monitor.scale_factor).min(work.width);
    let height = dip_to_px(placement.height_dip, monitor.scale_factor).min(work.height);
    let available_x = work.width.saturating_sub(width);
    let available_y = work.height.saturating_sub(height);
    let floating_x = i64::from(work.x) + ratio_offset(available_x, placement.floating_x_ratio);
    let floating_y = i64::from(work.y) + ratio_offset(available_y, placement.floating_y_ratio);
    let dock_x = i64::from(work.x) + ratio_offset(available_x, placement.dock_offset_ratio);
    let dock_y = i64::from(work.y) + ratio_offset(available_y, placement.dock_offset_ratio);
    let (x, y) = match edge {
        None => (floating_x, floating_y),
        Some(DockEdge::Left) => (i64::from(work.x), dock_y),
        Some(DockEdge::Right) => (work.right() - i64::from(width), dock_y),
        Some(DockEdge::Top) => (dock_x, i64::from(work.y)),
    };
    PhysicalRect::new(x as i32, y as i32, width, height)
}

fn frames(placement: &Placement, monitor: &Monitor) -> EdgeFrames {
    EdgeFrames {
        floating: expanded_frame(placement, None, monitor),
        left: expanded_frame(placement, Some(DockEdge::Left), monitor),
        right: expanded_frame(placement, Some(DockEdge::Right), monitor),
        top: expanded_frame(placement, Some(DockEdge::Top), monitor),
    }
}

fn snap_edge(frame: PhysicalRect, monitor: &Monitor) -> Option<DockEdge> {
    let scale = monitor.scale_factor;
    let work = monitor.work_area;
    let candidates = [
        (DockEdge::Left, (i64::from(frame.x) - i64::from(work.x)).unsigned_abs() as f64 / scale),
        (DockEdge::Right, (frame.right() - work.right()).unsigned_abs() as f64 / scale),
        (DockEdge::Top, (i64::from(frame.y) - i64::from(work.y)).unsigned_abs() as f64 / scale),
    ];
    let nearest = candidates
        .iter()
        .map(|(_, distance)| *distance)
        .filter(|distance| *distance <= 24.0)
        .min_by(f64::total_cmp)?;
    candidates
        .into_iter()
        .filter(|(_, distance)| *distance <= 24.0 && *distance <= nearest + 1.0)
        .min_by_key(|(edge, _)| edge.tie_break_order())
        .map(|(edge, _)| edge)
}

fn offset_ratio(offset: i64, available: u32) -> f64 {
    if available == 0 {
        0.5
    } else {
        (offset as f64 / f64::from(available)).clamp(0.0, 1.0)
    }
}

fn placement_from_frame(
    frame: PhysicalRect,
    monitor: &Monitor,
    previous: &Placement,
    edge: Option<DockEdge>,
) -> Placement {
    let work = monitor.work_area;
    let x_ratio = offset_ratio(
        i64::from(frame.x) - i64::from(work.x),
        work.width.saturating_sub(frame.width),
    );
    let y_ratio = offset_ratio(
        i64::from(frame.y) - i64::from(work.y),
        work.height.saturating_sub(frame.height),
    );
    Placement {
        width_dip: (f64::from(frame.width) / monitor.scale_factor).max(220.0),
        height_dip: (f64::from(frame.height) / monitor.scale_factor).max(120.0),
        monitor_identity: Some(monitor.identity.clone()),
        dock_offset_ratio: match edge {
            Some(DockEdge::Left | DockEdge::Right) => y_ratio,
            Some(DockEdge::Top) => x_ratio,
            None => previous.dock_offset_ratio,
        },
        floating_x_ratio: x_ratio,
        floating_y_ratio: y_ratio,
    }
}

fn frame_at(animation: AnimationState, now_ms: u64) -> PhysicalRect {
    if now_ms >= animation.end_ms {
        return animation.to;
    }
    let elapsed = now_ms.saturating_sub(animation.started_ms);
    let duration = animation.end_ms.saturating_sub(animation.started_ms);
    let t = if duration == 0 {
        1.0
    } else {
        (elapsed as f64 / duration as f64).clamp(0.0, 1.0)
    };
    let progress = 1.0 - (1.0 - t).powi(3);
    let mix = |from: i64, to: i64| (from as f64 + (to - from) as f64 * progress).round() as i64;
    PhysicalRect::new(
        mix(i64::from(animation.from.x), i64::from(animation.to.x)) as i32,
        mix(i64::from(animation.from.y), i64::from(animation.to.y)) as i32,
        mix(i64::from(animation.from.width), i64::from(animation.to.width)) as u32,
        mix(i64::from(animation.from.height), i64::from(animation.to.height)) as u32,
    )
}

/// The window reducer together with the placement the shell keeps beside it.
struct Shell {
    coordinator: WindowShellCoordinator,
    placement: Placement,
}

impl Shell {
    fn new(placement: Placement, visibility: StableVisibility, monitor: Monitor, tray: bool) -> Self {
        let coordinator =
            WindowShellCoordinator::new(frames(&placement, &monitor), visibility, metrics(&monitor), tray);
        Shell {
            coordinator,
            placement,
        }
    }

    fn state(&self) -> &stickymd::window::state::WindowShellState {
        self.coordinator.state()
    }

    fn dispatch(&mut self, intent: WindowIntent) -> Vec<WindowEffect> {
        let now = match &intent {
            WindowIntent::CloseRequested { now_ms, .. }
            | WindowIntent::ShowRequested { now_ms, .. }
            | WindowIntent::TrayToggleRequested { now_ms, .. }
            | WindowIntent::ManualCollapse { now_ms }
            | WindowIntent::EscapePressed { now_ms }
            | WindowIntent::SensorEntered { now_ms }
            | WindowIntent::PointerLeft { now_ms }
            | WindowIntent::GuardsChanged { now_ms, .. }
            | WindowIntent::DragEnded { now_ms, .. }
            | WindowIntent::Tick { now_ms } => *now_ms,
            _ => 0,
        };
        let animated = match self.state().visibility {
            VisibilityState::Animating(animation) => frame_at(animation, now),
            _ => self.state().frame,
        };
        self.coordinator.dispatch(intent, animated)
    }

    fn drag_ended(&mut self, frame: PhysicalRect, monitor: Monitor, now_ms: u64) -> Vec<WindowEffect> {
        if self.state().lifecycle.is_quitting() {
            return Vec::new();
        }
        let previous = self.coordinator.current_stable().dock_edge();
        let metrics = metrics(&monitor);
        let undocked = previous.is_some_and(|edge| should_undock(edge, frame, &metrics));
        let edge = drag_dock_edge(previous, undocked, snap_edge(frame, &monitor));
        self.placement = placement_from_frame(frame, &monitor, &self.placement, edge);
        let expanded = frames(&self.placement, &monitor);
        self.dispatch(WindowIntent::DragEnded {
            edge,
            monitor: metrics,
            expanded,
            now_ms,
        })
    }

    fn topology_changed(&mut self, monitors: &[Monitor]) -> Vec<WindowEffect> {
        let all: Vec<MonitorMetrics> = monitors.iter().map(metrics).collect();
        let identity = self.placement.monitor_identity.as_deref().map(MonitorIdentity::new);
        let Some(index) = recovery_monitor(&identity, &all) else {
            return Vec::new();
        };
        let chosen = &monitors[index];
        self.placement.monitor_identity = Some(chosen.identity.clone());
        let expanded = frames(&self.placement, chosen);
        self.dispatch(WindowIntent::DisplayTopologyChanged {
            monitor: all[index].clone(),
            expanded,
        })
    }
}

fn coordinator(visibility: StableVisibility) -> Shell {
    Shell::new(
        placement(520.0, 680.0, None),
        visibility,
        monitor("primary", -1920, 1.5, true),
        true,
    )
}

// ---- reducer ----------------------------------------------------------------

#[test]
fn dirty_close_freezes_until_latest_save_succeeds_then_hides_without_gc() {
    let mut coordinator = coordinator(StableVisibility::Floating);
    coordinator.dispatch(WindowIntent::GuardsChanged {
        guards: WindowGuardSnapshot {
            note_save_required: true,
            ..Default::default()
        },
        now_ms: 0,
    });
    let effects = coordinator.dispatch(WindowIntent::CloseRequested {
        now_ms: 1,
        guards: WindowGuardSnapshot {
            note_save_required: true,
            ..Default::default()
        },
    });
    assert!(matches!(
        coordinator.state().visibility(),
        VisibilityState::AwaitingHideSave { .. }
    ));
    assert_eq!(coordinator.state().lifecycle(), LifecycleState::Running);
    assert!(effects.contains(&WindowEffect::RequestNoteSave(WindowSaveReason::HideToTray)));
    assert!(!effects.contains(&WindowEffect::SetVisible(false)));
    assert!(!effects.contains(&WindowEffect::RequestSafeAssetGc));
    let effects = coordinator.dispatch(WindowIntent::HideSaveCompleted {
        succeeded: true,
        guards: WindowGuardSnapshot::default(),
    });
    assert!(matches!(
        coordinator.state().visibility(),
        VisibilityState::HiddenToTray { .. }
    ));
    assert!(effects.contains(&WindowEffect::SetVisible(false)));
}

#[test]
fn dirty_close_save_failure_keeps_window_visible_and_reenables_input() {
    let mut coordinator = coordinator(StableVisibility::DockedExpanded(DockEdge::Left));
    coordinator.dispatch(WindowIntent::CloseRequested {
        now_ms: 1,
        guards: WindowGuardSnapshot {
            window_focused: true,
            note_save_required: true,
            ..Default::default()
        },
    });
    let effects = coordinator.dispatch(WindowIntent::HideSaveCompleted {
        succeeded: false,
        guards: WindowGuardSnapshot {
            window_focused: true,
            note_save_required: true,
            ..Default::default()
        },
    });
    assert_eq!(
        coordinator.state().visibility(),
        VisibilityState::Presented(StableVisibility::DockedExpanded(DockEdge::Left))
    );
    assert!(effects.contains(&WindowEffect::HideCancelled));
    assert!(effects.contains(&WindowEffect::SetEditorInputEnabled(true)));
    assert!(!effects.contains(&WindowEffect::SetVisible(false)));
}

#[test]
fn recovery_or_conflict_blocks_hide_without_freezing_editor() {
    let mut coordinator = coordinator(StableVisibility::Floating);
    let effects = coordinator.dispatch(WindowIntent::CloseRequested {
        now_ms: 1,
        guards: WindowGuardSnapshot {
            conflict_or_recovery: true,
            note_save_required: true,
            ..Default::default()
        },
    });
    assert_eq!(effects, vec![WindowEffect::HideBlocked]);
    assert_eq!(
        coordinator.state().visibility(),
        VisibilityState::Presented(StableVisibility::Floating)
    );
}

#[test]
fn tray_unavailable_close_uses_the_safe_quit_barrier() {
    let mut coordinator = Shell::new(
        placement(520.0, 680.0, None),
        StableVisibility::Floating,
        monitor("primary", 0, 1.0, true),
        false,
    );
    let effects = coordinator.dispatch(WindowIntent::CloseRequested {
        now_ms: 1,
        guards: WindowGuardSnapshot::default(),
    });
    assert!(effects.contains(&WindowEffect::ReportTrayUnavailable));
    assert!(effects.contains(&WindowEffect::RequestSafeAssetGc));
    assert_eq!(
        coordinator.state().lifecycle(),
        LifecycleState::Quitting(QuitStage::AwaitingAssetGc)
    );
    assert!(!effects.contains(&WindowEffect::SetVisible(false)));
}

#[test]
fn stale_hide_save_receipt_requests_latest_dirty_generation_before_hiding() {
    let mut coordinator = coordinator(StableVisibility::Floating);
    coordinator.dispatch(WindowIntent::CloseRequested {
        now_ms: 1,
        guards: WindowGuardSnapshot {
            note_save_required: true,
            ..Default::default()
        },
    });
    let effects = coordinator.dispatch(WindowIntent::HideSaveCompleted {
        succeeded: true,
        guards: WindowGuardSnapshot {
            note_save_required: true,
            ..Default::default()
        },
    });
    assert_eq!(
        effects,
        vec![WindowEffect::RequestNoteSave(WindowSaveReason::HideToTray)]
    );
    assert!(matches!(
        coordinator.state().visibility(),
        VisibilityState::AwaitingHideSave { .. }
    ));
}

#[test]
fn close_defers_save_until_pending_paste_and_asset_convergence_settle() {
    let mut coordinator = coordinator(StableVisibility::Floating);
    coordinator.dispatch(WindowIntent::GuardsChanged {
        guards: WindowGuardSnapshot {
            paste_pending: true,
            asset_transaction_pending: true,
            note_save_required: true,
            ..Default::default()
        },
        now_ms: 0,
    });
    let effects = coordinator.dispatch(WindowIntent::CloseRequested {
        now_ms: 1,
        guards: WindowGuardSnapshot {
            paste_pending: true,
            asset_transaction_pending: true,
            note_save_required: true,
            ..Default::default()
        },
    });
    assert!(!effects
        .iter()
        .any(|effect| matches!(effect, WindowEffect::RequestNoteSave(_))));
    coordinator.dispatch(WindowIntent::GuardsChanged {
        guards: WindowGuardSnapshot {
            note_save_required: true,
            ..Default::default()
        },
        now_ms: 2,
    });
    let effects = coordinator.dispatch(WindowIntent::PasteSettled {
        guards: WindowGuardSnapshot {
            note_save_required: true,
            ..Default::default()
        },
    });
    assert_eq!(
        effects,
        vec![WindowEffect::RequestNoteSave(WindowSaveReason::HideToTray)]
    );
}

#[test]
fn tray_quit_obeys_paste_save_gc_config_order() {
    let mut coordinator = coordinator(StableVisibility::Floating);
    coordinator.dispatch(WindowIntent::GuardsChanged {
        guards: WindowGuardSnapshot {
            paste_pending: true,
            ..Default::default()
        },
        now_ms: 0,
    });
    assert_eq!(
        coordinator.dispatch(WindowIntent::TrayQuitRequested {
            guards: WindowGuardSnapshot {
                paste_pending: true,
                ..Default::default()
            },
        }),
        vec![WindowEffect::SetEditorInputEnabled(false)]
    );
    assert_eq!(
        coordinator.state().lifecycle(),
        LifecycleState::Quitting(QuitStage::AwaitingPaste)
    );

    coordinator.dispatch(WindowIntent::GuardsChanged {
        guards: WindowGuardSnapshot {
            note_save_required: true,
            ..Default::default()
        },
        now_ms: 1,
    });
    assert_eq!(
        coordinator.dispatch(WindowIntent::QuitBarrierCompleted {
            barrier: QuitBarrier::Paste,
            succeeded: true,
            guards: WindowGuardSnapshot {
                note_save_required: true,
                ..Default::default()
            },
        }),
        vec![WindowEffect::RequestNoteSave(WindowSaveReason::Shutdown)]
    );
    assert_eq!(
        coordinator.state().lifecycle(),
        LifecycleState::Quitting(QuitStage::AwaitingNoteSave)
    );

    coordinator.dispatch(WindowIntent::GuardsChanged {
        guards: WindowGuardSnapshot::default(),
        now_ms: 2,
    });
    assert_eq!(
        coordinator.dispatch(WindowIntent::QuitBarrierCompleted {
            barrier: QuitBarrier::NoteSave,
            succeeded: true,
            guards: WindowGuardSnapshot::default(),
        }),
        vec![WindowEffect::RequestSafeAssetGc]
    );
    assert_eq!(
        coordinator.dispatch(WindowIntent::QuitBarrierCompleted {
            barrier: QuitBarrier::AssetGc,
            succeeded: true,
            guards: WindowGuardSnapshot::default(),
        }),
        vec![WindowEffect::RequestConfigFlush]
    );
    assert_eq!(
        coordinator.dispatch(WindowIntent::QuitBarrierCompleted {
            barrier: QuitBarrier::Config,
            succeeded: true,
            guards: WindowGuardSnapshot::default(),
        }),
        vec![WindowEffect::ExitProcess]
    );
    assert_eq!(
        coordinator.state().lifecycle(),
        LifecycleState::Quitting(QuitStage::ReadyToExit)
    );
}

#[test]
fn note_save_failure_cancels_quit_and_reenables_input() {
    let mut coordinator = coordinator(StableVisibility::Floating);
    let effects = coordinator.dispatch(WindowIntent::TrayQuitRequested {
        guards: WindowGuardSnapshot {
            note_save_required: true,
            ..Default::default()
        },
    });
    assert_eq!(
        effects,
        vec![
            WindowEffect::SetEditorInputEnabled(false),
            WindowEffect::RequestNoteSave(WindowSaveReason::Shutdown),
        ]
    );
    assert!(coordinator
        .dispatch(WindowIntent::QuitBarrierCompleted {
            barrier: QuitBarrier::Config,
            succeeded: true,
            guards: WindowGuardSnapshot::default(),
        })
        .is_empty());
    let effects = coordinator.dispatch(WindowIntent::QuitBarrierCompleted {
        barrier: QuitBarrier::NoteSave,
        succeeded: false,
        guards: WindowGuardSnapshot {
            note_save_required: true,
            ..Default::default()
        },
    });
    assert_eq!(
        effects,
        vec![
            WindowEffect::SetEditorInputEnabled(true),
            WindowEffect::QuitCancelled(QuitBarrier::NoteSave),
        ]
    );
    assert_eq!(coordinator.state().lifecycle(), LifecycleState::Running);
}

#[test]
fn phase9_conflict_blocks_tray_quit_before_any_destructive_barrier() {
    let mut coordinator = coordinator(StableVisibility::Floating);
    let effects = coordinator.dispatch(WindowIntent::TrayQuitRequested {
        guards: WindowGuardSnapshot {
            conflict_or_recovery: true,
            note_save_required: true,
            ..Default::default()
        },
    });

    assert_eq!(effects, vec![WindowEffect::QuitBlocked]);
    assert_eq!(coordinator.state().lifecycle(), LifecycleState::Running);
    assert!(!effects.contains(&WindowEffect::RequestSafeAssetGc));
    assert!(!effects.contains(&WindowEffect::ExitProcess));
}

#[test]
fn asset_gc_failure_warns_but_continues_to_config_barrier() {
    let mut coordinator = coordinator(StableVisibility::Floating);
    coordinator.dispatch(WindowIntent::TrayQuitRequested {
        guards: WindowGuardSnapshot::default(),
    });
    let effects = coordinator.dispatch(WindowIntent::QuitBarrierCompleted {
        barrier: QuitBarrier::AssetGc,
        succeeded: false,
        guards: WindowGuardSnapshot::default(),
    });
    assert_eq!(
        effects,
        vec![
            WindowEffect::QuitWarning(QuitBarrier::AssetGc),
            WindowEffect::RequestConfigFlush,
        ]
    );
    assert_eq!(
        coordinator.state().lifecycle(),
        LifecycleState::Quitting(QuitStage::AwaitingConfig)
    );
}

#[test]
fn config_failure_warns_but_reaches_ready_to_exit() {
    let mut coordinator = coordinator(StableVisibility::Floating);
    coordinator.dispatch(WindowIntent::TrayQuitRequested {
        guards: WindowGuardSnapshot::default(),
    });
    coordinator.dispatch(WindowIntent::QuitBarrierCompleted {
        barrier: QuitBarrier::AssetGc,
        succeeded: true,
        guards: WindowGuardSnapshot::default(),
    });
    let effects = coordinator.dispatch(WindowIntent::QuitBarrierCompleted {
        barrier: QuitBarrier::Config,
        succeeded: false,
        guards: WindowGuardSnapshot::default(),
    });
    assert_eq!(
        effects,
        vec![
            WindowEffect::QuitWarning(QuitBarrier::Config),
            WindowEffect::ExitProcess,
        ]
    );
    assert_eq!(
        coordinator.state().lifecycle(),
        LifecycleState::Quitting(QuitStage::ReadyToExit)
    );
}

#[test]
fn show_is_ignored_while_quitting() {
    let mut coordinator = coordinator(StableVisibility::Floating);
    coordinator.dispatch(WindowIntent::CloseRequested {
        now_ms: 0,
        guards: WindowGuardSnapshot::default(),
    });
    coordinator.dispatch(WindowIntent::TrayQuitRequested {
        guards: WindowGuardSnapshot::default(),
    });
    let effects = coordinator.dispatch(WindowIntent::ShowRequested {
        reason: ShowReason::SecondInstance,
        now_ms: 1,
    });
    assert!(effects.is_empty());
    assert!(matches!(
        coordinator.state().visibility(),
        VisibilityState::HiddenToTray { .. }
    ));
}

#[test]
fn every_edge_auto_collapse_uses_exact_700ms_boundary_and_focus_guard() {
    for edge in [DockEdge::Left, DockEdge::Top, DockEdge::Right] {
        let mut coordinator = coordinator(StableVisibility::DockedExpanded(edge));
        let focused_effects = coordinator.dispatch(WindowIntent::GuardsChanged {
            guards: WindowGuardSnapshot {
                window_focused: true,
                ..Default::default()
            },
            now_ms: 0,
        });
        assert!(focused_effects.is_empty());
        coordinator.dispatch(WindowIntent::Tick { now_ms: 700 });
        assert_eq!(
            coordinator.state().visibility(),
            VisibilityState::Presented(StableVisibility::DockedExpanded(edge))
        );
        let effects = coordinator.dispatch(WindowIntent::GuardsChanged {
            guards: WindowGuardSnapshot::default(),
            now_ms: 710,
        });
        assert!(effects.contains(&WindowEffect::WakeAt(710 + AUTO_COLLAPSE_DELAY_MS)));
        coordinator.dispatch(WindowIntent::Tick { now_ms: 1_409 });
        assert_eq!(
            coordinator.state().visibility(),
            VisibilityState::Presented(StableVisibility::DockedExpanded(edge))
        );
        coordinator.dispatch(WindowIntent::Tick { now_ms: 1_410 });
        assert!(matches!(
            coordinator.state().visibility(),
            VisibilityState::Animating(AnimationState {
                final_visibility: StableVisibility::DockedCollapsed(collapsed_edge),
                ..
            }) if collapsed_edge == edge
        ));

        coordinator.dispatch(WindowIntent::GuardsChanged {
            guards: WindowGuardSnapshot {
                ime_composing: true,
                ..Default::default()
            },
            now_ms: 1_411,
        });
        assert!(matches!(
            coordinator.state().visibility(),
            VisibilityState::Animating(AnimationState {
                final_visibility: StableVisibility::DockedExpanded(expanded_edge),
                ..
            }) if expanded_edge == edge
        ));
    }
}

#[test]
fn hover_reveal_and_leave_delays_are_exact() {
    let mut coordinator = coordinator(StableVisibility::DockedCollapsed(DockEdge::Right));
    coordinator.dispatch(WindowIntent::SensorEntered { now_ms: 1_000 });
    coordinator.dispatch(WindowIntent::Tick {
        now_ms: 1_000 + HOVER_REVEAL_DELAY_MS - 1,
    });
    assert_eq!(
        coordinator.state().visibility(),
        VisibilityState::Presented(StableVisibility::DockedCollapsed(DockEdge::Right))
    );
    coordinator.dispatch(WindowIntent::Tick {
        now_ms: 1_000 + HOVER_REVEAL_DELAY_MS,
    });
    coordinator.dispatch(WindowIntent::Tick {
        now_ms: 1_000 + HOVER_REVEAL_DELAY_MS + ANIMATION_DURATION_MS,
    });
    assert_eq!(
        coordinator.state().visibility(),
        VisibilityState::Presented(StableVisibility::DockedExpanded(DockEdge::Right))
    );

    coordinator.dispatch(WindowIntent::PointerLeft { now_ms: 2_000 });
    coordinator.dispatch(WindowIntent::Tick {
        now_ms: 2_000 + HOVER_LEAVE_COLLAPSE_DELAY_MS - 1,
    });
    assert_eq!(
        coordinator.state().visibility(),
        VisibilityState::Presented(StableVisibility::DockedExpanded(DockEdge::Right))
    );
    coordinator.dispatch(WindowIntent::Tick {
        now_ms: 2_000 + HOVER_LEAVE_COLLAPSE_DELAY_MS,
    });
    assert!(matches!(
        coordinator.state().visibility(),
        VisibilityState::Animating(_)
    ));
}

#[test]
fn animation_finishes_at_140ms_and_stops_requesting_wakes() {
    let mut coordinator = coordinator(StableVisibility::DockedExpanded(DockEdge::Top));
    coordinator.dispatch(WindowIntent::ManualCollapse { now_ms: 100 });
    coordinator.dispatch(WindowIntent::Tick { now_ms: 239 });
    assert!(matches!(
        coordinator.state().visibility(),
        VisibilityState::Animating(_)
    ));
    coordinator.dispatch(WindowIntent::Tick { now_ms: 240 });
    assert_eq!(
        coordinator.state().visibility(),
        VisibilityState::Presented(StableVisibility::DockedCollapsed(DockEdge::Top))
    );
    assert_eq!(coordinator.state().next_deadline_ms(), None);
}

#[test]
fn escape_collapses_only_a_docked_window_without_delay() {
    let mut docked = coordinator(StableVisibility::DockedExpanded(DockEdge::Left));
    let effects = docked.dispatch(WindowIntent::EscapePressed { now_ms: 50 });
    assert!(effects.contains(&WindowEffect::CancelImePreedit));
    assert!(matches!(
        docked.state().visibility(),
        VisibilityState::Animating(_)
    ));
    docked.dispatch(WindowIntent::Tick {
        now_ms: 50 + ANIMATION_DURATION_MS,
    });
    assert_eq!(
        docked.state().visibility(),
        VisibilityState::Presented(StableVisibility::DockedCollapsed(DockEdge::Left))
    );

    let mut floating = coordinator(StableVisibility::Floating);
    let effects = floating.dispatch(WindowIntent::EscapePressed { now_ms: 50 });
    assert!(effects.is_empty());
    assert!(!floating.state().dock().manually_hidden);
    assert_eq!(
        floating.state().visibility(),
        VisibilityState::Presented(StableVisibility::Floating)
    );
    assert_eq!(floating.state().next_deadline_ms(), None);
}

#[test]
fn cancelled_hover_deadline_cannot_reveal_from_a_stale_tick() {
    let mut coordinator = coordinator(StableVisibility::DockedCollapsed(DockEdge::Right));
    coordinator.dispatch(WindowIntent::SensorEntered { now_ms: 1_000 });
    coordinator.dispatch(WindowIntent::PointerLeft { now_ms: 1_050 });
    coordinator.dispatch(WindowIntent::Tick {
        now_ms: 1_000 + HOVER_REVEAL_DELAY_MS,
    });
    assert_eq!(
        coordinator.state().visibility(),
        VisibilityState::Presented(StableVisibility::DockedCollapsed(DockEdge::Right))
    );
    assert_eq!(coordinator.state().next_deadline_ms(), None);
}

#[test]
fn temporary_sensor_topmost_survives_hover_reveal_until_focus() {
    let mut coordinator = coordinator(StableVisibility::DockedExpanded(DockEdge::Left));
    let effects = coordinator.dispatch(WindowIntent::ManualCollapse { now_ms: 100 });
    assert!(effects.contains(&WindowEffect::SetTemporarySensorTopmost(true)));
    coordinator.dispatch(WindowIntent::Tick { now_ms: 240 });
    assert!(coordinator.state().temporary_sensor_topmost());

    coordinator.dispatch(WindowIntent::SensorEntered { now_ms: 300 });
    coordinator.dispatch(WindowIntent::Tick {
        now_ms: 300 + HOVER_REVEAL_DELAY_MS,
    });
    coordinator.dispatch(WindowIntent::Tick {
        now_ms: 300 + HOVER_REVEAL_DELAY_MS + ANIMATION_DURATION_MS,
    });
    assert!(coordinator.state().temporary_sensor_topmost());
    let effects = coordinator.dispatch(WindowIntent::GuardsChanged {
        guards: WindowGuardSnapshot {
            window_focused: true,
            ..Default::default()
        },
        now_ms: 600,
    });
    assert!(effects.contains(&WindowEffect::SetTemporarySensorTopmost(false)));
    assert!(!coordinator.state().temporary_sensor_topmost());
}

#[test]
fn focused_manual_collapse_keeps_sensor_topmost_until_expansion_starts() {
    let mut coordinator = coordinator(StableVisibility::DockedExpanded(DockEdge::Left));
    coordinator.dispatch(WindowIntent::GuardsChanged {
        guards: WindowGuardSnapshot {
            window_focused: true,
            ..Default::default()
        },
        now_ms: 0,
    });

    coordinator.dispatch(WindowIntent::ManualCollapse { now_ms: 100 });
    let repeated_guard_effects = coordinator.dispatch(WindowIntent::GuardsChanged {
        guards: WindowGuardSnapshot {
            window_focused: true,
            ..Default::default()
        },
        now_ms: 101,
    });
    assert!(!repeated_guard_effects.contains(&WindowEffect::SetTemporarySensorTopmost(false)));
    coordinator.dispatch(WindowIntent::Tick { now_ms: 240 });
    assert!(coordinator.state().temporary_sensor_topmost());

    coordinator.dispatch(WindowIntent::SensorEntered { now_ms: 300 });
    let expand_effects = coordinator.dispatch(WindowIntent::Tick {
        now_ms: 300 + HOVER_REVEAL_DELAY_MS,
    });
    assert!(expand_effects.contains(&WindowEffect::SetTemporarySensorTopmost(false)));
    assert!(!coordinator.state().temporary_sensor_topmost());
}

#[test]
fn hidden_to_tray_never_keeps_temporary_sensor_topmost() {
    let mut coordinator = coordinator(StableVisibility::DockedCollapsed(DockEdge::Top));
    assert!(coordinator.state().temporary_sensor_topmost());
    let effects = coordinator.dispatch(WindowIntent::CloseRequested {
        now_ms: 0,
        guards: WindowGuardSnapshot::default(),
    });
    assert!(effects.contains(&WindowEffect::SetTemporarySensorTopmost(false)));
    assert!(!coordinator.state().temporary_sensor_topmost());
}

#[test]
fn drag_snap_and_undock_update_one_durable_placement() {
    let mut coordinator = coordinator(StableVisibility::Floating);
    let monitor = monitor("primary", -1920, 1.5, true);
    let near_left = PhysicalRect::new(monitor.work_area.x + 10, -100, 780, 900);
    let effects = coordinator.drag_ended(near_left, monitor.clone(), 0);
    assert_eq!(coordinator.state().dock().edge, Some(DockEdge::Left));
    assert_eq!(
        effects
            .iter()
            .filter(|effect| matches!(effect, WindowEffect::CommitPlacement { .. }))
            .count(),
        1
    );

    let inward = PhysicalRect::new(
        monitor.work_area.x + (16.0 * monitor.scale_factor) as i32 + 1,
        -100,
        780,
        900,
    );
    coordinator.drag_ended(inward, monitor, 1);
    assert_eq!(coordinator.state().dock().edge, None);
    assert_eq!(
        coordinator.state().visibility(),
        VisibilityState::Presented(StableVisibility::Floating)
    );
}

#[test]
fn topology_recovery_preserves_edge_on_primary_with_negative_coordinates() {
    let mut coordinator = coordinator(StableVisibility::DockedCollapsed(DockEdge::Right));
    let primary = monitor("new-primary", 0, 2.0, true);
    let effects = coordinator.topology_changed(&[primary.clone()]);
    assert_eq!(
        coordinator.state().dock().monitor.identity,
        MonitorIdentity::new(&primary.identity)
    );
    assert_eq!(coordinator.state().dock().edge, Some(DockEdge::Right));
    assert_eq!(
        coordinator.state().frame().right(),
        primary.work_area.right()
    );
    assert_eq!(
        coordinator.state().visibility(),
        VisibilityState::Presented(StableVisibility::DockedExpanded(DockEdge::Right))
    );
    assert!(effects
        .iter()
        .any(|effect| matches!(effect, WindowEffect::CommitPlacement { .. })));
}

#[test]
fn phase10_focused_dock_release_stays_expanded_without_collapse_deadline() {
    let monitor = monitor("focused-release", -1920, 1.5, true);
    let mut coordinator = Shell::new(
        placement(520.0, 680.0, None),
        StableVisibility::Floating,
        monitor.clone(),
        true,
    );
    coordinator.dispatch(WindowIntent::GuardsChanged {
        guards: WindowGuardSnapshot {
            window_focused: true,
            dragging: true,
            ..Default::default()
        },
        now_ms: 0,
    });
    let frame = PhysicalRect::new(monitor.work_area.x, monitor.work_area.y + 100, 780, 900);
    coordinator.drag_ended(frame, monitor, 10);
    assert_eq!(
        coordinator.state().visibility(),
        VisibilityState::Presented(StableVisibility::DockedExpanded(DockEdge::Left))
    );
    assert_eq!(coordinator.state().next_deadline_ms(), None);
}

#[test]
fn hidden_monitor_recovery_stays_hidden_then_shows_expanded_on_primary() {
    let mut coordinator = coordinator(StableVisibility::DockedCollapsed(DockEdge::Left));
    coordinator.dispatch(WindowIntent::CloseRequested {
        now_ms: 0,
        guards: WindowGuardSnapshot::default(),
    });
    let primary = monitor("replacement-primary", 0, 1.25, true);
    coordinator.topology_changed(&[primary.clone()]);
    assert!(matches!(
        coordinator.state().visibility(),
        VisibilityState::HiddenToTray { .. }
    ));
    let effects = coordinator.dispatch(WindowIntent::ShowRequested {
        reason: ShowReason::Tray,
        now_ms: 1,
    });
    assert_eq!(
        coordinator.state().visibility(),
        VisibilityState::Presented(StableVisibility::DockedExpanded(DockEdge::Left))
    );
    assert!(primary.work_area.contains(coordinator.state().frame()));
    assert!(effects.contains(&WindowEffect::SetVisible(true)));
}

#[test]
fn phase10_split_keeps_the_user_selected_compact_width() {
    let monitor = monitor("right", -1920, 1.5, true);
    let mut coordinator = Shell::new(
        placement(220.0, 120.0, Some("right")),
        StableVisibility::DockedExpanded(DockEdge::Right),
        monitor,
        true,
    );
    let original = coordinator.state().frame();
    assert!(coordinator
        .dispatch(WindowIntent::SplitModeChanged { split: true })
        .is_empty());
    assert_eq!(coordinator.state().frame(), original);
    assert!(coordinator
        .dispatch(WindowIntent::SplitModeChanged { split: false })
        .is_empty());
    assert_eq!(coordinator.state().frame(), original);
}

#[test]
fn collapsed_and_unfocused_hover_reveal_never_accept_editor_mutation() {
    let mut coordinator = coordinator(StableVisibility::DockedCollapsed(DockEdge::Left));
    assert!(!coordinator.state().accepts_editor_mutation());
    coordinator.coordinator.state.dock.hover_revealed = true;
    coordinator.coordinator.state.visibility =
        VisibilityState::Presented(StableVisibility::DockedExpanded(DockEdge::Left));
    assert!(!coordinator.state().accepts_editor_mutation());
    coordinator.coordinator.state.guards.window_focused = true;
    assert!(coordinator.state().accepts_editor_mutation());
}

#[test]
fn phase11b_pin_is_orthogonal_to_every_auto_hide_reducer_transition() {
    for edge in [DockEdge::Left, DockEdge::Top, DockEdge::Right] {
        let mut unpinned = coordinator(StableVisibility::DockedExpanded(edge));
        let mut pinned = coordinator(StableVisibility::DockedExpanded(edge));
        let intents = [
            WindowIntent::GuardsChanged {
                guards: WindowGuardSnapshot::default(),
                now_ms: 0,
            },
            WindowIntent::GuardsChanged {
                guards: WindowGuardSnapshot {
                    ime_composing: true,
                    ..Default::default()
                },
                now_ms: 100,
            },
            WindowIntent::GuardsChanged {
                guards: WindowGuardSnapshot {
                    dragging: true,
                    ..Default::default()
                },
                now_ms: 200,
            },
            WindowIntent::GuardsChanged {
                guards: WindowGuardSnapshot {
                    popup_open: true,
                    ..Default::default()
                },
                now_ms: 300,
            },
            WindowIntent::GuardsChanged {
                guards: WindowGuardSnapshot::default(),
                now_ms: 400,
            },
            WindowIntent::Tick {
                now_ms: 400 + AUTO_COLLAPSE_DELAY_MS,
            },
            WindowIntent::Tick {
                now_ms: 400 + AUTO_COLLAPSE_DELAY_MS + ANIMATION_DURATION_MS,
            },
            WindowIntent::SensorEntered { now_ms: 1_300 },
            WindowIntent::Tick {
                now_ms: 1_300 + HOVER_REVEAL_DELAY_MS,
            },
            WindowIntent::Tick {
                now_ms: 1_300 + HOVER_REVEAL_DELAY_MS + ANIMATION_DURATION_MS,
            },
            WindowIntent::PointerLeft { now_ms: 1_600 },
            WindowIntent::Tick {
                now_ms: 1_600 + HOVER_LEAVE_COLLAPSE_DELAY_MS,
            },
        ];

        for intent in intents {
            let unpinned_effects = unpinned.dispatch(intent.clone());
            let pinned_effects = pinned.dispatch(intent);
            assert_eq!(unpinned_effects, pinned_effects);
            assert_eq!(unpinned.state(), pinned.state());
            assert_eq!(
                effective_topmost(false, unpinned.state().temporary_sensor_topmost()),
                unpinned.state().temporary_sensor_topmost()
            );
            assert!(effective_topmost(
                true,
                pinned.state().temporary_sensor_topmost()
            ));
        }
    }

    let mut floating = coordinator(StableVisibility::Floating);
    floating.dispatch(WindowIntent::GuardsChanged {
        guards: WindowGuardSnapshot::default(),
        now_ms: 0,
    });
    assert_eq!(floating.state().next_deadline_ms(), None);
    assert_eq!(
        floating.state().visibility(),
        VisibilityState::Presented(StableVisibility::Floating)
    );
}

// ---- integer geometry -------------------------------------------------------

#[test]
fn snap_and_undock_thresholds_are_dip_scaled() {
    let monitor = Monitor {
        work_area: PhysicalRect::new(-1920, -900, 1920, 1080),
        ..monitor("mixed", -1920, 1.5, true)
    };
    let metrics = metrics(&monitor);
    let snap = (24.0 * 1.5) as i32;
    let frame = PhysicalRect::new(monitor.work_area.x + snap, -800, 600, 700);
    assert_eq!(snap_edge(frame, &monitor), Some(DockEdge::Left));
    let just_inside = PhysicalRect::new(
        monitor.work_area.x + (16.0 * 1.5) as i32,
        -800,
        600,
        700,
    );
    assert!(!should_undock(DockEdge::Left, just_inside, &metrics));
    let beyond = PhysicalRect::new(just_inside.x + 1, -800, 600, 700);
    assert!(should_undock(DockEdge::Left, beyond, &metrics));
    let beyond_snap = PhysicalRect::new(monitor.work_area.x + snap + 1, -800, 600, 700);
    assert_eq!(snap_edge(beyond_snap, &monitor), None);
}

#[test]
fn collapsed_frames_leave_exact_scaled_sensor_strip() {
    let monitor = Monitor {
        work_area: PhysicalRect::new(-1920, -900, 1920, 1080),
        ..monitor("primary", -1920, 2.0, true)
    };
    let metrics = metrics(&monitor);
    let expanded = expanded_frame(
        &placement(520.0, 680.0, None),
        Some(DockEdge::Left),
        &monitor,
    );
    let collapsed = collapsed_frame(expanded, DockEdge::Left, &metrics);
    assert_eq!(collapsed.right() - i64::from(monitor.work_area.x), 6);
    assert_eq!(collapsed.height, expanded.height);
    let right = collapsed_frame(expanded, DockEdge::Right, &metrics);
    assert_eq!(monitor.work_area.right() - i64::from(right.x), 6);
    assert_eq!(right.height, expanded.height);
    let top = collapsed_frame(expanded, DockEdge::Top, &metrics);
    assert_eq!(top.bottom() - i64::from(monitor.work_area.y), 6);
    assert_eq!(top.width, expanded.width);
}

#[test]
fn missing_monitor_falls_back_to_primary_and_stays_visible() {
    let monitors = [
        monitor("secondary", -1920, 1.5, false),
        monitor("primary", 0, 1.0, true),
    ];
    let all: Vec<MonitorMetrics> = monitors.iter().map(metrics).collect();
    let index = recovery_monitor(&Some(MonitorIdentity::new("missing")), &all).unwrap();
    let chosen = &monitors[index];
    let frame = expanded_frame(
        &placement(520.0, 680.0, Some("missing")),
        Some(DockEdge::Right),
        chosen,
    );
    assert_eq!(chosen.identity, "primary");
    assert!(chosen.work_area.contains(frame));
    assert_eq!(frame.right(), chosen.work_area.right());
    assert_eq!(
        recovery_monitor(&Some(MonitorIdentity::new("secondary")), &all),
        Some(0)
    );
    assert_eq!(recovery_monitor(&None, &Vec::new()), None);
}

#[test]
fn drag_edge_undocks_only_a_docked_window_and_keeps_the_previous_edge() {
    assert_eq!(drag_dock_edge(Some(DockEdge::Left), true, Some(DockEdge::Top)), None);
    assert_eq!(
        drag_dock_edge(Some(DockEdge::Left), false, None),
        Some(DockEdge::Left)
    );
    assert_eq!(
        drag_dock_edge(Some(DockEdge::Left), false, Some(DockEdge::Top)),
        Some(DockEdge::Top)
    );
    assert_eq!(drag_dock_edge(None, true, None), None);
    assert_eq!(drag_dock_edge(None, false, Some(DockEdge::Right)), Some(DockEdge::Right));
}

#[test]
fn display_change_while_hidden_to_tray_keeps_sensor_topmost_off() {
    let mut coordinator = coordinator(StableVisibility::DockedCollapsed(DockEdge::Left));
    coordinator.dispatch(WindowIntent::CloseRequested {
        now_ms: 0,
        guards: WindowGuardSnapshot::default(),
    });
    assert!(!coordinator.state().temporary_sensor_topmost());
    let replacement = monitor("replacement-primary", 0, 1.25, true);
    coordinator.topology_changed(&[replacement]);
    assert!(matches!(
        coordinator.state().visibility(),
        VisibilityState::HiddenToTray { .. }
    ));
    assert!(!coordinator.state().temporary_sensor_topmost());
}
