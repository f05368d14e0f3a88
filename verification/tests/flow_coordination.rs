use sha2::{Digest, Sha256};

use stickymd::config::coordinator::{ConfigAck, ConfigCoordinator, ConfigRevision};
use stickymd::config::preferences::{
    coordinate_window_preference, WindowPreferenceEffect, WindowPreferenceIntent,
};
use stickymd::config::runtime::{ContentZoomPercent, RuntimeConfig, ThemeMode};
use stickymd::flow::clipboard::{paste_from_text, ClipboardError, ClipboardPaste, ClipboardPort};
use stickymd::flow::persistence::{PersistenceCoordinator, QuitAction, ReconciliationAction};
use stickymd::flow::preview::{
    LinkKind, PreviewAction, PreviewAdmission, PreviewCoordinator, PreviewEffect, PreviewFlowError,
    PreviewIntent, PreviewVisibility, SpanAction,
};
use stickymd::config::runtime::ViewMode;
use stickymd::flow::reconciliation::{
    conflict_diagnostic, decide_external_change, ExternalDecision,
};
use stickymd::flow::recovery::RecoveryCoordinator;
use stickymd::flow::save::{AutosaveAction, AutosaveScheduler, SaveTrigger};
use stickymd::model::{
    DiskFingerprint, ExternalFileFact, ExternalFileState, FileConflict, Generation, LineEnding,
    LoadedDocument, RecoveryCandidate,
};

fn hash_bytes(bytes: &[u8]) -> DiskFingerprint {
    DiskFingerprint(Sha256::digest(bytes).into())
}

fn generation(value: u64) -> Generation {
    let mut generation = Generation::initial();
    for _ in 0..value {
        generation = generation.checked_next().unwrap();
    }
    generation
}

fn next(generation: Generation) -> Generation {
    generation.checked_next().unwrap()
}

fn external(text: &str) -> ExternalFileFact {
    ExternalFileFact {
        fingerprint: hash_bytes(text.as_bytes()),
        text: text.into(),
        line_ending: LineEnding::Lf,
        durable_len: text.len(),
    }
}

fn loaded(text: &str) -> LoadedDocument {
    LoadedDocument {
        durable_len: text.len(),
        text: text.to_owned(),
        line_ending: LineEnding::Lf,
        fingerprint: hash_bytes(text.as_bytes()),
    }
}

// ---- autosave -------------------------------------------------------------

#[test]
fn edit_debounce_resets_and_fires_only_at_650ms() {
    let mut scheduler = AutosaveScheduler::default();
    scheduler.on_document_changed(0, generation(1));
    assert_eq!(scheduler.tick(649), None);
    scheduler.on_document_changed(400, generation(2));
    assert_eq!(scheduler.tick(1049), None);
    assert_eq!(
        scheduler.tick(1050),
        Some(AutosaveAction {
            generation: generation(2),
            trigger: SaveTrigger::Debounce,
        })
    );
}

#[test]
fn one_thousand_continuous_edits_coalesce_to_one_autosave() {
    let mut scheduler = AutosaveScheduler::default();
    let mut latest = Generation::initial();
    for now_ms in 0..1000 {
        latest = latest.checked_next().unwrap();
        scheduler.on_document_changed(now_ms, latest);
    }
    assert_eq!(scheduler.tick(1648), None);
    assert_eq!(
        scheduler.tick(1649),
        Some(AutosaveAction {
            generation: latest,
            trigger: SaveTrigger::Debounce,
        })
    );
    assert_eq!(scheduler.tick(10_000), None);
}

#[test]
fn immediate_triggers_bypass_and_cancel_debounce() {
    let mut scheduler = AutosaveScheduler::default();
    scheduler.on_document_changed(0, generation(1));
    assert_eq!(
        scheduler.request_now(generation(1), SaveTrigger::Manual),
        Some(AutosaveAction {
            generation: generation(1),
            trigger: SaveTrigger::Manual,
        })
    );
    assert_eq!(scheduler.tick(1000), None);

    for trigger in [SaveTrigger::FocusLoss, SaveTrigger::Shutdown] {
        scheduler.on_document_changed(2000, generation(2));
        assert_eq!(
            scheduler.request_now(generation(2), trigger),
            Some(AutosaveAction {
                generation: generation(2),
                trigger,
            })
        );
    }
}

#[test]
fn conflict_pause_discards_normal_autosave() {
    let mut scheduler = AutosaveScheduler::default();
    scheduler.on_document_changed(0, generation(1));
    scheduler.set_paused(true);
    assert_eq!(scheduler.tick(1000), None);
    assert_eq!(
        scheduler.request_now(generation(1), SaveTrigger::FocusLoss),
        None
    );
}

#[test]
fn debounce_deadline_is_exposed_and_cleared_after_firing() {
    let mut scheduler = AutosaveScheduler::default();
    assert_eq!(scheduler.next_deadline_ms(), None);
    scheduler.on_document_changed(100, generation(1));
    assert_eq!(scheduler.next_deadline_ms(), Some(750));
    assert!(scheduler.tick(749).is_none());
    assert!(scheduler.tick(750).is_some());
    assert_eq!(scheduler.next_deadline_ms(), None);
    scheduler.on_document_changed(800, generation(2));
    scheduler.set_paused(true);
    assert_eq!(scheduler.next_deadline_ms(), None);
    scheduler.set_paused(false);
    assert_eq!(scheduler.next_deadline_ms(), None);
}

#[test]
fn debounce_past_the_end_of_time_schedules_nothing() {
    let mut scheduler = AutosaveScheduler::default();
    scheduler.on_document_changed(u64::MAX - 10, generation(1));
    assert_eq!(scheduler.next_deadline_ms(), None);
    assert_eq!(scheduler.tick(u64::MAX), None);
}

// ---- persistence ----------------------------------------------------------

#[test]
fn raw_watch_hints_coalesce_to_one_check() {
    let mut flow = PersistenceCoordinator::default();
    for now in 0..100 {
        flow.on_watch_hint(now);
    }
    assert!(!flow.take_external_check(248));
    assert!(flow.take_external_check(249));
    assert!(!flow.take_external_check(1000));
}

#[test]
fn unrelated_save_receipt_cannot_satisfy_required_recreate() {
    let mut flow = PersistenceCoordinator::default();
    flow.note_save_submitted(SaveTrigger::Debounce);
    flow.note_save_submitted(SaveTrigger::RecreateMissing);
    assert!(!flow.note_save_finished(true));

    assert!(flow.durability_required());
    assert!(!flow.note_save_in_flight());

    flow.note_save_submitted(SaveTrigger::RecreateMissing);
    assert!(flow.note_save_finished(true));
    assert!(!flow.has_required_write());
}

#[test]
fn recovery_and_conflict_pause_are_independent() {
    let mut flow = PersistenceCoordinator::default();
    flow.set_recovery_pending(true);
    flow.clear_conflict();
    assert!(flow
        .request_save(Generation::initial(), SaveTrigger::Manual)
        .is_none());
    flow.set_recovery_pending(false);
    assert!(flow
        .request_save(Generation::initial(), SaveTrigger::Manual)
        .is_some());
}

#[test]
fn known_base_and_missing_observations_clear_stale_conflicts() {
    let mut flow = PersistenceCoordinator::default();
    let known = hash_bytes(b"known");
    flow.enter_conflict(FileConflict {
        external: ExternalFileState::InvalidUtf8 {
            fingerprint: hash_bytes(&[0xff]),
        },
        detected_at_generation: Generation::initial(),
        previous_disk_fingerprint: Some(known),
    });
    assert_eq!(
        flow.observe_external(
            true,
            Some(known),
            Generation::initial(),
            ExternalFileState::Present(ExternalFileFact {
                fingerprint: known,
                text: "known".into(),
                line_ending: LineEnding::Lf,
                durable_len: 5,
            })
        ),
        ReconciliationAction::IgnoreKnown
    );
    assert!(flow.conflict().is_none());

    flow.enter_conflict(FileConflict {
        external: ExternalFileState::Present(ExternalFileFact {
            fingerprint: hash_bytes(b"old external"),
            text: "old external".into(),
            line_ending: LineEnding::Lf,
            durable_len: 12,
        }),
        detected_at_generation: Generation::initial(),
        previous_disk_fingerprint: Some(known),
    });
    assert_eq!(
        flow.observe_external(
            true,
            Some(known),
            Generation::initial(),
            ExternalFileState::Missing
        ),
        ReconciliationAction::RecreateMissing
    );
    assert!(flow.conflict().is_none());
}

#[test]
fn quit_never_bypasses_clean_conflict_or_required_write() {
    let mut flow = PersistenceCoordinator::default();
    let hash = hash_bytes(b"disk");
    flow.enter_conflict(FileConflict {
        external: ExternalFileState::InvalidUtf8 {
            fingerprint: hash_bytes(&[0xff]),
        },
        detected_at_generation: Generation::initial(),
        previous_disk_fingerprint: Some(hash),
    });
    assert_eq!(
        flow.decide_quit(false, false),
        QuitAction::BlockedByConflict
    );
    flow.clear_conflict();
    flow.note_save_submitted(SaveTrigger::RecreateMissing);
    assert_eq!(
        flow.decide_quit(false, false),
        QuitAction::WaitForInFlightSave
    );
    flow.note_save_finished(false);
    assert_eq!(flow.decide_quit(false, false), QuitAction::RecreateMissing);
}

#[test]
fn quit_blocks_on_recovery_saves_dirty_and_exits_clean() {
    let flow = PersistenceCoordinator::default();
    assert_eq!(flow.decide_quit(true, true), QuitAction::BlockedByRecovery);
    assert_eq!(flow.decide_quit(false, true), QuitAction::SaveDirty);
    assert_eq!(flow.decide_quit(false, false), QuitAction::Exit);
}

#[test]
fn dirty_external_change_opens_a_conflict_that_pauses_autosave() {
    let mut flow = PersistenceCoordinator::default();
    flow.on_document_changed(0, generation(1));
    assert_eq!(flow.autosave_deadline(), Some(650));
    let action = flow.observe_external(
        true,
        Some(hash_bytes(b"base")),
        generation(1),
        ExternalFileState::Present(external("theirs")),
    );
    assert_eq!(action, ReconciliationAction::ConflictChanged);
    assert!(flow.conflict().is_some());
    assert_eq!(flow.autosave_deadline(), None);
    assert!(flow.tick_autosave(10_000).is_none());
}

// ---- reconciliation -------------------------------------------------------

#[test]
fn known_self_write_is_ignored_by_hash() {
    let fact = external("same");
    assert_eq!(
        decide_external_change(false, Some(fact.fingerprint), ExternalFileState::Present(fact)),
        ExternalDecision::IgnoreKnown
    );
}

#[test]
fn clean_external_change_reloads_but_dirty_change_conflicts() {
    let fact = external("external");
    assert!(matches!(
        decide_external_change(false, None, ExternalFileState::Present(fact.clone())),
        ExternalDecision::ReloadClean(_)
    ));
    assert!(matches!(
        decide_external_change(true, None, ExternalFileState::Present(fact)),
        ExternalDecision::EnterConflict(_)
    ));
}

#[test]
fn missing_recreates_and_invalid_utf8_never_reloads() {
    assert_eq!(
        decide_external_change(false, None, ExternalFileState::Missing),
        ExternalDecision::RecreateMissing
    );
    assert!(matches!(
        decide_external_change(
            false,
            None,
            ExternalFileState::InvalidUtf8 {
                fingerprint: hash_bytes(&[0xff])
            }
        ),
        ExternalDecision::EnterConflict(_)
    ));
}

#[test]
fn oversized_file_is_a_conflict_even_when_clean() {
    assert_eq!(
        decide_external_change(
            false,
            None,
            ExternalFileState::TooLarge { durable_len: 1 << 40 }
        ),
        ExternalDecision::EnterConflict(ExternalFileState::TooLarge { durable_len: 1 << 40 })
    );
}

// ---- recovery -------------------------------------------------------------

#[test]
fn restore_uses_canonical_fingerprint_and_blocks_parallel_choices() {
    let canonical = loaded("disk");
    let expected = canonical.fingerprint;
    let mut recovery = RecoveryCoordinator::new(
        Some(RecoveryCandidate {
            canonical: Some(canonical),
            temporary: loaded("temporary"),
            temporary_is_newer: true,
        }),
        false,
    );
    let plan = recovery.begin_restore().unwrap();
    assert_eq!(plan.expected, Some(expected));
    assert_eq!(plan.temporary.text, "temporary");
    assert!(recovery.begin_restore().is_none());
    assert!(recovery.begin_use_canonical().is_none());
}

#[test]
fn conflict_refreshes_the_next_guard_without_losing_temporary_evidence() {
    let mut recovery = RecoveryCoordinator::new(
        Some(RecoveryCandidate {
            canonical: Some(loaded("old")),
            temporary: loaded("temporary"),
            temporary_is_newer: true,
        }),
        false,
    );
    recovery.begin_restore().unwrap();
    let newer = hash_bytes(b"new external");
    recovery.refresh_canonical_after_conflict(ExternalFileState::Present(ExternalFileFact {
        fingerprint: newer,
        text: "new external".into(),
        line_ending: LineEnding::Lf,
        durable_len: 12,
    }));
    let retried = recovery.begin_restore().unwrap();
    assert_eq!(retried.expected, Some(newer));
    assert_eq!(retried.temporary.text, "temporary");
}

#[test]
fn unusable_canonical_is_reported_and_finish_clears_the_choice() {
    let mut recovery = RecoveryCoordinator::new(
        Some(RecoveryCandidate {
            canonical: None,
            temporary: loaded("temporary"),
            temporary_is_newer: true,
        }),
        true,
    );
    assert!(recovery.is_pending());
    assert!(matches!(
        recovery.begin_use_canonical(),
        Some(stickymd::flow::recovery::CanonicalRecoveryPlan::Unusable)
    ));
    assert!(!recovery.operation_pending());
    let plan = recovery.begin_restore().unwrap();
    assert!(plan.preserve_canonical_first);
    assert_eq!(plan.expected, None);
    assert_eq!(recovery.take_restore_guard(), Some(None));
    recovery.finish();
    assert!(!recovery.is_pending());
    assert!(recovery.begin_restore().is_none());
}

// ---- preview --------------------------------------------------------------

#[test]
fn split_resets_fixed_one_second_debounce() {
    let mut flow = PreviewCoordinator::default();
    let first = next(Generation::initial());
    let second = next(first);
    assert_eq!(
        flow.on_document_changed(0, first, PreviewVisibility::Split),
        None
    );
    assert_eq!(flow.tick(999), None);
    flow.on_document_changed(500, second, PreviewVisibility::Split);
    assert_eq!(flow.tick(1_499), None);
    assert_eq!(flow.tick(1_500), Some(PreviewAction::Build(second)));
}

#[test]
fn one_hundred_rapid_split_edits_emit_only_the_latest_build() {
    let mut flow = PreviewCoordinator::default();
    let mut generation = Generation::initial();
    for now_ms in 0..100 {
        generation = next(generation);
        assert_eq!(
            flow.on_document_changed(now_ms, generation, PreviewVisibility::Split),
            None
        );
    }

    assert_eq!(flow.tick(1_098), None);
    assert_eq!(flow.tick(1_099), Some(PreviewAction::Build(generation)));
    assert_eq!(flow.tick(2_000), None);
}

#[test]
fn preview_entry_and_preview_visible_changes_are_immediate() {
    let mut flow = PreviewCoordinator::default();
    let generation = next(Generation::initial());
    assert_eq!(
        flow.show(generation, PreviewVisibility::Preview),
        Some(PreviewAction::Build(generation))
    );
    assert_eq!(
        flow.on_document_changed(0, generation, PreviewVisibility::Preview),
        Some(PreviewAction::Build(generation))
    );
}

#[test]
fn clean_preview_relayouts_when_a_visible_mode_change_alters_its_viewport() {
    let mut flow = PreviewCoordinator::default();
    let generation = next(Generation::initial());
    assert_eq!(
        flow.admit_completion(generation, generation),
        PreviewAdmission::Apply
    );

    assert_eq!(
        flow.show(generation, PreviewVisibility::Preview),
        Some(PreviewAction::Relayout(generation))
    );
    assert_eq!(
        flow.show(generation, PreviewVisibility::Split),
        Some(PreviewAction::Relayout(generation))
    );
}

#[test]
fn stale_completion_cannot_replace_current_preview() {
    let mut flow = PreviewCoordinator::default();
    let old = Generation::initial();
    let current = next(old);
    assert_eq!(
        flow.admit_completion(old, current),
        PreviewAdmission::DropStale
    );
    assert_eq!(flow.applied_generation(), None);
    assert_eq!(
        flow.admit_completion(current, current),
        PreviewAdmission::Apply
    );
    assert_eq!(flow.applied_generation(), Some(current));
}

#[test]
fn hidden_edits_remain_dirty_until_preview_is_shown() {
    let mut flow = PreviewCoordinator::default();
    let generation = next(Generation::initial());
    flow.on_document_changed(0, generation, PreviewVisibility::Hidden);
    assert_eq!(
        flow.show(generation, PreviewVisibility::Preview),
        Some(PreviewAction::Build(generation))
    );
}

#[test]
fn releasing_projection_drops_applied_and_scheduled_state_but_keeps_dirty_work() {
    let mut flow = PreviewCoordinator::default();
    let generation = next(Generation::initial());
    flow.on_document_changed(0, generation, PreviewVisibility::Split);
    assert!(flow.deadline().is_some());
    assert_eq!(
        flow.admit_completion(generation, generation),
        PreviewAdmission::Apply
    );
    flow.on_document_changed(1, generation, PreviewVisibility::Split);
    flow.release_projection();
    assert_eq!(flow.applied_generation(), None);
    assert_eq!(flow.deadline(), None);
    assert_eq!(
        flow.show(generation, PreviewVisibility::Preview),
        Some(PreviewAction::Build(generation))
    );
}

// ---- configuration --------------------------------------------------------

fn with_opacity(coordinator: &ConfigCoordinator, opacity: u8) -> RuntimeConfig {
    let mut candidate = coordinator.current().clone();
    candidate.opacity = opacity;
    candidate
}

#[test]
fn phase8_config_equal_update_is_a_no_op() {
    let mut coordinator = ConfigCoordinator::loaded(RuntimeConfig::default());
    let unchanged = coordinator.current().clone();
    assert!(!coordinator.update(unchanged).unwrap());
    assert_eq!(coordinator.revision(), ConfigRevision::initial());
    assert!(!coordinator.is_dirty());
}

#[test]
fn phase8_config_in_flight_write_coalesces_to_latest_follow_up() {
    let mut coordinator = ConfigCoordinator::loaded(RuntimeConfig::default());
    let candidate = with_opacity(&coordinator, 80);
    coordinator.update(candidate).unwrap();
    let first = coordinator.begin_persist().unwrap();
    let candidate = with_opacity(&coordinator, 85);
    coordinator.update(candidate).unwrap();
    assert!(coordinator.begin_persist().is_none());
    assert_eq!(
        coordinator.acknowledge(first.revision, true),
        ConfigAck::Applied {
            needs_follow_up: true
        }
    );
    let latest = coordinator.begin_persist().unwrap();
    assert_eq!(latest.config.opacity, 85);
    assert!(latest.revision > first.revision);
}

#[test]
fn phase8_config_failed_or_stale_ack_never_clears_dirty() {
    let mut coordinator = ConfigCoordinator::loaded(RuntimeConfig::default());
    let mut candidate = coordinator.current().clone();
    candidate.always_on_top = true;
    coordinator.update(candidate).unwrap();
    let request = coordinator.begin_persist().unwrap();
    assert_eq!(
        coordinator.acknowledge(ConfigRevision::initial(), true),
        ConfigAck::Stale
    );
    assert!(coordinator.is_saving());
    assert_eq!(
        coordinator.acknowledge(request.revision, false),
        ConfigAck::Applied {
            needs_follow_up: true
        }
    );
    assert!(coordinator.is_dirty());
}

#[test]
fn phase8_preference_updates_cannot_change_document_generation() {
    let mut coordinator = ConfigCoordinator::loaded(RuntimeConfig::default());
    let mut candidate = coordinator.current().clone();
    candidate.theme = ThemeMode::Dark;
    candidate.opacity = 70;
    candidate.always_on_top = true;
    assert!(coordinator.update(candidate).unwrap());
    assert_eq!(coordinator.current().theme, ThemeMode::Dark);
    assert_eq!(coordinator.current().opacity, 70);
    assert!(coordinator.current().always_on_top);
}

#[test]
fn successful_ack_makes_the_coordinator_clean() {
    let mut coordinator = ConfigCoordinator::loaded(RuntimeConfig::default());
    let candidate = with_opacity(&coordinator, 60);
    coordinator.update(candidate).unwrap();
    let request = coordinator.begin_persist().unwrap();
    assert_eq!(
        coordinator.acknowledge(request.revision, true),
        ConfigAck::Applied {
            needs_follow_up: false
        }
    );
    assert!(!coordinator.is_dirty());
    assert!(!coordinator.is_saving());
    assert!(coordinator.begin_persist().is_none());
}

#[test]
fn phase10_zoom_defaults_and_bounds_are_stable() {
    let default = RuntimeConfig::default();
    assert_eq!(default.content_zoom_percent.value(), 100);
    assert_eq!(ContentZoomPercent::new_clamped(1).value(), 50);
    assert_eq!(ContentZoomPercent::new_clamped(999).value(), 300);
    assert_eq!(ContentZoomPercent::default().stepped(10).value(), 110);
    assert_eq!(ContentZoomPercent::new_clamped(50).stepped(-10).value(), 50);
}

#[test]
fn config_defaults_keep_phase10_and_phase14_preferences_stable() {
    let default = RuntimeConfig::default();
    assert_eq!(default.content_zoom_percent.value(), 100);
    assert!(default.split_scroll_sync);
}

#[test]
fn zoom_steps_saturate_at_both_bounds() {
    assert_eq!(ContentZoomPercent::new_clamped(300).stepped(i16::MAX).value(), 300);
    assert_eq!(ContentZoomPercent::new_clamped(50).stepped(i16::MIN).value(), 50);
    assert_eq!(ContentZoomPercent::new_clamped(295).stepped(10).value(), 300);
}

#[test]
fn default_config_is_semantically_valid_and_bad_values_are_not() {
    let default = RuntimeConfig::default();
    assert!(default.is_semantically_valid());
    let mut low = default.clone();
    low.opacity = 39;
    assert!(!low.is_semantically_valid());
    let mut narrow = default.clone();
    narrow.window.width_dip = 219;
    assert!(!narrow.is_semantically_valid());
    let mut nan = default.clone();
    nan.window.floating_x_ratio = stickymd::config::runtime::RatioBits(f32::NAN.to_bits());
    assert!(!nan.is_semantically_valid());
    let mut edge = default;
    edge.window.dock_offset_ratio = stickymd::config::runtime::RatioBits(1.0f32.to_bits());
    assert!(edge.is_semantically_valid());
}

#[test]
fn phase8_preview_opacity_is_clamped_without_mutating_config() {
    let mut config = ConfigCoordinator::loaded(RuntimeConfig::default());
    assert_eq!(
        coordinate_window_preference(&mut config, WindowPreferenceIntent::PreviewOpacity(12))
            .unwrap(),
        WindowPreferenceEffect::ApplyOpacity {
            opacity: 40,
            persist: false,
        }
    );
    assert_eq!(config.current().opacity, 96);
    assert!(!config.is_dirty());
}

#[test]
fn phase10_opacity_clamps_to_the_new_forty_percent_floor() {
    let mut config = ConfigCoordinator::loaded(RuntimeConfig::default());
    assert_eq!(
        coordinate_window_preference(&mut config, WindowPreferenceIntent::CommitOpacity(39))
            .unwrap(),
        WindowPreferenceEffect::ApplyOpacity {
            opacity: 40,
            persist: true,
        }
    );
    assert_eq!(config.current().opacity, 40);
}

#[test]
fn phase8_committed_preferences_have_one_config_authority() {
    let mut config = ConfigCoordinator::loaded(RuntimeConfig::default());
    assert_eq!(
        coordinate_window_preference(&mut config, WindowPreferenceIntent::SetTheme(ThemeMode::Dark))
            .unwrap(),
        WindowPreferenceEffect::ApplyTheme(ThemeMode::Dark)
    );
    assert_eq!(config.current().theme, ThemeMode::Dark);
    assert!(config.is_dirty());

    assert_eq!(
        coordinate_window_preference(&mut config, WindowPreferenceIntent::SetTheme(ThemeMode::Dark))
            .unwrap(),
        WindowPreferenceEffect::NoOp
    );
}

#[test]
fn phase10_content_zoom_uses_the_config_authority() {
    let mut config = ConfigCoordinator::loaded(RuntimeConfig::default());
    let zoom = ContentZoomPercent::new_clamped(130);
    assert_eq!(
        coordinate_window_preference(&mut config, WindowPreferenceIntent::SetContentZoom(zoom))
            .unwrap(),
        WindowPreferenceEffect::ApplyContentZoom(zoom)
    );
    assert_eq!(config.current().content_zoom_percent, zoom);
}

#[test]
fn always_on_top_change_is_applied_once() {
    let mut config = ConfigCoordinator::loaded(RuntimeConfig::default());
    assert_eq!(
        coordinate_window_preference(&mut config, WindowPreferenceIntent::SetAlwaysOnTop(true))
            .unwrap(),
        WindowPreferenceEffect::ApplyAlwaysOnTop(true)
    );
    assert_eq!(
        coordinate_window_preference(&mut config, WindowPreferenceIntent::SetAlwaysOnTop(true))
            .unwrap(),
        WindowPreferenceEffect::NoOp
    );
    assert_eq!(
        coordinate_window_preference(&mut config, WindowPreferenceIntent::CommitOpacity(96))
            .unwrap(),
        WindowPreferenceEffect::ApplyOpacity {
            opacity: 96,
            persist: false,
        }
    );
}

#[test]
fn conflict_status_line_names_the_resolution_keys() {
    let conflict = |external: ExternalFileState| FileConflict {
        external,
        detected_at_generation: Generation::initial(),
        previous_disk_fingerprint: None,
    };
    assert_eq!(
        conflict_diagnostic(Some(&conflict(ExternalFileState::TooLarge {
            durable_len: 20_971_521
        }))),
        "外部 note.md 过大（20971521 bytes）；F7 保留本地覆盖。"
    );
    assert_eq!(
        conflict_diagnostic(Some(&conflict(ExternalFileState::InvalidUtf8 {
            fingerprint: hash_bytes(&[0xff]),
        }))),
        "外部文件不是有效 UTF-8；F7 保留本地覆盖。"
    );
    assert_eq!(
        conflict_diagnostic(Some(&conflict(ExternalFileState::Present(ExternalFileFact {
            fingerprint: hash_bytes(b"x"),
            text: "x".into(),
            line_ending: LineEnding::Lf,
            durable_len: 1,
        })))),
        "文件已在外部修改  |  [F6 载入外部]  [F7 保留本地]"
    );
    assert_eq!(
        conflict_diagnostic(Some(&conflict(ExternalFileState::Missing))),
        "外部文件状态冲突；F7 保留本地。"
    );
    assert_eq!(conflict_diagnostic(None), "外部文件状态冲突；F7 保留本地。");
}

struct FakeClipboard {
    text: Result<Option<String>, ClipboardError>,
    written: Vec<String>,
}

impl ClipboardPort for FakeClipboard {
    fn read_text(&mut self) -> Result<Option<String>, ClipboardError> {
        self.text.clone()
    }

    fn write_text(&mut self, text: &str) -> Result<(), ClipboardError> {
        self.written.push(text.to_string());
        Ok(())
    }
}

#[test]
fn default_paste_reads_whatever_text_the_clipboard_holds() {
    let mut holding = FakeClipboard {
        text: Ok(Some("hello".to_string())),
        written: Vec::new(),
    };
    assert_eq!(
        holding.read_paste(),
        Ok(Some(ClipboardPaste::Text("hello".to_string())))
    );
    let mut empty = FakeClipboard {
        text: Ok(None),
        written: Vec::new(),
    };
    assert_eq!(empty.read_paste(), Ok(None));
    let mut failing = FakeClipboard {
        text: Err(ClipboardError::Unavailable("busy".to_string())),
        written: Vec::new(),
    };
    assert_eq!(
        failing.read_paste(),
        Err(ClipboardError::Unavailable("busy".to_string()))
    );
    assert_eq!(
        paste_from_text(Ok(Some("x".to_string()))),
        Ok(Some(ClipboardPaste::Text("x".to_string())))
    );
    assert!(holding.write_text("y").is_ok());
    assert_eq!(holding.written, vec!["y".to_string()]);
}

#[test]
fn link_activation_is_validated_before_shell_effects_are_emitted() {
    let flow = PreviewCoordinator::default();
    assert!(matches!(
        flow.dispatch(PreviewIntent::Activate(SpanAction::OpenLink {
            destination: "javascript:alert(1)".into(),
            kind: LinkKind::Blocked,
        })),
        Err(PreviewFlowError::BlockedScheme)
    ));
    assert_eq!(
        flow.dispatch(PreviewIntent::Activate(SpanAction::OpenLink {
            destination: "https://example.com".into(),
            kind: LinkKind::Https,
        })),
        Ok(PreviewEffect::OpenTarget {
            destination: "https://example.com".into(),
            kind: LinkKind::Https,
        })
    );
}

#[test]
fn remote_images_open_only_over_http_and_view_modes_pass_through() {
    let flow = PreviewCoordinator::default();
    assert_eq!(
        flow.dispatch(PreviewIntent::Activate(SpanAction::RemoteImageLink {
            destination: "http://example.com/a.png".into(),
            kind: LinkKind::Http,
        })),
        Ok(PreviewEffect::OpenTarget {
            destination: "http://example.com/a.png".into(),
            kind: LinkKind::Http,
        })
    );
    assert_eq!(
        flow.dispatch(PreviewIntent::Activate(SpanAction::RemoteImageLink {
            destination: "mailto:a@example.com".into(),
            kind: LinkKind::OtherAllowed,
        })),
        Err(PreviewFlowError::BlockedScheme)
    );
    assert_eq!(
        flow.dispatch(PreviewIntent::SetViewMode(ViewMode::Split)),
        Ok(PreviewEffect::ApplyViewMode(ViewMode::Split))
    );
}
