//! Persistence coordination state, independent of filesystem APIs and UI types.

use vstd::prelude::*;

use super::reconciliation::{decide_external_change, spec_decide_external_change, ExternalDecision};
use super::save::{
    checked_add_u64, checked_deadline, AutosaveAction, AutosaveScheduler, AutosaveView, SaveTrigger,
};
use crate::model::{DiskFingerprint, ExternalFileFact, ExternalFileState, FileConflict, Generation};

verus! {

pub const EXTERNAL_DEBOUNCE_MS: u64 = 150;

#[derive(Debug, Clone, PartialEq, Eq)]
pub enum ReconciliationAction {
    IgnoreKnown,
    RecreateMissing,
    ReloadClean(ExternalFileFact),
    ConflictChanged,
}

#[derive(Debug, Clone, Copy, PartialEq, Eq, Structural)]
pub enum QuitAction {
    BlockedByRecovery,
    BlockedByConflict,
    WaitForInFlightSave,
    RecreateMissing,
    SaveDirty,
    Exit,
}

/// The coordinator's state.
pub struct PersistenceView {
    pub autosave: AutosaveView,
    pub external_deadline_ms: Option<u64>,
    pub conflict: Option<FileConflict>,
    pub recovery_pending: bool,
    pub note_save_in_flight: bool,
    pub required_write_in_flight: bool,
    pub durability_required: bool,
}

impl PersistenceView {
    pub open spec fn initial() -> PersistenceView {
        PersistenceView {
            autosave: AutosaveView::idle(),
            external_deadline_ms: None,
            conflict: None,
            recovery_pending: false,
            note_save_in_flight: false,
            required_write_in_flight: false,
            durability_required: false,
        }
    }

    /// Autosave is paused exactly while a recovery choice or a conflict is open.
    pub open spec fn refreshed(self) -> PersistenceView {
        PersistenceView {
            autosave: self.autosave.with_paused(self.recovery_pending || self.conflict is Some),
            ..self
        }
    }

    pub open spec fn with_conflict(self, conflict: Option<FileConflict>) -> PersistenceView {
        PersistenceView { conflict, ..self }.refreshed()
    }

    pub open spec fn spec_decide_quit(self, recovery_pending: bool, document_dirty: bool) -> QuitAction {
        if recovery_pending {
            QuitAction::BlockedByRecovery
        } else if self.conflict is Some {
            QuitAction::BlockedByConflict
        } else if self.note_save_in_flight {
            QuitAction::WaitForInFlightSave
        } else if self.durability_required {
            QuitAction::RecreateMissing
        } else if document_dirty {
            QuitAction::SaveDirty
        } else {
            QuitAction::Exit
        }
    }

    pub open spec fn submitted(self, trigger: SaveTrigger) -> PersistenceView {
        let required = trigger == SaveTrigger::RecreateMissing;
        let s1 = if required {
            PersistenceView { durability_required: true, ..self }
        } else {
            self
        };
        if !s1.note_save_in_flight {
            PersistenceView { note_save_in_flight: true, required_write_in_flight: required, ..s1 }
        } else {
            s1
        }
    }

    pub open spec fn finished(self, succeeded: bool) -> (PersistenceView, bool) {
        let completed_required = self.required_write_in_flight;
        let s1 = if succeeded && completed_required {
            PersistenceView { durability_required: false, ..self }
        } else {
            self
        };
        (
            PersistenceView { note_save_in_flight: false, required_write_in_flight: false, ..s1 },
            completed_required,
        )
    }

    pub open spec fn observed(
        self,
        dirty: bool,
        base: Option<DiskFingerprint>,
        generation: Generation,
        external: ExternalFileState,
    ) -> (PersistenceView, ReconciliationAction) {
        match spec_decide_external_change(dirty, base, external) {
            ExternalDecision::IgnoreKnown => (
                PersistenceView { durability_required: false, ..self }.with_conflict(None),
                ReconciliationAction::IgnoreKnown,
            ),
            ExternalDecision::RecreateMissing => (
                self.with_conflict(None),
                ReconciliationAction::RecreateMissing,
            ),
            ExternalDecision::ReloadClean(fact) => (self, ReconciliationAction::ReloadClean(fact)),
            ExternalDecision::EnterConflict(state) => {
                let conflict = FileConflict {
                    external: state,
                    detected_at_generation: generation,
                    previous_disk_fingerprint: base,
                };
                (
                    if self.conflict is Some {
                        PersistenceView { conflict: Some(conflict), ..self }
                    } else {
                        self.with_conflict(Some(conflict))
                    },
                    ReconciliationAction::ConflictChanged,
                )
            },
        }
    }
}

#[derive(Debug)]
pub struct PersistenceCoordinator {
    autosave: AutosaveScheduler,
    external_deadline_ms: Option<u64>,
    conflict: Option<FileConflict>,
    recovery_pending: bool,
    note_save_in_flight: bool,
    required_write_in_flight: bool,
    durability_required: bool,
}

impl View for PersistenceCoordinator {
    type V = PersistenceView;

    closed spec fn view(&self) -> PersistenceView {
        PersistenceView {
            autosave: self.autosave@,
            external_deadline_ms: self.external_deadline_ms,
            conflict: self.conflict,
            recovery_pending: self.recovery_pending,
            note_save_in_flight: self.note_save_in_flight,
            required_write_in_flight: self.required_write_in_flight,
            durability_required: self.durability_required,
        }
    }
}

impl Default for PersistenceCoordinator {
    fn default() -> (r: PersistenceCoordinator)
        ensures
            r@ == PersistenceView::initial(),
    {
        PersistenceCoordinator {
            autosave: AutosaveScheduler::default(),
            external_deadline_ms: None,
            conflict: None,
            recovery_pending: false,
            note_save_in_flight: false,
            required_write_in_flight: false,
            durability_required: false,
        }
    }
}

impl PersistenceCoordinator {
    /// Edits schedule an autosave unless a conflict is open.
    pub fn on_document_changed(&mut self, now_ms: u64, generation: Generation)
        ensures
            final(self)@ == (if old(self)@.conflict is None {
                PersistenceView { autosave: old(self)@.autosave.changed(now_ms, generation), ..old(self)@ }
            } else {
                old(self)@
            }),
    {
        if self.conflict.is_none() {
            self.autosave.on_document_changed(now_ms, generation);
        }
    }

    pub fn request_save(&mut self, generation: Generation, trigger: SaveTrigger) -> (r: Option<
        AutosaveAction,
    >)
        ensures
            r == old(self)@.autosave.requested(generation, trigger).1,
            final(self)@ == (PersistenceView {
                autosave: old(self)@.autosave.requested(generation, trigger).0,
                ..old(self)@
            }),
    {
        self.autosave.request_now(generation, trigger)
    }

    pub fn tick_autosave(&mut self, now_ms: u64) -> (r: Option<AutosaveAction>)
        ensures
            r == old(self)@.autosave.ticked(now_ms).1,
            final(self)@ == (PersistenceView {
                autosave: old(self)@.autosave.ticked(now_ms).0,
                ..old(self)@
            }),
    {
        self.autosave.tick(now_ms)
    }

    pub fn autosave_deadline(&self) -> (r: Option<u64>)
        ensures
            r == self@.autosave.next_deadline(),
    {
        self.autosave.next_deadline_ms()
    }

    /// Raw file-watch hints restart one short debounce before a fresh check.
    pub fn on_watch_hint(&mut self, now_ms: u64)
        ensures
            final(self)@ == (PersistenceView {
                external_deadline_ms: checked_deadline(now_ms, EXTERNAL_DEBOUNCE_MS),
                ..old(self)@
            }),
    {
        self.external_deadline_ms = checked_add_u64(now_ms, EXTERNAL_DEBOUNCE_MS);
    }

    /// Whether the debounced external check is due; taking it clears it.
    pub fn take_external_check(&mut self, now_ms: u64) -> (r: bool)
        ensures
            r == (old(self)@.external_deadline_ms matches Some(d) && now_ms >= d),
            final(self)@ == (if r {
                PersistenceView { external_deadline_ms: None, ..old(self)@ }
            } else {
                old(self)@
            }),
    {
        let due = match self.external_deadline_ms {
            Some(deadline) => now_ms >= deadline,
            None => false,
        };
        if due {
            self.external_deadline_ms = None;
        }
        due
    }

    pub fn external_deadline(&self) -> (r: Option<u64>)
        ensures
            r == self@.external_deadline_ms,
    {
        self.external_deadline_ms
    }

    /// Classify one fresh durable observation and advance only the conflict /
    /// durability coordination state. Canonical text replacement remains a
    /// separate capability of the editor coordinator.
    pub fn observe_external(
        &mut self,
        dirty: bool,
        base_disk_hash: Option<DiskFingerprint>,
        generation: Generation,
        external: ExternalFileState,
    ) -> (r: ReconciliationAction)
        ensures
            (final(self)@, r) == old(self)@.observed(dirty, base_disk_hash, generation, external),
    {
        match decide_external_change(dirty, base_disk_hash, external) {
            ExternalDecision::IgnoreKnown => {
                self.confirm_durable_present();
                self.clear_conflict();
                ReconciliationAction::IgnoreKnown
            },
            ExternalDecision::RecreateMissing => {
                self.clear_conflict();
                ReconciliationAction::RecreateMissing
            },
            ExternalDecision::ReloadClean(fact) => ReconciliationAction::ReloadClean(fact),
            ExternalDecision::EnterConflict(external) => {
                let conflict = FileConflict {
                    external,
                    detected_at_generation: generation,
                    previous_disk_fingerprint: base_disk_hash,
                };
                if self.conflict.is_some() {
                    self.update_conflict(conflict);
                } else {
                    self.enter_conflict(conflict);
                }
                ReconciliationAction::ConflictChanged
            },
        }
    }

    pub fn enter_conflict(&mut self, conflict: FileConflict)
        ensures
            final(self)@ == old(self)@.with_conflict(Some(conflict)),
    {
        self.conflict = Some(conflict);
        self.refresh_autosave_pause();
    }

    /// Replaces the evidence of an open conflict.
    pub fn update_conflict(&mut self, conflict: FileConflict)
        ensures
            final(self)@ == (PersistenceView { conflict: Some(conflict), ..old(self)@ }),
    {
        self.conflict = Some(conflict);
    }

    pub fn conflict(&self) -> (r: Option<&FileConflict>)
        ensures
            match self@.conflict {
                Some(c) => r == Some(&c),
                None => r is None,
            },
    {
        self.conflict.as_ref()
    }

    pub fn clear_conflict(&mut self)
        ensures
            final(self)@ == old(self)@.with_conflict(None),
    {
        self.conflict = None;
        self.refresh_autosave_pause();
    }

    pub fn set_recovery_pending(&mut self, pending: bool)
        ensures
            final(self)@ == (PersistenceView { recovery_pending: pending, ..old(self)@ }).refreshed(),
    {
        self.recovery_pending = pending;
        self.refresh_autosave_pause();
    }

    fn refresh_autosave_pause(&mut self)
        ensures
            final(self)@ == old(self)@.refreshed(),
    {
        let paused = self.recovery_pending || self.conflict.is_some();
        self.autosave.set_paused(paused);
    }

    /// Record an actual hand-off to the note worker. A recreate request
    /// remains required until a recreate job itself succeeds; a different
    /// in-flight save receipt cannot accidentally satisfy that obligation.
    pub fn note_save_submitted(&mut self, trigger: SaveTrigger)
        ensures
            final(self)@ == old(self)@.submitted(trigger),
    {
        let required = trigger == SaveTrigger::RecreateMissing;
        if required {
            self.durability_required = true;
        }
        if !self.note_save_in_flight {
            self.note_save_in_flight = true;
            self.required_write_in_flight = required;
        }
    }

    /// Records a finished note write; returns whether it was the required one.
    pub fn note_save_finished(&mut self, succeeded: bool) -> (r: bool)
        ensures
            (final(self)@, r) == old(self)@.finished(succeeded),
    {
        let completed_required = self.required_write_in_flight;
        if succeeded && completed_required {
            self.durability_required = false;
        }
        self.note_save_in_flight = false;
        self.required_write_in_flight = false;
        completed_required
    }

    pub fn durability_required(&self) -> (r: bool)
        ensures
            r == self@.durability_required,
    {
        self.durability_required
    }

    pub fn note_save_in_flight(&self) -> (r: bool)
        ensures
            r == self@.note_save_in_flight,
    {
        self.note_save_in_flight
    }

    pub fn has_required_write(&self) -> (r: bool)
        ensures
            r == (self@.note_save_in_flight || self@.durability_required),
    {
        self.note_save_in_flight || self.durability_required
    }

    pub fn decide_quit(&self, recovery_pending: bool, document_dirty: bool) -> (r: QuitAction)
        ensures
            r == self@.spec_decide_quit(recovery_pending, document_dirty),
    {
        if recovery_pending {
            QuitAction::BlockedByRecovery
        } else if self.conflict.is_some() {
            QuitAction::BlockedByConflict
        } else if self.note_save_in_flight {
            QuitAction::WaitForInFlightSave
        } else if self.durability_required {
            QuitAction::RecreateMissing
        } else if document_dirty {
            QuitAction::SaveDirty
        } else {
            QuitAction::Exit
        }
    }

    /// A fresh inspection found the expected durable file. This discharges a
    /// conservative recreate obligation left behind by an overlapping save.
    pub fn confirm_durable_present(&mut self)
        ensures
            final(self)@ == (PersistenceView { durability_required: false, ..old(self)@ }),
    {
        self.durability_required = false;
    }
}

/// The autosave is paused exactly while a conflict or a recovery choice is
/// open: every operation keeps this agreement.
pub open spec fn pause_agrees(v: PersistenceView) -> bool {
    v.autosave.paused == (v.recovery_pending || v.conflict is Some)
}

/// Keeping the pause in agreement across conflict and recovery changes.
pub proof fn lemma_pause_agrees(
    v: PersistenceView,
    c: Option<FileConflict>,
    pending: bool,
    dirty: bool,
    base: Option<DiskFingerprint>,
    generation: Generation,
    external: ExternalFileState,
)
    ensures
        pause_agrees(v.with_conflict(c)),
        pause_agrees((PersistenceView { recovery_pending: pending, ..v }).refreshed()),
        pause_agrees(v) ==> pause_agrees(v.observed(dirty, base, generation, external).0),
{
}

/// A save receipt that was not for the required recreate cannot discharge the
/// recreate obligation; only that write succeeding does.
pub proof fn lemma_unrelated_receipt_keeps_recreate_obligation(v: PersistenceView, succeeded: bool)
    requires
        v.durability_required,
        !v.required_write_in_flight,
    ensures
        v.finished(succeeded).0.durability_required,
        !v.finished(succeeded).1,
{
}

/// Quitting never bypasses an open conflict, an in-flight save, or a required
/// recreate: exiting needs none of them and a clean document.
pub proof fn lemma_quit_exit_requires_settled(v: PersistenceView, recovery: bool, dirty: bool)
    ensures
        v.spec_decide_quit(recovery, dirty) == QuitAction::Exit ==> (!recovery && v.conflict is None
            && !v.note_save_in_flight && !v.durability_required && !dirty),
{
}

}
