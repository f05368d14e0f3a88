//! What the shell does when the persistence worker reports a completed job:
//! a note save, an external read, a configuration save, a temporary-file
//! cleanup, a canonical-file preservation, or the worker stopping.

use vstd::prelude::*;

use crate::model::{DiskFingerprint, ExternalFileState, Generation};

verus! {

/// How a submitted note save ended.
#[derive(Debug, Clone, PartialEq, Eq)]
pub enum NoteSaveOutcome {
    /// The worker wrote generation `generation` with digest `fingerprint`.
    Saved { generation: Generation, fingerprint: DiskFingerprint },
    /// A guarded write found the file changed on disk.
    Conflict { observed: ExternalFileState },
    /// The write failed.
    Failed,
}

/// Which temporary file a cleanup removed.
#[derive(Debug, Clone, Copy, PartialEq, Eq, Structural)]
pub enum TemporaryCleanup {
    /// The recovery copy, once a recovery choice was carried out.
    RecoveryResolved,
    /// The local copy, once loading the external text ended a conflict.
    ConflictDiscarded,
}

/// One completed job of the persistence worker, as plain values.
#[derive(Debug, Clone, PartialEq, Eq)]
pub enum CompletionEvent {
    Note { submitted: Generation, outcome: NoteSaveOutcome },
    ExternalRead { observed: ExternalFileState },
    ExternalReadFailed,
    ConfigSaved,
    ConfigSaveFailed,
    TemporaryRemoved { purpose: TemporaryCleanup, removed: bool },
    CanonicalPreserved { preserved: bool },
    WorkerStopped,
}

/// The status line a completion leaves; the shell adds the error text.
#[derive(Debug, Clone, Copy, PartialEq, Eq, Structural)]
pub enum CompletionDiagnostic {
    ReceiptGenerationMismatch { submitted: Generation, result: Generation },
    SaveFailed { generation: Generation },
    ExternalReadFailed,
    ConfigSaveFailed,
    RecoveryCleanupFailed,
    ConflictCopyCleanupFailed,
    CanonicalPreserveFailed,
    WorkerStopped,
}

/// One thing the shell carries out, in order.
#[derive(Debug, Clone, PartialEq, Eq)]
pub enum ShellAction {
    /// Tell the worker the note job is done.
    AcknowledgeNoteJob,
    /// The save was what was submitted: record it as durable.
    NoteSaved { generation: Generation, fingerprint: DiskFingerprint },
    /// The save did not land: persistence keeps the document dirty.
    NoteSaveFailed,
    /// A running recovery choice failed and may be retried.
    FailRecoveryOperation,
    /// A save during a recovery choice met a changed file.
    RecoverySaveConflict(ExternalFileState),
    /// Reconcile an observation of the note file.
    ReconcileExternal(ExternalFileState),
    /// Continue a pending quit if the document has settled.
    ContinueQuitIfSettled,
    FinishRecoveryCleanup,
    /// Save the local text over the preserved canonical file, guarded by the
    /// restore guard.
    SubmitKeepLocalSave,
    Report(CompletionDiagnostic),
    UpdateWindowTitle,
    Redraw,
}

/// The part of the shell's state that completions change or read.
#[derive(Debug, Clone, Copy, PartialEq, Eq, Structural)]
pub struct ShellFlowState {
    pub quit_pending: bool,
    /// Keeping the local text over a conflict is being saved.
    pub resolving_keep_local: bool,
    pub recovery_pending: bool,
}

/// The state and actions of one completion:
/// - a save receipt for the submitted generation is recorded; one for
///   another generation counts as a failure, as does a failed save, and
///   both end keeping-local (a failed save also cancels a pending quit);
/// - a save that met a changed file cancels a pending quit and goes to the
///   recovery choice when one is pending, else to reconciliation;
/// - an external read is reconciled and may let a pending quit continue;
/// - a cleanup, preservation or worker failure is reported, a failed
///   recovery cleanup or preservation fails the recovery operation, and a
///   preserved canonical file lets the guarded keep-local save go ahead.
pub open spec fn spec_completion_step(s: ShellFlowState, c: CompletionEvent) -> (
    ShellFlowState,
    Seq<ShellAction>,
) {
    match c {
        CompletionEvent::Note { submitted, outcome } => match outcome {
            NoteSaveOutcome::Saved { generation, fingerprint } => if generation == submitted {
                (
                    s,
                    seq![
                        ShellAction::AcknowledgeNoteJob,
                        ShellAction::NoteSaved { generation, fingerprint },
                    ],
                )
            } else {
                (
                    ShellFlowState { resolving_keep_local: false, ..s },
                    seq![
                        ShellAction::AcknowledgeNoteJob,
                        ShellAction::NoteSaveFailed,
                        ShellAction::FailRecoveryOperation,
                        ShellAction::Report(
                            CompletionDiagnostic::ReceiptGenerationMismatch {
                                submitted,
                                result: generation,
                            },
                        ),
                        ShellAction::Redraw,
                    ],
                )
            },
            NoteSaveOutcome::Conflict { observed } => (
                ShellFlowState { quit_pending: false, ..s },
                seq![
                    ShellAction::AcknowledgeNoteJob,
                    ShellAction::NoteSaveFailed,
                    if s.recovery_pending {
                        ShellAction::RecoverySaveConflict(observed)
                    } else {
                        ShellAction::ReconcileExternal(observed)
                    },
                ],
            ),
            NoteSaveOutcome::Failed => (
                ShellFlowState { quit_pending: false, resolving_keep_local: false, ..s },
                seq![
                    ShellAction::AcknowledgeNoteJob,
                    ShellAction::NoteSaveFailed,
                    ShellAction::FailRecoveryOperation,
                    ShellAction::Report(CompletionDiagnostic::SaveFailed { generation: submitted }),
                    ShellAction::UpdateWindowTitle,
                    ShellAction::Redraw,
                ],
            ),
        },
        CompletionEvent::ExternalRead { observed } => (
            s,
            seq![ShellAction::ReconcileExternal(observed), ShellAction::ContinueQuitIfSettled],
        ),
        CompletionEvent::ExternalReadFailed => (
            s,
            seq![
                ShellAction::Report(CompletionDiagnostic::ExternalReadFailed),
                ShellAction::Redraw,
            ],
        ),
        CompletionEvent::ConfigSaved => (s, seq![]),
        CompletionEvent::ConfigSaveFailed => (
            s,
            seq![ShellAction::Report(CompletionDiagnostic::ConfigSaveFailed), ShellAction::Redraw],
        ),
        CompletionEvent::TemporaryRemoved { purpose, removed } => match purpose {
            TemporaryCleanup::RecoveryResolved => if removed {
                (s, seq![ShellAction::FinishRecoveryCleanup])
            } else {
                (
                    s,
                    seq![
                        ShellAction::FailRecoveryOperation,
                        ShellAction::Report(CompletionDiagnostic::RecoveryCleanupFailed),
                        ShellAction::Redraw,
                    ],
                )
            },
            TemporaryCleanup::ConflictDiscarded => if removed {
                (s, seq![])
            } else {
                (
                    s,
                    seq![
                        ShellAction::Report(CompletionDiagnostic::ConflictCopyCleanupFailed),
                        ShellAction::Redraw,
                    ],
                )
            },
        },
        CompletionEvent::CanonicalPreserved { preserved } => if preserved {
            (s, seq![ShellAction::SubmitKeepLocalSave])
        } else {
            (
                s,
                seq![
                    ShellAction::Report(CompletionDiagnostic::CanonicalPreserveFailed),
                    ShellAction::FailRecoveryOperation,
                    ShellAction::Redraw,
                ],
            )
        },
        CompletionEvent::WorkerStopped => (
            s,
            seq![ShellAction::Report(CompletionDiagnostic::WorkerStopped), ShellAction::Redraw],
        ),
    }
}

/// Decides one completion of the persistence worker.
pub fn completion_step(s: ShellFlowState, c: CompletionEvent) -> (r: (
    ShellFlowState,
    Vec<ShellAction>,
))
    ensures
        (r.0, r.1@) == spec_completion_step(s, c),
{
    let ghost spec = spec_completion_step(s, c);
    let mut actions: Vec<ShellAction> = Vec::new();
    let mut next = s;
    match c {
        CompletionEvent::Note { submitted, outcome } => {
            actions.push(ShellAction::AcknowledgeNoteJob);
            match outcome {
                NoteSaveOutcome::Saved { generation, fingerprint } => {
                    if generation.0 == submitted.0 {
                        actions.push(ShellAction::NoteSaved { generation, fingerprint });
                    } else {
                        next.resolving_keep_local = false;
                        actions.push(ShellAction::NoteSaveFailed);
                        actions.push(ShellAction::FailRecoveryOperation);
                        actions.push(
                            ShellAction::Report(
                                CompletionDiagnostic::ReceiptGenerationMismatch {
                                    submitted,
                                    result: generation,
                                },
                            ),
                        );
                        actions.push(ShellAction::Redraw);
                    }
                },
                NoteSaveOutcome::Conflict { observed } => {
                    next.quit_pending = false;
                    actions.push(ShellAction::NoteSaveFailed);
                    if s.recovery_pending {
                        actions.push(ShellAction::RecoverySaveConflict(observed));
                    } else {
                        actions.push(ShellAction::ReconcileExternal(observed));
                    }
                },
                NoteSaveOutcome::Failed => {
                    next.quit_pending = false;
                    next.resolving_keep_local = false;
                    actions.push(ShellAction::NoteSaveFailed);
                    actions.push(ShellAction::FailRecoveryOperation);
                    actions.push(
                        ShellAction::Report(CompletionDiagnostic::SaveFailed { generation: submitted }),
                    );
                    actions.push(ShellAction::UpdateWindowTitle);
                    actions.push(ShellAction::Redraw);
                },
            }
        },
        CompletionEvent::ExternalRead { observed } => {
            actions.push(ShellAction::ReconcileExternal(observed));
            actions.push(ShellAction::ContinueQuitIfSettled);
        },
        CompletionEvent::ExternalReadFailed => {
            actions.push(ShellAction::Report(CompletionDiagnostic::ExternalReadFailed));
            actions.push(ShellAction::Redraw);
        },
        CompletionEvent::ConfigSaved => {},
        CompletionEvent::ConfigSaveFailed => {
            actions.push(ShellAction::Report(CompletionDiagnostic::ConfigSaveFailed));
            actions.push(ShellAction::Redraw);
        },
        CompletionEvent::TemporaryRemoved { purpose, removed } => match purpose {
            TemporaryCleanup::RecoveryResolved => {
                if removed {
                    actions.push(ShellAction::FinishRecoveryCleanup);
                } else {
                    actions.push(ShellAction::FailRecoveryOperation);
                    actions.push(ShellAction::Report(CompletionDiagnostic::RecoveryCleanupFailed));
                    actions.push(ShellAction::Redraw);
                }
            },
            TemporaryCleanup::ConflictDiscarded => {
                if !removed {
                    actions.push(
                        ShellAction::Report(CompletionDiagnostic::ConflictCopyCleanupFailed),
                    );
                    actions.push(ShellAction::Redraw);
                }
            },
        },
        CompletionEvent::CanonicalPreserved { preserved } => {
            if preserved {
                actions.push(ShellAction::SubmitKeepLocalSave);
            } else {
                actions.push(ShellAction::Report(CompletionDiagnostic::CanonicalPreserveFailed));
                actions.push(ShellAction::FailRecoveryOperation);
                actions.push(ShellAction::Redraw);
            }
        },
        CompletionEvent::WorkerStopped => {
            actions.push(ShellAction::Report(CompletionDiagnostic::WorkerStopped));
            actions.push(ShellAction::Redraw);
        },
    }
    assert(actions@ =~= spec.1);
    (next, actions)
}

/// After an external read, a pending quit continues (to its asset pass) once
/// no write is required, no conflict is open and the document is clean.
pub fn quit_may_continue(
    quit_pending: bool,
    required_write: bool,
    conflict_open: bool,
    dirty: bool,
) -> (r: bool)
    ensures
        r == (quit_pending && !required_write && !conflict_open && !dirty),
{
    quit_pending && !required_write && !conflict_open && !dirty
}


/// Whether a note completion is a receipt for the generation that was
/// submitted.
pub open spec fn is_matching_receipt(c: CompletionEvent) -> bool {
    c matches CompletionEvent::Note {
        submitted,
        outcome: NoteSaveOutcome::Saved { generation, .. },
    } && generation == submitted
}

/// Every note completion tells persistence how the save ended, exactly once:
/// a receipt for the submitted generation records the save, and anything
/// else (a failure, a conflict, a receipt for another generation) reports
/// it failed. No other completion says either.
pub proof fn lemma_note_completion_settles_the_save(s: ShellFlowState, c: CompletionEvent)
    ensures
        ({
            let acts = spec_completion_step(s, c).1;
            let saved = exists|i: int| 0 <= i < acts.len() && #[trigger] acts[i] is NoteSaved;
            let failed = acts.contains(ShellAction::NoteSaveFailed);
            &&& c is Note ==> (saved <==> is_matching_receipt(c))
            &&& c is Note ==> (failed <==> !is_matching_receipt(c))
            &&& !(saved && failed)
            &&& !(c is Note) ==> !saved && !failed
        }),
{
    let acts = spec_completion_step(s, c).1;
    assert forall|i: int| 0 <= i < acts.len() implies (#[trigger] acts[i] is NoteSaved) ==> is_matching_receipt(c) by {}
    assert forall|i: int| 0 <= i < acts.len() implies (#[trigger] acts[i] == ShellAction::NoteSaveFailed) ==> (c is Note && !is_matching_receipt(c)) by {}
    if is_matching_receipt(c) {
        assert(acts[1] is NoteSaved);
    }
    if c is Note && !is_matching_receipt(c) {
        assert(acts[1] == ShellAction::NoteSaveFailed);
    }
}

} // verus!
