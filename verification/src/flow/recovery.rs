//! Recovery choice and retry state independent of windows, files, and UI.

use vstd::prelude::*;

use crate::model::{
    DiskFingerprint, ExternalFileFact, ExternalFileState, LoadedDocument, RecoveryCandidate,
};

verus! {

#[derive(Debug, Clone, Copy, PartialEq, Eq, Structural)]
pub enum RecoveryOperation {
    Restoring,
    UsingCanonical,
}

#[derive(Debug, Clone, PartialEq, Eq)]
pub struct RestorePlan {
    pub temporary: LoadedDocument,
    pub expected: Option<DiskFingerprint>,
    pub preserve_canonical_first: bool,
}

#[derive(Debug, Clone, PartialEq, Eq)]
pub enum CanonicalRecoveryPlan {
    Present(ExternalFileFact),
    Missing,
    Unusable,
}

/// The coordinator's state.
pub struct RecoveryView {
    pub candidate: Option<RecoveryCandidate>,
    pub canonical_requires_preserve: bool,
    pub operation: Option<RecoveryOperation>,
    pub restore_guard: Option<Option<DiskFingerprint>>,
}

/// The fingerprint a restore must still find on disk: the canonical note's.
pub open spec fn expected_fingerprint(candidate: RecoveryCandidate) -> Option<DiskFingerprint> {
    match candidate.canonical {
        Some(canonical) => Some(canonical.fingerprint),
        None => None,
    }
}

impl RecoveryView {
    pub open spec fn failed(self) -> RecoveryView {
        RecoveryView { operation: None, restore_guard: None, ..self }
    }

    pub open spec fn restore_begun(self) -> (RecoveryView, Option<RestorePlan>) {
        if self.operation is Some || self.candidate is None {
            (self, None)
        } else {
            let candidate = self.candidate->0;
            let expected = expected_fingerprint(candidate);
            (
                RecoveryView {
                    operation: Some(RecoveryOperation::Restoring),
                    restore_guard: Some(expected),
                    ..self
                },
                Some(
                    RestorePlan {
                        temporary: candidate.temporary,
                        expected,
                        preserve_canonical_first: self.canonical_requires_preserve,
                    },
                ),
            )
        }
    }

    pub open spec fn canonical_begun(self) -> (RecoveryView, Option<CanonicalRecoveryPlan>) {
        if self.operation is Some || self.candidate is None {
            (self, None)
        } else if self.canonical_requires_preserve {
            (self, Some(CanonicalRecoveryPlan::Unusable))
        } else {
            (
                RecoveryView { operation: Some(RecoveryOperation::UsingCanonical), ..self },
                Some(
                    match self.candidate->0.canonical {
                        Some(canonical) => CanonicalRecoveryPlan::Present(
                            canonical.spec_external_fact(),
                        ),
                        None => CanonicalRecoveryPlan::Missing,
                    },
                ),
            )
        }
    }

    pub open spec fn refreshed_after_conflict(self, observed: ExternalFileState) -> RecoveryView {
        match self.candidate {
            None => self,
            Some(candidate) => {
                let (canonical, preserve) = match observed {
                    ExternalFileState::Present(fact) => (
                        Some(
                            LoadedDocument {
                                durable_len: fact.durable_len,
                                text: fact.text,
                                line_ending: fact.line_ending,
                                fingerprint: fact.fingerprint,
                            },
                        ),
                        false,
                    ),
                    ExternalFileState::Missing => (None, false),
                    _ => (None, true),
                };
                RecoveryView {
                    candidate: Some(RecoveryCandidate { canonical, ..candidate }),
                    canonical_requires_preserve: preserve,
                    ..self
                }.failed()
            },
        }
    }
}

#[derive(Debug)]
pub struct RecoveryCoordinator {
    candidate: Option<RecoveryCandidate>,
    canonical_requires_preserve: bool,
    operation: Option<RecoveryOperation>,
    restore_guard: Option<Option<DiskFingerprint>>,
}

impl View for RecoveryCoordinator {
    type V = RecoveryView;

    closed spec fn view(&self) -> RecoveryView {
        RecoveryView {
            candidate: self.candidate,
            canonical_requires_preserve: self.canonical_requires_preserve,
            operation: self.operation,
            restore_guard: self.restore_guard,
        }
    }
}

impl RecoveryCoordinator {
    pub fn new(candidate: Option<RecoveryCandidate>, canonical_requires_preserve: bool) -> (r:
        RecoveryCoordinator)
        ensures
            r@ == (RecoveryView {
                candidate,
                canonical_requires_preserve,
                operation: None,
                restore_guard: None,
            }),
    {
        RecoveryCoordinator { candidate, canonical_requires_preserve, operation: None, restore_guard: None }
    }

    pub fn is_pending(&self) -> (r: bool)
        ensures
            r == (self@.candidate is Some),
    {
        self.candidate.is_some()
    }

    pub fn operation_pending(&self) -> (r: bool)
        ensures
            r == (self@.operation is Some),
    {
        self.operation.is_some()
    }

    /// Starts restoring the temporary copy, guarded by the canonical note's
    /// fingerprint; refused while another choice is running.
    pub fn begin_restore(&mut self) -> (r: Option<RestorePlan>)
        ensures
            (final(self)@, r) == old(self)@.restore_begun(),
    {
        if self.operation.is_some() {
            return None;
        }
        let candidate = match &self.candidate {
            Some(candidate) => candidate,
            None => return None,
        };
        let expected = match &candidate.canonical {
            Some(canonical) => Some(canonical.fingerprint),
            None => None,
        };
        let temporary = candidate.temporary.duplicate();
        self.operation = Some(RecoveryOperation::Restoring);
        self.restore_guard = Some(expected);
        Some(
            RestorePlan {
                temporary,
                expected,
                preserve_canonical_first: self.canonical_requires_preserve,
            },
        )
    }

    /// Starts using the canonical note; a canonical note that must first be
    /// preserved cannot be used, and no second choice may run in parallel.
    pub fn begin_use_canonical(&mut self) -> (r: Option<CanonicalRecoveryPlan>)
        ensures
            (final(self)@, r) == old(self)@.canonical_begun(),
    {
        if self.operation.is_some() || self.candidate.is_none() {
            return None;
        }
        if self.canonical_requires_preserve {
            return Some(CanonicalRecoveryPlan::Unusable);
        }
        self.operation = Some(RecoveryOperation::UsingCanonical);
        let plan = match &self.candidate {
            Some(candidate) => match &candidate.canonical {
                Some(canonical) => CanonicalRecoveryPlan::Present(
                    canonical.duplicate().into_external_fact(),
                ),
                None => CanonicalRecoveryPlan::Missing,
            },
            None => CanonicalRecoveryPlan::Missing,
        };
        Some(plan)
    }

    /// Hands out the fingerprint guard of a running restore, once.
    pub fn take_restore_guard(&mut self) -> (r: Option<Option<DiskFingerprint>>)
        ensures
            r == old(self)@.restore_guard,
            final(self)@ == (RecoveryView { restore_guard: None, ..old(self)@ }),
    {
        self.restore_guard.take()
    }

    pub fn operation(&self) -> (r: Option<RecoveryOperation>)
        ensures
            r == self@.operation,
    {
        self.operation
    }

    /// A failed choice may be retried.
    pub fn fail_operation(&mut self)
        ensures
            final(self)@ == old(self)@.failed(),
    {
        self.operation = None;
        self.restore_guard = None;
    }

    /// A conflict during a choice refreshes the canonical evidence, keeps the
    /// temporary copy, and lets the choice be retried against the new guard.
    pub fn refresh_canonical_after_conflict(&mut self, observed: ExternalFileState)
        ensures
            final(self)@ == old(self)@.refreshed_after_conflict(observed),
    {
        if self.candidate.is_none() {
            return ;
        }
        let (canonical, preserve) = match observed {
            ExternalFileState::Present(fact) => (
                Some(
                    LoadedDocument {
                        durable_len: fact.durable_len,
                        text: fact.text,
                        line_ending: fact.line_ending,
                        fingerprint: fact.fingerprint,
                    },
                ),
                false,
            ),
            ExternalFileState::Missing => (None, false),
            ExternalFileState::InvalidUtf8 { .. } => (None, true),
            ExternalFileState::TooLarge { .. } => (None, true),
        };
        let candidate = self.candidate.take();
        match candidate {
            Some(mut candidate) => {
                candidate.canonical = canonical;
                self.candidate = Some(candidate);
            },
            None => {},
        }
        self.canonical_requires_preserve = preserve;
        self.fail_operation();
    }

    /// The recovery choice is complete.
    pub fn finish(&mut self)
        ensures
            final(self)@ == (RecoveryView {
                candidate: None,
                canonical_requires_preserve: false,
                operation: None,
                restore_guard: None,
            }),
    {
        self.candidate = None;
        self.canonical_requires_preserve = false;
        self.fail_operation();
    }
}

/// While a choice is running, neither choice can start a second one.
pub proof fn lemma_choices_are_exclusive(v: RecoveryView)
    requires
        v.operation is Some,
    ensures
        v.restore_begun() == (v, None::<RestorePlan>),
        v.canonical_begun() == (v, None::<CanonicalRecoveryPlan>),
{
}

/// A restore is guarded by the canonical fingerprint known when it starts, and
/// after a conflict refresh the next restore is guarded by the newly observed
/// fingerprint while keeping the same temporary copy.
pub proof fn lemma_refresh_retargets_restore_guard(v: RecoveryView, fact: ExternalFileFact)
    requires
        v.candidate is Some,
    ensures
        ({
            let next = v.refreshed_after_conflict(ExternalFileState::Present(fact)).restore_begun();
            &&& next.1 is Some
            &&& next.1->0.expected == Some(fact.fingerprint)
            &&& next.1->0.temporary == v.candidate->0.temporary
            &&& next.0.restore_guard == Some(Some(fact.fingerprint))
        }),
{
}

}
