//! Decisions of the managed-image store: where a proven asset sits, what
//! reconciliation does with each proven file, and how a store or a move
//! proceeds from what the file system showed.

use vstd::prelude::*;

use crate::model::{same_fingerprint, DiskFingerprint};

verus! {

/// The two managed directories beside a note: `images/` and `.trash/`.
#[derive(Debug, Clone, Copy, PartialEq, Eq, Structural)]
pub enum ManagedAssetLocation {
    Images,
    Trash,
}

/// Where an asset was proven to be a StickyMD-owned file.
#[derive(Debug, Clone, Copy, PartialEq, Eq, Structural)]
pub enum AssetLocationProof {
    Images,
    Trash,
}

/// How a stored image came to be in `images/`.
#[derive(Debug, Clone, Copy, PartialEq, Eq, Structural)]
pub enum StoredAssetDisposition {
    Created,
    Reused,
    Restored,
}

/// Runtime reconciliation only moves files; at a safe boundary, proven
/// unreferenced trash may also be deleted.
#[derive(Debug, Clone, Copy, PartialEq, Eq, Structural)]
pub enum AssetReconcileMode {
    Runtime,
    SafeBoundary,
}

/// The proof naming the location an asset was proven in.
pub fn location_proof(location: ManagedAssetLocation) -> (r: AssetLocationProof)
    ensures
        location == ManagedAssetLocation::Images ==> r == AssetLocationProof::Images,
        location == ManagedAssetLocation::Trash ==> r == AssetLocationProof::Trash,
{
    match location {
        ManagedAssetLocation::Images => AssetLocationProof::Images,
        ManagedAssetLocation::Trash => AssetLocationProof::Trash,
    }
}

/// What reconciliation does with one proven managed file.
#[derive(Debug, Clone, Copy, PartialEq, Eq, Structural)]
pub enum ReconcileEntryAction {
    MoveToTrash,
    RestoreToImages,
    DeleteFromTrash,
    Keep,
}

/// Unreferenced images go to the trash, referenced trash comes back, and
/// unreferenced trash is deleted only at a safe boundary.
pub open spec fn spec_reconcile_entry_action(
    location: ManagedAssetLocation,
    referenced: bool,
    mode: AssetReconcileMode,
) -> ReconcileEntryAction {
    match location {
        ManagedAssetLocation::Images => if referenced {
            ReconcileEntryAction::Keep
        } else {
            ReconcileEntryAction::MoveToTrash
        },
        ManagedAssetLocation::Trash => if referenced {
            ReconcileEntryAction::RestoreToImages
        } else if mode == AssetReconcileMode::SafeBoundary {
            ReconcileEntryAction::DeleteFromTrash
        } else {
            ReconcileEntryAction::Keep
        },
    }
}

pub fn reconcile_entry_action(
    location: ManagedAssetLocation,
    referenced: bool,
    mode: AssetReconcileMode,
) -> (r: ReconcileEntryAction)
    ensures
        r == spec_reconcile_entry_action(location, referenced, mode),
{
    match location {
        ManagedAssetLocation::Images => if referenced {
            ReconcileEntryAction::Keep
        } else {
            ReconcileEntryAction::MoveToTrash
        },
        ManagedAssetLocation::Trash => if referenced {
            ReconcileEntryAction::RestoreToImages
        } else {
            match mode {
                AssetReconcileMode::SafeBoundary => ReconcileEntryAction::DeleteFromTrash,
                AssetReconcileMode::Runtime => ReconcileEntryAction::Keep,
            }
        },
    }
}

/// A referenced asset is never moved to the trash or deleted, and runtime
/// reconciliation never deletes anything.
pub proof fn lemma_reconcile_protects_references(
    location: ManagedAssetLocation,
    referenced: bool,
    mode: AssetReconcileMode,
)
    ensures
        referenced ==> spec_reconcile_entry_action(location, referenced, mode)
            != ReconcileEntryAction::MoveToTrash && spec_reconcile_entry_action(
            location,
            referenced,
            mode,
        ) != ReconcileEntryAction::DeleteFromTrash,
        mode == AssetReconcileMode::Runtime ==> spec_reconcile_entry_action(
            location,
            referenced,
            mode,
        ) != ReconcileEntryAction::DeleteFromTrash,
{
}

/// What storing an image does with one candidate name.
#[derive(Debug, Clone, Copy, PartialEq, Eq, Structural)]
pub enum StoreStep {
    /// The proven file in `images/` already holds these bytes.
    Reuse,
    /// The proven file in `.trash/` holds these bytes; move it back.
    Restore,
    /// Neither directory has the name; publish a new file.
    Publish,
    /// The name is taken by other or unproven content; try a longer name.
    TryNextName,
}

/// The step for one candidate name, from whether each directory has the
/// name and whether the file there was proven to hold the same digest.
pub open spec fn spec_store_step(
    active_exists: bool,
    active_same_digest: bool,
    trash_exists: bool,
    trash_same_digest: bool,
) -> StoreStep {
    if active_exists {
        if active_same_digest {
            StoreStep::Reuse
        } else {
            StoreStep::TryNextName
        }
    } else if trash_exists {
        if trash_same_digest {
            StoreStep::Restore
        } else {
            StoreStep::TryNextName
        }
    } else {
        StoreStep::Publish
    }
}

pub fn store_step(
    active_exists: bool,
    active_same_digest: bool,
    trash_exists: bool,
    trash_same_digest: bool,
) -> (r: StoreStep)
    ensures
        r == spec_store_step(active_exists, active_same_digest, trash_exists, trash_same_digest),
{
    if active_exists {
        if active_same_digest {
            StoreStep::Reuse
        } else {
            StoreStep::TryNextName
        }
    } else if trash_exists {
        if trash_same_digest {
            StoreStep::Restore
        } else {
            StoreStep::TryNextName
        }
    } else {
        StoreStep::Publish
    }
}

/// How a move between the managed directories proceeds.
#[derive(Debug, Clone, Copy, PartialEq, Eq, Structural)]
pub enum MoveStep {
    /// Already moved: prove the file at the target.
    ProveTarget,
    /// In neither place: the asset is missing.
    Missing,
    /// In both places: delete the source once both full digests match.
    DeleteDuplicateSource,
    /// Only at the source: rename it into the target directory.
    Rename,
}

pub open spec fn spec_move_step(source_exists: bool, target_exists: bool) -> MoveStep {
    if !source_exists {
        if target_exists {
            MoveStep::ProveTarget
        } else {
            MoveStep::Missing
        }
    } else if target_exists {
        MoveStep::DeleteDuplicateSource
    } else {
        MoveStep::Rename
    }
}

pub fn move_step(source_exists: bool, target_exists: bool) -> (r: MoveStep)
    ensures
        r == spec_move_step(source_exists, target_exists),
{
    if !source_exists {
        if target_exists {
            MoveStep::ProveTarget
        } else {
            MoveStep::Missing
        }
    } else if target_exists {
        MoveStep::DeleteDuplicateSource
    } else {
        MoveStep::Rename
    }
}

/// The hash-prefix lengths a store tries, shortest first.
pub open spec fn store_name_length(attempt: int) -> Option<usize> {
    if attempt == 0 {
        Some(20usize)
    } else if attempt == 1 {
        Some(32usize)
    } else if attempt == 2 {
        Some(64usize)
    } else {
        None
    }
}

/// Where storing an image goes after the step for one candidate name.
#[derive(Debug, Clone, Copy, PartialEq, Eq, Structural)]
pub enum StoreProgress {
    /// The image is stored under the name of `length` hex digits.
    Finished { step: StoreStep, length: usize },
    /// Try the name of `length` hex digits next.
    Next { attempt: usize, length: usize },
    /// Every name was taken by other content.
    NameCollisionExhausted,
}

pub open spec fn spec_store_progress(attempt: usize, step: StoreStep) -> StoreProgress {
    if !(step is TryNextName) {
        StoreProgress::Finished { step, length: store_name_length(attempt as int)->0 }
    } else if attempt < 2 {
        StoreProgress::Next {
            attempt: (attempt + 1) as usize,
            length: store_name_length(attempt + 1)->0,
        }
    } else {
        StoreProgress::NameCollisionExhausted
    }
}

/// The first name a store tries: 20 hex digits.
pub fn first_store_attempt() -> (r: (usize, usize))
    ensures
        r.0 == 0 && Some(r.1) == store_name_length(0),
{
    (0, 20)
}

/// A store tries the 20-, 32- and 64-digit names in turn: it finishes at the
/// first name whose step is not `TryNextName`, and gives up only after the
/// 64-digit name was taken too.
pub fn store_progress(attempt: usize, step: StoreStep) -> (r: StoreProgress)
    requires
        attempt < 3,
    ensures
        r == spec_store_progress(attempt, step),
        r is NameCollisionExhausted ==> attempt == 2,
{
    let length: usize = if attempt == 0 {
        20
    } else if attempt == 1 {
        32
    } else {
        64
    };
    match step {
        StoreStep::TryNextName => if attempt == 0 {
            StoreProgress::Next { attempt: 1, length: 32 }
        } else if attempt == 1 {
            StoreProgress::Next { attempt: 2, length: 64 }
        } else {
            StoreProgress::NameCollisionExhausted
        },
        _ => StoreProgress::Finished { step, length },
    }
}

/// What reading the durable note gave at a safe boundary.
#[derive(Debug, Clone, Copy, PartialEq, Eq)]
pub enum DurableNoteRead {
    /// The note could not be opened guarded, was not a plain file, was too
    /// large, could not be read, or did not decode.
    Unusable,
    /// The note was read and decoded; its bytes have this digest.
    Read(DiskFingerprint),
}

/// The mode a safe-boundary reconciliation runs in, and whether physical
/// deletion was deferred.
#[derive(Debug, Clone, Copy, PartialEq, Eq, Structural)]
pub struct SafeBoundaryDecision {
    pub mode: AssetReconcileMode,
    pub physical_delete_deferred: bool,
}

pub open spec fn spec_safe_boundary_mode(expected: Option<DiskFingerprint>, read: DurableNoteRead) -> SafeBoundaryDecision {
    let safe = match (expected, read) {
        (Some(e), DurableNoteRead::Read(f)) => same_fingerprint(e, f),
        _ => false,
    };
    if safe {
        SafeBoundaryDecision { mode: AssetReconcileMode::SafeBoundary, physical_delete_deferred: false }
    } else {
        SafeBoundaryDecision { mode: AssetReconcileMode::Runtime, physical_delete_deferred: true }
    }
}

/// Trash is deleted only when the durable note was read and matches the
/// fingerprint the coordinator expects; any uncertainty runs the
/// non-destructive runtime reconciliation and reports the deletion deferred.
pub fn safe_boundary_mode(expected: Option<DiskFingerprint>, read: DurableNoteRead) -> (r:
    SafeBoundaryDecision)
    ensures
        r == spec_safe_boundary_mode(expected, read),
{
    let safe = match (expected, read) {
        (Some(e), DurableNoteRead::Read(f)) => e.same_as(&f),
        _ => false,
    };
    if safe {
        SafeBoundaryDecision { mode: AssetReconcileMode::SafeBoundary, physical_delete_deferred: false }
    } else {
        SafeBoundaryDecision { mode: AssetReconcileMode::Runtime, physical_delete_deferred: true }
    }
}

} // verus!
