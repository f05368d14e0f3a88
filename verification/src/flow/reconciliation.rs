//! Pure external-fact decision table.

use vstd::prelude::*;

use vstd::string::StringExecFns;

use crate::model::{
    same_optional, same_optional_fingerprint, DiskFingerprint, ExternalFileFact, ExternalFileState,
    FileConflict,
};
use crate::text::encoding::{append_decimal, decimal_digits};

verus! {

#[derive(Debug, Clone, PartialEq, Eq)]
pub enum ExternalDecision {
    IgnoreKnown,
    ReloadClean(ExternalFileFact),
    EnterConflict(ExternalFileState),
    RecreateMissing,
}

/// Whether an observation carries exactly the fingerprint the document last
/// agreed with on disk.
pub open spec fn is_known_write(known: Option<DiskFingerprint>, observed: ExternalFileState) -> bool {
    observed.spec_fingerprint() is Some && same_optional_fingerprint(
        observed.spec_fingerprint(),
        known,
    )
}

/// The decision for one fresh observation of the note file: our own writes are
/// ignored, a missing file is recreated, a clean document reloads valid text,
/// and everything else is a conflict.
pub open spec fn spec_decide_external_change(
    dirty: bool,
    known: Option<DiskFingerprint>,
    observed: ExternalFileState,
) -> ExternalDecision {
    if is_known_write(known, observed) {
        ExternalDecision::IgnoreKnown
    } else {
        match observed {
            ExternalFileState::Missing => ExternalDecision::RecreateMissing,
            ExternalFileState::Present(fact) => if !dirty {
                ExternalDecision::ReloadClean(fact)
            } else {
                ExternalDecision::EnterConflict(observed)
            },
            _ => ExternalDecision::EnterConflict(observed),
        }
    }
}

pub fn decide_external_change(
    dirty: bool,
    known: Option<DiskFingerprint>,
    observed: ExternalFileState,
) -> (r: ExternalDecision)
    ensures
        r == spec_decide_external_change(dirty, known, observed),
{
    let fingerprint = match &observed {
        ExternalFileState::Present(fact) => Some(fact.fingerprint),
        ExternalFileState::InvalidUtf8 { fingerprint } => Some(*fingerprint),
        ExternalFileState::Missing => None,
        ExternalFileState::TooLarge { .. } => None,
    };
    if fingerprint.is_some() && same_optional(&fingerprint, &known) {
        return ExternalDecision::IgnoreKnown;
    }
    match observed {
        ExternalFileState::Missing => ExternalDecision::RecreateMissing,
        ExternalFileState::Present(fact) => {
            if !dirty {
                ExternalDecision::ReloadClean(fact)
            } else {
                ExternalDecision::EnterConflict(ExternalFileState::Present(fact))
            }
        },
        other => ExternalDecision::EnterConflict(other),
    }
}

/// Unsaved local edits are never overwritten by an external change: with a
/// dirty document the only outcomes are ignoring our own write, recreating a
/// missing file, or a conflict.
pub proof fn lemma_dirty_never_reloads(known: Option<DiskFingerprint>, observed: ExternalFileState)
    ensures
        !(spec_decide_external_change(true, known, observed) is ReloadClean),
{
}

/// Invalid UTF-8 and oversized files never reload, whatever the dirty state.
pub proof fn lemma_unreadable_never_reloads(
    dirty: bool,
    known: Option<DiskFingerprint>,
    observed: ExternalFileState,
)
    requires
        observed is InvalidUtf8 || observed is TooLarge,
    ensures
        !(spec_decide_external_change(dirty, known, observed) is ReloadClean),
{
}

/// The status line shown while a conflict is open: which keys resolve it,
/// and for an oversized note its size in bytes.
pub open spec fn conflict_diagnostic_text(conflict: Option<FileConflict>) -> Seq<char> {
    match conflict {
        Some(c) => match c.external {
            ExternalFileState::Present(_) => "文件已在外部修改  |  [F6 载入外部]  [F7 保留本地]"@,
            ExternalFileState::InvalidUtf8 { .. } => "外部文件不是有效 UTF-8；F7 保留本地覆盖。"@,
            ExternalFileState::TooLarge { durable_len } => "外部 note.md 过大（"@ + decimal_digits(
                durable_len as nat,
            ) + " bytes）；F7 保留本地覆盖。"@,
            ExternalFileState::Missing => "外部文件状态冲突；F7 保留本地。"@,
        },
        None => "外部文件状态冲突；F7 保留本地。"@,
    }
}

/// The status line for the open conflict, if any.
pub fn conflict_diagnostic(conflict: Option<&FileConflict>) -> (r: String)
    ensures
        r@ == conflict_diagnostic_text(
            match conflict {
                Some(c) => Some(*c),
                None => None,
            },
        ),
{
    match conflict {
        Some(c) => match &c.external {
            ExternalFileState::Present(_) => String::from_str(
                "文件已在外部修改  |  [F6 载入外部]  [F7 保留本地]",
            ),
            ExternalFileState::InvalidUtf8 { .. } => String::from_str(
                "外部文件不是有效 UTF-8；F7 保留本地覆盖。",
            ),
            ExternalFileState::TooLarge { durable_len } => {
                let mut out = String::from_str("外部 note.md 过大（");
                append_decimal(&mut out, *durable_len);
                out.append(" bytes）；F7 保留本地覆盖。");
                out
            },
            ExternalFileState::Missing => String::from_str("外部文件状态冲突；F7 保留本地。"),
        },
        None => String::from_str("外部文件状态冲突；F7 保留本地。"),
    }
}

} // verus!
