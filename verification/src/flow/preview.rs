//! Deterministic preview generation scheduling and stale-result admission.

use vstd::prelude::*;

use super::save::{checked_add_u64, checked_deadline};
use crate::config::runtime::ViewMode;
use crate::model::Generation;

verus! {

pub const PREVIEW_DEBOUNCE_MS: u64 = 1_000;

#[derive(Debug, Clone, Copy, PartialEq, Eq, Structural)]
pub enum PreviewVisibility {
    Hidden,
    Split,
    Preview,
}

#[derive(Debug, Clone, Copy, PartialEq, Eq, Structural)]
pub enum PreviewAction {
    Build(Generation),
    Relayout(Generation),
}

#[derive(Debug, Clone, Copy, PartialEq, Eq, Structural)]
pub enum PreviewAdmission {
    Apply,
    DropStale,
}

/// The coordinator's state.
#[derive(Debug, Clone, Copy, PartialEq, Eq)]
pub struct PreviewView {
    pub dirty_generation: Option<Generation>,
    pub scheduled: Option<(Generation, u64)>,
    pub applied_generation: Option<Generation>,
}

impl PreviewView {
    pub open spec fn initial() -> PreviewView {
        PreviewView { dirty_generation: None, scheduled: None, applied_generation: None }
    }

    pub open spec fn changed(self, now: u64, generation: Generation, visibility: PreviewVisibility) -> (
        PreviewView,
        Option<PreviewAction>,
    ) {
        let s1 = PreviewView { dirty_generation: Some(generation), ..self };
        match visibility {
            PreviewVisibility::Hidden => (PreviewView { scheduled: None, ..s1 }, None),
            PreviewVisibility::Split => (
                PreviewView {
                    scheduled: match checked_deadline(now, PREVIEW_DEBOUNCE_MS) {
                        Some(deadline) => Some((generation, deadline)),
                        None => None,
                    },
                    ..s1
                },
                None,
            ),
            PreviewVisibility::Preview => (
                PreviewView { scheduled: None, ..s1 },
                Some(PreviewAction::Build(generation)),
            ),
        }
    }

    pub open spec fn shown(self, generation: Generation, visibility: PreviewVisibility) -> (
        PreviewView,
        Option<PreviewAction>,
    ) {
        if visibility == PreviewVisibility::Hidden {
            (self, None)
        } else if self.applied_generation == Some(generation) && self.dirty_generation != Some(
            generation,
        ) {
            (PreviewView { scheduled: None, ..self }, Some(PreviewAction::Relayout(generation)))
        } else {
            (PreviewView { scheduled: None, ..self }, Some(PreviewAction::Build(generation)))
        }
    }

    pub open spec fn ticked(self, now: u64) -> (PreviewView, Option<PreviewAction>) {
        match self.scheduled {
            Some((generation, deadline)) => if now < deadline {
                (self, None)
            } else {
                (PreviewView { scheduled: None, ..self }, Some(PreviewAction::Build(generation)))
            },
            None => (self, None),
        }
    }

    pub open spec fn admitted(self, completed: Generation, current: Generation) -> (
        PreviewView,
        PreviewAdmission,
    ) {
        if completed != current {
            (self, PreviewAdmission::DropStale)
        } else {
            (
                PreviewView {
                    applied_generation: Some(completed),
                    dirty_generation: if self.dirty_generation == Some(completed) {
                        None
                    } else {
                        self.dirty_generation
                    },
                    ..self
                },
                PreviewAdmission::Apply,
            )
        }
    }
}

#[derive(Debug)]
pub struct PreviewCoordinator {
    dirty_generation: Option<Generation>,
    scheduled: Option<(Generation, u64)>,
    applied_generation: Option<Generation>,
}

impl View for PreviewCoordinator {
    type V = PreviewView;

    closed spec fn view(&self) -> PreviewView {
        PreviewView {
            dirty_generation: self.dirty_generation,
            scheduled: self.scheduled,
            applied_generation: self.applied_generation,
        }
    }
}

impl Default for PreviewCoordinator {
    fn default() -> (r: PreviewCoordinator)
        ensures
            r@ == PreviewView::initial(),
    {
        PreviewCoordinator { dirty_generation: None, scheduled: None, applied_generation: None }
    }
}

/// How the renderer classified a link destination. Web links are `Http` and
/// `Https`; any other kind it allows to open is `OtherAllowed`; a destination
/// with a refused scheme (`javascript:` and the like) is `Blocked`.
#[derive(Debug, Clone, Copy, PartialEq, Eq, Structural)]
pub enum LinkKind {
    Http,
    Https,
    OtherAllowed,
    Blocked,
}

impl LinkKind {
    pub open spec fn spec_may_open(self) -> bool {
        !(self is Blocked)
    }

    /// Whether a link of this kind may be opened.
    pub fn may_open(self) -> (r: bool)
        ensures
            r == self.spec_may_open(),
    {
        match self {
            LinkKind::Blocked => false,
            _ => true,
        }
    }
}

/// What activating a span of the Preview asks for.
#[derive(Debug, Clone, PartialEq, Eq)]
pub enum SpanAction {
    OpenLink { destination: String, kind: LinkKind },
    RemoteImageLink { destination: String, kind: LinkKind },
}

#[derive(Debug, Clone, PartialEq, Eq)]
pub enum PreviewIntent {
    SetViewMode(ViewMode),
    Activate(SpanAction),
}

#[derive(Debug, Clone, PartialEq, Eq)]
pub enum PreviewEffect {
    ApplyViewMode(ViewMode),
    OpenTarget { destination: String, kind: LinkKind },
}

#[derive(Debug, Clone, Copy, PartialEq, Eq, Structural)]
pub enum PreviewFlowError {
    BlockedScheme,
}

/// A view-mode change passes through; a link opens only when its kind may be
/// opened, and a remote image only over HTTP or HTTPS; anything else is
/// refused before the shell sees it.
pub open spec fn spec_preview_dispatch(intent: PreviewIntent) -> Result<PreviewEffect, PreviewFlowError> {
    match intent {
        PreviewIntent::SetViewMode(mode) => Ok(PreviewEffect::ApplyViewMode(mode)),
        PreviewIntent::Activate(SpanAction::OpenLink { destination, kind }) => if kind.spec_may_open() {
            Ok(PreviewEffect::OpenTarget { destination, kind })
        } else {
            Err(PreviewFlowError::BlockedScheme)
        },
        PreviewIntent::Activate(SpanAction::RemoteImageLink { destination, kind }) => if kind is Http
            || kind is Https {
            Ok(PreviewEffect::OpenTarget { destination, kind })
        } else {
            Err(PreviewFlowError::BlockedScheme)
        },
    }
}

impl PreviewCoordinator {
    /// Validates a Preview intent before the shell acts on it.
    pub fn dispatch(&self, intent: PreviewIntent) -> (r: Result<PreviewEffect, PreviewFlowError>)
        ensures
            r == spec_preview_dispatch(intent),
    {
        match intent {
            PreviewIntent::SetViewMode(mode) => Ok(PreviewEffect::ApplyViewMode(mode)),
            PreviewIntent::Activate(SpanAction::OpenLink { destination, kind }) => {
                if !kind.may_open() {
                    return Err(PreviewFlowError::BlockedScheme);
                }
                Ok(PreviewEffect::OpenTarget { destination, kind })
            },
            PreviewIntent::Activate(SpanAction::RemoteImageLink { destination, kind }) => {
                match kind {
                    LinkKind::Http | LinkKind::Https => {},
                    _ => return Err(PreviewFlowError::BlockedScheme),
                }
                Ok(PreviewEffect::OpenTarget { destination, kind })
            },
        }
    }

    /// Hidden previews only remember the dirty generation, Split debounces a
    /// rebuild, and Preview rebuilds at once.
    pub fn on_document_changed(
        &mut self,
        now_ms: u64,
        generation: Generation,
        visibility: PreviewVisibility,
    ) -> (r: Option<PreviewAction>)
        ensures
            (final(self)@, r) == old(self)@.changed(now_ms, generation, visibility),
    {
        self.dirty_generation = Some(generation);
        match visibility {
            PreviewVisibility::Hidden => {
                self.scheduled = None;
                None
            },
            PreviewVisibility::Split => {
                self.scheduled = match checked_add_u64(now_ms, PREVIEW_DEBOUNCE_MS) {
                    Some(deadline) => Some((generation, deadline)),
                    None => None,
                };
                None
            },
            PreviewVisibility::Preview => {
                self.scheduled = None;
                Some(PreviewAction::Build(generation))
            },
        }
    }

    /// Showing the preview relayouts a clean applied generation and rebuilds
    /// anything else immediately.
    pub fn show(&mut self, generation: Generation, visibility: PreviewVisibility) -> (r: Option<
        PreviewAction,
    >)
        ensures
            (final(self)@, r) == old(self)@.shown(generation, visibility),
    {
        if visibility == PreviewVisibility::Hidden {
            return None;
        }
        self.scheduled = None;
        if self.applied_generation == Some(generation) && self.dirty_generation != Some(generation) {
            Some(PreviewAction::Relayout(generation))
        } else {
            Some(PreviewAction::Build(generation))
        }
    }

    pub fn tick(&mut self, now_ms: u64) -> (r: Option<PreviewAction>)
        ensures
            (final(self)@, r) == old(self)@.ticked(now_ms),
    {
        let (generation, deadline) = match self.scheduled {
            Some(scheduled) => scheduled,
            None => return None,
        };
        if now_ms < deadline {
            return None;
        }
        self.scheduled = None;
        Some(PreviewAction::Build(generation))
    }

    pub fn deadline(&self) -> (r: Option<u64>)
        ensures
            r == (match self@.scheduled {
                Some((_, deadline)) => Some(deadline),
                None => None,
            }),
    {
        match self.scheduled {
            Some((_, deadline)) => Some(deadline),
            None => None,
        }
    }

    /// Only a completion for the current generation may replace the preview.
    pub fn admit_completion(&mut self, completed: Generation, current: Generation) -> (r:
        PreviewAdmission)
        ensures
            (final(self)@, r) == old(self)@.admitted(completed, current),
    {
        if completed != current {
            return PreviewAdmission::DropStale;
        }
        self.applied_generation = Some(completed);
        if self.dirty_generation == Some(completed) {
            self.dirty_generation = None;
        }
        PreviewAdmission::Apply
    }

    pub fn applied_generation(&self) -> (r: Option<Generation>)
        ensures
            r == self@.applied_generation,
    {
        self.applied_generation
    }

    /// Drops the applied projection and any scheduled build, keeping dirty work.
    pub fn release_projection(&mut self)
        ensures
            final(self)@ == (PreviewView { applied_generation: None, scheduled: None, ..old(self)@ }),
    {
        self.applied_generation = None;
        self.scheduled = None;
    }
}

/// A stale completion never changes the preview state.
pub proof fn lemma_stale_completion_is_dropped(v: PreviewView, completed: Generation, current: Generation)
    requires
        completed != current,
    ensures
        v.admitted(completed, current) == (v, PreviewAdmission::DropStale),
{
}

/// Edits made while the preview is hidden stay dirty until it is shown: the
/// next show rebuilds the latest generation instead of relayouting.
pub proof fn lemma_hidden_edit_rebuilds_on_show(v: PreviewView, now: u64, generation: Generation, visibility: PreviewVisibility)
    requires
        visibility != PreviewVisibility::Hidden,
    ensures
        v.changed(now, generation, PreviewVisibility::Hidden).0.shown(generation, visibility).1
            == Some(PreviewAction::Build(generation)),
{
}

/// In Split view a burst of edits builds only the latest generation, once its
/// debounce elapses.
pub proof fn lemma_split_builds_latest(v: PreviewView, t1: u64, g1: Generation, t2: u64, g2: Generation)
    requires
        t2 + PREVIEW_DEBOUNCE_MS <= u64::MAX,
    ensures
        ({
            let after = v.changed(t1, g1, PreviewVisibility::Split).0.changed(t2, g2, PreviewVisibility::Split).0;
            &&& after.ticked((t2 + PREVIEW_DEBOUNCE_MS) as u64).1 == Some(PreviewAction::Build(g2))
            &&& forall|t: u64| t < t2 + PREVIEW_DEBOUNCE_MS ==> #[trigger] after.ticked(t).1 is None
        }),
{
}

}
