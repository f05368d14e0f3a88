//! Deterministic autosave scheduling state.

use vstd::prelude::*;

use crate::model::Generation;

verus! {

pub const AUTOSAVE_DEBOUNCE_MS: u64 = 650;

#[derive(Debug, Clone, Copy, PartialEq, Eq, Structural)]
pub enum SaveTrigger {
    Debounce,
    Manual,
    FocusLoss,
    Shutdown,
    RecreateMissing,
    KeepLocal,
}

#[derive(Debug, Clone, Copy, PartialEq, Eq, Structural)]
pub struct AutosaveAction {
    pub generation: Generation,
    pub trigger: SaveTrigger,
}

/// `now + delay` when it does not overflow.
pub open spec fn checked_deadline(now: u64, delay: u64) -> Option<u64> {
    if now + delay <= u64::MAX {
        Some((now + delay) as u64)
    } else {
        None
    }
}

pub fn checked_add_u64(now: u64, delay: u64) -> (r: Option<u64>)
    ensures
        r == checked_deadline(now, delay),
{
    if now <= u64::MAX - delay {
        Some(now + delay)
    } else {
        None
    }
}

/// The scheduler's state: the pending debounce deadline, the generation it
/// will save, and whether saving is paused.
#[derive(Debug, Clone, Copy, PartialEq, Eq, Structural)]
pub struct AutosaveView {
    pub deadline_ms: Option<u64>,
    pub scheduled_generation: Option<Generation>,
    pub paused: bool,
}

impl AutosaveView {
    pub open spec fn idle() -> AutosaveView {
        AutosaveView { deadline_ms: None, scheduled_generation: None, paused: false }
    }

    pub open spec fn changed(self, now: u64, generation: Generation) -> AutosaveView {
        AutosaveView {
            deadline_ms: checked_deadline(now, AUTOSAVE_DEBOUNCE_MS),
            scheduled_generation: Some(generation),
            ..self
        }
    }

    pub open spec fn requested(self, generation: Generation, trigger: SaveTrigger) -> (
        AutosaveView,
        Option<AutosaveAction>,
    ) {
        if self.paused {
            (self, None)
        } else {
            (
                AutosaveView { deadline_ms: None, scheduled_generation: None, ..self },
                Some(AutosaveAction { generation, trigger }),
            )
        }
    }

    pub open spec fn ticked(self, now: u64) -> (AutosaveView, Option<AutosaveAction>) {
        if self.paused || self.deadline_ms is None || now < self.deadline_ms->0 {
            (self, None)
        } else {
            match self.scheduled_generation {
                None => (self, None),
                Some(generation) => (
                    AutosaveView { deadline_ms: None, scheduled_generation: None, ..self },
                    Some(AutosaveAction { generation, trigger: SaveTrigger::Debounce }),
                ),
            }
        }
    }

    pub open spec fn with_paused(self, paused: bool) -> AutosaveView {
        if paused {
            AutosaveView { deadline_ms: None, scheduled_generation: None, paused: true }
        } else {
            AutosaveView { paused: false, ..self }
        }
    }

    pub open spec fn next_deadline(self) -> Option<u64> {
        if self.paused {
            None
        } else {
            self.deadline_ms
        }
    }
}

#[derive(Debug, Clone, PartialEq, Eq)]
pub struct AutosaveScheduler {
    deadline_ms: Option<u64>,
    scheduled_generation: Option<Generation>,
    paused: bool,
}

impl View for AutosaveScheduler {
    type V = AutosaveView;

    closed spec fn view(&self) -> AutosaveView {
        AutosaveView {
            deadline_ms: self.deadline_ms,
            scheduled_generation: self.scheduled_generation,
            paused: self.paused,
        }
    }
}

impl Default for AutosaveScheduler {
    fn default() -> (r: AutosaveScheduler)
        ensures
            r@ == AutosaveView::idle(),
    {
        AutosaveScheduler { deadline_ms: None, scheduled_generation: None, paused: false }
    }
}

impl AutosaveScheduler {
    /// Every edit restarts the debounce window for the newest generation.
    pub fn on_document_changed(&mut self, now_ms: u64, generation: Generation)
        ensures
            final(self)@ == old(self)@.changed(now_ms, generation),
    {
        self.scheduled_generation = Some(generation);
        self.deadline_ms = checked_add_u64(now_ms, AUTOSAVE_DEBOUNCE_MS);
    }

    /// An immediate save bypasses and cancels the debounce, unless paused.
    pub fn request_now(&mut self, generation: Generation, trigger: SaveTrigger) -> (r: Option<
        AutosaveAction,
    >)
        ensures
            (final(self)@, r) == old(self)@.requested(generation, trigger),
    {
        if self.paused {
            return None;
        }
        self.deadline_ms = None;
        self.scheduled_generation = None;
        Some(AutosaveAction { generation, trigger })
    }

    /// Fires the debounced save once its deadline has been reached.
    pub fn tick(&mut self, now_ms: u64) -> (r: Option<AutosaveAction>)
        ensures
            (final(self)@, r) == old(self)@.ticked(now_ms),
    {
        let due = match self.deadline_ms {
            Some(deadline) => now_ms >= deadline,
            None => false,
        };
        if self.paused || !due {
            return None;
        }
        let generation = match self.scheduled_generation {
            Some(generation) => generation,
            None => return None,
        };
        self.scheduled_generation = None;
        self.deadline_ms = None;
        Some(AutosaveAction { generation, trigger: SaveTrigger::Debounce })
    }

    /// Pausing discards the pending debounce.
    pub fn set_paused(&mut self, paused: bool)
        ensures
            final(self)@ == old(self)@.with_paused(paused),
    {
        self.paused = paused;
        if paused {
            self.deadline_ms = None;
            self.scheduled_generation = None;
        }
    }

    pub fn next_deadline_ms(&self) -> (r: Option<u64>)
        ensures
            r == self@.next_deadline(),
    {
        if self.paused {
            None
        } else {
            self.deadline_ms
        }
    }
}

/// Edits coalesce: after an edit at `now`, no save fires before the debounce
/// elapses, and at the deadline the latest generation is saved exactly once.
pub proof fn lemma_debounce_fires_once_for_latest(
    v: AutosaveView,
    now: u64,
    generation: Generation,
    early: u64,
)
    requires
        !v.paused,
        now + AUTOSAVE_DEBOUNCE_MS <= u64::MAX,
        early < now + AUTOSAVE_DEBOUNCE_MS,
    ensures
        v.changed(now, generation).ticked(early).1 is None,
        v.changed(now, generation).ticked(early).0 == v.changed(now, generation),
        v.changed(now, generation).ticked((now + AUTOSAVE_DEBOUNCE_MS) as u64).1 == Some(
            AutosaveAction { generation, trigger: SaveTrigger::Debounce },
        ),
        ({
            let after = v.changed(now, generation).ticked((now + AUTOSAVE_DEBOUNCE_MS) as u64).0;
            forall|later: u64| #[trigger] after.ticked(later).1 is None
        }),
{
}

/// A paused scheduler never emits a save, by tick or by request.
pub proof fn lemma_paused_never_saves(v: AutosaveView, now: u64, generation: Generation, trigger: SaveTrigger)
    requires
        v.paused,
    ensures
        v.ticked(now).1 is None,
        v.requested(generation, trigger).1 is None,
        v.next_deadline() is None,
{
}

}
