//! Single-owner runtime configuration coordination.

use vstd::prelude::*;

use super::runtime::{config_eq, RuntimeConfig};

verus! {

/// Monotonic identity for a committed runtime configuration projection.
#[derive(Debug, Clone, Copy, PartialEq, Eq, PartialOrd, Ord, Structural)]
pub struct ConfigRevision(pub u64);

impl ConfigRevision {
    pub fn initial() -> (r: ConfigRevision)
        ensures
            r.0 == 0,
    {
        ConfigRevision(0)
    }

    pub fn next(self) -> (r: Option<ConfigRevision>)
        ensures
            r matches Some(n) ==> n.0 == self.0 + 1,
            r is None <==> self.0 == u64::MAX,
    {
        if self.0 == u64::MAX {
            None
        } else {
            Some(ConfigRevision(self.0 + 1))
        }
    }
}

/// Immutable request consumed by the single I/O worker.
#[derive(Debug, Clone, PartialEq, Eq)]
pub struct ConfigPersistRequest {
    pub revision: ConfigRevision,
    pub config: RuntimeConfig,
}

#[derive(Debug, Clone, Copy, PartialEq, Eq, Structural)]
pub enum ConfigAck {
    Applied { needs_follow_up: bool },
    Stale,
}

#[derive(Debug, Clone, Copy, PartialEq, Eq, Structural)]
pub struct ConfigRevisionExhausted;

/// The coordinator's state.
pub struct ConfigView {
    pub current: RuntimeConfig,
    pub revision: ConfigRevision,
    pub persisted_revision: ConfigRevision,
    pub in_flight: Option<ConfigRevision>,
}

impl ConfigView {
    pub open spec fn is_dirty(self) -> bool {
        self.revision.0 != self.persisted_revision.0
    }

    pub open spec fn updated(self, candidate: RuntimeConfig) -> (ConfigView, Result<bool, ConfigRevisionExhausted>) {
        if config_eq(candidate, self.current) {
            (self, Ok(false))
        } else if self.revision.0 == u64::MAX {
            (self, Err(ConfigRevisionExhausted))
        } else {
            (
                ConfigView {
                    current: candidate,
                    revision: ConfigRevision((self.revision.0 + 1) as u64),
                    ..self
                },
                Ok(true),
            )
        }
    }

    pub open spec fn persist_begun(self) -> (ConfigView, Option<ConfigPersistRequest>) {
        if !self.is_dirty() || self.in_flight is Some {
            (self, None)
        } else {
            (
                ConfigView { in_flight: Some(self.revision), ..self },
                Some(ConfigPersistRequest { revision: self.revision, config: self.current }),
            )
        }
    }

    pub open spec fn acknowledged(self, revision: ConfigRevision, succeeded: bool) -> (ConfigView, ConfigAck) {
        if self.in_flight != Some(revision) {
            (self, ConfigAck::Stale)
        } else {
            let persisted = if succeeded && revision.0 > self.persisted_revision.0 {
                revision
            } else {
                self.persisted_revision
            };
            let next = ConfigView { in_flight: None, persisted_revision: persisted, ..self };
            (next, ConfigAck::Applied { needs_follow_up: next.is_dirty() })
        }
    }
}

/// Owns the only mutable `RuntimeConfig` and serializes durable acknowledgements.
///
/// Window and UI adapters receive projections and typed mutations. They never
/// own a second writable copy of the configured preferences.
#[derive(Debug)]
pub struct ConfigCoordinator {
    current: RuntimeConfig,
    revision: ConfigRevision,
    persisted_revision: ConfigRevision,
    in_flight: Option<ConfigRevision>,
}

impl View for ConfigCoordinator {
    type V = ConfigView;

    closed spec fn view(&self) -> ConfigView {
        ConfigView {
            current: self.current,
            revision: self.revision,
            persisted_revision: self.persisted_revision,
            in_flight: self.in_flight,
        }
    }
}

impl ConfigCoordinator {
    pub fn loaded(current: RuntimeConfig) -> (r: ConfigCoordinator)
        ensures
            r@ == (ConfigView {
                current,
                revision: ConfigRevision(0),
                persisted_revision: ConfigRevision(0),
                in_flight: None,
            }),
    {
        ConfigCoordinator {
            current,
            revision: ConfigRevision::initial(),
            persisted_revision: ConfigRevision::initial(),
            in_flight: None,
        }
    }

    pub fn current(&self) -> (r: &RuntimeConfig)
        ensures
            *r == self@.current,
    {
        &self.current
    }

    pub fn revision(&self) -> (r: ConfigRevision)
        ensures
            r == self@.revision,
    {
        self.revision
    }

    pub fn is_dirty(&self) -> (r: bool)
        ensures
            r == self@.is_dirty(),
    {
        self.revision.0 != self.persisted_revision.0
    }

    pub fn is_saving(&self) -> (r: bool)
        ensures
            r == (self@.in_flight is Some),
    {
        self.in_flight.is_some()
    }

    /// Commits a logical preference change. Equal projections are no-ops.
    pub fn update(&mut self, candidate: RuntimeConfig) -> (r: Result<bool, ConfigRevisionExhausted>)
        ensures
            (final(self)@, r) == old(self)@.updated(candidate),
    {
        if candidate.same_as(&self.current) {
            return Ok(false);
        }
        let next = match self.revision.next() {
            Some(next) => next,
            None => return Err(ConfigRevisionExhausted),
        };
        self.current = candidate;
        self.revision = next;
        Ok(true)
    }

    /// Starts at most one durable write. Changes made while it is in flight
    /// remain dirty and are submitted only after this revision is acknowledged.
    pub fn begin_persist(&mut self) -> (r: Option<ConfigPersistRequest>)
        ensures
            (final(self)@, r) == old(self)@.persist_begun(),
    {
        if !self.is_dirty() || self.in_flight.is_some() {
            return None;
        }
        self.in_flight = Some(self.revision);
        Some(ConfigPersistRequest { revision: self.revision, config: self.current.duplicate() })
    }

    /// Applies only the matching in-flight receipt. A stale receipt cannot make
    /// a newer projection clean.
    pub fn acknowledge(&mut self, revision: ConfigRevision, succeeded: bool) -> (r: ConfigAck)
        ensures
            (final(self)@, r) == old(self)@.acknowledged(revision, succeeded),
    {
        if self.in_flight != Some(revision) {
            return ConfigAck::Stale;
        }
        self.in_flight = None;
        if succeeded && revision.0 > self.persisted_revision.0 {
            self.persisted_revision = revision;
        }
        ConfigAck::Applied { needs_follow_up: self.is_dirty() }
    }
}

/// Updating with a configuration equal to the current one changes nothing.
pub proof fn lemma_equal_update_is_noop(v: ConfigView, candidate: RuntimeConfig)
    requires
        config_eq(candidate, v.current),
    ensures
        v.updated(candidate) == (v, Ok::<bool, ConfigRevisionExhausted>(false)),
{
}

/// At most one write is in flight: while one is, no other begins.
pub proof fn lemma_single_write_in_flight(v: ConfigView)
    requires
        v.in_flight is Some,
    ensures
        v.persist_begun() == (v, None::<ConfigPersistRequest>),
{
}

/// A stale or failed acknowledgement never makes a dirty configuration clean.
pub proof fn lemma_failed_or_stale_ack_keeps_dirty(v: ConfigView, revision: ConfigRevision, succeeded: bool)
    requires
        v.is_dirty(),
        !succeeded || v.in_flight != Some(revision),
    ensures
        v.acknowledged(revision, succeeded).0.is_dirty(),
{
}

/// A change made while a write is in flight is still dirty after that write is
/// acknowledged, and the follow-up write carries the newest configuration.
pub proof fn lemma_in_flight_change_follows_up(v: ConfigView, candidate: RuntimeConfig)
    requires
        v.is_dirty(),
        v.in_flight is None,
        v.revision.0 < u64::MAX,
        v.persisted_revision.0 <= v.revision.0,
        !config_eq(candidate, v.current),
    ensures
        ({
            let (started, request) = v.persist_begun();
            let (changed, _) = started.updated(candidate);
            let (acked, ack) = changed.acknowledged(request->0.revision, true);
            let (next, follow) = acked.persist_begun();
            &&& ack == ConfigAck::Applied { needs_follow_up: true }
            &&& follow->0.config == candidate
            &&& follow->0.revision.0 > request->0.revision.0
        }),
{
}

}
