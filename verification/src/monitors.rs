//! Liveness of the chain polling and the latest reserve reading, and the
//! rolling cache of token observations.

use crate::clock::current_unix_ms;
use crate::copies::{copy_opt_string, copy_reserve_coverage, copy_token_observation};
use crate::domain::{ReserveCoverage, TokenObservation};
use crate::errors::{reserve_error_text, ReserveError};
use std::collections::VecDeque;
use vstd::prelude::*;

verus! {

/// What the health endpoint reports of the chain polling.
#[derive(Debug, Clone, PartialEq, Eq)]
pub struct PollingStatus {
    pub is_healthy: bool,
    pub last_success_at_unix_ms: Option<u64>,
    pub last_error: Option<String>,
}

/// The outcome of the polls so far: when the last one succeeded and the
/// error of the last one if it failed.
#[derive(Debug, Clone)]
pub struct PollingState {
    pub last_success_at_unix_ms: Option<u64>,
    pub last_error: Option<String>,
}

/// A successful read is fresh when it is at most `max_staleness_ms` old.
pub open spec fn is_fresh(success_age_ms: Option<u64>, max_staleness_ms: u64) -> bool {
    success_age_ms matches Some(age) && age <= max_staleness_ms
}

impl PollingState {
    pub fn new() -> (s: Self)
        ensures
            s.last_success_at_unix_ms is None,
            s.last_error is None,
    {
        PollingState { last_success_at_unix_ms: None, last_error: None }
    }

    /// A poll succeeded at `observed_at_unix_ms`; earlier errors are over.
    pub fn record_success(&mut self, observed_at_unix_ms: u64)
        ensures
            final(self).last_success_at_unix_ms == Some(observed_at_unix_ms),
            final(self).last_error is None,
    {
        self.last_success_at_unix_ms = Some(observed_at_unix_ms);
        self.last_error = None;
    }

    /// A poll failed with `error`; the last success is kept.
    pub fn record_failure(&mut self, error: String)
        ensures
            final(self).last_success_at_unix_ms == old(self).last_success_at_unix_ms,
            final(self).last_error == Some(error),
    {
        self.last_error = Some(error);
    }

    /// The status, given how long ago the last success was.
    pub fn status(&self, success_age_ms: Option<u64>, max_staleness_ms: u64) -> (s: PollingStatus)
        ensures
            s.is_healthy == (is_fresh(success_age_ms, max_staleness_ms) && self.last_error is None),
            s.last_success_at_unix_ms == self.last_success_at_unix_ms,
            s.last_error == self.last_error,
    {
        let fresh = match success_age_ms {
            Some(age) => age <= max_staleness_ms,
            None => false,
        };
        PollingStatus {
            is_healthy: fresh && self.last_error.is_none(),
            last_success_at_unix_ms: self.last_success_at_unix_ms,
            last_error: copy_opt_string(&self.last_error),
        }
    }
}

/// A failed poll makes the polling unhealthy however fresh the last
/// success is, until the next success.
pub proof fn law_failure_is_unhealthy(
    before: PollingState,
    after: PollingState,
    error: String,
    success_age_ms: Option<u64>,
    max_staleness_ms: u64,
)
    requires
        after.last_success_at_unix_ms == before.last_success_at_unix_ms,
        after.last_error == Some(error),
    ensures
        !(is_fresh(success_age_ms, max_staleness_ms) && after.last_error is None),
{
}

/// The latest reserve reading and the error of the last failed poll.
#[derive(Debug, Clone)]
pub struct ReserveMonitorState {
    pub latest: Option<ReserveCoverage>,
    pub last_error: Option<String>,
}

impl ReserveMonitorState {
    pub fn new() -> (s: Self)
        ensures
            s.latest is None,
            s.last_error is None,
    {
        ReserveMonitorState { latest: None, last_error: None }
    }

    /// The latest reading: the bank error while the last poll failed, no
    /// reading before the first success.
    pub fn latest(&self) -> (r: Result<ReserveCoverage, ReserveError>)
        ensures
            match self.last_error {
                Some(e) => r == Err::<ReserveCoverage, ReserveError>(ReserveError::Bank(e)),
                None => match self.latest {
                    Some(c) => r == Ok::<ReserveCoverage, ReserveError>(c),
                    None => r == Err::<ReserveCoverage, ReserveError>(
                        ReserveError::TokenUnavailable,
                    ),
                },
            },
    {
        match &self.last_error {
            Some(e) => Err(ReserveError::Bank(e.clone())),
            None => match &self.latest {
                Some(c) => Ok(copy_reserve_coverage(c)),
                None => Err(ReserveError::TokenUnavailable),
            },
        }
    }

    /// A poll produced `value`.
    pub fn success(&mut self, value: ReserveCoverage)
        ensures
            final(self).latest == Some(value),
            final(self).last_error is None,
    {
        self.latest = Some(value);
        self.last_error = None;
    }

    /// A poll failed with `error`. Waiting for the first token observation
    /// is not a failure of the reserve reading.
    pub fn record_poll_failure(&mut self, error: &ReserveError)
        ensures
            final(self).latest == old(self).latest,
            *error == ReserveError::TokenUnavailable ==> final(self).last_error == old(
                self,
            ).last_error,
            *error != ReserveError::TokenUnavailable ==> (final(self).last_error matches Some(m)
                && m@ == reserve_error_text(*error)),
    {
        match error {
            ReserveError::TokenUnavailable => {},
            _ => {
                self.last_error = Some(error.message());
            },
        }
    }
}

/// The reason recorded when a reserve poll fails: the waiting message
/// before the first token observation, else the error's message.
pub fn unavailable_reason(error: &ReserveError) -> (s: String)
    ensures
        *error == ReserveError::TokenUnavailable ==> s@
            == "Token supply is unavailable, so reserve coverage cannot be evaluated"@,
        *error != ReserveError::TokenUnavailable ==> s@ == reserve_error_text(*error),
{
    match error {
        ReserveError::TokenUnavailable => String::from_str(
            "Token supply is unavailable, so reserve coverage cannot be evaluated",
        ),
        _ => error.message(),
    }
}

/// `now - retention`, or zero.
pub open spec fn retention_cutoff(now_unix_ms: u64, retention_ms: u64) -> u64 {
    if now_unix_ms >= retention_ms {
        (now_unix_ms - retention_ms) as u64
    } else {
        0
    }
}

/// `entries` without the leading run of observations older than `cutoff`.
pub open spec fn pruned(entries: Seq<TokenObservation>, cutoff: u64) -> Seq<TokenObservation>
    decreases entries.len(),
{
    if entries.len() > 0 && entries[0].observed_at_unix_ms < cutoff {
        pruned(entries.drop_first(), cutoff)
    } else {
        entries
    }
}

/// Process-local rolling cache of token observations; restarting the
/// process clears it.
pub struct InMemorySnapshotCache {
    entries: VecDeque<TokenObservation>,
    retention_ms: u64,
}

impl View for InMemorySnapshotCache {
    type V = Seq<TokenObservation>;

    closed spec fn view(&self) -> Seq<TokenObservation> {
        self.entries@
    }
}

impl InMemorySnapshotCache {
    /// How long an observation is kept.
    pub closed spec fn retention(&self) -> u64 {
        self.retention_ms
    }

    pub fn new(retention_ms: u64) -> (c: Self)
        ensures
            c@ == Seq::<TokenObservation>::empty(),
            c.retention() == retention_ms,
    {
        InMemorySnapshotCache { entries: VecDeque::new(), retention_ms }
    }

    /// Number of cached observations.
    pub fn len(&self) -> (n: usize)
        ensures
            n == self@.len(),
    {
        self.entries.len()
    }

    fn prune(&mut self, cutoff: u64)
        ensures
            final(self)@ == pruned(old(self)@, cutoff),
            final(self).retention() == old(self).retention(),
    {
        loop
            invariant_except_break
                pruned(self@, cutoff) == pruned(old(self)@, cutoff),
                self.retention() == old(self).retention(),
            ensures
                self@ == pruned(old(self)@, cutoff),
                self.retention() == old(self).retention(),
            decreases self@.len(),
        {
            if self.entries.len() == 0 {
                break;
            }
            if self.entries[0].observed_at_unix_ms >= cutoff {
                break;
            }
            let ghost before = self@;
            let _ = self.entries.pop_front();
            assert(self@ =~= before.drop_first());
        }
    }

    /// Adds an observation at time `now_unix_ms`, first dropping the leading
    /// observations that fell out of the retention window.
    pub fn write_at(&mut self, observation: TokenObservation, now_unix_ms: u64)
        ensures
            final(self)@ == pruned(old(self)@, retention_cutoff(now_unix_ms, old(self).retention())).push(
                observation,
            ),
            final(self).retention() == old(self).retention(),
    {
        let cutoff = if now_unix_ms >= self.retention_ms {
            now_unix_ms - self.retention_ms
        } else {
            0
        };
        self.prune(cutoff);
        self.entries.push_back(observation);
    }

    /// The most recent observation at time `now_unix_ms`, after dropping the
    /// leading observations that fell out of the retention window.
    pub fn latest_at(&mut self, now_unix_ms: u64) -> (r: Option<TokenObservation>)
        ensures
            final(self)@ == pruned(old(self)@, retention_cutoff(now_unix_ms, old(self).retention())),
            final(self).retention() == old(self).retention(),
            r == (if final(self)@.len() == 0 {
                None
            } else {
                Some(final(self)@.last())
            }),
    {
        let cutoff = if now_unix_ms >= self.retention_ms {
            now_unix_ms - self.retention_ms
        } else {
            0
        };
        self.prune(cutoff);
        let n = self.entries.len();
        if n == 0 {
            None
        } else {
            Some(copy_token_observation(&self.entries[n - 1]))
        }
    }

    /// Adds an observation now.
    pub fn write(&mut self, observation: TokenObservation)
        ensures
            exists|now: u64|
                final(self)@ == pruned(old(self)@, retention_cutoff(now, old(self).retention())).push(
                    observation,
                ),
    {
        let now = current_unix_ms();
        self.write_at(observation, now);
    }

    /// The most recent observation still within the retention window now.
    pub fn latest(&mut self) -> (r: Option<TokenObservation>)
        ensures
            exists|now: u64|
                final(self)@ == pruned(old(self)@, retention_cutoff(now, old(self).retention())),
            r == (if final(self)@.len() == 0 {
                None
            } else {
                Some(final(self)@.last())
            }),
    {
        let now = current_unix_ms();
        self.latest_at(now)
    }
}

proof fn lemma_pruned_keeps_recent_last(entries: Seq<TokenObservation>, cutoff: u64)
    requires
        entries.len() > 0,
        entries.last().observed_at_unix_ms >= cutoff,
    ensures
        pruned(entries, cutoff).len() > 0,
        pruned(entries, cutoff).last() == entries.last(),
    decreases entries.len(),
{
    if entries[0].observed_at_unix_ms < cutoff {
        assert(entries.len() > 1);
        assert(entries.drop_first().last() == entries.last());
        lemma_pruned_keeps_recent_last(entries.drop_first(), cutoff);
    }
}

/// The observation written last is what the cache answers, as long as it
/// is still within the retention window when read.
pub proof fn law_latest_is_last_written(
    entries: Seq<TokenObservation>,
    observation: TokenObservation,
    write_cutoff: u64,
    read_cutoff: u64,
)
    requires
        observation.observed_at_unix_ms >= read_cutoff,
    ensures
        pruned(pruned(entries, write_cutoff).push(observation), read_cutoff).len() > 0,
        pruned(pruned(entries, write_cutoff).push(observation), read_cutoff).last() == observation,
{
    lemma_pruned_keeps_recent_last(pruned(entries, write_cutoff).push(observation), read_cutoff);
}

} // verus!
