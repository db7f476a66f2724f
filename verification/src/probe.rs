//! Readiness probing.
//!
//! After the server is launched, the application polls it with HTTP
//! requests on a fixed interval until it answers, giving up after a
//! bounded number of attempts. The requests are outside work; this module
//! decides, from each outcome the application hands in, whether the
//! server is ready, whether to keep waiting, and when a failure deserves
//! a log line.

use vstd::prelude::*;

verus! {

/// How many probes a readiness run makes before giving up.
pub const DEFAULT_MAX_ATTEMPTS: u32 = 60;

/// How long the application sleeps between probes, in milliseconds.
pub const PROBE_INTERVAL_MS: u64 = 500;

/// The per-request timeout of one HTTP probe, in milliseconds.
pub const PROBE_TIMEOUT_MS: u64 = 2000;

/// What one probe of the server produced: a response with some HTTP
/// status, or none at all (connection refused, timeout).
#[derive(Clone, Copy, Debug, PartialEq, Eq, Structural)]
pub enum ProbeOutcome {
    Response(u16),
    NoResponse,
}

/// A response proves the server is accepting connections whenever its
/// status is 200 or 404; any other outcome leaves readiness open.
pub open spec fn outcome_ready(o: ProbeOutcome) -> bool {
    match o {
        ProbeOutcome::Response(status) => status == 200 || status == 404,
        ProbeOutcome::NoResponse => false,
    }
}

/// Whether a response with this status proves readiness.
pub fn response_indicates_ready(status: u16) -> (r: bool)
    ensures
        r == outcome_ready(ProbeOutcome::Response(status)),
{
    status == 200 || status == 404
}

/// Every tenth failed attempt is logged, to record progress without
/// flooding the log.
pub open spec fn spec_logged_attempt(attempts: u32) -> bool {
    attempts % 10 == 0
}

/// Tracks one bounded polling run: how many probes were made, and whether
/// one of them proved the server ready. The ghost field `outcomes` holds
/// every outcome recorded so far.
pub struct ReadinessProbe {
    pub max_attempts: u32,
    pub attempts: u32,
    pub ready: bool,
    pub outcomes: Ghost<Seq<ProbeOutcome>>,
}

impl ReadinessProbe {
    /// One outcome was recorded per attempt, polling stopped at the first
    /// ready outcome, and `ready` reports exactly whether the last
    /// outcome proved readiness.
    pub open spec fn wf(self) -> bool {
        &&& self.outcomes@.len() == self.attempts
        &&& self.attempts <= self.max_attempts
        &&& forall|i: int| 0 <= i < self.attempts - 1 ==> !outcome_ready(self.outcomes@[i])
        &&& self.ready == (self.attempts > 0 && outcome_ready(self.outcomes@.last()))
    }

    /// The poll goes on: the server is not known ready and the attempt
    /// budget is not spent.
    pub open spec fn polling(self) -> bool {
        !self.ready && self.attempts < self.max_attempts
    }

    /// Begins a run with a budget of `max_attempts` probes.
    pub fn new(max_attempts: u32) -> (r: Self)
        ensures
            r.wf(),
            r.max_attempts == max_attempts,
            r.attempts == 0,
            !r.ready,
            r.outcomes@ == Seq::<ProbeOutcome>::empty(),
    {
        ReadinessProbe { max_attempts, attempts: 0, ready: false, outcomes: Ghost(Seq::empty()) }
    }

    /// Whether another probe should be made.
    pub fn should_continue(&self) -> (r: bool)
        ensures
            r == self.polling(),
    {
        !self.ready && self.attempts < self.max_attempts
    }

    /// Records the outcome of one probe.
    pub fn record(&mut self, outcome: ProbeOutcome)
        requires
            old(self).wf(),
            old(self).polling(),
        ensures
            final(self).wf(),
            final(self).max_attempts == old(self).max_attempts,
            final(self).attempts == old(self).attempts + 1,
            final(self).outcomes@ == old(self).outcomes@.push(outcome),
            final(self).ready == outcome_ready(outcome),
    {
        let r = match outcome {
            ProbeOutcome::Response(status) => response_indicates_ready(status),
            ProbeOutcome::NoResponse => false,
        };
        proof {
            self.outcomes@ = self.outcomes@.push(outcome);
        }
        self.ready = r;
        self.attempts = self.attempts + 1;
    }

    /// Whether some probe proved the server ready.
    pub fn is_ready(&self) -> (r: bool)
        ensures
            r == self.ready,
    {
        self.ready
    }

    /// How many probes were made.
    pub fn attempts_made(&self) -> (r: u32)
        ensures
            r == self.attempts,
    {
        self.attempts
    }

    /// Whether the attempt just recorded, when it failed, should be
    /// logged.
    pub fn should_log_failure(&self) -> (r: bool)
        ensures
            r == spec_logged_attempt(self.attempts),
    {
        self.attempts % 10 == 0
    }
}

/// An immediately answering server is detected by a single probe: if the
/// very first outcome proves readiness, the run reports ready after
/// exactly one attempt and polls no further.
pub proof fn lemma_ready_on_first_response(pre: ReadinessProbe, post: ReadinessProbe, o: ProbeOutcome)
    requires
        pre.attempts == 0,
        outcome_ready(o),
        post.wf(),
        post.attempts == pre.attempts + 1,
        post.outcomes@ == pre.outcomes@.push(o),
        post.ready == outcome_ready(o),
    ensures
        post.ready,
        post.attempts == 1,
        !post.polling(),
{
}

/// A server that never answers exhausts the budget: when no recorded
/// outcome proved readiness and the budget is spent, the run reports not
/// ready after exactly `max_attempts` probes and polls no further.
pub proof fn lemma_not_ready_after_budget(p: ReadinessProbe)
    requires
        p.wf(),
        p.attempts == p.max_attempts,
        forall|i: int| 0 <= i < p.outcomes@.len() ==> !outcome_ready(p.outcomes@[i]),
    ensures
        !p.ready,
        p.outcomes@.len() == p.max_attempts,
        !p.polling(),
{
}

} // verus!
