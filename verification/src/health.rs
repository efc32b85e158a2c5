//! Health gate: the polling state machine that decides when the engine
//! under test may receive traffic.
//!
//! On each poll the container's reported health field is read. "healthy"
//! is terminal success; "starting" counts an attempt and, once the retry
//! bound is reached, fails terminally; any other reported value, and the
//! complete absence of a health field, fail at once — readiness is never
//! assumed, only observed. The surrounding process does the actual
//! inspection and sleeping; the decisions are all here.

use vstd::prelude::*;

use crate::errors::HealthFailure;

verus! {

/// What one poll of the container reported.
pub enum HealthObservation {
    /// The engine is still starting.
    Starting,
    /// The engine reports itself healthy.
    Healthy,
    /// Some other health status was reported.
    Unexpected { status: String },
    /// No health field was present at all.
    Missing,
}

/// What the poller must do after an observation.
pub enum HealthAction {
    /// The engine is ready; traffic may start.
    Ready,
    /// Sleep for the configured delay, then poll again.
    SleepAndPoll,
    /// Give up with the given failure.
    Fail { failure: HealthFailure },
}

/// The polling state: how many "starting" observations were consumed, and
/// the bound on them.
pub struct HealthPoll {
    /// "starting" observations seen so far.
    pub attempts: u64,
    /// Bound on attempts; reaching it fails the check.
    pub retries: u64,
}

impl HealthPoll {
    /// The attempt counter never passes its bound.
    pub open spec fn wf(self) -> bool {
        self.attempts <= self.retries
    }

    /// A fresh poller that has observed nothing.
    pub fn new(retries: u64) -> (r: Self)
        ensures
            r.retries == retries,
            r.attempts == 0,
            r.wf(),
    {
        HealthPoll { attempts: 0, retries }
    }

    /// Consumes one observation and decides what follows: "healthy" is
    /// terminal success; "starting" counts an attempt and fails once the
    /// bound is reached, otherwise asks for a sleep and another poll; any
    /// other status, or a missing one, fails at once.
    pub fn observe(&mut self, obs: &HealthObservation) -> (a: HealthAction)
        requires
            old(self).wf(),
        ensures
            final(self).retries == old(self).retries,
            final(self).wf(),
            obs is Healthy ==> a is Ready && *final(self) == *old(self),
            obs is Starting && old(self).attempts + 1 >= old(self).retries ==> (a
                matches HealthAction::Fail { failure } && (failure
                matches HealthFailure::RetriesExhausted { retries: n } && n == old(self).retries)),
            obs is Starting && old(self).attempts + 1 < old(self).retries ==> a is SleepAndPoll
                && final(self).attempts == old(self).attempts + 1,
            (obs matches HealthObservation::Unexpected { status } ==> (a
                matches HealthAction::Fail { failure } && (failure
                matches HealthFailure::UnexpectedStatus { status: s } && s@ == status@))),
            obs is Missing ==> (a matches HealthAction::Fail { failure } && failure
                is StatusMissing),
    {
        match obs {
            HealthObservation::Healthy => HealthAction::Ready,
            HealthObservation::Starting => {
                if self.retries == 0 || self.attempts >= self.retries - 1 {
                    HealthAction::Fail {
                        failure: HealthFailure::RetriesExhausted { retries: self.retries },
                    }
                } else {
                    self.attempts = self.attempts + 1;
                    HealthAction::SleepAndPoll
                }
            },
            HealthObservation::Unexpected { status } => HealthAction::Fail {
                failure: HealthFailure::UnexpectedStatus { status: status.clone() },
            },
            HealthObservation::Missing => HealthAction::Fail {
                failure: HealthFailure::StatusMissing,
            },
        }
    }
}

/// How a polling run over a fixed list of observations ended.
pub enum PollEnd {
    /// A poll reported "healthy".
    Ready,
    /// A poll decided the check has failed.
    Failed { failure: HealthFailure },
    /// The observations ran out with the poller still waiting.
    Exhausted,
}

/// A finished polling run: how it ended, how many polls it made, and how
/// many sleeps it asked for (one between any two consecutive polls).
pub struct HealthReport {
    /// How the run ended.
    pub end: PollEnd,
    /// Polls made.
    pub polls: usize,
    /// Sleeps taken; the configured delay passes between consecutive
    /// polls.
    pub sleeps: usize,
}

/// Runs the health gate over a fixed list of observations, in order,
/// stopping at the first decisive one.
///
/// With a perpetually "starting" engine the check fails after exactly
/// `retries` polls with a retry-exhaustion failure, sleeping between
/// consecutive polls (`retries - 1` sleeps); with the health field absent
/// it fails on the first poll with zero sleeps.
pub fn run_health_poll(observations: &Vec<HealthObservation>, retries: u64) -> (r: HealthReport)
    ensures
        r.polls <= observations@.len(),
        forall|j: int|
            0 <= j < r.polls - 1 ==> ((#[trigger] observations@[j]) is Starting && j + 1 < retries),
        r.end is Exhausted ==> r.polls == observations@.len() && r.sleeps == r.polls && (forall|
            j: int,
        | 0 <= j < observations@.len() ==> ((#[trigger] observations@[j]) is Starting && j + 1
            < retries)),
        !(r.end is Exhausted) ==> {
            &&& 1 <= r.polls
            &&& r.sleeps == r.polls - 1
            &&& (observations@[r.polls - 1] is Healthy <==> r.end is Ready)
            &&& (observations@[r.polls - 1] is Starting ==> r.polls >= retries && (r.end
                matches PollEnd::Failed { failure } && (failure
                matches HealthFailure::RetriesExhausted { retries: n } && n == retries)))
            &&& (observations@[r.polls - 1] is Missing ==> (r.end matches PollEnd::Failed {
                failure,
            } && failure is StatusMissing))
            &&& (observations@[r.polls - 1] matches HealthObservation::Unexpected { status } ==> (
            r.end matches PollEnd::Failed { failure } && (failure
                matches HealthFailure::UnexpectedStatus { status: s } && s@ == status@)))
        },
        (retries >= 1 && observations@.len() >= retries && (forall|j: int|
            0 <= j < observations@.len() ==> (#[trigger] observations@[j]) is Starting)) ==> ((
        r.end matches PollEnd::Failed { failure } && failure is RetriesExhausted) && r.polls
            == retries && r.sleeps == retries - 1),
        (observations@.len() > 0 && observations@[0] is Missing) ==> ((r.end
            matches PollEnd::Failed { failure } && failure is StatusMissing) && r.polls == 1
            && r.sleeps == 0),
{
    let mut poll = HealthPoll::new(retries);
    let mut polls: usize = 0;
    let mut sleeps: usize = 0;
    let mut idx: usize = 0;
    while idx < observations.len()
        invariant
            idx <= observations@.len(),
            polls == idx,
            sleeps == idx,
            poll.retries == retries,
            poll.wf(),
            poll.attempts as int == idx as int,
            forall|j: int|
                0 <= j < idx ==> ((#[trigger] observations@[j]) is Starting && j + 1 < retries),
        decreases observations@.len() - idx,
    {
        polls = polls + 1;
        let action = poll.observe(&observations[idx]);
        match action {
            HealthAction::Ready => {
                return HealthReport { end: PollEnd::Ready, polls, sleeps };
            },
            HealthAction::Fail { failure } => {
                proof {
                    if idx > 0 {
                        assert(observations@[idx - 1] is Starting && idx - 1 + 1 < retries);
                    }
                }
                return HealthReport { end: PollEnd::Failed { failure }, polls, sleeps };
            },
            HealthAction::SleepAndPoll => {
                sleeps = sleeps + 1;
            },
        }
        idx += 1;
    }
    HealthReport { end: PollEnd::Exhausted, polls, sleeps }
}

} // verus!
