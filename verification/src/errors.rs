//! Error taxonomy of the test orchestrator.
//!
//! Every lower-level failure is wrapped into one of these kinds and
//! surfaced upward; the first failure terminates the whole run. Each
//! error renders itself as text through [`RunError::message`], whose
//! contract pins the exact wording.

use vstd::prelude::*;
use vstd::string::StringExecFns;

use crate::compare::Diff;
use crate::json::Json;

verus! {

/// Why a health check gave up.
#[derive(Debug)]
pub enum HealthFailure {
    /// The engine still reported "starting" when the retry bound was hit.
    RetriesExhausted { retries: u64 },
    /// The engine reported a state that is neither "starting" nor
    /// "healthy"; readiness is never assumed, so this fails at once.
    UnexpectedStatus { status: String },
    /// The runtime reported no health state at all.
    StatusMissing,
}

/// Why turning the artifact into an image failed.
#[derive(Debug)]
pub enum BuildFailure {
    /// The build stream itself reported a structured error.
    Stream { detail: String },
    /// The transport carrying the build stream failed.
    Transport { detail: String },
    /// The stream ended without ever naming an image.
    NoImageId,
}

/// Why an event never reached the driver, or a fixture never reached the
/// engine.
#[derive(Debug)]
pub enum CommFailure {
    /// Sending a fixture to the engine failed.
    SendFailed { detail: String },
    /// The queue closed or ran dry before an event arrived for the named
    /// case: the engine produced no output for it.
    NoOutput { index: usize, name: String },
}

/// A failure of the run, wrapped with the operation's context.
#[derive(Debug)]
pub enum RunError {
    /// A template, parameter or naming problem in the inputs.
    Configuration { detail: String },
    /// A missing or unreadable rule, fixture or auxiliary file.
    Io { detail: String },
    /// Building the image failed.
    Build { failure: BuildFailure },
    /// Creating, starting or stopping the container failed.
    ContainerLifecycle { detail: String },
    /// The engine never became healthy.
    HealthCheck { failure: HealthFailure },
    /// A fixture could not be delivered, or no output came back.
    Communication { failure: CommFailure },
    /// The engine's output for a case differs from the expected fixture;
    /// carries both payloads and the location-qualified differences.
    Comparison { index: usize, name: String, actual: Json, expected: Json, diffs: Vec<Diff> },
}

impl HealthFailure {
    /// The text of this failure.
    pub open spec fn message_spec(self) -> Seq<char> {
        match self {
            HealthFailure::RetriesExhausted { .. } => "health check retries exhausted while the engine kept starting"@,
            HealthFailure::UnexpectedStatus { status } => "unexpected container health status: "@
                + status@,
            HealthFailure::StatusMissing => "no container health status was found"@,
        }
    }

    /// Renders the failure as text.
    pub fn message(&self) -> (r: String)
        ensures
            r@ == self.message_spec(),
    {
        match self {
            HealthFailure::RetriesExhausted { .. } => String::from_str(
                "health check retries exhausted while the engine kept starting",
            ),
            HealthFailure::UnexpectedStatus { status } => {
                let mut m = String::from_str("unexpected container health status: ");
                m.append(status.as_str());
                m
            },
            HealthFailure::StatusMissing => String::from_str(
                "no container health status was found",
            ),
        }
    }
}

impl BuildFailure {
    /// The text of this failure.
    pub open spec fn message_spec(self) -> Seq<char> {
        match self {
            BuildFailure::Stream { detail } => "build stream error: "@ + detail@,
            BuildFailure::Transport { detail } => "build transport error: "@ + detail@,
            BuildFailure::NoImageId => "no container image id was found"@,
        }
    }

    /// Renders the failure as text.
    pub fn message(&self) -> (r: String)
        ensures
            r@ == self.message_spec(),
    {
        match self {
            BuildFailure::Stream { detail } => {
                let mut m = String::from_str("build stream error: ");
                m.append(detail.as_str());
                m
            },
            BuildFailure::Transport { detail } => {
                let mut m = String::from_str("build transport error: ");
                m.append(detail.as_str());
                m
            },
            BuildFailure::NoImageId => String::from_str("no container image id was found"),
        }
    }
}

impl CommFailure {
    /// The text of this failure.
    pub open spec fn message_spec(self) -> Seq<char> {
        match self {
            CommFailure::SendFailed { detail } => "sending input to the engine failed: "@
                + detail@,
            CommFailure::NoOutput { name, .. } => "the engine produced no output for test case "@
                + name@,
        }
    }

    /// Renders the failure as text.
    pub fn message(&self) -> (r: String)
        ensures
            r@ == self.message_spec(),
    {
        match self {
            CommFailure::SendFailed { detail } => {
                let mut m = String::from_str("sending input to the engine failed: ");
                m.append(detail.as_str());
                m
            },
            CommFailure::NoOutput { name, .. } => {
                let mut m = String::from_str("the engine produced no output for test case ");
                m.append(name.as_str());
                m
            },
        }
    }
}

impl RunError {
    /// The text of this error.
    pub open spec fn message_spec(self) -> Seq<char> {
        match self {
            RunError::Configuration { detail } => "configuration error: "@ + detail@,
            RunError::Io { detail } => "i/o error: "@ + detail@,
            RunError::Build { failure } => "build error: "@ + failure.message_spec(),
            RunError::ContainerLifecycle { detail } => "container lifecycle error: "@ + detail@,
            RunError::HealthCheck { failure } => "health check error: "@ + failure.message_spec(),
            RunError::Communication { failure } => "communication error: "@
                + failure.message_spec(),
            RunError::Comparison { name, .. } => "comparison error: test case "@ + name@
                + " does not match its expected output"@,
        }
    }

    /// Renders the error as text.
    pub fn message(&self) -> (r: String)
        ensures
            r@ == self.message_spec(),
    {
        match self {
            RunError::Configuration { detail } => {
                let mut m = String::from_str("configuration error: ");
                m.append(detail.as_str());
                m
            },
            RunError::Io { detail } => {
                let mut m = String::from_str("i/o error: ");
                m.append(detail.as_str());
                m
            },
            RunError::Build { failure } => {
                let mut m = String::from_str("build error: ");
                let f = failure.message();
                m.append(f.as_str());
                m
            },
            RunError::ContainerLifecycle { detail } => {
                let mut m = String::from_str("container lifecycle error: ");
                m.append(detail.as_str());
                m
            },
            RunError::HealthCheck { failure } => {
                let mut m = String::from_str("health check error: ");
                let f = failure.message();
                m.append(f.as_str());
                m
            },
            RunError::Communication { failure } => {
                let mut m = String::from_str("communication error: ");
                let f = failure.message();
                m.append(f.as_str());
                m
            },
            RunError::Comparison { name, .. } => {
                let mut m = String::from_str("comparison error: test case ");
                m.append(name.as_str());
                m.append(" does not match its expected output");
                m
            },
        }
    }
}

} // verus!
