//! Container-runtime model: what the orchestrator decides about images
//! and containers.
//!
//! The surrounding process talks to the runtime; the functions here decide
//! what its answers mean: which image the build stream produced (or which
//! of its failures counts as a structured build error rather than a
//! transport one), and how the container must be configured — stdout and
//! stderr attached, each engine port bound to the same-numbered host port
//! on loopback, auto-removal per caller flag.

use vstd::prelude::*;
use vstd::string::{StrSliceExecFns, StringExecFns};

use crate::errors::{BuildFailure, RunError};
use crate::text::{spec_decimal, u64_decimal};

verus! {

/// Identifier of a built image, owned for the run's lifetime.
pub struct Image {
    /// The runtime's identifier for the image.
    pub id: String,
}

/// Identifier of the one running container of a run.
pub struct Container {
    /// The runtime's identifier for the container.
    pub id: String,
}

/// One event of the image build stream, as the surrounding process
/// decodes it.
pub enum BuildEvent {
    /// The stream names an image; a later event supersedes an earlier
    /// one, and an event without an identifier clears it.
    ImageId { id: Option<String> },
    /// Progress output without an identifier.
    Progress,
    /// A structured build error reported inside the stream.
    StreamError { detail: String },
    /// A failure of the transport carrying the stream.
    TransportError { detail: String },
}

/// Whether an event aborts the stream.
pub open spec fn is_err_event(e: BuildEvent) -> bool {
    e is StreamError || e is TransportError
}

/// The build error that a stream-aborting event surfaces as.
pub open spec fn err_event_matches(err: RunError, e: BuildEvent) -> bool {
    match e {
        BuildEvent::StreamError { detail } => err matches RunError::Build {
            failure: BuildFailure::Stream { detail: d },
        } && d@ == detail@,
        BuildEvent::TransportError { detail } => err matches RunError::Build {
            failure: BuildFailure::Transport { detail: d },
        } && d@ == detail@,
        _ => false,
    }
}

/// The image identifier in force after the first `n` events: the last one
/// named, cleared by an identifier-less naming event.
pub open spec fn image_id_after(events: Seq<BuildEvent>, n: int) -> Option<Seq<char>>
    decreases n,
{
    if n <= 0 {
        None
    } else {
        match events[n - 1] {
            BuildEvent::ImageId { id } => match id {
                Some(s) => Some(s@),
                None => None,
            },
            _ => image_id_after(events, n - 1),
        }
    }
}

/// Consumes the build event stream: the build succeeds with the last
/// image identifier the stream named, provided no event aborted it. The
/// first aborting event ends the build with its structured or transport
/// error; a clean stream that never named an identifier is a build error
/// of its own.
pub fn build_stream_outcome(events: &Vec<BuildEvent>) -> (r: Result<Image, RunError>)
    ensures
        (r is Ok) <==> ((forall|k: int| 0 <= k < events@.len() ==> !is_err_event(#[trigger] events@[k]))
            && image_id_after(events@, events@.len() as int) is Some),
        r is Ok ==> r->Ok_0.id@ == image_id_after(events@, events@.len() as int)->Some_0,
        r is Err ==> r->Err_0 is Build,
        r is Err ==> {
            ||| (exists|k: int|
                0 <= k < events@.len() && is_err_event(#[trigger] events@[k]) && (forall|j: int|
                    0 <= j < k ==> !is_err_event(#[trigger] events@[j])) && err_event_matches(
                    r->Err_0,
                    events@[k],
                ))
            ||| ((forall|k: int| 0 <= k < events@.len() ==> !is_err_event(#[trigger] events@[k]))
                && (r->Err_0 matches RunError::Build { failure } && failure is NoImageId))
        },
{
    let mut image: Option<String> = None;
    let mut k: usize = 0;
    while k < events.len()
        invariant
            k <= events@.len(),
            forall|j: int| 0 <= j < k ==> !is_err_event(#[trigger] events@[j]),
            (match image {
                Some(s) => image_id_after(events@, k as int) matches Some(v) && v == s@,
                None => image_id_after(events@, k as int) is None,
            }),
        decreases events@.len() - k,
    {
        match &events[k] {
            BuildEvent::ImageId { id } => {
                image = match id {
                    Some(s) => Some(s.clone()),
                    None => None,
                };
            },
            BuildEvent::Progress => {},
            BuildEvent::StreamError { detail } => {
                let e = RunError::Build {
                    failure: BuildFailure::Stream { detail: detail.clone() },
                };
                return Err(e);
            },
            BuildEvent::TransportError { detail } => {
                let e = RunError::Build {
                    failure: BuildFailure::Transport { detail: detail.clone() },
                };
                return Err(e);
            },
        }
        k += 1;
    }
    match image {
        Some(id) => Ok(Image { id }),
        None => {
            let e = RunError::Build { failure: BuildFailure::NoImageId };
            Err(e)
        },
    }
}

/// The tag a run's image is built under: the fixed application prefix,
/// the cache key of the target, and the `latest` label.
pub fn image_tag(cache_name: &str) -> (r: String)
    ensures
        r@ == "nausicaea/lotus-"@ + cache_name@ + ":latest"@,
{
    let mut s = String::from_str("nausicaea/lotus-");
    s.append(cache_name);
    s.append(":latest");
    s
}

/// One host-port binding of the container: an engine port, bound to the
/// same-numbered port on the loopback interface.
pub struct PortBinding {
    /// The engine's port, as the runtime keys it: `<port>/tcp`.
    pub container_port: String,
    /// The host interface the port is bound to.
    pub host_ip: String,
    /// The bound host port, in the same `<port>/tcp` form.
    pub host_port: String,
}

/// The `<port>/tcp` key for a port.
pub open spec fn spec_port_key(port: u16) -> Seq<char> {
    spec_decimal(port as int) + "/tcp"@
}

/// Renders the `<port>/tcp` key for a port.
pub fn port_key(port: u16) -> (r: String)
    ensures
        r@ == spec_port_key(port),
{
    let mut s = u64_decimal(port as u64);
    s.append("/tcp");
    s
}

/// How the one container of a run is declared: stdout and stderr
/// attached, the engine's input and control-API ports bound to the
/// same-numbered host ports on loopback, auto-removal per caller flag.
pub struct ContainerSpec {
    /// The image the container runs.
    pub image_id: String,
    /// Stdout is attached.
    pub attach_stdout: bool,
    /// Stderr is attached.
    pub attach_stderr: bool,
    /// Whether the runtime removes the container after it stops.
    pub auto_remove: bool,
    /// The port bindings, input port first, then the control-API port.
    pub port_bindings: Vec<PortBinding>,
}

/// Declares the container for an image: both output streams attached,
/// the input and control-API ports each bound to the same-numbered host
/// port on loopback, auto-removal as asked.
pub fn container_spec(image: &Image, auto_remove: bool) -> (r: ContainerSpec)
    ensures
        r.image_id@ == image.id@,
        r.attach_stdout,
        r.attach_stderr,
        r.auto_remove == auto_remove,
        r.port_bindings@.len() == 2,
        r.port_bindings@[0].container_port@ == spec_port_key(crate::INPUT_PORT),
        r.port_bindings@[0].host_ip@ == crate::LOCALHOST@,
        r.port_bindings@[0].host_port@ == spec_port_key(crate::INPUT_PORT),
        r.port_bindings@[1].container_port@ == spec_port_key(crate::API_PORT),
        r.port_bindings@[1].host_ip@ == crate::LOCALHOST@,
        r.port_bindings@[1].host_port@ == spec_port_key(crate::API_PORT),
{
    let mut bindings: Vec<PortBinding> = Vec::new();
    bindings.push(
        PortBinding {
            container_port: port_key(crate::INPUT_PORT),
            host_ip: crate::LOCALHOST.to_owned(),
            host_port: port_key(crate::INPUT_PORT),
        },
    );
    bindings.push(
        PortBinding {
            container_port: port_key(crate::API_PORT),
            host_ip: crate::LOCALHOST.to_owned(),
            host_port: port_key(crate::API_PORT),
        },
    );
    ContainerSpec {
        image_id: image.id.clone(),
        attach_stdout: true,
        attach_stderr: true,
        auto_remove,
        port_bindings: bindings,
    }
}

} // verus!
