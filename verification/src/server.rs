//! Ingress decision: what the response collector does with a request.
//!
//! The collector listens on one fixed local port for the run's whole
//! duration and accepts only POST requests carrying a JSON body at the
//! root path; each accepted event is handed to the driver's queue (by the
//! surrounding process, which also applies the queue's backpressure) and
//! the request is answered with an empty success status.

use vstd::prelude::*;

use crate::json::{json_parses, parse_json, spec_parse_json, wf_model, Json};

verus! {

/// Status of the empty success reply to an accepted event.
pub const ACCEPTED_STATUS: u16 = 204;

/// Status of the reply to a path the collector does not serve.
pub const NOT_FOUND_STATUS: u16 = 404;

/// Status of the reply to a method the root path does not take.
pub const METHOD_NOT_ALLOWED_STATUS: u16 = 405;

/// Status of the reply to a body that is not JSON.
pub const BAD_REQUEST_STATUS: u16 = 400;

/// What the collector does with one request.
pub enum IngressOutcome {
    /// Enqueue the event for the driver and reply with the empty success
    /// status.
    Accept { event: Json },
    /// Reply with the given status and enqueue nothing.
    Reject { status: u16 },
}

/// Decides one request: only a POST to the root path with a JSON body is
/// accepted, and its parsed body is the event handed to the driver.
pub fn handle_ingress(method: &str, path: &str, body: &str) -> (r: IngressOutcome)
    ensures
        path@ != "/"@ ==> (r matches IngressOutcome::Reject { status } && status
            == NOT_FOUND_STATUS),
        path@ == "/"@ && method@ != "POST"@ ==> (r matches IngressOutcome::Reject { status }
            && status == METHOD_NOT_ALLOWED_STATUS),
        path@ == "/"@ && method@ == "POST"@ ==> ((r is Accept) <==> json_parses(body@)),
        path@ == "/"@ && method@ == "POST"@ && json_parses(body@) ==> (r
            matches IngressOutcome::Accept { event } && event@ == spec_parse_json(body@)
            && wf_model(event@)),
        path@ == "/"@ && method@ == "POST"@ && !json_parses(body@) ==> (r
            matches IngressOutcome::Reject { status } && status == BAD_REQUEST_STATUS),
{
    let root = String::from_str("/");
    let path_owned = path.to_owned();
    if !(path_owned == root) {
        return IngressOutcome::Reject { status: NOT_FOUND_STATUS };
    }
    let post = String::from_str("POST");
    let method_owned = method.to_owned();
    if !(method_owned == post) {
        return IngressOutcome::Reject { status: METHOD_NOT_ALLOWED_STATUS };
    }
    match parse_json(body) {
        Ok(event) => IngressOutcome::Accept { event },
        Err(_) => IngressOutcome::Reject { status: BAD_REQUEST_STATUS },
    }
}

} // verus!
