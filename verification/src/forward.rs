use vstd::prelude::*;

use crate::routes::Routes;

verus! {

/// Status answered when no configured route matches the request path.
pub const STATUS_NOT_FOUND: u16 = 404;

/// Status reserved for a match whose suffix could not be computed. The
/// matching rule guarantees a suffix for every match, so nothing in the core
/// produces it; it is documented as part of the HTTP surface.
pub const STATUS_INTERNAL_SERVER_ERROR: u16 = 500;

/// Status reserved for a matcher/capture inconsistency, unreachable for the
/// same reason; documented, with no logic designed around it.
pub const STATUS_BAD_GATEWAY: u16 = 502;

/// Status answered when the backend connection or handshake fails.
pub const STATUS_SERVICE_UNAVAILABLE: u16 = 503;

/// The per-request forwarding decision.
pub enum Plan {
    /// No configured route matches: answer 404 and make no outbound call.
    NotFound,
    /// Forward to `target` — the matched origin joined with the suffix —
    /// over an encrypted transport exactly when `use_tls`.
    Forward { target: String, use_tls: bool },
}

/// Joins the matched origin with the suffix into the outbound target URL.
pub fn join_target(origin: &str, suffix: &str) -> (r: String)
    ensures
        r@ == origin@ + suffix@,
{
    let mut r = String::from_str(origin);
    r.append(suffix);
    r
}

/// Resolves `path` against the table and decides what the forwarding service
/// does with the request: answer 404 when no route matches, otherwise issue
/// one outbound call, carrying the inbound method, to the matched origin
/// joined with the suffix, over the transport bound to that origin.
pub fn plan_request(routes: &Routes, path: &str) -> (p: Plan)
    ensures
        match routes.match_spec(path@) {
            None => p == Plan::NotFound,
            Some(m) => p matches Plan::Forward { target, use_tls } && target@ == m.0 + m.1
                && use_tls == m.2,
        },
{
    match routes.match_path(path) {
        None => Plan::NotFound,
        Some(m) => {
            let target = join_target(m.origin.as_str(), m.suffix.as_str());
            Plan::Forward { target, use_tls: m.use_tls }
        },
    }
}

/// A backend's reply as the core consumes it.
pub struct BackendReply {
    pub status: u16,
    pub headers: Vec<(String, String)>,
    pub body: Vec<u8>,
}

/// What came back from the one outbound call: the backend's reply, or a
/// transport failure (refused connection, TLS failure, origin unreachable).
pub enum Outcome {
    Reply(BackendReply),
    TransportFailed,
}

/// The response the proxy answers the inbound request with.
pub struct HttpResponse {
    pub status: u16,
    pub headers: Vec<(String, String)>,
    pub body: Vec<u8>,
}

/// The response for a request that matched no route: status 404 and nothing
/// else; no outbound call is made for it.
pub fn not_found_response() -> (r: HttpResponse)
    ensures
        r.status == STATUS_NOT_FOUND,
        r.headers@ =~= Seq::<(String, String)>::empty(),
        r.body@ =~= Seq::<u8>::empty(),
{
    HttpResponse { status: STATUS_NOT_FOUND, headers: Vec::new(), body: Vec::new() }
}

/// Maps the outcome of the outbound call to the response relayed to the
/// caller: a backend reply passes through with status, headers and body
/// unmodified; a transport failure is answered 503 and contained to this one
/// request — it is never retried and never escalated.
pub fn forward_response(outcome: Outcome) -> (r: HttpResponse)
    ensures
        outcome matches Outcome::Reply(rep) ==> r.status == rep.status && r.headers == rep.headers
            && r.body == rep.body,
        outcome is TransportFailed ==> r.status == STATUS_SERVICE_UNAVAILABLE && r.headers@ =~= Seq::<
            (String, String),
        >::empty() && r.body@ =~= Seq::<u8>::empty(),
{
    match outcome {
        Outcome::Reply(rep) => HttpResponse {
            status: rep.status,
            headers: rep.headers,
            body: rep.body,
        },
        Outcome::TransportFailed => HttpResponse {
            status: STATUS_SERVICE_UNAVAILABLE,
            headers: Vec::new(),
            body: Vec::new(),
        },
    }
}

} // verus!
