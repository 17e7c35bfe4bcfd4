//! The protected route: a request carries a session cookie, the backend says
//! whether it is valid, and the route answers with the resource, 401 or 500.
//!
//! The route alternates decisions with network work. The decisions stand here
//! as pure functions; the caller opens the connection and performs the call.

use crate::address::is_https;
use crate::channel::{backend_endpoint, uri_accepts};
use tonic::transport::Endpoint;
use vstd::prelude::*;
use vstd::string::StringExecFns;

verus! {

/// The location of the resource that the route protects.
pub open spec fn protected_resource_url() -> Seq<char> {
    "https://i.ibb.co/YP90j68/Light-Live-Bootcamp-Certificate.png"@
}

/// The payload served to a caller whose session is valid.
pub struct ProtectedRouteResponse {
    pub img_url: String,
}

impl ProtectedRouteResponse {
    /// The payload that points at the protected resource.
    pub fn certificate() -> (r: Self)
        ensures
            r.img_url@ == protected_resource_url(),
    {
        ProtectedRouteResponse {
            img_url: String::from_str("https://i.ibb.co/YP90j68/Light-Live-Bootcamp-Certificate.png"),
        }
    }
}

/// What the protected route answers.
pub enum ProtectedReply {
    /// 200, with the payload.
    Granted(ProtectedRouteResponse),
    /// 401, with an empty body.
    Unauthorized,
    /// 500, with an empty body.
    InternalError,
}

impl ProtectedReply {
    pub open spec fn spec_status(&self) -> u16 {
        match self {
            ProtectedReply::Granted(_) => 200,
            ProtectedReply::Unauthorized => 401,
            ProtectedReply::InternalError => 500,
        }
    }

    /// The HTTP status of the reply.
    pub fn status(&self) -> (r: u16)
        ensures
            r == self.spec_status(),
    {
        match self {
            ProtectedReply::Granted(_) => 200,
            ProtectedReply::Unauthorized => 401,
            ProtectedReply::InternalError => 500,
        }
    }
}

/// What came of asking the backend about a token.
#[derive(Debug, Clone, Copy, PartialEq, Eq, Structural)]
pub enum BackendOutcome {
    /// The backend answered; its `valid` flag.
    Verdict(bool),
    /// No connection to the backend could be made.
    Unreachable,
    /// The call failed in flight or its answer could not be decoded.
    CallFailed,
}

/// The status owed once the backend has been asked.
pub open spec fn outcome_status(outcome: BackendOutcome) -> u16 {
    match outcome {
        BackendOutcome::Verdict(true) => 200,
        BackendOutcome::Verdict(false) => 401,
        _ => 500,
    }
}

/// The backend address can be made into an endpoint.
pub open spec fn address_usable(address: Seq<char>) -> bool {
    address.len() > 0 && uri_accepts(address)
}

/// The status of a whole request to the protected route: whether it carries
/// a cookie, the configured backend address, whether encrypted transport could
/// be set up on this machine, and what the backend said.
pub open spec fn request_status(
    cookie_present: bool,
    address: Seq<char>,
    tls_ready: bool,
    outcome: BackendOutcome,
) -> u16 {
    if !cookie_present {
        401
    } else if !address_usable(address) || (is_https(address) && !tls_ready) {
        500
    } else {
        outcome_status(outcome)
    }
}

/// The first step of the protected route.
pub enum ProtectedStep {
    /// Answer at once; the backend is not asked.
    Reply(ProtectedReply),
    /// Connect `endpoint`, ask the backend about `token`, and hand what came
    /// of it to `conclude_protected`.
    Verify { endpoint: Endpoint, token: String },
}

/// Decides the first step for a request with session cookie `jwt_cookie`,
/// the backend being configured at `backend_address`.
pub fn begin_protected(jwt_cookie: Option<&str>, backend_address: &str) -> (r: ProtectedStep)
    ensures
        jwt_cookie is None ==> (r matches ProtectedStep::Reply(ProtectedReply::Unauthorized)),
        jwt_cookie is Some && !address_usable(backend_address@) ==> (r matches ProtectedStep::Reply(
            ProtectedReply::InternalError,
        )),
        jwt_cookie is Some && address_usable(backend_address@) && !is_https(backend_address@) ==> (
        r is Verify),
        r matches ProtectedStep::Reply(rep) ==> rep.spec_status() == request_status(
            jwt_cookie is Some,
            backend_address@,
            false,
            BackendOutcome::Unreachable,
        ),
        r matches ProtectedStep::Verify { token, .. } ==> {
            &&& jwt_cookie is Some
            &&& token@ == jwt_cookie->Some_0@
            &&& address_usable(backend_address@)
        },
{
    let cookie = match jwt_cookie {
        None => {
            return ProtectedStep::Reply(ProtectedReply::Unauthorized);
        },
        Some(c) => c,
    };
    match backend_endpoint(backend_address) {
        Ok(endpoint) => ProtectedStep::Verify { endpoint, token: String::from_str(cookie) },
        Err(_) => ProtectedStep::Reply(ProtectedReply::InternalError),
    }
}

/// Decides the reply once the backend has been asked.
pub fn conclude_protected(outcome: BackendOutcome) -> (r: ProtectedReply)
    ensures
        r.spec_status() == outcome_status(outcome),
        r is Granted <==> outcome == BackendOutcome::Verdict(true),
        r matches ProtectedReply::Granted(p) ==> p.img_url@ == protected_resource_url(),
{
    match outcome {
        BackendOutcome::Verdict(true) => ProtectedReply::Granted(ProtectedRouteResponse::certificate()),
        BackendOutcome::Verdict(false) => ProtectedReply::Unauthorized,
        BackendOutcome::Unreachable => ProtectedReply::InternalError,
        BackendOutcome::CallFailed => ProtectedReply::InternalError,
    }
}

/// A request without a session cookie is answered 401, whatever the backend
/// and its configuration; `begin_protected` then asks no backend.
pub proof fn no_cookie_is_unauthorized(address: Seq<char>, tls_ready: bool, outcome: BackendOutcome)
    ensures
        request_status(false, address, tls_ready, outcome) == 401,
{
}

/// A request with a cookie that reaches the backend, which calls the token
/// valid, is answered 200; `conclude_protected` then serves the payload.
pub proof fn valid_token_is_granted(address: Seq<char>, tls_ready: bool)
    requires
        address_usable(address),
        is_https(address) ==> tls_ready,
    ensures
        request_status(true, address, tls_ready, BackendOutcome::Verdict(true)) == 200,
{
}

/// A request with a cookie that the backend calls invalid is answered 401.
pub proof fn invalid_token_is_unauthorized(address: Seq<char>, tls_ready: bool)
    requires
        address_usable(address),
        is_https(address) ==> tls_ready,
    ensures
        request_status(true, address, tls_ready, BackendOutcome::Verdict(false)) == 401,
{
}

/// A request with a cookie is answered 500 when no connection to the backend
/// can be made or the call fails.
pub proof fn backend_failure_is_server_error(
    address: Seq<char>,
    tls_ready: bool,
    outcome: BackendOutcome,
)
    requires
        !address_usable(address) || (is_https(address) && !tls_ready) || outcome
            == BackendOutcome::Unreachable || outcome == BackendOutcome::CallFailed,
    ensures
        request_status(true, address, tls_ready, outcome) == 500,
{
}

/// Repeating a request gives the same status each time: the status depends
/// on the request, the configuration and the backend's answer alone, since the
/// route keeps no state between requests.
pub proof fn repeated_request_same_status(
    cookie_present: bool,
    address: Seq<char>,
    tls_ready: bool,
    outcome: BackendOutcome,
    again: BackendOutcome,
)
    requires
        again == outcome,
    ensures
        request_status(cookie_present, address, tls_ready, outcome) == request_status(
            cookie_present,
            address,
            tls_ready,
            again,
        ),
{
}

/// With no backend address configured, a request with a cookie is answered
/// 500, and no request is ever granted.
pub proof fn empty_address_never_grants(
    cookie_present: bool,
    address: Seq<char>,
    tls_ready: bool,
    outcome: BackendOutcome,
)
    requires
        address.len() == 0,
    ensures
        cookie_present ==> request_status(cookie_present, address, tls_ready, outcome) == 500,
        request_status(cookie_present, address, tls_ready, outcome) != 200,
{
}

} // verus!
