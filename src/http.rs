use vstd::prelude::*;

use crate::address::{parsed_uri, target_result, validate, validation, TargetView};
use crate::error::FetchError;
use crate::session::{ready, ConnectOrder, SessionView, TorClientWrapper};

verus! {

/// The client side of a one-shot GET through the overlay network.
pub struct HttpClient;

/// What a GET is to send: the stream to open and the request target.
/// The `Host` header is the stream's host.
pub struct RequestPlan {
    pub stream: ConnectOrder,
    pub path: String,
}

/// A GET of `url` on a session in state `s`: the address policy first, so
/// that a refused URL never reaches the session, then the session's
/// readiness.
pub open spec fn get_plan(url: Seq<char>, s: SessionView) -> Result<TargetView, FetchError> {
    match validation(parsed_uri(url)) {
        Err(e) => Err(e),
        Ok(t) => if ready(s) {
            Ok(t)
        } else {
            Err(FetchError::NotReady)
        },
    }
}

pub open spec fn plan_result(r: Result<RequestPlan, FetchError>) -> Result<TargetView, FetchError> {
    match r {
        Ok(p) => Ok(TargetView { host: p.stream.host@, port: p.stream.port, path: p.path@ }),
        Err(e) => Err(e),
    }
}

impl HttpClient {
    pub fn new() -> (r: Self) {
        HttpClient
    }

    /// Checks `url` against the address policy: an onion-service host, and
    /// plain HTTP where a scheme is given.
    pub fn validate_onion_url(&self, url: &str) -> (r: Result<crate::address::TargetAddress, FetchError>)
        ensures
            target_result(r) == validation(parsed_uri(url@)),
    {
        validate(url)
    }

    /// Decides a GET of `url`: the stream to ask the session for and the
    /// request target, or the error that stops it before any network use.
    pub fn prepare_get(&self, url: &str, session: &TorClientWrapper) -> (r: Result<RequestPlan, FetchError>)
        ensures
            plan_result(r) == get_plan(url@, session@),
    {
        let target = match self.validate_onion_url(url) {
            Ok(t) => t,
            Err(e) => return Err(e),
        };
        match session.connect(target.host.as_str(), target.port) {
            Ok(stream) => Ok(RequestPlan { stream, path: target.path }),
            Err(e) => Err(e),
        }
    }
}

impl Default for HttpClient {
    fn default() -> (r: Self) {
        HttpClient::new()
    }
}

} // verus!
