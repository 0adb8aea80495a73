//! The request line: the method and the path of an inbound request.

use vstd::prelude::*;
use crate::text::str_eq;

verus! {

/// The method token of a probe. Method tokens are case-sensitive.
pub const PROBE_METHOD: &'static str = "GET";

/// The path of the probe route.
pub const PROBE_PATH: &'static str = "/health";

/// What routing reads of a request: the method token and the path, as
/// characters. The path is the path component alone, without a query.
pub struct RequestLine {
    pub method: Seq<char>,
    pub path: Seq<char>,
}

impl RequestLine {
    /// The one request that is answered with the page: `GET` on `/health`,
    /// both compared character by character.
    pub open spec fn is_health_probe(self) -> bool {
        self.method == "GET"@ && self.path == "/health"@
    }
}

/// An inbound request, borrowed from whoever parsed it off the wire.
#[derive(Clone, Copy, Debug)]
pub struct Request<'a> {
    pub method: &'a str,
    pub path: &'a str,
}

impl<'a> View for Request<'a> {
    type V = RequestLine;

    open spec fn view(&self) -> RequestLine {
        RequestLine { method: self.method@, path: self.path@ }
    }
}

impl<'a> Request<'a> {
    /// A request with the given method token and path.
    pub fn new(method: &'a str, path: &'a str) -> (request: Self)
        ensures
            request@ == (RequestLine { method: method@, path: path@ }),
    {
        Request { method, path }
    }

    /// Whether this request is the probe.
    pub fn is_health_probe(&self) -> (probe: bool)
        ensures
            probe == self@.is_health_probe(),
    {
        str_eq(self.method, PROBE_METHOD) && str_eq(self.path, PROBE_PATH)
    }
}

} // verus!
