//! Responses: the status line, the content type and the body.

use vstd::prelude::*;

verus! {

/// Status of the page.
pub const STATUS_OK: u16 = 200;

/// Status of the answer to a request that matches no route.
pub const STATUS_NOT_FOUND: u16 = 404;

/// Content type of the page.
pub const CONTENT_TYPE_HTML: &'static str = "text/html; charset=utf-8";

/// Text of the page.
pub const HEALTHY: &'static str = "Healthy";

/// A response as contracts speak of it.
pub struct ResponseView {
    pub status: nat,
    pub content_type: Option<Seq<char>>,
    pub body: Seq<char>,
}

/// The page: status 200, an HTML content type, and the text `Healthy` with
/// nothing before or after it.
pub open spec fn healthy() -> ResponseView {
    ResponseView {
        status: 200,
        content_type: Some("text/html; charset=utf-8"@),
        body: "Healthy"@,
    }
}

/// The answer where no route matches: status 404, no content type, no body.
pub open spec fn not_found() -> ResponseView {
    ResponseView { status: 404, content_type: None, body: Seq::empty() }
}

/// A response, ready to be written to a connection.
#[derive(Clone, Debug, PartialEq, Eq)]
pub struct Response {
    pub status: u16,
    pub content_type: Option<&'static str>,
    pub body: String,
}

impl View for Response {
    type V = ResponseView;

    open spec fn view(&self) -> ResponseView {
        ResponseView {
            status: self.status as nat,
            content_type: match self.content_type {
                Some(name) => Some(name@),
                None => None,
            },
            body: self.body@,
        }
    }
}

impl Response {
    /// The answer where no route matches.
    pub fn not_found() -> (response: Self)
        ensures
            response@ == not_found(),
    {
        Response { status: STATUS_NOT_FOUND, content_type: None, body: String::new() }
    }

    /// Whether the status is 200.
    pub fn is_ok(&self) -> (ok: bool)
        ensures
            ok == (self@.status == 200),
    {
        self.status == STATUS_OK
    }
}

/// Answers the probe. It reads nothing of the request and cannot fail.
pub fn health_check_handler() -> (response: Response)
    ensures
        response@ == healthy(),
{
    Response {
        status: STATUS_OK,
        content_type: Some(CONTENT_TYPE_HTML),
        body: HEALTHY.to_owned(),
    }
}

} // verus!
