//! Routing: which handler answers a request, and with what.

use vstd::prelude::*;
use crate::request::{Request, RequestLine};
use crate::response::{health_check_handler, healthy, not_found, Response, ResponseView};

verus! {

/// Where a request goes.
#[derive(Clone, Copy, Debug, PartialEq, Eq, Structural)]
pub enum Route {
    /// To the health handler.
    Health,
    /// Nowhere: no route matches.
    NotFound,
}

/// The route table. It has one entry, the probe; every other method and path
/// matches nothing.
pub open spec fn route_of(line: RequestLine) -> Route {
    if line.is_health_probe() {
        Route::Health
    } else {
        Route::NotFound
    }
}

/// The answer to a request. It is a function of the request line alone: there
/// is no state that an earlier request could have changed.
pub open spec fn response_of(line: RequestLine) -> ResponseView {
    match route_of(line) {
        Route::Health => healthy(),
        Route::NotFound => not_found(),
    }
}

/// The answers to a run of requests, in the order of the requests. Each
/// request is answered on its own.
pub open spec fn responses_of(run: Seq<RequestLine>) -> Seq<ResponseView> {
    Seq::new(run.len(), |i: int| response_of(run[i]))
}

/// A run that holds the same request `times` times.
pub open spec fn repeated(line: RequestLine, times: nat) -> Seq<RequestLine> {
    Seq::new(times, |k: int| line)
}

/// The request lines of a run of requests.
pub open spec fn lines_of(requests: Seq<Request>) -> Seq<RequestLine> {
    requests.map_values(|request: Request| request@)
}

/// The views of a run of responses.
pub open spec fn views_of(responses: Seq<Response>) -> Seq<ResponseView> {
    responses.map_values(|response: Response| response@)
}

/// Looks the request up in the route table.
pub fn route(request: &Request) -> (target: Route)
    ensures
        target == route_of(request@),
{
    if request.is_health_probe() {
        Route::Health
    } else {
        Route::NotFound
    }
}

/// Answers a request: the page for the probe, not-found for anything else.
pub fn respond(request: &Request) -> (response: Response)
    ensures
        response@ == response_of(request@),
        response@.status == 200 <==> request@.is_health_probe(),
{
    match route(request) {
        Route::Health => health_check_handler(),
        Route::NotFound => Response::not_found(),
    }
}

/// Answers a run of requests, each on its own, in the order in which they
/// stand.
pub fn respond_all(requests: &[Request]) -> (responses: Vec<Response>)
    ensures
        views_of(responses@) == responses_of(lines_of(requests@)),
{
    let mut responses: Vec<Response> = Vec::new();
    let mut i: usize = 0;
    while i < requests.len()
        invariant
            i <= requests@.len(),
            responses@.len() == i,
            forall|k: int| 0 <= k < i ==> (#[trigger] responses@[k])@ == response_of(requests@[k]@),
        decreases requests@.len() - i,
    {
        responses.push(respond(&requests[i]));
        i = i + 1;
    }
    proof {
        assert(views_of(responses@) =~= responses_of(lines_of(requests@)));
    }
    responses
}

/// A probe is answered with status 200, as HTML, with the text `Healthy`.
pub proof fn lemma_probe_is_healthy(line: RequestLine)
    requires
        line.is_health_probe(),
    ensures
        response_of(line).status == 200,
        response_of(line).content_type == Some("text/html; charset=utf-8"@),
        response_of(line).body == "Healthy"@,
{
}

/// A request for another path, or with another method, is not answered with
/// status 200, nor with the page.
pub proof fn lemma_other_requests_are_not_ok(line: RequestLine)
    requires
        line.path != "/health"@ || line.method != "GET"@,
    ensures
        response_of(line).status != 200,
        response_of(line) != healthy(),
{
}

/// Status 200 is the answer to the probe and to nothing else; the only other
/// status is 404.
pub proof fn lemma_ok_iff_probe(line: RequestLine)
    ensures
        response_of(line).status == 200 <==> line.is_health_probe(),
        response_of(line).status == 200 || response_of(line).status == 404,
{
}

/// In a run of requests of any length, every probe is answered with the page,
/// whatever came before it and whatever comes with it.
pub proof fn lemma_probes_in_a_run_are_healthy(run: Seq<RequestLine>)
    ensures
        responses_of(run).len() == run.len(),
        forall|i: int|
            0 <= i < run.len() && (#[trigger] run[i]).is_health_probe() ==> responses_of(run)[i]
                == healthy(),
{
}

/// The same request, repeated any number of times, gets the same answer every
/// time.
pub proof fn lemma_repeated_request_same_answer(line: RequestLine, times: nat)
    ensures
        responses_of(repeated(line, times)).len() == times,
        forall|i: int|
            0 <= i < times ==> #[trigger] responses_of(repeated(line, times))[i] == response_of(
                line,
            ),
{
}

/// Equal requests get equal answers, wherever they stand in their runs.
pub proof fn lemma_answer_depends_on_request_alone(
    first: Seq<RequestLine>,
    second: Seq<RequestLine>,
    i: int,
    j: int,
)
    requires
        0 <= i < first.len(),
        0 <= j < second.len(),
        first[i] == second[j],
    ensures
        responses_of(first)[i] == responses_of(second)[j],
{
}

} // verus!
