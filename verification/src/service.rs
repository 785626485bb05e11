//! Service invocation glue: wires a request-handling service into the
//! reactor for one request/response cycle.
//!
//! The service is driven to readiness, the abstract request is built from
//! the capability accessors, the service's response is translated through
//! the outgoing-response capability, and its body is copied out to
//! completion. A stall anywhere surfaces as an explicit error — and, while
//! the out-parameter is still in hand, as an error response through the
//! host's reporting path — never as a silent hang.

use vstd::prelude::*;

verus! {

use crate::Error;
use crate::body::HttpBody;
use crate::host::{Host, HostErrorCode};
use crate::incoming::IncomingHttpBody;
use crate::outgoing::{OutgoingBodyCopier, WasiOutgoingBodyCopier};
use crate::poll::{block_on, GuestTask, Poll, Poller, Waker};
use crate::wasi::{
    FieldEntries, IncomingRequest, Method, OutgoingResponse, ResponseOutparam, Scheme,
};

/// An abstract incoming request: start line, headers, and a lazy
/// chunks-then-trailers body.
pub struct GuestRequest {
    pub method: Method,
    pub path_with_query: Option<String>,
    pub scheme: Option<Scheme>,
    pub authority: Option<String>,
    pub headers: FieldEntries,
    pub body: IncomingHttpBody,
}

/// An abstract response: status, headers, and a lazy body of the service's
/// choosing.
pub struct GuestResponse<B> {
    pub status: u16,
    pub headers: FieldEntries,
    pub body: B,
}

/// A request-handling service; the application implements this.
///
/// Transport failures are reported out-of-band by the glue, never through
/// the service's own error channel; an error returned here stands for the
/// application failing, and becomes an error response.
pub trait GuestService: Sized {
    type ResponseBody: HttpBody;

    /// Whether the service is ready to accept a request; "not ready"
    /// registers for wake-up and suspends.
    fn poll_ready(&mut self, host: &mut Host, poller: &mut Poller, cx: &Waker) -> (r: Poll<()>)
        requires
            old(host).wf(),
            old(poller).wf_for(*old(host)),
        ensures
            final(host).wf(),
            old(host).grows_to(*final(host)),
            final(poller).wf_for(*final(host)),
            old(poller).entries@.len() <= final(poller).entries@.len(),
            final(host).in_requests@ == old(host).in_requests@,
            final(host).in_bodies@ == old(host).in_bodies@,
            final(host).outparams@ == old(host).outparams@,
    ;

    /// Produces the response for one request. The response's body must be
    /// ready to be copied out. The service leaves the out-parameter to the
    /// glue.
    fn call(&mut self, host: &mut Host, poller: &mut Poller, req: GuestRequest) -> (r: Result<
        GuestResponse<Self::ResponseBody>,
        Error,
    >)
        requires
            old(host).wf(),
            old(poller).wf_for(*old(host)),
        ensures
            final(host).wf(),
            old(host).grows_to(*final(host)),
            final(poller).wf_for(*final(host)),
            old(poller).entries@.len() <= final(poller).entries@.len(),
            final(host).outparams@ == old(host).outparams@,
            r matches Ok(resp) ==> resp.body.inv(*final(host), *final(poller))
                && !resp.body.data_done(),
    ;
}

/// A request the host just delivered: not yet consumed, its body and the
/// body's stream not yet handed out.
pub open spec fn fresh_request(host: Host, request: int) -> bool {
    &&& 0 <= request < host.in_requests.len()
    &&& !host.in_requests@[request].consumed
    &&& !host.in_bodies@[host.in_requests@[request].body as int].finished
    &&& !host.in_bodies@[host.in_requests@[request].body as int].stream_taken
}

/// Handles one request/response cycle.
///
/// The service is driven to readiness; the request is read through the
/// capability accessors and handed over; the response's status and headers
/// go out through the outgoing-response capability, its body through the
/// copier, to completion. The answer reaches the out-parameter exactly
/// once: the response on success, and where the service or the translation
/// fails while the out-parameter is still in hand, the failure's
/// description. `steps` bounds the reactor steps spent waiting.
pub fn handle_service_call<S: GuestService>(
    service: &mut S,
    request: usize,
    response_out: usize,
    host: &mut Host,
    poller: &mut Poller,
    steps: u64,
) -> (r: Result<(), Error>)
    requires
        old(host).wf(),
        old(poller).wf_for(*old(host)),
        fresh_request(*old(host), request as int),
        response_out < old(host).outparams.len(),
        old(host).outparams@[response_out as int].set_to is None,
    ensures
        final(host).wf(),
        old(host).grows_to(*final(host)),
        final(poller).wf_for(*final(host)),
        final(host).outparams@[response_out as int].set_to is Some,
        r is Ok ==> (final(host).outparams@[response_out as int].set_to matches Some(Ok(resp))
            && resp < final(host).out_responses.len() && final(host).out_bodies@[final(host).out_responses@[resp as int].body as int].finished is Some),
        r is Err ==> (final(host).outparams@[response_out as int].set_to matches Some(Err(_)) || (
        final(host).outparams@[response_out as int].set_to matches Some(Ok(resp)) && resp < final(host).out_responses.len())),
{
    let cx = crate::poll::noop_waker();
    // Drive the service's own readiness first.
    let mut left = steps;
    loop
        invariant
            host.wf(),
            poller.wf_for(*host),
            old(host).grows_to(*host),
            fresh_request(*host, request as int),
            response_out < host.outparams.len(),
            host.outparams@[response_out as int].set_to is None,
        decreases left,
    {
        match service.poll_ready(host, poller, &cx) {
            Poll::Ready(()) => {
                break ;
            },
            Poll::Pending => {
                if !poller.poll(host) {
                    ResponseOutparam::new(response_out).set_error(
                        host,
                        HostErrorCode::Other(Error::Stalled.describe()),
                    );
                    return Err(Error::Stalled);
                }
            },
        }
        if left == 0 {
            ResponseOutparam::new(response_out).set_error(
                host,
                HostErrorCode::Other(Error::Stalled.describe()),
            );
            return Err(Error::Stalled);
        }
        left = left - 1;
    }
    // Build the abstract request from the capability accessors.
    let incoming = match IncomingRequest::new(request, host) {
        Ok(q) => q,
        Err(e) => {
            ResponseOutparam::new(response_out).set_error(
                host,
                HostErrorCode::Other(e.describe()),
            );
            return Err(e);
        },
    };
    let method = incoming.method(host);
    let path_with_query = incoming.path_with_query(host);
    let scheme = incoming.scheme(host);
    let authority = incoming.authority(host);
    let headers = incoming.headers(host);
    let body = IncomingHttpBody::from_body(incoming.into_body());
    let req = GuestRequest { method, path_with_query, scheme, authority, headers, body };
    // Let the service produce its response.
    let resp = match service.call(host, poller, req) {
        Ok(resp) => resp,
        Err(e) => {
            ResponseOutparam::new(response_out).set_error(
                host,
                HostErrorCode::Other(e.describe()),
            );
            return Err(e);
        },
    };
    let ghost hc = *host;
    let ghost pc = *poller;
    // Translate status and headers through the outgoing-response capability.
    let mut outgoing = match OutgoingResponse::from_headers(&resp.headers, host) {
        Ok(o) => o,
        Err(e) => {
            ResponseOutparam::new(response_out).set_error(
                host,
                HostErrorCode::Other(e.describe()),
            );
            return Err(e);
        },
    };
    match outgoing.set_status_code(host, resp.status) {
        Ok(()) => (),
        Err(e) => {
            ResponseOutparam::new(response_out).set_error(
                host,
                HostErrorCode::Other(e.describe()),
            );
            return Err(e);
        },
    }
    // Deliver the response; its body remains to be copied.
    let ghost resp_idx = outgoing.response;
    let dest = ResponseOutparam::new(response_out).set_response(host, outgoing);
    let ghost dest_body = dest.body;
    proof {
        resp.body.preserved(hc, *host, pc, *poller);
        assert(dest.wf(*host, *poller));
        assert(host.out_responses@[resp_idx as int].body == dest_body);
        assert(host.outparams@[response_out as int].set_to == Some(
            Result::<usize, HostErrorCode>::Ok(resp_idx),
        ));
    }
    // Copy the body out, to completion.
    let copier = match WasiOutgoingBodyCopier::new(resp.body, dest) {
        Ok(c) => c,
        Err(e) => {
            return Err(e);
        },
    };
    let mut task = copier.copy_all();
    proof {
        assert(task.task_inv(*host, *poller));
    }
    match block_on(&mut task, host, poller, &cx, steps) {
        Ok(Ok(())) => {
            proof {
                assert(task.0.done(*host));
                assert(task.task_token() == dest_body as int);
                assert(host.out_bodies@[dest_body as int].finished is Some);
            }
            Ok(())
        },
        Ok(Err(e)) => Err(e),
        Err(_) => Err(Error::Stalled),
    }
}

} // verus!

verus! {

use crate::wasi::{IncomingResponse, OutgoingRequest};

/// Sends one outbound request: the request is dispatched, its body streamed
/// out to completion, and the response awaited.
///
/// The single-task trampoline runs the two halves in sequence — the body
/// goes out before the response is polled — rather than joined; a host that
/// answers only after consuming the whole request body is served either
/// way. `steps` bounds each half's reactor steps.
pub fn send_request<B: HttpBody>(
    request: OutgoingRequest,
    body: B,
    host: &mut Host,
    poller: &mut Poller,
    steps: u64,
) -> (r: Result<IncomingResponse, Error>)
    requires
        old(host).wf(),
        old(poller).wf_for(*old(host)),
        request.wf(*old(host), *old(poller)),
        body.inv(*old(host), *old(poller)),
        !body.data_done(),
    ensures
        final(host).wf(),
        old(host).grows_to(*final(host)),
        final(poller).wf_for(*final(host)),
        r matches Ok(q) ==> q.response < final(host).in_responses.len(),
{
    let cx = crate::poll::noop_waker();
    let ghost h0 = *host;
    let ghost p0 = *poller;
    let active = match request.send(host) {
        Ok(a) => a,
        Err(e) => {
            return Err(e);
        },
    };
    let (out_body, mut future_response) = active.into_parts();
    proof {
        body.preserved(h0, *host, p0, *poller);
    }
    let copier = match crate::outgoing::WasiOutgoingBodyCopier::new(body, out_body) {
        Ok(c) => c,
        Err(e) => {
            return Err(e);
        },
    };
    let mut task = copier.copy_all();
    match block_on(&mut task, host, poller, &cx, steps) {
        Ok(Ok(())) => (),
        Ok(Err(e)) => {
            return Err(e);
        },
        Err(_) => {
            return Err(Error::Stalled);
        },
    }
    match block_on(&mut future_response, host, poller, &cx, steps) {
        Ok(Ok(resp)) => Ok(resp),
        Ok(Err(e)) => Err(e),
        Err(_) => Err(Error::Stalled),
    }
}

} // verus!
