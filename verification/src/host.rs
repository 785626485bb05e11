//! Explicit model of the host's capability resources.
//!
//! The host side of the capability interface is kept as plain data: streams
//! hold the bytes the host has buffered, readiness is a predicate over that
//! data, and every operation states exactly how it changes the table. The
//! guest-facing wrappers in `wasi` call these operations; the embedding (or a
//! test) plays the host's part by constructing resources, buffering request
//! data and replenishing stream capacity.

use vstd::prelude::*;
use vstd::string::StringSliceAdditionalSpecFns;

verus! {

use crate::wasi::{Method, Scheme};

/// Failure code reported by the host for HTTP-level operations.
#[derive(Debug, PartialEq, Eq)]
pub enum HostErrorCode {
    /// The peer connection was torn down.
    ConnectionTerminated,
    /// Any other host failure, with its description.
    Other(String),
}

impl HostErrorCode {
    /// Description of this failure code.
    pub open spec fn message(self) -> Seq<char> {
        match self {
            HostErrorCode::ConnectionTerminated => "connection terminated"@,
            HostErrorCode::Other(msg) => msg@,
        }
    }

    /// Returns the description of this failure code.
    pub fn into_message(self) -> (r: String)
        ensures
            r@ == self.message(),
    {
        match self {
            HostErrorCode::ConnectionTerminated => "connection terminated".to_owned(),
            HostErrorCode::Other(msg) => msg,
        }
    }
}

impl Clone for HostErrorCode {
    fn clone(&self) -> (r: Self)
        ensures
            r == *self,
    {
        match self {
            HostErrorCode::ConnectionTerminated => HostErrorCode::ConnectionTerminated,
            HostErrorCode::Other(msg) => HostErrorCode::Other(msg.clone()),
        }
    }
}

/// Stream-level outcome: either the last operation failed, or the stream is
/// closed (end-of-data, not a failure).
#[derive(Debug, PartialEq, Eq)]
pub enum HostStreamError {
    LastOperationFailed(String),
    Closed,
}

/// One header entry: a field name and its raw byte value.
pub type FieldEntry = (String, Vec<u8>);

/// The mathematical content of a header list: (name, value) pairs in order.
pub open spec fn entries_view(v: Vec<FieldEntry>) -> Seq<(Seq<char>, Seq<u8>)> {
    v.deep_view()
}

/// Whether `b` is a `tchar`: the characters HTTP allows in field names and
/// method tokens.
pub open spec fn is_tchar(b: u8) -> bool {
    b == 33 || (35 <= b && b <= 39) || b == 42 || b == 43 || b == 45 || b == 46 || (48 <= b && b
        <= 57) || (65 <= b && b <= 90) || (94 <= b && b <= 122) || b == 124 || b == 126
}

/// A field name must be a nonempty token of `tchar`s.
pub open spec fn valid_field_name_bytes(s: Seq<u8>) -> bool {
    s.len() > 0 && forall|i: int| 0 <= i < s.len() ==> is_tchar(s[i])
}

/// Validity of a field name given as text: its UTF-8 encoding must be a token.
pub open spec fn valid_field_name(name: Seq<char>) -> bool {
    valid_field_name_bytes(vstd::utf8::encode_utf8(name))
}

/// Every name in a header list is a valid field name.
pub open spec fn all_names_valid(entries: Seq<(Seq<char>, Seq<u8>)>) -> bool {
    forall|i: int| 0 <= i < entries.len() ==> valid_field_name(#[trigger] entries[i].0)
}

/// Whether `s` is a valid URI scheme: a letter followed by letters, digits,
/// `+`, `-` or `.`.
pub open spec fn valid_scheme_bytes(s: Seq<u8>) -> bool {
    s.len() > 0 && ((65 <= s[0] && s[0] <= 90) || (97 <= s[0] && s[0] <= 122)) && forall|i: int|
        0 <= i < s.len() ==> is_scheme_char(#[trigger] s[i])
}

/// Characters allowed anywhere in a URI scheme.
pub open spec fn is_scheme_char(b: u8) -> bool {
    (65 <= b && b <= 90) || (97 <= b && b <= 122) || (48 <= b && b <= 57) || b == 43 || b == 45
        || b == 46
}

/// Checks that a name is a valid field name (also the syntax of a method
/// token).
pub fn check_field_name(name: &str) -> (r: bool)
    ensures
        r == valid_field_name(name@),
{
    let bytes = name.as_bytes();
    if bytes.len() == 0 {
        return false;
    }
    let mut i: usize = 0;
    while i < bytes.len()
        invariant
            i <= bytes.len(),
            bytes@ == name.spec_bytes(),
            forall|j: int| 0 <= j < i ==> is_tchar(bytes@[j]),
        decreases bytes.len() - i,
    {
        let b = bytes[i];
        let ok = b == 33 || (35 <= b && b <= 39) || b == 42 || b == 43 || b == 45 || b == 46 || (48
            <= b && b <= 57) || (65 <= b && b <= 90) || (94 <= b && b <= 122) || b == 124 || b
            == 126;
        if !ok {
            return false;
        }
        i = i + 1;
    }
    true
}

/// Checks that `s` is a valid URI scheme token.
pub fn check_scheme(s: &str) -> (r: bool)
    ensures
        r == valid_scheme_bytes(s.spec_bytes()),
{
    let bytes = s.as_bytes();
    if bytes.len() == 0 {
        return false;
    }
    let b0 = bytes[0];
    if !((65 <= b0 && b0 <= 90) || (97 <= b0 && b0 <= 122)) {
        return false;
    }
    let mut i: usize = 0;
    while i < bytes.len()
        invariant
            i <= bytes.len(),
            bytes@ == s.spec_bytes(),
            forall|j: int| 0 <= j < i ==> is_scheme_char(bytes@[j]),
        decreases bytes.len() - i,
    {
        let b = bytes[i];
        let ok = (65 <= b && b <= 90) || (97 <= b && b <= 122) || (48 <= b && b <= 57) || b == 43
            || b == 45 || b == 46;
        if !ok {
            return false;
        }
        i = i + 1;
    }
    true
}

/// Copies a header list; the copy has the same mathematical content.
pub fn clone_entries(v: &Vec<FieldEntry>) -> (r: Vec<FieldEntry>)
    ensures
        r.deep_view() == v.deep_view(),
{
    let mut r: Vec<FieldEntry> = Vec::new();
    let mut i: usize = 0;
    while i < v.len()
        invariant
            i <= v.len(),
            r.deep_view() =~= v.deep_view().take(i as int),
        decreases v.len() - i,
    {
        let name = v[i].0.clone();
        let value = v[i].1.clone();
        proof {
            assert(value@ =~= v@[i as int].1@);
            assert(value.deep_view() =~= value@);
            assert(v@[i as int].1.deep_view() =~= v@[i as int].1@);
            assert(name.deep_view() == v@[i as int].0.deep_view());
            assert((name, value).deep_view() == v@[i as int].deep_view());
        }
        let ghost e = (name, value);
        let ghost prev = r.deep_view();
        let ghost prevraw = r@;
        r.push((name, value));
        proof {
            assert(r@ == prevraw.push(e));
            assert(prev.len() == prevraw.len());
            assert(prev.len() == i);
            assert forall|k: int| 0 <= k < r@.len() implies r.deep_view()[k] == v.deep_view().take(
                (i + 1) as int,
            )[k] by {
                assert(r.deep_view()[k] == r@[k].deep_view());
                if k < i {
                    assert(prevraw.push(e)[k] == prevraw[k]);
                    assert(prevraw[k].deep_view() == prev[k]);
                    assert(prev[k] == v.deep_view()[k]);
                } else {
                    assert(prevraw.push(e)[k] == e);
                }
            }
            assert(r.deep_view() =~= v.deep_view().take((i + 1) as int));
        }
        i = i + 1;
    }
    proof {
        assert(v.deep_view().take(v.len() as int) =~= v.deep_view());
    }
    r
}

/// Host-buffered state of one incoming (readable) stream.
pub struct InStreamState {
    /// Data the host has ready for the guest, front first; chunks are
    /// nonempty.
    pub chunks: Vec<Vec<u8>>,
    /// The host will deliver no further data after `chunks` drains.
    pub closed: bool,
    /// A failure the host reports on every following operation.
    pub error: Option<String>,
}

/// Host-side state of one outgoing (writable) stream.
pub struct OutStreamState {
    /// Every byte the guest has successfully written, in order.
    pub written: Vec<u8>,
    /// Budget remaining before the host applies backpressure.
    pub capacity: u64,
    /// A failure the host reports on every following operation.
    pub error: Option<String>,
}

/// Host state of one pending trailer fetch.
pub struct TrailersState {
    /// `None` while the host has not produced an outcome yet.
    pub resolved: Option<Result<Option<Vec<FieldEntry>>, HostErrorCode>>,
    /// The outcome has been handed out; further fetches are invalid.
    pub consumed: bool,
}

/// Host state of one incoming body resource.
pub struct InBodyState {
    /// The readable stream carrying the body's data.
    pub stream: usize,
    /// The trailer fetch that becomes available once the body is finished.
    pub trailers: usize,
    /// The data stream has been handed out; a second request is invalid.
    pub stream_taken: bool,
    /// The body was finished and its trailer fetch handed out.
    pub finished: bool,
}

/// Host state of one outgoing body resource.
pub struct OutBodyState {
    /// The writable stream accepting the body's data.
    pub stream: usize,
    /// The write stream has been handed out; a second request is invalid.
    pub stream_taken: bool,
    /// `Some(t)` once the guest finished the body, with the trailers it sent.
    pub finished: Option<Option<Vec<FieldEntry>>>,
    /// A failure the host reports when the guest tries to finish the body.
    pub finish_error: Option<HostErrorCode>,
}

/// What a pollable handle points at.
pub enum PollTarget {
    InStream(usize),
    OutStream(usize),
    Trailers(usize),
    FutureResponse(usize),
}

/// Host state of one incoming request.
pub struct InRequestState {
    pub method: Method,
    pub path_with_query: Option<String>,
    pub scheme: Option<Scheme>,
    pub authority: Option<String>,
    pub headers: Vec<FieldEntry>,
    /// The incoming body resource carrying this request's payload.
    pub body: usize,
    /// The body has been handed out; a second request is invalid.
    pub consumed: bool,
}

/// Host state of one incoming response.
pub struct InResponseState {
    pub status: u16,
    pub headers: Vec<FieldEntry>,
    pub body: usize,
    pub consumed: bool,
}

/// Host state of one outgoing request under construction.
pub struct OutRequestState {
    pub method: Option<Method>,
    pub path_with_query: Option<String>,
    pub scheme: Option<Scheme>,
    pub authority: Option<String>,
    pub headers: Vec<FieldEntry>,
    pub body: usize,
    /// The body resource has been handed out.
    pub body_taken: bool,
    /// The request was dispatched to the outgoing handler.
    pub sent: bool,
}

/// Host state of one outgoing response under construction.
pub struct OutResponseState {
    pub status_code: u16,
    pub headers: Vec<FieldEntry>,
    pub body: usize,
    pub body_taken: bool,
}

/// Host state of one response out-parameter.
pub struct OutparamState {
    /// `Some` once the guest answered: a response resource, or an
    /// error code for the host to report.
    pub set_to: Option<Result<usize, HostErrorCode>>,
}

/// Host state of one pending response to a dispatched outgoing request.
pub struct FutureResponseState {
    /// `None` while the peer has not answered yet; `Some(Ok(r))` names an
    /// incoming response resource.
    pub resolved: Option<Result<usize, HostErrorCode>>,
    pub consumed: bool,
}

impl InStreamState {
    /// The stream's buffered bytes, chunk by chunk.
    pub open spec fn chunks_view(self) -> Seq<Seq<u8>> {
        self.chunks.deep_view()
    }

    /// The next read would make progress: data is buffered, the closed signal
    /// is pending, or a failure is pending.
    pub open spec fn is_ready(self) -> bool {
        self.chunks.len() > 0 || self.closed || self.error is Some
    }
}

impl OutStreamState {
    /// The next write permit request would make progress.
    pub open spec fn is_ready(self) -> bool {
        self.capacity > 0 || self.error is Some
    }
}

impl TrailersState {
    /// The trailer fetch would return an outcome now.
    pub open spec fn is_ready(self) -> bool {
        self.resolved is Some || self.consumed
    }
}

impl FutureResponseState {
    /// The response fetch would return an outcome now.
    pub open spec fn is_ready(self) -> bool {
        self.resolved is Some || self.consumed
    }
}

/// The host's resource table.
pub struct Host {
    /// Readiness handles the guest has subscribed; a handle is an index here.
    pub pollables: Vec<PollTarget>,
    pub in_streams: Vec<InStreamState>,
    pub out_streams: Vec<OutStreamState>,
    pub trailers: Vec<TrailersState>,
    pub in_bodies: Vec<InBodyState>,
    pub out_bodies: Vec<OutBodyState>,
    /// Immutable header lists the guest has materialised on the host.
    pub fields: Vec<Vec<FieldEntry>>,
    pub in_requests: Vec<InRequestState>,
    pub in_responses: Vec<InResponseState>,
    pub out_requests: Vec<OutRequestState>,
    pub out_responses: Vec<OutResponseState>,
    pub outparams: Vec<OutparamState>,
    pub future_responses: Vec<FutureResponseState>,
    /// The write budget the host grants a fresh writable stream.
    pub default_capacity: u64,
    /// A failure the outgoing handler reports on the next dispatch.
    pub handler_error: Option<HostErrorCode>,
    /// How many batched readiness queries the guest has issued.
    pub poll_calls: u64,
}

impl Host {
    /// Whether a pollable target names an existing resource.
    pub open spec fn target_ok(self, t: PollTarget) -> bool {
        match t {
            PollTarget::InStream(i) => i < self.in_streams.len(),
            PollTarget::OutStream(i) => i < self.out_streams.len(),
            PollTarget::Trailers(i) => i < self.trailers.len(),
            PollTarget::FutureResponse(i) => i < self.future_responses.len(),
        }
    }

    /// Every resource cross-reference in the table points at an existing
    /// resource.
    pub open spec fn wf(self) -> bool {
        (forall|p: int|
            0 <= p < self.pollables.len() ==> self.target_ok(#[trigger] self.pollables@[p]))
            && (forall|i: int|
            0 <= i < self.in_bodies.len() ==> (#[trigger] self.in_bodies@[i]).stream
                < self.in_streams.len() && self.in_bodies@[i].trailers < self.trailers.len())
            && (forall|i: int|
            0 <= i < self.out_bodies.len() ==> (#[trigger] self.out_bodies@[i]).stream
                < self.out_streams.len())
            && (forall|i: int|
            0 <= i < self.in_requests.len() ==> (#[trigger] self.in_requests@[i]).body
                < self.in_bodies.len())
            && (forall|i: int|
            0 <= i < self.in_responses.len() ==> (#[trigger] self.in_responses@[i]).body
                < self.in_bodies.len())
            && (forall|i: int|
            0 <= i < self.out_requests.len() ==> (#[trigger] self.out_requests@[i]).body
                < self.out_bodies.len())
            && (forall|i: int|
            0 <= i < self.out_responses.len() ==> (#[trigger] self.out_responses@[i]).body
                < self.out_bodies.len())
            && (forall|i: int|
            0 <= i < self.outparams.len() ==> ((#[trigger] self.outparams@[i]).set_to matches Some(
                Ok(r)) ==> r < self.out_responses.len()))
            && (forall|i: int|
            0 <= i < self.future_responses.len() ==> ((
            #[trigger] self.future_responses@[i]).resolved matches Some(Ok(r)) ==> r
                < self.in_responses.len()))
    }

    /// No table shrinks: resource handles stay valid across every operation.
    pub open spec fn grows_to(self, next: Host) -> bool {
        self.pollables.len() <= next.pollables.len() && self.in_streams.len()
            <= next.in_streams.len() && self.out_streams.len() <= next.out_streams.len()
            && self.trailers.len() <= next.trailers.len() && self.in_bodies.len()
            <= next.in_bodies.len() && self.out_bodies.len() <= next.out_bodies.len()
            && self.fields.len() <= next.fields.len() && self.in_requests.len()
            <= next.in_requests.len() && self.in_responses.len() <= next.in_responses.len()
            && self.out_requests.len() <= next.out_requests.len() && self.out_responses.len()
            <= next.out_responses.len() && self.outparams.len() <= next.outparams.len()
            && self.future_responses.len() <= next.future_responses.len()
    }

    /// Whether the resource a target names is ready.
    pub open spec fn target_ready(self, t: PollTarget) -> bool
        recommends
            self.target_ok(t),
    {
        match t {
            PollTarget::InStream(i) => self.in_streams@[i as int].is_ready(),
            PollTarget::OutStream(i) => self.out_streams@[i as int].is_ready(),
            PollTarget::Trailers(i) => self.trailers@[i as int].is_ready(),
            PollTarget::FutureResponse(i) => self.future_responses@[i as int].is_ready(),
        }
    }

    /// Whether the resource behind pollable `p` is ready.
    pub open spec fn ready_at(self, p: int) -> bool
        recommends
            0 <= p < self.pollables.len(),
            self.wf(),
    {
        match self.pollables@[p] {
            PollTarget::InStream(i) => self.in_streams@[i as int].is_ready(),
            PollTarget::OutStream(i) => self.out_streams@[i as int].is_ready(),
            PollTarget::Trailers(i) => self.trailers@[i as int].is_ready(),
            PollTarget::FutureResponse(i) => self.future_responses@[i as int].is_ready(),
        }
    }

    /// An empty host table.
    pub fn new() -> (r: Host)
        ensures
            r.wf(),
            r.pollables.len() == 0,
            r.in_streams.len() == 0,
            r.out_streams.len() == 0,
            r.trailers.len() == 0,
            r.in_bodies.len() == 0,
            r.out_bodies.len() == 0,
            r.fields.len() == 0,
            r.in_requests.len() == 0,
            r.in_responses.len() == 0,
            r.out_requests.len() == 0,
            r.out_responses.len() == 0,
            r.outparams.len() == 0,
            r.future_responses.len() == 0,
            r.default_capacity == 0,
            r.handler_error is None,
            r.poll_calls == 0,
    {
        Host {
            pollables: Vec::new(),
            in_streams: Vec::new(),
            out_streams: Vec::new(),
            trailers: Vec::new(),
            in_bodies: Vec::new(),
            out_bodies: Vec::new(),
            fields: Vec::new(),
            in_requests: Vec::new(),
            in_responses: Vec::new(),
            out_requests: Vec::new(),
            out_responses: Vec::new(),
            outparams: Vec::new(),
            future_responses: Vec::new(),
            default_capacity: 0,
            handler_error: None,
            poll_calls: 0,
        }
    }

    /// Registers interest in a resource: creates a fresh readiness handle for
    /// it.
    pub fn subscribe(&mut self, t: PollTarget) -> (p: usize)
        requires
            old(self).wf(),
            old(self).target_ok(t),
        ensures
            final(self).wf(),
            old(self).grows_to(*final(self)),
            p == old(self).pollables.len(),
            final(self).pollables@ == old(self).pollables@.push(t),
            final(self).ready_at(p as int) == old(self).target_ready(t),
            *final(self) == (Host { pollables: final(self).pollables, ..*old(self) }),
    {
        let p = self.pollables.len();
        self.pollables.push(t);
        p
    }

    /// Whether the resource behind one readiness handle is ready.
    pub fn pollable_ready(&self, p: usize) -> (r: bool)
        requires
            self.wf(),
            p < self.pollables.len(),
        ensures
            r == self.ready_at(p as int),
    {
        match self.pollables[p] {
            PollTarget::InStream(i) => {
                let s = &self.in_streams[i];
                s.chunks.len() > 0 || s.closed || s.error.is_some()
            },
            PollTarget::OutStream(i) => {
                let s = &self.out_streams[i];
                s.capacity > 0 || s.error.is_some()
            },
            PollTarget::Trailers(i) => {
                let t = &self.trailers[i];
                t.resolved.is_some() || t.consumed
            },
            PollTarget::FutureResponse(i) => {
                let f = &self.future_responses[i];
                f.resolved.is_some() || f.consumed
            },
        }
    }

    /// The batched readiness query: one host round-trip answering, for each
    /// handle, whether its resource is ready.
    pub fn poll_ready(&mut self, handles: &Vec<usize>) -> (r: Vec<bool>)
        requires
            old(self).wf(),
            forall|j: int| 0 <= j < handles.len() ==> #[trigger] handles@[j]
                < old(self).pollables.len(),
        ensures
            final(self).wf(),
            old(self).grows_to(*final(self)),
            r.len() == handles.len(),
            forall|j: int| 0 <= j < handles.len() ==> r@[j] == old(self).ready_at(
                #[trigger] handles@[j] as int),
            final(self).poll_calls == if old(self).poll_calls == u64::MAX {
                u64::MAX
            } else {
                (old(self).poll_calls + 1) as u64
            },
            *final(self) == (Host { poll_calls: final(self).poll_calls, ..*old(self) }),
    {
        if self.poll_calls < u64::MAX {
            self.poll_calls = self.poll_calls + 1;
        }
        let mut r: Vec<bool> = Vec::new();
        let mut j: usize = 0;
        while j < handles.len()
            invariant
                j <= handles.len(),
                r.len() == j,
                self.wf(),
                forall|k: int| 0 <= k < handles.len() ==> #[trigger] handles@[k]
                    < self.pollables.len(),
                forall|k: int| 0 <= k < j ==> r@[k] == self.ready_at(#[trigger] handles@[k] as int),
            decreases handles.len() - j,
        {
            let p = handles[j];
            r.push(self.pollable_ready(p));
            j = j + 1;
        }
        r
    }

    /// Host side: creates a readable stream with nothing buffered yet.
    pub fn new_in_stream(&mut self) -> (h: usize)
        requires
            old(self).wf(),
        ensures
            final(self).wf(),
            old(self).grows_to(*final(self)),
            h == old(self).in_streams.len(),
            final(self).in_streams.len() == old(self).in_streams.len() + 1,
            final(self).in_streams@ == old(self).in_streams@.push(final(self).in_streams@[h as int]),
            final(self).in_streams@[h as int].chunks_view() == Seq::<Seq<u8>>::empty(),
            !final(self).in_streams@[h as int].closed,
            final(self).in_streams@[h as int].error is None,
            *final(self) == (Host { in_streams: final(self).in_streams, ..*old(self) }),
    {
        let h = self.in_streams.len();
        self.in_streams.push(InStreamState { chunks: Vec::new(), closed: false, error: None });
        proof {
            assert(self.in_streams@[h as int].chunks_view() =~= Seq::<Seq<u8>>::empty());
        }
        h
    }

    /// Host side: creates a writable stream with no budget yet.
    pub fn new_out_stream(&mut self) -> (h: usize)
        requires
            old(self).wf(),
        ensures
            final(self).wf(),
            old(self).grows_to(*final(self)),
            h == old(self).out_streams.len(),
            final(self).out_streams@ == old(self).out_streams@.push(
                (OutStreamState {
                    written: final(self).out_streams@[h as int].written,
                    capacity: old(self).default_capacity,
                    error: None,
                }),
            ),
            final(self).out_streams@[h as int].written@ == Seq::<u8>::empty(),
            *final(self) == (Host { out_streams: final(self).out_streams, ..*old(self) }),
    {
        let h = self.out_streams.len();
        let cap = self.default_capacity;
        self.out_streams.push(OutStreamState { written: Vec::new(), capacity: cap, error: None });
        h
    }

    /// Host side: buffers one more (nonempty) chunk on a readable stream.
    pub fn push_chunk(&mut self, i: usize, data: Vec<u8>)
        requires
            old(self).wf(),
            i < old(self).in_streams.len(),
            data@.len() > 0,
        ensures
            final(self).wf(),
            old(self).grows_to(*final(self)),
            final(self).in_streams@ == old(self).in_streams@.update(
                i as int,
                final(self).in_streams@[i as int],
            ),
            final(self).in_streams@[i as int].chunks_view()
                == old(self).in_streams@[i as int].chunks_view().push(data@),
            final(self).in_streams@[i as int].closed == old(self).in_streams@[i as int].closed,
            final(self).in_streams@[i as int].error == old(self).in_streams@[i as int].error,
            *final(self) == (Host { in_streams: final(self).in_streams, ..*old(self) }),
    {
        let ghost prev = self.in_streams@[i as int].chunks.deep_view();
        let ghost d = data@;
        self.in_streams[i].chunks.push(data);
        proof {
            assert(self.in_streams@[i as int].chunks@.last().deep_view() == d);
            assert(self.in_streams@[i as int].chunks_view() =~= prev.push(d));
        }
    }

    /// Host side: marks a readable stream as delivering no further data.
    pub fn close_in_stream(&mut self, i: usize)
        requires
            old(self).wf(),
            i < old(self).in_streams.len(),
        ensures
            final(self).wf(),
            old(self).grows_to(*final(self)),
            final(self).in_streams@ == old(self).in_streams@.update(
                i as int,
                (InStreamState {
                    closed: true,
                    ..old(self).in_streams@[i as int]
                }),
            ),
            *final(self) == (Host { in_streams: final(self).in_streams, ..*old(self) }),
    {
        self.in_streams[i].closed = true;
    }

    /// Host side: makes a readable stream fail its following operations.
    pub fn fail_in_stream(&mut self, i: usize, msg: String)
        requires
            old(self).wf(),
            i < old(self).in_streams.len(),
        ensures
            final(self).wf(),
            old(self).grows_to(*final(self)),
            final(self).in_streams@ == old(self).in_streams@.update(
                i as int,
                (InStreamState {
                    error: Some(msg),
                    ..old(self).in_streams@[i as int]
                }),
            ),
            *final(self) == (Host { in_streams: final(self).in_streams, ..*old(self) }),
    {
        self.in_streams[i].error = Some(msg);
    }

    /// Host side: grants a writable stream more budget.
    pub fn add_write_capacity(&mut self, i: usize, n: u64)
        requires
            old(self).wf(),
            i < old(self).out_streams.len(),
            old(self).out_streams@[i as int].capacity + n <= u64::MAX,
        ensures
            final(self).wf(),
            old(self).grows_to(*final(self)),
            final(self).out_streams@ == old(self).out_streams@.update(
                i as int,
                (OutStreamState {
                    capacity: (old(self).out_streams@[i as int].capacity + n) as u64,
                    ..old(self).out_streams@[i as int]
                }),
            ),
            *final(self) == (Host { out_streams: final(self).out_streams, ..*old(self) }),
    {
        let cur = self.out_streams[i].capacity;
        self.out_streams[i].capacity = cur + n;
    }

    /// Host side: makes a writable stream fail its following operations.
    pub fn fail_out_stream(&mut self, i: usize, msg: String)
        requires
            old(self).wf(),
            i < old(self).out_streams.len(),
        ensures
            final(self).wf(),
            old(self).grows_to(*final(self)),
            final(self).out_streams@ == old(self).out_streams@.update(
                i as int,
                (OutStreamState {
                    error: Some(msg),
                    ..old(self).out_streams@[i as int]
                }),
            ),
            *final(self) == (Host { out_streams: final(self).out_streams, ..*old(self) }),
    {
        self.out_streams[i].error = Some(msg);
    }

    /// Non-blocking read of up to `len` bytes.
    ///
    /// A pending failure is reported first; otherwise the front of the
    /// buffered data is returned, an empty result meaning "nothing available
    /// yet", and a drained, closed stream reports `Closed`.
    pub fn stream_read(&mut self, i: usize, len: u64) -> (r: Result<Vec<u8>, HostStreamError>)
        requires
            old(self).wf(),
            i < old(self).in_streams.len(),
        ensures
            final(self).wf(),
            old(self).grows_to(*final(self)),
            *final(self) == (Host { in_streams: final(self).in_streams, ..*old(self) }),
            final(self).in_streams@ == old(self).in_streams@.update(
                i as int,
                final(self).in_streams@[i as int],
            ),
            final(self).in_streams@[i as int].closed == old(self).in_streams@[i as int].closed,
            final(self).in_streams@[i as int].error == old(self).in_streams@[i as int].error,
            ({
                let s = old(self).in_streams@[i as int];
                let s2 = final(self).in_streams@[i as int];
                if s.error is Some {
                    r == Result::<Vec<u8>, HostStreamError>::Err(HostStreamError::LastOperationFailed(s.error->0))
                        && s2.chunks_view() == s.chunks_view()
                } else if s.chunks_view().len() > 0 {
                    let c = s.chunks_view()[0];
                    r matches Ok(d) && d@ == c.take(min_nat(c.len(), len as nat) as int) && (
                    if c.len() <= len {
                        s2.chunks_view() == s.chunks_view().drop_first()
                    } else {
                        s2.chunks_view() == s.chunks_view().update(0, c.skip(len as int))
                    })
                } else if s.closed {
                    r == Result::<Vec<u8>, HostStreamError>::Err(HostStreamError::Closed)
                        && s2.chunks_view() == s.chunks_view()
                } else {
                    r matches Ok(d) && d@ == Seq::<u8>::empty() && s2.chunks_view()
                        == s.chunks_view()
                }
            }),
    {
        let ghost oldchunks = self.in_streams@[i as int].chunks_view();
        if let Some(m) = &self.in_streams[i].error {
            return Err(HostStreamError::LastOperationFailed(m.clone()));
        }
        if self.in_streams[i].chunks.len() > 0 {
            let mut c = self.in_streams[i].chunks.remove(0);
            proof {
                assert(self.in_streams@[i as int].chunks_view() =~= oldchunks.drop_first());
                assert(c.deep_view() == oldchunks[0]);
            }
            if (c.len() as u64) <= len {
                proof {
                    assert(c@ =~= oldchunks[0].take(min_nat(oldchunks[0].len(), len as nat) as int));
                }
                return Ok(c);
            }
            // The front chunk is larger than the request: split it.
            let cut = len as usize;
            let rest = c.split_off(cut);
            self.in_streams[i].chunks.insert(0, rest);
            proof {
                assert(c@ =~= oldchunks[0].take(min_nat(oldchunks[0].len(), len as nat) as int));
                assert(self.in_streams@[i as int].chunks@[0].deep_view() == oldchunks[0].skip(
                    len as int,
                ));
                assert(self.in_streams@[i as int].chunks_view() =~= oldchunks.update(
                    0,
                    oldchunks[0].skip(len as int),
                ));
            }
            return Ok(c);
        }
        if self.in_streams[i].closed {
            return Err(HostStreamError::Closed);
        }
        Ok(Vec::new())
    }

    /// Reports the stream's current write budget, or a pending failure.
    pub fn stream_check_write(&mut self, i: usize) -> (r: Result<u64, HostStreamError>)
        requires
            old(self).wf(),
            i < old(self).out_streams.len(),
        ensures
            final(self).wf(),
            *final(self) == *old(self),
            ({
                let s = old(self).out_streams@[i as int];
                if s.error is Some {
                    r == Result::<u64, HostStreamError>::Err(HostStreamError::LastOperationFailed(s.error->0))
                } else {
                    r == Result::<u64, HostStreamError>::Ok(s.capacity)
                }
            }),
    {
        if let Some(m) = &self.out_streams[i].error {
            return Err(HostStreamError::LastOperationFailed(m.clone()));
        }
        Ok(self.out_streams[i].capacity)
    }

    /// Accepts `contents` on a writable stream; the caller must stay within
    /// the budget last reported by `stream_check_write`.
    pub fn stream_write(&mut self, i: usize, contents: &[u8]) -> (r: Result<
        (),
        HostStreamError,
    >)
        requires
            old(self).wf(),
            i < old(self).out_streams.len(),
            contents@.len() <= old(self).out_streams@[i as int].capacity,
        ensures
            final(self).wf(),
            old(self).grows_to(*final(self)),
            *final(self) == (Host { out_streams: final(self).out_streams, ..*old(self) }),
            ({
                let s = old(self).out_streams@[i as int];
                if s.error is Some {
                    r == Result::<(), HostStreamError>::Err(HostStreamError::LastOperationFailed(s.error->0))
                        && final(self).out_streams@ == old(self).out_streams@
                } else {
                    r == Result::<(), HostStreamError>::Ok(()) && final(self).out_streams@
                        == old(self).out_streams@.update(
                        i as int,
                        (OutStreamState {
                            written: final(self).out_streams@[i as int].written,
                            capacity: (s.capacity - contents@.len()) as u64,
                            error: None,
                        }),
                    ) && final(self).out_streams@[i as int].written@ == s.written@ + contents@
                }
            }),
    {
        if let Some(m) = &self.out_streams[i].error {
            return Err(HostStreamError::LastOperationFailed(m.clone()));
        }
        let ghost oldwritten = self.out_streams@[i as int].written@;
        let cap = self.out_streams[i].capacity;
        self.out_streams[i].written.extend_from_slice(contents);
        self.out_streams[i].capacity = cap - contents.len() as u64;
        proof {
            assert(self.out_streams@[i as int].written@ =~= oldwritten + contents@);
        }
        Ok(())
    }

    /// Flushes a writable stream; in this model writes land immediately, so
    /// only a pending failure is reported.
    pub fn stream_flush(&mut self, i: usize) -> (r: Result<(), HostStreamError>)
        requires
            old(self).wf(),
            i < old(self).out_streams.len(),
        ensures
            final(self).wf(),
            *final(self) == *old(self),
            ({
                let s = old(self).out_streams@[i as int];
                if s.error is Some {
                    r == Result::<(), HostStreamError>::Err(HostStreamError::LastOperationFailed(s.error->0))
                } else {
                    r == Result::<(), HostStreamError>::Ok(())
                }
            }),
    {
        if let Some(m) = &self.out_streams[i].error {
            return Err(HostStreamError::LastOperationFailed(m.clone()));
        }
        Ok(())
    }

    /// Moves up to `len` bytes from a readable stream to a writable one,
    /// bounded by the front chunk and the write budget.
    pub fn stream_splice(&mut self, oi: usize, ii: usize, len: u64) -> (r: Result<
        u64,
        HostStreamError,
    >)
        requires
            old(self).wf(),
            oi < old(self).out_streams.len(),
            ii < old(self).in_streams.len(),
        ensures
            final(self).wf(),
            old(self).grows_to(*final(self)),
            *final(self) == (Host {
                out_streams: final(self).out_streams,
                in_streams: final(self).in_streams,
                ..*old(self)
            }),
            ({
                let os = old(self).out_streams@[oi as int];
                let is_ = old(self).in_streams@[ii as int];
                if os.error is Some {
                    r == Result::<u64, HostStreamError>::Err(HostStreamError::LastOperationFailed(os.error->0))
                        && *final(self) == *old(self)
                } else if is_.error is Some {
                    r == Result::<u64, HostStreamError>::Err(HostStreamError::LastOperationFailed(is_.error->0))
                        && *final(self) == *old(self)
                } else if is_.chunks_view().len() == 0 {
                    (if is_.closed {
                        r == Result::<u64, HostStreamError>::Err(HostStreamError::Closed)
                    } else {
                        r == Result::<u64, HostStreamError>::Ok(0u64)
                    }) && *final(self) == *old(self)
                } else {
                    let c = is_.chunks_view()[0];
                    let n = min_nat(min_nat(c.len(), len as nat), os.capacity as nat);
                    r == Result::<u64, HostStreamError>::Ok(n as u64) && final(self).out_streams@[oi as int].written@ == os.written@ + c.take(n as int) && final(self).out_streams@[oi as int].capacity == os.capacity - n && (if n == c.len() {
                        final(self).in_streams@[ii as int].chunks_view() == is_.chunks_view().drop_first()
                    } else {
                        final(self).in_streams@[ii as int].chunks_view() == is_.chunks_view().update(0, c.skip(n as int))
                    }) && final(self).out_streams@ == old(self).out_streams@.update(
                        oi as int,
                        final(self).out_streams@[oi as int],
                    ) && final(self).in_streams@ == old(self).in_streams@.update(
                        ii as int,
                        final(self).in_streams@[ii as int],
                    ) && final(self).in_streams@[ii as int].closed == is_.closed && final(self).in_streams@[ii as int].error is None && final(self).out_streams@[oi as int].error is None
                }
            }),
    {
        if let Some(m) = &self.out_streams[oi].error {
            return Err(HostStreamError::LastOperationFailed(m.clone()));
        }
        if let Some(m) = &self.in_streams[ii].error {
            return Err(HostStreamError::LastOperationFailed(m.clone()));
        }
        if self.in_streams[ii].chunks.len() == 0 {
            if self.in_streams[ii].closed {
                return Err(HostStreamError::Closed);
            }
            return Ok(0);
        }
        let ghost oldchunks = self.in_streams@[ii as int].chunks_view();
        let ghost oldwritten = self.out_streams@[oi as int].written@;
        let cap = self.out_streams[oi].capacity;
        let mut c = self.in_streams[ii].chunks.remove(0);
        proof {
            assert(c.deep_view() == oldchunks[0]);
            assert(self.in_streams@[ii as int].chunks_view() =~= oldchunks.drop_first());
        }
        let clen = c.len() as u64;
        let n64 = if clen < len {
            clen
        } else {
            len
        };
        let n64 = if n64 < cap {
            n64
        } else {
            cap
        };
        let n = n64 as usize;
        if n < c.len() {
            let rest = c.split_off(n);
            self.in_streams[ii].chunks.insert(0, rest);
            proof {
                assert(self.in_streams@[ii as int].chunks@[0].deep_view() == oldchunks[0].skip(
                    n as int,
                ));
                assert(self.in_streams@[ii as int].chunks_view() =~= oldchunks.update(
                    0,
                    oldchunks[0].skip(n as int),
                ));
            }
        }
        self.out_streams[oi].written.extend_from_slice(c.as_slice());
        self.out_streams[oi].capacity = cap - n64;
        proof {
            assert(c@ =~= oldchunks[0].take(
                min_nat(min_nat(oldchunks[0].len(), len as nat), cap as nat) as int,
            ));
            assert(self.out_streams@[oi as int].written@ =~= oldwritten + c@);
        }
        Ok(n64)
    }
}

/// The smaller of two lengths.
pub open spec fn min_nat(a: nat, b: nat) -> nat {
    if a <= b {
        a
    } else {
        b
    }
}

} // verus!

verus! {

impl Host {
    /// Host side: creates a pending trailer fetch with no outcome yet.
    pub fn new_trailers(&mut self) -> (h: usize)
        requires
            old(self).wf(),
        ensures
            final(self).wf(),
            old(self).grows_to(*final(self)),
            h == old(self).trailers.len(),
            final(self).trailers@ == old(self).trailers@.push(
                (TrailersState { resolved: None, consumed: false }),
            ),
            *final(self) == (Host { trailers: final(self).trailers, ..*old(self) }),
    {
        let h = self.trailers.len();
        self.trailers.push(TrailersState { resolved: None, consumed: false });
        h
    }

    /// Host side: delivers the outcome of a pending trailer fetch.
    pub fn resolve_trailers(
        &mut self,
        t: usize,
        outcome: Result<Option<Vec<FieldEntry>>, HostErrorCode>,
    )
        requires
            old(self).wf(),
            t < old(self).trailers.len(),
            old(self).trailers@[t as int].resolved is None,
            !old(self).trailers@[t as int].consumed,
        ensures
            final(self).wf(),
            old(self).grows_to(*final(self)),
            final(self).trailers@ == old(self).trailers@.update(
                t as int,
                (TrailersState { resolved: Some(outcome), consumed: false }),
            ),
            *final(self) == (Host { trailers: final(self).trailers, ..*old(self) }),
    {
        self.trailers[t].resolved = Some(outcome);
    }

    /// Polls a trailer fetch: `None` while pending; the outcome exactly once;
    /// afterwards the "already consumed" error.
    pub fn trailers_get(&mut self, t: usize) -> (r: Option<
        Result<Result<Option<Vec<FieldEntry>>, HostErrorCode>, ()>,
    >)
        requires
            old(self).wf(),
            t < old(self).trailers.len(),
        ensures
            final(self).wf(),
            old(self).grows_to(*final(self)),
            *final(self) == (Host { trailers: final(self).trailers, ..*old(self) }),
            ({
                let s = old(self).trailers@[t as int];
                if s.consumed {
                    r == Some(Result::<Result<Option<Vec<FieldEntry>>, HostErrorCode>, ()>::Err(()))
                        && final(self).trailers@ == old(self).trailers@
                } else if s.resolved is Some {
                    r == Some(Result::<Result<Option<Vec<FieldEntry>>, HostErrorCode>, ()>::Ok(
                        s.resolved->0,
                    )) && final(self).trailers@ == old(self).trailers@.update(
                        t as int,
                        (TrailersState { resolved: None, consumed: true }),
                    )
                } else {
                    r is None && final(self).trailers@ == old(self).trailers@
                }
            }),
    {
        if self.trailers[t].consumed {
            return Some(Err(()));
        }
        match self.trailers[t].resolved.take() {
            Some(out) => {
                self.trailers[t].consumed = true;
                Some(Ok(out))
            },
            None => None,
        }
    }

    /// Host side: creates an incoming body with its data stream and its
    /// trailer fetch.
    pub fn new_in_body(&mut self) -> (h: usize)
        requires
            old(self).wf(),
        ensures
            final(self).wf(),
            old(self).grows_to(*final(self)),
            h == old(self).in_bodies.len(),
            final(self).in_bodies@ == old(self).in_bodies@.push(
                (InBodyState {
                    stream: old(self).in_streams.len(),
                    trailers: old(self).trailers.len(),
                    stream_taken: false,
                    finished: false,
                }),
            ),
            final(self).in_streams@ == old(self).in_streams@.push(
                final(self).in_streams@[old(self).in_streams.len() as int],
            ),
            final(self).in_streams@[old(self).in_streams.len() as int].chunks_view() == Seq::<
                Seq<u8>,
            >::empty(),
            !final(self).in_streams@[old(self).in_streams.len() as int].closed,
            final(self).in_streams@[old(self).in_streams.len() as int].error is None,
            final(self).trailers@ == old(self).trailers@.push(
                (TrailersState { resolved: None, consumed: false }),
            ),
            *final(self) == (Host {
                in_streams: final(self).in_streams,
                trailers: final(self).trailers,
                in_bodies: final(self).in_bodies,
                ..*old(self)
            }),
    {
        let s = self.new_in_stream();
        let t = self.new_trailers();
        let h = self.in_bodies.len();
        self.in_bodies.push(
            InBodyState { stream: s, trailers: t, stream_taken: false, finished: false },
        );
        h
    }

    /// Hands out the body's data stream; valid only once, and never after
    /// the body was finished.
    pub fn body_stream(&mut self, b: usize) -> (r: Result<usize, ()>)
        requires
            old(self).wf(),
            b < old(self).in_bodies.len(),
        ensures
            final(self).wf(),
            old(self).grows_to(*final(self)),
            *final(self) == (Host { in_bodies: final(self).in_bodies, ..*old(self) }),
            ({
                let s = old(self).in_bodies@[b as int];
                if s.stream_taken || s.finished {
                    r == Result::<usize, ()>::Err(()) && *final(self) == *old(self)
                } else {
                    r == Result::<usize, ()>::Ok(s.stream) && final(self).in_bodies@ == old(self).in_bodies@.update(b as int, (InBodyState { stream_taken: true, ..s }))
                }
            }),
    {
        if self.in_bodies[b].stream_taken || self.in_bodies[b].finished {
            return Err(());
        }
        self.in_bodies[b].stream_taken = true;
        Ok(self.in_bodies[b].stream)
    }

    /// Finishes an incoming body, handing out its trailer fetch; the caller
    /// owns the body and finishes it at most once.
    pub fn body_finish(&mut self, b: usize) -> (r: usize)
        requires
            old(self).wf(),
            b < old(self).in_bodies.len(),
            !old(self).in_bodies@[b as int].finished,
        ensures
            final(self).wf(),
            old(self).grows_to(*final(self)),
            *final(self) == (Host { in_bodies: final(self).in_bodies, ..*old(self) }),
            r == old(self).in_bodies@[b as int].trailers,
            r < old(self).trailers.len(),
            final(self).in_bodies@ == old(self).in_bodies@.update(
                b as int,
                (InBodyState { finished: true, ..old(self).in_bodies@[b as int] }),
            ),
    {
        self.in_bodies[b].finished = true;
        self.in_bodies[b].trailers
    }

    /// Materialises a header list on the host; rejects invalid field names.
    pub fn fields_from_list(&mut self, entries: &Vec<FieldEntry>) -> (r: Result<usize, ()>)
        requires
            old(self).wf(),
        ensures
            final(self).wf(),
            old(self).grows_to(*final(self)),
            *final(self) == (Host { fields: final(self).fields, ..*old(self) }),
            r is Ok <==> all_names_valid(entries.deep_view()),
            r matches Ok(h) ==> h == old(self).fields.len() && final(self).fields.deep_view()
                == old(self).fields.deep_view().push(entries.deep_view()),
            r is Err ==> final(self).fields@ == old(self).fields@,
    {
        let mut i: usize = 0;
        while i < entries.len()
            invariant
                i <= entries.len(),
                *self == *old(self),
                old(self).wf(),
                forall|j: int| 0 <= j < i ==> valid_field_name(
                    #[trigger] entries.deep_view()[j].0,
                ),
            decreases entries.len() - i,
        {
            let ok = check_field_name(entries[i].0.as_str());
            proof {
                assert(entries.deep_view()[i as int].0 == entries@[i as int].0@);
            }
            if !ok {
                proof {
                    assert(!valid_field_name(entries.deep_view()[i as int].0));
                }
                return Err(());
            }
            i = i + 1;
        }
        let h = self.fields.len();
        let ghost prevraw = self.fields@;
        let ghost prev = self.fields.deep_view();
        let copy = clone_entries(entries);
        let ghost e = copy;
        self.fields.push(copy);
        proof {
            assert(self.fields@ == prevraw.push(e));
            assert(prev.len() == prevraw.len());
            assert forall|k: int| 0 <= k < self.fields@.len() implies self.fields.deep_view()[k]
                == prev.push(entries.deep_view())[k] by {
                assert(self.fields.deep_view()[k] == self.fields@[k].deep_view());
                if k < prevraw.len() {
                    assert(prevraw.push(e)[k] == prevraw[k]);
                    assert(prevraw[k].deep_view() == prev[k]);
                } else {
                    assert(prevraw.push(e)[k] == e);
                }
            }
            assert(self.fields.deep_view() =~= prev.push(entries.deep_view()));
        }
        Ok(h)
    }

    /// Reads a materialised header list back, entry for entry.
    pub fn fields_entries(&self, h: usize) -> (r: Vec<FieldEntry>)
        requires
            self.wf(),
            h < self.fields.len(),
        ensures
            r.deep_view() == self.fields@[h as int].deep_view(),
    {
        clone_entries(&self.fields[h])
    }
}

} // verus!

verus! {

/// A method value the host accepts: any standard method, or another token
/// made of `tchar`s.
pub open spec fn method_token_ok(m: Method) -> bool {
    match m {
        Method::Other(s) => valid_field_name(s@),
        _ => true,
    }
}

/// A scheme value the host accepts: `http`, `https`, or another token that
/// follows the URI scheme syntax.
pub open spec fn scheme_token_ok(s: Scheme) -> bool {
    match s {
        Scheme::Other(t) => valid_scheme_bytes(vstd::utf8::encode_utf8(t@)),
        _ => true,
    }
}

impl Host {
    /// Host side: creates an incoming request carrying the given start line
    /// data and headers, with a fresh body whose stream the host will feed.
    pub fn new_incoming_request(
        &mut self,
        method: Method,
        path_with_query: Option<String>,
        scheme: Option<Scheme>,
        authority: Option<String>,
        headers: Vec<FieldEntry>,
    ) -> (h: usize)
        requires
            old(self).wf(),
        ensures
            final(self).wf(),
            old(self).grows_to(*final(self)),
            h == old(self).in_requests.len(),
            final(self).in_requests@ == old(self).in_requests@.push(
                (InRequestState {
                    method: method,
                    path_with_query: path_with_query,
                    scheme: scheme,
                    authority: authority,
                    headers: headers,
                    body: old(self).in_bodies.len(),
                    consumed: false,
                }),
            ),
            final(self).in_bodies@ == old(self).in_bodies@.push(
                (InBodyState {
                    stream: old(self).in_streams.len(),
                    trailers: old(self).trailers.len(),
                    stream_taken: false,
                    finished: false,
                }),
            ),
            final(self).in_streams@ == old(self).in_streams@.push(
                final(self).in_streams@[old(self).in_streams.len() as int],
            ),
            final(self).in_streams@[old(self).in_streams.len() as int].chunks_view() == Seq::<
                Seq<u8>,
            >::empty(),
            !final(self).in_streams@[old(self).in_streams.len() as int].closed,
            final(self).in_streams@[old(self).in_streams.len() as int].error is None,
            final(self).trailers@ == old(self).trailers@.push(
                (TrailersState { resolved: None, consumed: false }),
            ),
            *final(self) == (Host {
                in_streams: final(self).in_streams,
                trailers: final(self).trailers,
                in_bodies: final(self).in_bodies,
                in_requests: final(self).in_requests,
                ..*old(self)
            }),
    {
        let b = self.new_in_body();
        let h = self.in_requests.len();
        self.in_requests.push(
            InRequestState {
                method,
                path_with_query,
                scheme,
                authority,
                headers,
                body: b,
                consumed: false,
            },
        );
        h
    }

    /// The request's method.
    pub fn request_method(&self, r: usize) -> (m: Method)
        requires
            self.wf(),
            r < self.in_requests.len(),
        ensures
            m == self.in_requests@[r as int].method,
    {
        self.in_requests[r].method.clone()
    }

    /// The request's path and query, if the peer sent one.
    pub fn request_path_with_query(&self, r: usize) -> (p: Option<String>)
        requires
            self.wf(),
            r < self.in_requests.len(),
        ensures
            p == self.in_requests@[r as int].path_with_query,
    {
        match &self.in_requests[r].path_with_query {
            Some(s) => Some(s.clone()),
            None => None,
        }
    }

    /// The request's scheme, if the peer named one.
    pub fn request_scheme(&self, r: usize) -> (p: Option<Scheme>)
        requires
            self.wf(),
            r < self.in_requests.len(),
        ensures
            p == self.in_requests@[r as int].scheme,
    {
        match &self.in_requests[r].scheme {
            Some(s) => Some(s.clone()),
            None => None,
        }
    }

    /// The request's authority, if the peer named one.
    pub fn request_authority(&self, r: usize) -> (p: Option<String>)
        requires
            self.wf(),
            r < self.in_requests.len(),
        ensures
            p == self.in_requests@[r as int].authority,
    {
        match &self.in_requests[r].authority {
            Some(s) => Some(s.clone()),
            None => None,
        }
    }

    /// The request's headers, entry for entry.
    pub fn request_headers(&self, r: usize) -> (h: Vec<FieldEntry>)
        requires
            self.wf(),
            r < self.in_requests.len(),
        ensures
            h.deep_view() == self.in_requests@[r as int].headers.deep_view(),
    {
        clone_entries(&self.in_requests[r].headers)
    }

    /// Hands out the request's body; valid only once.
    pub fn request_consume(&mut self, r: usize) -> (b: Result<usize, ()>)
        requires
            old(self).wf(),
            r < old(self).in_requests.len(),
        ensures
            final(self).wf(),
            old(self).grows_to(*final(self)),
            *final(self) == (Host { in_requests: final(self).in_requests, ..*old(self) }),
            ({
                let s = old(self).in_requests@[r as int];
                if s.consumed {
                    b == Result::<usize, ()>::Err(()) && *final(self) == *old(self)
                } else {
                    b == Result::<usize, ()>::Ok(s.body) && s.body < old(self).in_bodies.len()
                        && final(self).in_requests@ == old(self).in_requests@.update(
                        r as int,
                        (InRequestState { consumed: true, ..s }),
                    )
                }
            }),
    {
        if self.in_requests[r].consumed {
            return Err(());
        }
        self.in_requests[r].consumed = true;
        Ok(self.in_requests[r].body)
    }

    /// Host side: creates an incoming response with the given status and
    /// headers, with a fresh body.
    pub fn new_incoming_response(&mut self, status: u16, headers: Vec<FieldEntry>) -> (h: usize)
        requires
            old(self).wf(),
        ensures
            final(self).wf(),
            old(self).grows_to(*final(self)),
            h == old(self).in_responses.len(),
            final(self).in_responses@ == old(self).in_responses@.push(
                (InResponseState {
                    status: status,
                    headers: headers,
                    body: old(self).in_bodies.len(),
                    consumed: false,
                }),
            ),
            final(self).in_bodies@ == old(self).in_bodies@.push(
                (InBodyState {
                    stream: old(self).in_streams.len(),
                    trailers: old(self).trailers.len(),
                    stream_taken: false,
                    finished: false,
                }),
            ),
            final(self).in_streams@ == old(self).in_streams@.push(
                final(self).in_streams@[old(self).in_streams.len() as int],
            ),
            final(self).in_streams@[old(self).in_streams.len() as int].chunks_view() == Seq::<
                Seq<u8>,
            >::empty(),
            !final(self).in_streams@[old(self).in_streams.len() as int].closed,
            final(self).in_streams@[old(self).in_streams.len() as int].error is None,
            final(self).trailers@ == old(self).trailers@.push(
                (TrailersState { resolved: None, consumed: false }),
            ),
            *final(self) == (Host {
                in_streams: final(self).in_streams,
                trailers: final(self).trailers,
                in_bodies: final(self).in_bodies,
                in_responses: final(self).in_responses,
                ..*old(self)
            }),
    {
        let b = self.new_in_body();
        let h = self.in_responses.len();
        self.in_responses.push(InResponseState { status, headers, body: b, consumed: false });
        h
    }

    /// The response's status code.
    pub fn response_status(&self, r: usize) -> (s: u16)
        requires
            self.wf(),
            r < self.in_responses.len(),
        ensures
            s == self.in_responses@[r as int].status,
    {
        self.in_responses[r].status
    }

    /// The response's headers, entry for entry.
    pub fn response_headers(&self, r: usize) -> (h: Vec<FieldEntry>)
        requires
            self.wf(),
            r < self.in_responses.len(),
        ensures
            h.deep_view() == self.in_responses@[r as int].headers.deep_view(),
    {
        clone_entries(&self.in_responses[r].headers)
    }

    /// Hands out the response's body; valid only once.
    pub fn response_consume(&mut self, r: usize) -> (b: Result<usize, ()>)
        requires
            old(self).wf(),
            r < old(self).in_responses.len(),
        ensures
            final(self).wf(),
            old(self).grows_to(*final(self)),
            *final(self) == (Host { in_responses: final(self).in_responses, ..*old(self) }),
            ({
                let s = old(self).in_responses@[r as int];
                if s.consumed {
                    b == Result::<usize, ()>::Err(()) && *final(self) == *old(self)
                } else {
                    b == Result::<usize, ()>::Ok(s.body) && s.body < old(self).in_bodies.len()
                        && final(self).in_responses@ == old(self).in_responses@.update(
                        r as int,
                        (InResponseState { consumed: true, ..s }),
                    )
                }
            }),
    {
        if self.in_responses[r].consumed {
            return Err(());
        }
        self.in_responses[r].consumed = true;
        Ok(self.in_responses[r].body)
    }

    /// Creates an outgoing body with its writable stream.
    pub fn new_out_body(&mut self) -> (h: usize)
        requires
            old(self).wf(),
        ensures
            final(self).wf(),
            old(self).grows_to(*final(self)),
            h == old(self).out_bodies.len(),
            final(self).out_bodies@ == old(self).out_bodies@.push(
                (OutBodyState {
                    stream: old(self).out_streams.len(),
                    stream_taken: false,
                    finished: None,
                    finish_error: None,
                }),
            ),
            final(self).out_streams@ == old(self).out_streams@.push(
                final(self).out_streams@[old(self).out_streams.len() as int],
            ),
            final(self).out_streams@[old(self).out_streams.len() as int].written@ == Seq::<
                u8,
            >::empty(),
            final(self).out_streams@[old(self).out_streams.len() as int].capacity == old(
                self,
            ).default_capacity,
            final(self).out_streams@[old(self).out_streams.len() as int].error is None,
            *final(self) == (Host {
                out_streams: final(self).out_streams,
                out_bodies: final(self).out_bodies,
                ..*old(self)
            }),
    {
        let s = self.new_out_stream();
        let h = self.out_bodies.len();
        self.out_bodies.push(
            OutBodyState { stream: s, stream_taken: false, finished: None, finish_error: None },
        );
        h
    }

    /// Hands out the body's write stream; valid only once.
    pub fn out_body_write(&mut self, b: usize) -> (r: Result<usize, ()>)
        requires
            old(self).wf(),
            b < old(self).out_bodies.len(),
        ensures
            final(self).wf(),
            old(self).grows_to(*final(self)),
            *final(self) == (Host { out_bodies: final(self).out_bodies, ..*old(self) }),
            ({
                let s = old(self).out_bodies@[b as int];
                if s.stream_taken {
                    r == Result::<usize, ()>::Err(()) && *final(self) == *old(self)
                } else {
                    r == Result::<usize, ()>::Ok(s.stream) && final(self).out_bodies@ == old(self).out_bodies@.update(b as int, (OutBodyState { stream_taken: true, ..s }))
                }
            }),
    {
        if self.out_bodies[b].stream_taken {
            return Err(());
        }
        self.out_bodies[b].stream_taken = true;
        Ok(self.out_bodies[b].stream)
    }

    /// Finishes an outgoing body with the given trailers; the caller owns
    /// the body and finishes it at most once.
    pub fn out_body_finish(&mut self, b: usize, trailers: Option<Vec<FieldEntry>>) -> (r: Result<
        (),
        HostErrorCode,
    >)
        requires
            old(self).wf(),
            b < old(self).out_bodies.len(),
            old(self).out_bodies@[b as int].finished is None,
        ensures
            final(self).wf(),
            old(self).grows_to(*final(self)),
            *final(self) == (Host { out_bodies: final(self).out_bodies, ..*old(self) }),
            ({
                let s = old(self).out_bodies@[b as int];
                if s.finish_error is Some {
                    r == Result::<(), HostErrorCode>::Err(s.finish_error->0) && final(self).out_bodies@ == old(self).out_bodies@.update(
                        b as int,
                        (OutBodyState { finish_error: None, ..s }),
                    )
                } else {
                    r == Result::<(), HostErrorCode>::Ok(()) && final(self).out_bodies@ == old(self).out_bodies@.update(
                        b as int,
                        (OutBodyState { finished: Some(trailers), ..s }),
                    )
                }
            }),
    {
        match self.out_bodies[b].finish_error.take() {
            Some(e) => Err(e),
            None => {
                self.out_bodies[b].finished = Some(trailers);
                Ok(())
            },
        }
    }

    /// Host side: makes the next finish of this outgoing body fail.
    pub fn fail_out_body_finish(&mut self, b: usize, e: HostErrorCode)
        requires
            old(self).wf(),
            b < old(self).out_bodies.len(),
        ensures
            final(self).wf(),
            old(self).grows_to(*final(self)),
            *final(self) == (Host { out_bodies: final(self).out_bodies, ..*old(self) }),
            final(self).out_bodies@ == old(self).out_bodies@.update(
                b as int,
                (OutBodyState { finish_error: Some(e), ..old(self).out_bodies@[b as int] }),
            ),
    {
        self.out_bodies[b].finish_error = Some(e);
    }
}

} // verus!

verus! {

impl Host {
    /// Creates an outgoing request over a materialised header list, with a
    /// fresh outgoing body.
    pub fn new_out_request(&mut self, fields: usize) -> (h: usize)
        requires
            old(self).wf(),
            fields < old(self).fields.len(),
        ensures
            final(self).wf(),
            old(self).grows_to(*final(self)),
            h == old(self).out_requests.len(),
            final(self).out_requests@.len() == old(self).out_requests@.len() + 1,
            final(self).out_requests@ == old(self).out_requests@.push(
                final(self).out_requests@[h as int],
            ),
            ({
                let s = final(self).out_requests@[h as int];
                s.method is None && s.path_with_query is None && s.scheme is None
                    && s.authority is None && s.headers.deep_view() == old(self).fields@[fields as int].deep_view() && s.body == old(self).out_bodies.len()
                    && !s.body_taken && !s.sent
            }),
            final(self).out_bodies@ == old(self).out_bodies@.push(
                (OutBodyState {
                    stream: old(self).out_streams.len(),
                    stream_taken: false,
                    finished: None,
                    finish_error: None,
                }),
            ),
            final(self).out_streams@ == old(self).out_streams@.push(
                final(self).out_streams@[old(self).out_streams.len() as int],
            ),
            final(self).out_streams@[old(self).out_streams.len() as int].written@ == Seq::<
                u8,
            >::empty(),
            final(self).out_streams@[old(self).out_streams.len() as int].capacity == old(
                self,
            ).default_capacity,
            final(self).out_streams@[old(self).out_streams.len() as int].error is None,
            *final(self) == (Host {
                out_streams: final(self).out_streams,
                out_bodies: final(self).out_bodies,
                out_requests: final(self).out_requests,
                ..*old(self)
            }),
    {
        let headers = clone_entries(&self.fields[fields]);
        let b = self.new_out_body();
        let h = self.out_requests.len();
        self.out_requests.push(
            OutRequestState {
                method: None,
                path_with_query: None,
                scheme: None,
                authority: None,
                headers,
                body: b,
                body_taken: false,
                sent: false,
            },
        );
        h
    }

    /// Sets the request's method; rejects a malformed token.
    pub fn out_request_set_method(&mut self, r: usize, m: &Method) -> (res: Result<(), ()>)
        requires
            old(self).wf(),
            r < old(self).out_requests.len(),
        ensures
            final(self).wf(),
            old(self).grows_to(*final(self)),
            *final(self) == (Host { out_requests: final(self).out_requests, ..*old(self) }),
            res is Ok <==> method_token_ok(*m),
            res is Ok ==> final(self).out_requests@ == old(self).out_requests@.update(
                r as int,
                (OutRequestState { method: Some(*m), ..old(self).out_requests@[r as int] }),
            ),
            res is Err ==> *final(self) == *old(self),
    {
        let ok = match m {
            Method::Other(s) => check_field_name(s.as_str()),
            _ => true,
        };
        if !ok {
            return Err(());
        }
        self.out_requests[r].method = Some(m.clone());
        Ok(())
    }

    /// Sets the request's path and query; this model accepts any text.
    pub fn out_request_set_path_with_query(&mut self, r: usize, p: Option<&str>) -> (res: Result<
        (),
        (),
    >)
        requires
            old(self).wf(),
            r < old(self).out_requests.len(),
        ensures
            final(self).wf(),
            old(self).grows_to(*final(self)),
            *final(self) == (Host { out_requests: final(self).out_requests, ..*old(self) }),
            res is Ok,
            final(self).out_requests@ == old(self).out_requests@.update(
                r as int,
                (OutRequestState {
                    path_with_query: final(self).out_requests@[r as int].path_with_query,
                    ..old(self).out_requests@[r as int]
                }),
            ),
            final(self).out_requests@[r as int].path_with_query is Some <==> p is Some,
            p is Some ==> final(self).out_requests@[r as int].path_with_query->0@ == p->0@,
    {
        let stored = match p {
            Some(s) => Some(s.to_owned()),
            None => None,
        };
        self.out_requests[r].path_with_query = stored;
        Ok(())
    }

    /// Sets the request's scheme; rejects a malformed token.
    pub fn out_request_set_scheme(&mut self, r: usize, sch: Option<&Scheme>) -> (res: Result<
        (),
        (),
    >)
        requires
            old(self).wf(),
            r < old(self).out_requests.len(),
        ensures
            final(self).wf(),
            old(self).grows_to(*final(self)),
            *final(self) == (Host { out_requests: final(self).out_requests, ..*old(self) }),
            res is Ok <==> (sch is Some ==> scheme_token_ok(*sch->0)),
            res is Ok ==> final(self).out_requests@ == old(self).out_requests@.update(
                r as int,
                (OutRequestState {
                    scheme: final(self).out_requests@[r as int].scheme,
                    ..old(self).out_requests@[r as int]
                }),
            ) && (final(self).out_requests@[r as int].scheme is Some <==> sch is Some) && (
            sch is Some ==> final(self).out_requests@[r as int].scheme->0 == *sch->0),
            res is Err ==> *final(self) == *old(self),
    {
        let ok = match sch {
            Some(Scheme::Other(s)) => check_scheme(s.as_str()),
            _ => true,
        };
        if !ok {
            return Err(());
        }
        let stored = match sch {
            Some(s) => Some(s.clone()),
            None => None,
        };
        self.out_requests[r].scheme = stored;
        Ok(())
    }

    /// Sets the request's authority; this model accepts any text.
    pub fn out_request_set_authority(&mut self, r: usize, a: Option<&str>) -> (res: Result<
        (),
        (),
    >)
        requires
            old(self).wf(),
            r < old(self).out_requests.len(),
        ensures
            final(self).wf(),
            old(self).grows_to(*final(self)),
            *final(self) == (Host { out_requests: final(self).out_requests, ..*old(self) }),
            res is Ok,
            final(self).out_requests@ == old(self).out_requests@.update(
                r as int,
                (OutRequestState {
                    authority: final(self).out_requests@[r as int].authority,
                    ..old(self).out_requests@[r as int]
                }),
            ),
            final(self).out_requests@[r as int].authority is Some <==> a is Some,
            a is Some ==> final(self).out_requests@[r as int].authority->0@ == a->0@,
    {
        let stored = match a {
            Some(s) => Some(s.to_owned()),
            None => None,
        };
        self.out_requests[r].authority = stored;
        Ok(())
    }

    /// Hands out the request's body; valid only once.
    pub fn out_request_body(&mut self, r: usize) -> (b: Result<usize, ()>)
        requires
            old(self).wf(),
            r < old(self).out_requests.len(),
        ensures
            final(self).wf(),
            old(self).grows_to(*final(self)),
            *final(self) == (Host { out_requests: final(self).out_requests, ..*old(self) }),
            ({
                let s = old(self).out_requests@[r as int];
                if s.body_taken {
                    b == Result::<usize, ()>::Err(()) && *final(self) == *old(self)
                } else {
                    b == Result::<usize, ()>::Ok(s.body) && s.body < old(self).out_bodies.len()
                        && final(self).out_requests@ == old(self).out_requests@.update(
                        r as int,
                        (OutRequestState { body_taken: true, ..s }),
                    )
                }
            }),
    {
        if self.out_requests[r].body_taken {
            return Err(());
        }
        self.out_requests[r].body_taken = true;
        Ok(self.out_requests[r].body)
    }

    /// Dispatches an outgoing request; the host answers through a pending
    /// response resource, or reports a failure code at once.
    pub fn out_request_handle(&mut self, r: usize) -> (res: Result<usize, HostErrorCode>)
        requires
            old(self).wf(),
            r < old(self).out_requests.len(),
            !old(self).out_requests@[r as int].sent,
        ensures
            final(self).wf(),
            old(self).grows_to(*final(self)),
            *final(self) == (Host {
                out_requests: final(self).out_requests,
                future_responses: final(self).future_responses,
                handler_error: final(self).handler_error,
                ..*old(self)
            }),
            final(self).handler_error is None,
            ({
                if old(self).handler_error is Some {
                    res == Result::<usize, HostErrorCode>::Err(old(self).handler_error->0)
                        && final(self).out_requests@ == old(self).out_requests@ && final(self).future_responses@ == old(self).future_responses@
                } else {
                    res == Result::<usize, HostErrorCode>::Ok(old(self).future_responses.len())
                        && final(self).future_responses@ == old(self).future_responses@.push(
                        (FutureResponseState { resolved: None, consumed: false }),
                    ) && final(self).out_requests@ == old(self).out_requests@.update(
                        r as int,
                        (OutRequestState { sent: true, ..old(self).out_requests@[r as int] }),
                    )
                }
            }),
    {
        match self.handler_error.take() {
            Some(e) => Err(e),
            None => {
                let f = self.future_responses.len();
                self.future_responses.push(
                    FutureResponseState { resolved: None, consumed: false },
                );
                self.out_requests[r].sent = true;
                Ok(f)
            },
        }
    }

    /// Host side: sets the write budget granted to fresh writable streams.
    pub fn set_default_capacity(&mut self, cap: u64)
        requires
            old(self).wf(),
        ensures
            final(self).wf(),
            old(self).grows_to(*final(self)),
            *final(self) == (Host { default_capacity: cap, ..*old(self) }),
    {
        self.default_capacity = cap;
    }

    /// Host side: makes the next dispatch fail with the given code.
    pub fn set_handler_error(&mut self, e: HostErrorCode)
        requires
            old(self).wf(),
        ensures
            final(self).wf(),
            old(self).grows_to(*final(self)),
            *final(self) == (Host { handler_error: Some(e), ..*old(self) }),
    {
        self.handler_error = Some(e);
    }

    /// Host side: answers a dispatched request with an incoming response or
    /// a failure code.
    pub fn resolve_future_response(&mut self, f: usize, outcome: Result<usize, HostErrorCode>)
        requires
            old(self).wf(),
            f < old(self).future_responses.len(),
            old(self).future_responses@[f as int].resolved is None,
            !old(self).future_responses@[f as int].consumed,
            outcome matches Ok(r) ==> r < old(self).in_responses.len(),
        ensures
            final(self).wf(),
            old(self).grows_to(*final(self)),
            *final(self) == (Host { future_responses: final(self).future_responses, ..*old(self) }),
            final(self).future_responses@ == old(self).future_responses@.update(
                f as int,
                (FutureResponseState { resolved: Some(outcome), consumed: false }),
            ),
    {
        self.future_responses[f].resolved = Some(outcome);
    }

    /// Polls a pending response: `None` while pending; the outcome exactly
    /// once; afterwards the "already consumed" error.
    pub fn future_response_get(&mut self, f: usize) -> (r: Option<
        Result<Result<usize, HostErrorCode>, ()>,
    >)
        requires
            old(self).wf(),
            f < old(self).future_responses.len(),
        ensures
            final(self).wf(),
            old(self).grows_to(*final(self)),
            *final(self) == (Host { future_responses: final(self).future_responses, ..*old(self) }),
            ({
                let s = old(self).future_responses@[f as int];
                if s.consumed {
                    r == Some(Result::<Result<usize, HostErrorCode>, ()>::Err(())) && *final(self)
                        == *old(self)
                } else if s.resolved is Some {
                    r == Some(Result::<Result<usize, HostErrorCode>, ()>::Ok(s.resolved->0)) && (
                    s.resolved->0 matches Ok(idx) ==> idx < old(self).in_responses.len()) && final(self).future_responses@ == old(self).future_responses@.update(
                        f as int,
                        (FutureResponseState { resolved: None, consumed: true }),
                    )
                } else {
                    r is None && *final(self) == *old(self)
                }
            }),
    {
        if self.future_responses[f].consumed {
            return Some(Err(()));
        }
        if self.future_responses[f].resolved.is_none() {
            return None;
        }
        match self.future_responses[f].resolved.take() {
            Some(out) => {
                self.future_responses[f].consumed = true;
                Some(Ok(out))
            },
            None => {
                proof {
                    assert(false);
                }
                None
            },
        }
    }

    /// Creates an outgoing response over a materialised header list, with a
    /// fresh outgoing body; its status starts as 200.
    pub fn new_out_response(&mut self, fields: usize) -> (h: usize)
        requires
            old(self).wf(),
            fields < old(self).fields.len(),
        ensures
            final(self).wf(),
            old(self).grows_to(*final(self)),
            h == old(self).out_responses.len(),
            final(self).out_responses@ == old(self).out_responses@.push(
                final(self).out_responses@[h as int],
            ),
            ({
                let s = final(self).out_responses@[h as int];
                s.status_code == 200 && s.headers.deep_view() == old(self).fields@[fields as int].deep_view() && s.body == old(self).out_bodies.len()
                    && !s.body_taken
            }),
            final(self).out_bodies@ == old(self).out_bodies@.push(
                (OutBodyState {
                    stream: old(self).out_streams.len(),
                    stream_taken: false,
                    finished: None,
                    finish_error: None,
                }),
            ),
            final(self).out_streams@ == old(self).out_streams@.push(
                final(self).out_streams@[old(self).out_streams.len() as int],
            ),
            final(self).out_streams@[old(self).out_streams.len() as int].written@ == Seq::<
                u8,
            >::empty(),
            final(self).out_streams@[old(self).out_streams.len() as int].capacity == old(
                self,
            ).default_capacity,
            final(self).out_streams@[old(self).out_streams.len() as int].error is None,
            *final(self) == (Host {
                out_streams: final(self).out_streams,
                out_bodies: final(self).out_bodies,
                out_responses: final(self).out_responses,
                ..*old(self)
            }),
    {
        let headers = clone_entries(&self.fields[fields]);
        let b = self.new_out_body();
        let h = self.out_responses.len();
        self.out_responses.push(
            OutResponseState { status_code: 200, headers, body: b, body_taken: false },
        );
        h
    }

    /// Sets the response's status code; rejects one outside 100..=999.
    pub fn out_response_set_status(&mut self, r: usize, code: u16) -> (res: Result<(), ()>)
        requires
            old(self).wf(),
            r < old(self).out_responses.len(),
        ensures
            final(self).wf(),
            old(self).grows_to(*final(self)),
            *final(self) == (Host { out_responses: final(self).out_responses, ..*old(self) }),
            res is Ok <==> (100 <= code <= 999),
            res is Ok ==> final(self).out_responses@ == old(self).out_responses@.update(
                r as int,
                (OutResponseState { status_code: code, ..old(self).out_responses@[r as int] }),
            ),
            res is Err ==> *final(self) == *old(self),
    {
        if code < 100 || code > 999 {
            return Err(());
        }
        self.out_responses[r].status_code = code;
        Ok(())
    }

    /// Hands out the response's body; valid only once.
    pub fn out_response_body(&mut self, r: usize) -> (b: Result<usize, ()>)
        requires
            old(self).wf(),
            r < old(self).out_responses.len(),
        ensures
            final(self).wf(),
            old(self).grows_to(*final(self)),
            *final(self) == (Host { out_responses: final(self).out_responses, ..*old(self) }),
            ({
                let s = old(self).out_responses@[r as int];
                if s.body_taken {
                    b == Result::<usize, ()>::Err(()) && *final(self) == *old(self)
                } else {
                    b == Result::<usize, ()>::Ok(s.body) && s.body < old(self).out_bodies.len()
                        && final(self).out_responses@ == old(self).out_responses@.update(
                        r as int,
                        (OutResponseState { body_taken: true, ..s }),
                    )
                }
            }),
    {
        if self.out_responses[r].body_taken {
            return Err(());
        }
        self.out_responses[r].body_taken = true;
        Ok(self.out_responses[r].body)
    }

    /// Host side: creates a response out-parameter awaiting the guest's
    /// answer.
    pub fn new_response_outparam(&mut self) -> (h: usize)
        requires
            old(self).wf(),
        ensures
            final(self).wf(),
            old(self).grows_to(*final(self)),
            h == old(self).outparams.len(),
            final(self).outparams@ == old(self).outparams@.push((OutparamState { set_to: None })),
            *final(self) == (Host { outparams: final(self).outparams, ..*old(self) }),
    {
        let h = self.outparams.len();
        self.outparams.push(OutparamState { set_to: None });
        h
    }

    /// Records the guest's answer; the caller owns the out-parameter and
    /// sets it at most once.
    pub fn outparam_set(&mut self, o: usize, answer: Result<usize, HostErrorCode>)
        requires
            old(self).wf(),
            o < old(self).outparams.len(),
            old(self).outparams@[o as int].set_to is None,
            answer matches Ok(r) ==> r < old(self).out_responses.len(),
        ensures
            final(self).wf(),
            old(self).grows_to(*final(self)),
            *final(self) == (Host { outparams: final(self).outparams, ..*old(self) }),
            final(self).outparams@ == old(self).outparams@.update(
                o as int,
                (OutparamState { set_to: Some(answer) }),
            ),
    {
        self.outparams[o].set_to = Some(answer);
    }
}

} // verus!
