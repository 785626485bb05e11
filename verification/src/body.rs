//! The abstract, lazily-produced HTTP body: a sequence of data chunks
//! followed by an optional trailer set.
//!
//! Chunks travel as `bytes::Bytes` buffers; the handful of `bytes`
//! operations the crate relies on stand behind trusted declarations whose
//! contracts speak of the buffer's content.

use vstd::prelude::*;

verus! {

use crate::Error;
use crate::host::Host;
use crate::poll::{Poll, Poller, Waker};
use crate::wasi::FieldEntries;
use bytes::Bytes;

#[verifier::external_type_specification]
#[verifier::external_body]
pub struct ExBytes(Bytes);

/// The bytes a `Bytes` buffer holds, in order.
pub uninterp spec fn bytes_content(b: Bytes) -> Seq<u8>;

/// Relies on `bytes::Bytes`'s `From<Vec<u8>>`: the buffer takes over the
/// vector's bytes unchanged.
#[verifier::external_body]
pub fn bytes_from_vec(v: Vec<u8>) -> (r: Bytes)
    ensures
        bytes_content(r) == v@,
{
    Bytes::from(v)
}

/// Relies on `Bytes::len`: the number of bytes held.
#[verifier::external_body]
pub fn bytes_len(b: &Bytes) -> (r: usize)
    ensures
        r == bytes_content(*b).len(),
{
    b.len()
}

/// Relies on `Buf::chunk` for `Bytes`: the buffer is contiguous, so the
/// chunk is all of its bytes.
#[verifier::external_body]
pub fn bytes_chunk<'a>(b: &'a Bytes) -> (r: &'a [u8])
    ensures
        r@ == bytes_content(*b),
{
    bytes::Buf::chunk(b)
}

/// Relies on `Buf::advance` for `Bytes`: drops the first `cnt` bytes.
#[verifier::external_body]
pub fn bytes_advance(b: &mut Bytes, cnt: usize)
    requires
        cnt <= bytes_content(*old(b)).len(),
    ensures
        bytes_content(*final(b)) == bytes_content(*old(b)).skip(cnt as int),
{
    bytes::Buf::advance(b, cnt)
}

/// The content of an optional trailer set.
pub open spec fn opt_entries_view(t: Option<FieldEntries>) -> Option<
    Seq<(Seq<char>, Seq<u8>)>,
> {
    match t {
        Some(fe) => Some(fe@),
        None => None,
    }
}

/// Two host states that agree on everything a body producer reads: its
/// readable streams, trailer fetches, incoming bodies, requests and
/// responses. The destination side, the materialised header lists, the
/// dispatch state and the readiness handles may differ, with the handle
/// table only growing.
pub open spec fn source_frame(h1: Host, h2: Host) -> bool {
    h2 == (Host {
        out_streams: h2.out_streams,
        out_bodies: h2.out_bodies,
        outparams: h2.outparams,
        out_requests: h2.out_requests,
        out_responses: h2.out_responses,
        future_responses: h2.future_responses,
        handler_error: h2.handler_error,
        default_capacity: h2.default_capacity,
        fields: h2.fields,
        pollables: h2.pollables,
        poll_calls: h2.poll_calls,
        ..h1
    }) && h1.pollables@.len() <= h2.pollables@.len()
}

/// An abstract HTTP body: yields data chunks until end-of-data, then an
/// optional trailer set, each exactly once and in order.
///
/// `remaining` is the data currently in flight: every yielded chunk is a
/// prefix of it, and what is left afterwards is exactly the rest. A producer
/// backed by a live stream may grow `remaining` as its host buffers more.
pub trait HttpBody: Sized {
    /// What must hold of the producer between polls.
    spec fn inv(&self, host: Host, poller: Poller) -> bool;

    /// End-of-data has been delivered; only trailers remain.
    spec fn data_done(&self) -> bool;

    /// The producer can deliver nothing further: a data poll now must
    /// report end-of-data (for a stream-backed body: drained and closed
    /// with no failure pending).
    spec fn at_end(&self, host: Host) -> bool;

    /// The data currently available and not yet yielded, as one byte
    /// sequence.
    spec fn remaining(&self, host: Host) -> Seq<u8>;

    /// The trailer outcome, where already determined: `Some(t)` once a
    /// trailer poll is known to deliver `t`; `None` while unknown or bound
    /// for an error.
    spec fn trailers_outcome(&self, host: Host) -> Option<Option<Seq<(Seq<char>, Seq<u8>)>>>;

    /// The producer reads nothing on the destination side of the host, and
    /// its invariant survives anything that only adds readiness handles and
    /// registrations or retires registrations.
    proof fn preserved(&self, h1: Host, h2: Host, p1: Poller, p2: Poller)
        requires
            self.inv(h1, p1),
            source_frame(h1, h2),
            p1.entries@.len() <= p2.entries@.len(),
        ensures
            self.inv(h2, p2),
            self.remaining(h2) == self.remaining(h1),
            self.trailers_outcome(h2) == self.trailers_outcome(h1),
            self.at_end(h2) == self.at_end(h1),
    ;

    /// Pulls the next data chunk. A yielded chunk is a nonempty prefix of
    /// the remaining data, which advances by exactly that chunk. End-of-data
    /// comes when nothing remains; "not ready" registers for wake-up and
    /// suspends. The producer never touches the destination side of the
    /// host.
    fn poll_data(&mut self, host: &mut Host, poller: &mut Poller, cx: &Waker) -> (r: Poll<
        Option<Result<Bytes, Error>>,
    >)
        requires
            old(host).wf(),
            old(poller).wf_for(*old(host)),
            old(self).inv(*old(host), *old(poller)),
            !old(self).data_done(),
        ensures
            final(host).wf(),
            old(host).grows_to(*final(host)),
            final(poller).wf_for(*final(host)),
            old(poller).entries@.len() <= final(poller).entries@.len(),
            final(self).inv(*final(host), *final(poller)),
            final(host).out_streams == old(host).out_streams,
            final(host).out_bodies == old(host).out_bodies,
            final(host).outparams == old(host).outparams,
            final(host).out_responses == old(host).out_responses,
            final(self).trailers_outcome(*final(host)) == old(self).trailers_outcome(*old(host)),
            r matches Poll::Ready(Some(Ok(d))) ==> (bytes_content(d).len() > 0
                && bytes_content(d).len() <= old(self).remaining(*old(host)).len()
                && bytes_content(d)
                == old(self).remaining(*old(host)).take(bytes_content(d).len() as int) && final(self).remaining(*final(host)) == old(self).remaining(*old(host)).skip(
                bytes_content(d).len() as int,
            ) && !final(self).data_done()),
            r matches Poll::Ready(Some(Err(_))) ==> !final(self).data_done() && final(self).remaining(*final(host)) == old(self).remaining(*old(host)),
            r matches Poll::Ready(None) ==> final(self).data_done() && old(self).remaining(
                *old(host),
            ).len() == 0,
            r is Pending ==> !final(self).data_done() && final(self).remaining(*final(host))
                == old(self).remaining(*old(host)),
            old(self).at_end(*old(host)) ==> r matches Poll::Ready(None),
            old(self).remaining(*old(host)).len() > 0 ==> !(r is Pending),
    ;

    /// Pulls the trailer set, valid only after end-of-data. A delivered
    /// outcome is exactly the one `trailers_outcome` named; "not ready"
    /// registers for wake-up and suspends.
    fn poll_trailers(&mut self, host: &mut Host, poller: &mut Poller, cx: &Waker) -> (r: Poll<
        Result<Option<FieldEntries>, Error>,
    >)
        requires
            old(host).wf(),
            old(poller).wf_for(*old(host)),
            old(self).inv(*old(host), *old(poller)),
            old(self).data_done(),
        ensures
            final(host).wf(),
            old(host).grows_to(*final(host)),
            final(poller).wf_for(*final(host)),
            old(poller).entries@.len() <= final(poller).entries@.len(),
            final(self).inv(*final(host), *final(poller)),
            final(self).data_done(),
            final(host).out_streams == old(host).out_streams,
            final(host).out_bodies == old(host).out_bodies,
            final(host).outparams == old(host).outparams,
            final(host).out_responses == old(host).out_responses,
            r matches Poll::Ready(Ok(t)) ==> old(self).trailers_outcome(*old(host)) == Some(
                opt_entries_view(t),
            ),
            r is Pending ==> final(self).trailers_outcome(*final(host)) == old(self).trailers_outcome(*old(host)),
            old(self).trailers_outcome(*old(host)) matches Some(tv) ==> (r matches Poll::Ready(
                Ok(t),
            ) && opt_entries_view(t) == tv),
    ;
}

/// A body held completely in memory: one data chunk, then the given
/// trailers.
pub struct FullBody {
    /// The one chunk still to yield, nonempty; `None` once yielded or for an
    /// empty body.
    pub chunk: Option<Vec<u8>>,
    /// The trailers to deliver after end-of-data.
    pub trailers: Option<FieldEntries>,
    /// End-of-data has been delivered.
    pub done: bool,
}

impl FullBody {
    /// A body holding exactly `data`, then `trailers`.
    pub fn new(data: Vec<u8>, trailers: Option<FieldEntries>) -> (r: Self)
        ensures
            r.inv_self(),
            !r.done,
            r.content() == data@,
            opt_entries_view(r.trailers) == opt_entries_view(trailers),
    {
        let chunk = if data.len() > 0 {
            Some(data)
        } else {
            None
        };
        FullBody { chunk, trailers, done: false }
    }

    /// The data still to yield.
    pub open spec fn content(self) -> Seq<u8> {
        match self.chunk {
            Some(c) => c@,
            None => Seq::empty(),
        }
    }

    /// Any held chunk is nonempty.
    pub open spec fn inv_self(self) -> bool {
        self.chunk matches Some(c) ==> c@.len() > 0
    }
}

impl HttpBody for FullBody {
    open spec fn inv(&self, host: Host, poller: Poller) -> bool {
        self.inv_self()
    }

    open spec fn data_done(&self) -> bool {
        self.done
    }

    open spec fn at_end(&self, host: Host) -> bool {
        self.chunk is None
    }

    open spec fn remaining(&self, host: Host) -> Seq<u8> {
        self.content()
    }

    open spec fn trailers_outcome(&self, host: Host) -> Option<
        Option<Seq<(Seq<char>, Seq<u8>)>>,
    > {
        Some(opt_entries_view(self.trailers))
    }

    proof fn preserved(&self, h1: Host, h2: Host, p1: Poller, p2: Poller) {
    }

    fn poll_data(&mut self, host: &mut Host, poller: &mut Poller, cx: &Waker) -> (r: Poll<
        Option<Result<Bytes, Error>>,
    >) {
        match self.chunk.take() {
            Some(c) => Poll::Ready(Some(Ok(bytes_from_vec(c)))),
            None => {
                self.done = true;
                Poll::Ready(None)
            },
        }
    }

    fn poll_trailers(&mut self, host: &mut Host, poller: &mut Poller, cx: &Waker) -> (r: Poll<
        Result<Option<FieldEntries>, Error>,
    >) {
        Poll::Ready(Ok(self.trailers.take()))
    }
}

} // verus!
