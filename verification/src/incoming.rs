//! The incoming body state machine: a lazy sequence of data chunks followed
//! by trailer metadata.
//!
//! The state only moves forward: data is read while in `Body`; the stream's
//! closed signal moves to `Trailers`; a delivered trailer outcome moves to
//! `Empty`, where nothing remains.

use vstd::prelude::*;

verus! {

use crate::Error;
use crate::body::{bytes_content, bytes_from_vec, HttpBody, opt_entries_view};
use crate::host::Host;
use crate::poll::{Poll, Poller, Waker, WasiSubscribe};
use crate::wasi::{FieldEntries, FutureTrailers, IncomingBody, registered_wakeup};
use bytes::Bytes;

/// How many bytes one read requests at most.
pub const READ_FRAME_SIZE: usize = 16384;

/// Where an incoming body stands.
pub enum IncomingState {
    /// Fully consumed: no data, no trailers remain.
    Empty,
    /// Data is still being read.
    Body(IncomingBody),
    /// End-of-data was delivered; the trailer fetch is pending.
    Trailers(FutureTrailers),
}

/// An incoming HTTP body: data chunks, then trailers, each exactly once.
pub struct IncomingHttpBody {
    pub state: IncomingState,
}

/// The trailer outcome a fetch resource is bound to deliver, where already
/// determined. A failure whose description is the connection-terminated
/// message counts as "no trailers": a narrow leniency for a host that tears
/// the connection down after the body.
pub open spec fn trailers_outcome_at(host: Host, t: int) -> Option<
    Option<Seq<(Seq<char>, Seq<u8>)>>,
> {
    let st = host.trailers@[t];
    if st.consumed {
        None
    } else {
        match st.resolved {
            None => None,
            Some(Ok(o)) => Some(match o {
                Some(e) => Some(e.deep_view()),
                None => None,
            }),
            Some(Err(code)) => if code.message() == "connection terminated"@ {
                Some(None)
            } else {
                None
            },
        }
    }
}

/// Every chunk the host has buffered on stream `i` is nonempty; the host
/// only ever buffers nonempty chunks, and reads keep it that way.
pub open spec fn chunks_nonempty(host: Host, i: int) -> bool {
    forall|j: int| 0 <= j < host.in_streams@[i].chunks_view().len()
        ==> (#[trigger] host.in_streams@[i].chunks_view()[j]).len() > 0
}

impl IncomingHttpBody {
    /// The wrapped resources exist and are sound for their state; in the
    /// data phase the stream holds only nonempty chunks.
    pub open spec fn wf(self, host: Host, poller: Poller) -> bool {
        match self.state {
            IncomingState::Empty => true,
            IncomingState::Body(b) => b.wf(host, poller) && chunks_nonempty(
                host,
                b.stream.idx(),
            ),
            IncomingState::Trailers(t) => t.wf(host, poller),
        }
    }

    /// Index of the stream the body reads, while in the data phase.
    pub open spec fn stream_idx(self) -> int
        recommends
            self.state is Body,
    {
        self.state->Body_0.stream.idx()
    }

    /// Takes charge of an incoming body resource; fails with an
    /// invalid-state error exactly when the body's stream was already
    /// handed out or the body already finished.
    pub fn new(body: usize, host: &mut Host) -> (r: Result<Self, Error>)
        requires
            old(host).wf(),
            body < old(host).in_bodies.len(),
        ensures
            final(host).wf(),
            old(host).grows_to(*final(host)),
            *final(host) == (Host { in_bodies: final(host).in_bodies, ..*old(host) }),
            r is Ok <==> (!old(host).in_bodies@[body as int].stream_taken && !old(host).in_bodies@[body as int].finished),
            r matches Ok(b) ==> b.state is Body && b.state->Body_0.body == body
                && b.state->Body_0.stream.stream.reg is None && b.stream_idx() == old(host).in_bodies@[body as int].stream,
            r matches Err(e) ==> (e matches Error::WasiInvalidState(m) && m@
                == "incoming-body.stream already called"@) && *final(host) == *old(host),
    {
        match IncomingBody::new(body, host) {
            Err(e) => Err(e),
            Ok(b) => Ok(IncomingHttpBody { state: IncomingState::Body(b) }),
        }
    }

    /// Wraps an already-constructed body wrapper in the data phase.
    pub fn from_body(body: IncomingBody) -> (r: Self)
        ensures
            r.state == IncomingState::Body(body),
    {
        IncomingHttpBody { state: IncomingState::Body(body) }
    }

    /// Takes the body wrapper out, leaving the consumed state; valid only
    /// in the data phase.
    pub(crate) fn take_body(&mut self) -> (r: IncomingBody)
        requires
            old(self).state is Body,
        ensures
            r == old(self).state->Body_0,
            final(self).state is Empty,
    {
        let mut taken = IncomingState::Empty;
        core::mem::swap(&mut self.state, &mut taken);
        match taken {
            IncomingState::Body(b) => b,
            _ => {
                proof {
                    assert(false);
                }
                IncomingBody {
                    stream: crate::wasi::InputStream::new(crate::wasi::InStreamHandle { idx: 0 }),
                    body: 0,
                }
            },
        }
    }

    /// One step of reading the body's data; valid only in the data phase.
    ///
    /// A delivered chunk is a nonempty prefix of the stream's buffered
    /// bytes, which advance by exactly that chunk. The stream's closed
    /// signal ends the data phase: the state moves to `Trailers` and
    /// end-of-data (`None`) is delivered. Any other stream failure
    /// surfaces and leaves the data phase in place.
    pub fn poll_incoming_body(&mut self, host: &mut Host, poller: &mut Poller, cx: &Waker) -> (r:
        Poll<Option<Result<Bytes, Error>>>)
        requires
            old(host).wf(),
            old(poller).wf_for(*old(host)),
            old(self).wf(*old(host), *old(poller)),
            old(self).state is Body,
        ensures
            final(host).wf(),
            old(host).grows_to(*final(host)),
            final(poller).wf_for(*final(host)),
            old(poller).entries@.len() <= final(poller).entries@.len(),
            final(self).wf(*final(host), *final(poller)),
            final(host).out_streams == old(host).out_streams,
            final(host).out_bodies == old(host).out_bodies,
            final(host).outparams == old(host).outparams,
            final(host).out_responses == old(host).out_responses,
            final(host).trailers@ == old(host).trailers@,
            final(self).trailers_resource(*final(host)) == old(self).trailers_resource(
                *old(host),
            ),
            r matches Poll::Ready(Some(Ok(d))) ==> (final(self).state is Body && final(self).stream_idx() == old(self).stream_idx() && bytes_content(d).len() > 0
                && bytes_content(d).len() <= old(self).data_remaining(*old(host)).len()
                && bytes_content(d) == old(self).data_remaining(*old(host)).take(
                bytes_content(d).len() as int,
            ) && final(self).data_remaining(*final(host)) == old(self).data_remaining(
                *old(host),
            ).skip(bytes_content(d).len() as int)),
            r matches Poll::Ready(Some(Err(_))) ==> final(self).state is Body && final(self).data_remaining(*final(host)) == old(self).data_remaining(*old(host)),
            r matches Poll::Ready(None) ==> final(self).state is Trailers && old(self).data_remaining(*old(host)).len() == 0,
            r is Pending ==> final(self).state is Body && final(self).data_remaining(*final(host))
                == old(self).data_remaining(*old(host)),
            ({
                // The host state forces the outcome, as the stream adapter
                // states it.
                let s = old(host).in_streams@[old(self).stream_idx()];
                if s.error is Some {
                    r matches Poll::Ready(Some(Err(Error::WasiStreamOperationFailed(m)))) && m@
                        == s.error->0@
                } else if s.chunks_view().len() > 0 {
                    r matches Poll::Ready(Some(Ok(_)))
                } else if s.closed {
                    r matches Poll::Ready(None)
                } else {
                    r is Pending
                }
            }),
            r is Pending ==> registered_wakeup(
                *old(poller),
                *final(poller),
                *old(host),
                *final(host),
                old(self).state->Body_0.stream.stream.inner.target(),
                cx.task,
            ),
            !(r is Pending) ==> final(poller).entries@.len() == old(poller).entries@.len(),
    {
        let ghost oldchunks = host.in_streams@[old(self).stream_idx()].chunks_view();
        let mut b = self.take_body();
        match b.stream.poll_read(host, poller, cx, READ_FRAME_SIZE) {
            Poll::Ready(Ok(data)) => {
                proof {
                    assert(oldchunks.len() > 0 && oldchunks[0].len() > 0);
                    assert(data@.len() <= oldchunks[0].len());
                    lemma_flatten_head(oldchunks, data@.len() as int);
                    lemma_flatten_update_head(oldchunks, oldchunks[0].skip(data@.len() as int));
                    let s2 = host.in_streams@[b.stream.idx()];
                    if oldchunks[0].len() <= READ_FRAME_SIZE {
                        assert(s2.chunks_view() == oldchunks.drop_first());
                        assert(s2.chunks_view().flatten() == oldchunks.flatten().skip(
                            data@.len() as int,
                        ));
                    } else {
                        assert(s2.chunks_view() == oldchunks.update(
                            0,
                            oldchunks[0].skip(READ_FRAME_SIZE as int),
                        ));
                        assert(s2.chunks_view().flatten() == oldchunks.flatten().skip(
                            data@.len() as int,
                        ));
                    }
                }
                let r = bytes_from_vec(data);
                self.state = IncomingState::Body(b);
                Poll::Ready(Some(Ok(r)))
            },
            Poll::Ready(Err(e)) => {
                match e {
                    Error::WasiStreamClosed => {
                        let ft = b.finish(host, poller);
                        self.state = IncomingState::Trailers(ft);
                        Poll::Ready(None)
                    },
                    other => {
                        self.state = IncomingState::Body(b);
                        Poll::Ready(Some(Err(other)))
                    },
                }
            },
            Poll::Pending => {
                proof {
                    lemma_flatten_empty_head(oldchunks);
                }
                self.state = IncomingState::Body(b);
                Poll::Pending
            },
        }
    }

    /// The body's buffered, not yet delivered data, as one byte sequence.
    pub open spec fn data_remaining(self, host: Host) -> Seq<u8> {
        match self.state {
            IncomingState::Body(b) => host.in_streams@[b.stream.idx()].chunks_view().flatten(),
            _ => Seq::empty(),
        }
    }

    /// Index of the trailer fetch this body is bound to, by state.
    pub open spec fn trailers_resource(self, host: Host) -> int {
        match self.state {
            IncomingState::Empty => -1,
            IncomingState::Body(b) => b.trailers_idx(host),
            IncomingState::Trailers(t) => t.idx(),
        }
    }

    /// One step of fetching the trailers; a fatal usage error before
    /// end-of-data, so valid only outside the data phase.
    ///
    /// In the consumed state there are no trailers (a no-op). Otherwise the
    /// pending fetch is polled: a delivered outcome moves to the consumed
    /// state and is returned, where a failure naming the terminated
    /// connection counts as "no trailers"; any other failure surfaces.
    pub fn poll_incoming_trailers(
        &mut self,
        host: &mut Host,
        poller: &mut Poller,
        cx: &Waker,
    ) -> (r: Poll<Result<Option<FieldEntries>, Error>>)
        requires
            old(host).wf(),
            old(poller).wf_for(*old(host)),
            old(self).wf(*old(host), *old(poller)),
            !(old(self).state is Body),
        ensures
            final(host).wf(),
            old(host).grows_to(*final(host)),
            final(poller).wf_for(*final(host)),
            old(poller).entries@.len() <= final(poller).entries@.len(),
            final(self).wf(*final(host), *final(poller)),
            !(final(self).state is Body),
            final(host).out_streams == old(host).out_streams,
            final(host).out_bodies == old(host).out_bodies,
            final(host).outparams == old(host).outparams,
            final(host).out_responses == old(host).out_responses,
            old(self).state is Empty ==> (r matches Poll::Ready(Result::Ok(None)) && *final(self)
                == *old(self) && *final(host) == *old(host) && *final(poller) == *old(poller)),
            r matches Poll::Ready(Ok(t)) ==> old(self).outcome(*old(host)) == Some(
                opt_entries_view(t),
            ),
            r matches Poll::Ready(Ok(t)) ==> final(self).state is Empty,
            r is Pending ==> final(self).outcome(*final(host)) == old(self).outcome(*old(host)),
            old(self).state is Trailers ==> ({
                // The fetch's resolution forces the outcome: a resolved
                // fetch is delivered, the lenient downgrade included; only
                // an unresolved fetch suspends.
                let st = old(host).trailers@[old(self).trailers_resource(*old(host))];
                if st.consumed {
                    (r matches Poll::Ready(Err(Error::WasiInvalidState(m))) && m@
                        == "future-trailers.get already consumed"@) && final(self).state is Trailers
                } else if st.resolved is Some {
                    match st.resolved->0 {
                        Ok(Some(e)) => (r matches Poll::Ready(Ok(Some(fe))) && fe@
                            == e.deep_view()) && final(self).state is Empty,
                        Ok(None) => (r matches Poll::Ready(Ok(None))) && final(self).state is Empty,
                        Err(code) => if code.message() == "connection terminated"@ {
                            (r matches Poll::Ready(Ok(None))) && final(self).state is Empty
                        } else {
                            (r matches Poll::Ready(Err(Error::WasiErrorCode(m))) && m@
                                == code.message()) && final(self).state is Trailers && final(self).trailers_resource(*final(host)) == old(self).trailers_resource(
                                *old(host),
                            )
                        },
                    }
                } else {
                    r is Pending && final(self).state is Trailers
                }
            }),
            r is Pending ==> registered_wakeup(
                *old(poller),
                *final(poller),
                *old(host),
                *final(host),
                old(self).state->Trailers_0.trailers.inner.target(),
                cx.task,
            ),
            !(r is Pending) ==> *final(poller) == *old(poller),
    {
        let mut taken = IncomingState::Empty;
        core::mem::swap(&mut self.state, &mut taken);
        match taken {
            IncomingState::Empty => {
                self.state = IncomingState::Empty;
                Poll::Ready(Ok(None))
            },
            IncomingState::Body(b) => {
                proof {
                    assert(false);
                }
                self.state = IncomingState::Body(b);
                Poll::Pending
            },
            IncomingState::Trailers(mut t) => {
                match t.poll_get(host, poller, cx) {
                    Poll::Ready(Ok(out)) => {
                        self.state = IncomingState::Empty;
                        Poll::Ready(Ok(out))
                    },
                    Poll::Ready(Err(e)) => {
                        match e {
                            Error::WasiErrorCode(m) => {
                                let lenient = m == "connection terminated".to_owned();
                                self.state = IncomingState::Trailers(t);
                                if lenient {
                                    self.state = IncomingState::Empty;
                                    Poll::Ready(Ok(None))
                                } else {
                                    Poll::Ready(Err(Error::WasiErrorCode(m)))
                                }
                            },
                            other => {
                                self.state = IncomingState::Trailers(t);
                                Poll::Ready(Err(other))
                            },
                        }
                    },
                    Poll::Pending => {
                        self.state = IncomingState::Trailers(t);
                        Poll::Pending
                    },
                }
            },
        }
    }

    /// The trailer outcome this body is bound to deliver, where already
    /// determined; the consumed state delivers "no trailers".
    pub open spec fn outcome(self, host: Host) -> Option<Option<Seq<(Seq<char>, Seq<u8>)>>> {
        match self.state {
            IncomingState::Empty => Some(None),
            IncomingState::Body(b) => trailers_outcome_at(host, b.trailers_idx(host)),
            IncomingState::Trailers(t) => trailers_outcome_at(host, t.idx()),
        }
    }
}

/// Taking a prefix of the front chunk takes the same prefix of the
/// flattened whole, and advancing past it leaves the flattened rest.
proof fn lemma_flatten_head(chunks: Seq<Seq<u8>>, n: int)
    requires
        chunks.len() > 0,
        0 <= n <= chunks[0].len(),
    ensures
        chunks.flatten().take(n) == chunks[0].take(n),
        chunks.flatten().skip(n) == chunks[0].skip(n) + chunks.drop_first().flatten(),
        n == chunks[0].len() ==> chunks.flatten().skip(n) == chunks.drop_first().flatten(),
        chunks.flatten() == chunks[0] + chunks.drop_first().flatten(),
        chunks.flatten().len() >= chunks[0].len(),
{
    assert(chunks.flatten() == chunks[0] + chunks.drop_first().flatten());
    assert(chunks.flatten().take(n) =~= chunks[0].take(n));
    assert(chunks.flatten().skip(n) =~= chunks[0].skip(n) + chunks.drop_first().flatten());
    if n == chunks[0].len() {
        assert(chunks.flatten().skip(n) =~= chunks.drop_first().flatten());
    }
}

/// Sequencing: pieces delivered one after another concatenate to a prefix
/// of the whole, in delivery order, and what remains afterwards is exactly
/// the rest. So a body that yields chunks until end-of-data yields exactly
/// its data in order, and write permits whose bytes go out one prefix at a
/// time sum to exactly the chunk they drain: the hypotheses are the
/// delivery contracts of `poll_incoming_body` and of the copier's write
/// step, applied to two successive deliveries.
pub proof fn lemma_chunks_in_order(r: Seq<u8>, d1: Seq<u8>, d2: Seq<u8>)
    requires
        d1.len() <= r.len(),
        d1 == r.take(d1.len() as int),
        d2.len() <= r.skip(d1.len() as int).len(),
        d2 == r.skip(d1.len() as int).take(d2.len() as int),
    ensures
        d1 + d2 == r.take((d1.len() + d2.len()) as int),
        r.skip(d1.len() as int).skip(d2.len() as int) == r.skip((d1.len() + d2.len()) as int),
{
    assert(d1 + d2 =~= r.take((d1.len() + d2.len()) as int));
    assert(r.skip(d1.len() as int).skip(d2.len() as int) =~= r.skip(
        (d1.len() + d2.len()) as int,
    ));
}

/// Replacing the front chunk replaces exactly its part of the flattened
/// whole.
proof fn lemma_flatten_update_head(chunks: Seq<Seq<u8>>, x: Seq<u8>)
    requires
        chunks.len() > 0,
    ensures
        chunks.update(0, x).flatten() == x + chunks.drop_first().flatten(),
{
    let u = chunks.update(0, x);
    assert(u.flatten() == u[0] + u.drop_first().flatten());
    assert(u[0] == x);
    assert(u.drop_first() =~= chunks.drop_first());
}

/// Dropping an empty front chunk leaves the flattened whole unchanged.
proof fn lemma_flatten_empty_head(chunks: Seq<Seq<u8>>)
    ensures
        chunks.len() > 0 && chunks[0].len() == 0 ==> chunks.flatten()
            == chunks.drop_first().flatten(),
{
    if chunks.len() > 0 && chunks[0].len() == 0 {
        assert(chunks.flatten() == chunks[0] + chunks.drop_first().flatten());
        assert(chunks.flatten() =~= chunks.drop_first().flatten());
    }
}

} // verus!

verus! {

impl HttpBody for IncomingHttpBody {
    open spec fn inv(&self, host: Host, poller: Poller) -> bool {
        self.wf(host, poller)
    }

    open spec fn data_done(&self) -> bool {
        !(self.state is Body)
    }

    open spec fn at_end(&self, host: Host) -> bool {
        match self.state {
            IncomingState::Body(b) => {
                let s = host.in_streams@[b.stream.idx()];
                s.error is None && s.chunks_view().len() == 0 && s.closed
            },
            _ => false,
        }
    }

    open spec fn remaining(&self, host: Host) -> Seq<u8> {
        self.data_remaining(host)
    }

    open spec fn trailers_outcome(&self, host: Host) -> Option<
        Option<Seq<(Seq<char>, Seq<u8>)>>,
    > {
        self.outcome(host)
    }

    proof fn preserved(&self, h1: Host, h2: Host, p1: Poller, p2: Poller) {
        assert(h2.in_bodies == h1.in_bodies);
        assert(h2.in_streams == h1.in_streams);
        assert(h2.trailers == h1.trailers);
        assert(h2.in_requests == h1.in_requests);
    }

    fn poll_data(&mut self, host: &mut Host, poller: &mut Poller, cx: &Waker) -> (r: Poll<
        Option<Result<Bytes, Error>>,
    >) {
        self.poll_incoming_body(host, poller, cx)
    }

    fn poll_trailers(&mut self, host: &mut Host, poller: &mut Poller, cx: &Waker) -> (r: Poll<
        Result<Option<FieldEntries>, Error>,
    >) {
        self.poll_incoming_trailers(host, poller, cx)
    }
}

} // verus!
