//! The outgoing body copier: a pump moving an abstract body into a
//! destination stream resource with backpressure.
//!
//! Each step either pulls one unit from the producer, writes as many
//! buffered bytes as one permit allows, or finalizes the destination with
//! the trailers; the copier never loops internally to completion, so a
//! caller can interleave it with other work.

use vstd::prelude::*;

verus! {

use crate::Error;
use crate::body::{bytes_advance, bytes_chunk, bytes_content, bytes_len, HttpBody};
use crate::host::Host;
use crate::poll::{GuestTask, Poll, Poller, reactor_step, Waker};
use crate::wasi::OutgoingBody;
use bytes::Bytes;

/// What one copier step achieved.
pub enum Copied {
    /// This many bytes of body data were written.
    Body(usize),
    /// The trailers were delivered and the destination finalized.
    Trailers,
}

/// A pump that copies an outgoing body step by step.
pub trait OutgoingBodyCopier: Sized {
    /// What must hold of the copier between steps.
    spec fn inv(&self, host: Host, poller: Poller) -> bool;

    /// The copy completed: the destination was finalized, exactly once.
    spec fn done(&self, host: Host) -> bool;

    /// The destination body resource this copier was built for; fixed for
    /// the copier's whole life.
    spec fn target_body(&self) -> int;

    /// An upper bound on the steps that still make progress; every step
    /// reporting progress strictly decreases it.
    spec fn work_left(&self, host: Host) -> nat;

    /// The invariant survives a reactor step.
    proof fn inv_stable(&self, oh: Host, nh: Host, op: Poller, np: Poller)
        requires
            self.inv(oh, op),
            reactor_step(oh, nh, op, np),
        ensures
            self.inv(nh, np),
    ;

    /// One copy step: partial progress, completion, a failure, or
    /// suspension after registering for wake-up.
    fn poll_copy(&mut self, host: &mut Host, poller: &mut Poller, cx: &Waker) -> (r: Poll<
        Option<Result<Copied, Error>>,
    >)
        requires
            old(host).wf(),
            old(poller).wf_for(*old(host)),
            old(self).inv(*old(host), *old(poller)),
        ensures
            final(host).wf(),
            old(host).grows_to(*final(host)),
            final(poller).wf_for(*final(host)),
            old(poller).entries@.len() <= final(poller).entries@.len(),
            final(self).inv(*final(host), *final(poller)),
            final(host).outparams@ == old(host).outparams@,
            final(host).out_responses@ == old(host).out_responses@,
            final(self).target_body() == old(self).target_body(),
            r matches Poll::Ready(None) ==> final(self).done(*final(host)),
            r matches Poll::Ready(Some(Err(_))) ==> !final(self).done(*final(host)),
            r matches Poll::Ready(Some(Ok(_))) ==> final(self).work_left(*final(host)) < old(self).work_left(*old(host)),
    ;

    /// Wraps the copier as a task that runs it to completion.
    fn copy_all(self) -> (r: CopyAllFuture<Self>)
        ensures
            r.0 == self,
    {
        CopyAllFuture(self)
    }
}

/// Drives a copier until it completes, fails, or suspends.
pub struct CopyAllFuture<T>(pub T);

impl<T: OutgoingBodyCopier> GuestTask for CopyAllFuture<T> {
    type Output = Result<(), Error>;

    open spec fn task_inv(&self, host: Host, poller: Poller) -> bool {
        self.0.inv(host, poller)
    }

    open spec fn task_post(&self, host: Host, out: &Result<(), Error>) -> bool {
        out matches Ok(u) ==> self.0.done(host)
    }

    open spec fn task_token(&self) -> int {
        self.0.target_body()
    }

    proof fn task_inv_stable(&self, oh: Host, nh: Host, op: Poller, np: Poller) {
        self.0.inv_stable(oh, nh, op, np);
    }

    fn poll_task(&mut self, host: &mut Host, poller: &mut Poller, cx: &Waker) -> (r: Poll<
        Result<(), Error>,
    >)
        ensures
            r matches Poll::Ready(Ok(u)) ==> final(self).0.done(*final(host)),
            r matches Poll::Ready(Err(_)) ==> !final(self).0.done(*final(host)),
    {
        loop
            invariant
                host.wf(),
                poller.wf_for(*host),
                self.0.inv(*host, *poller),
                old(host).grows_to(*host),
                old(poller).entries@.len() <= poller.entries@.len(),
                host.outparams@ == old(host).outparams@,
                host.out_responses@ == old(host).out_responses@,
                self.0.target_body() == old(self).0.target_body(),
            decreases self.0.work_left(*host),
        {
            match self.0.poll_copy(host, poller, cx) {
                Poll::Ready(Some(Ok(_))) => (),
                Poll::Ready(Some(Err(e))) => {
                    return Poll::Ready(Err(e));
                },
                Poll::Ready(None) => {
                    return Poll::Ready(Ok(()));
                },
                Poll::Pending => {
                    return Poll::Pending;
                },
            }
        }
    }
}

/// The copier over the host's outgoing body resources: pulls from any body
/// producer, writes under the destination stream's backpressure, and
/// finalizes the destination with the producer's trailers, exactly once.
pub struct WasiOutgoingBodyCopier<B> {
    /// The body producer.
    pub src: B,
    /// The destination, owned until finalized or aborted.
    pub dest: Option<OutgoingBody>,
    /// The buffered chunk being written, nonempty.
    pub buf: Option<Bytes>,
    /// End-of-data was seen; the trailers are the next unit to pull.
    pub trailers_pending: bool,
    /// Finalizing the destination failed; the copy is over without
    /// completion.
    pub aborted: bool,
    /// The destination body this copier was built for.
    pub target: Ghost<usize>,
}

impl<B: HttpBody> WasiOutgoingBodyCopier<B> {
    /// The destination's stream index, while the destination is owned.
    pub open spec fn dest_stream(self) -> int
        recommends
            self.dest is Some,
    {
        self.dest->0.stream.idx()
    }

    /// The buffered bytes still to write.
    pub open spec fn buffered(self) -> Seq<u8> {
        match self.buf {
            Some(b) => bytes_content(b),
            None => Seq::empty(),
        }
    }

    /// Starts a copy of `src` into `dest`.
    pub fn new(src: B, dest: OutgoingBody) -> (r: Result<Self, Error>)
        ensures
            r matches Ok(c) && c.src == src && c.dest == Some(dest) && c.buf is None
                && !c.trailers_pending && !c.aborted && c.target@ == dest.body,
    {
        let ghost t = dest.body;
        Ok(
            WasiOutgoingBodyCopier {
                src,
                dest: Some(dest),
                buf: None,
                trailers_pending: false,
                aborted: false,
                target: Ghost(t),
            },
        )
    }
}

impl<B: HttpBody> OutgoingBodyCopier for WasiOutgoingBodyCopier<B> {
    open spec fn inv(&self, host: Host, poller: Poller) -> bool {
        &&& self.src.inv(host, poller)
        &&& (self.dest matches Some(d) ==> d.wf(host, poller))
        &&& (self.buf matches Some(b) ==> bytes_content(b).len() > 0)
        &&& (self.trailers_pending ==> self.src.data_done() && self.buf is None)
        &&& (self.dest is Some && !self.trailers_pending ==> !self.src.data_done())
        &&& (self.dest matches Some(d) ==> d.body == self.target@)
        &&& (self.dest is None && !self.aborted ==> (self.target@ < host.out_bodies.len()
            && host.out_bodies@[self.target@ as int].finished is Some))
        &&& (self.aborted ==> self.dest is None)
    }

    open spec fn done(&self, host: Host) -> bool {
        self.dest is None && !self.aborted && self.target@ < host.out_bodies.len()
            && host.out_bodies@[self.target@ as int].finished is Some
    }

    open spec fn target_body(&self) -> int {
        self.target@ as int
    }

    open spec fn work_left(&self, host: Host) -> nat {
        (if self.src.data_done() {
            0
        } else {
            self.src.remaining(host).len() + 1
        }) + self.buffered().len() + (if self.dest is Some {
            1nat
        } else {
            0
        })
    }

    proof fn inv_stable(&self, oh: Host, nh: Host, op: Poller, np: Poller) {
        self.src.preserved(oh, nh, op, np);
        assert(nh.out_bodies == oh.out_bodies);
        assert(nh.out_streams == oh.out_streams);
        assert(nh.pollables == oh.pollables);
    }

    /// One step of the copy.
    ///
    /// With a buffered chunk, one write permit is requested and as many of
    /// its bytes as the permit allows are written: the destination receives
    /// exactly that prefix, and the chunk advances by exactly those bytes.
    /// With nothing buffered, one unit is pulled from the producer: a data
    /// chunk is buffered and written at once; end-of-body moves on to the
    /// trailers, which finalize the destination (with none, completion is
    /// reported without any byte written). A failure while finalizing
    /// aborts the copy with the destination dropped unfinished.
    fn poll_copy(&mut self, host: &mut Host, poller: &mut Poller, cx: &Waker) -> (r: Poll<
        Option<Result<Copied, Error>>,
    >)
        ensures
            old(self).aborted ==> (r matches Poll::Ready(Some(Err(Error::WasiInvalidState(m))))
                && m@ == "body copy aborted"@ && *final(self) == *old(self) && *final(host)
                == *old(host) && *final(poller) == *old(poller)),
            !old(self).aborted && old(self).dest is None ==> (r matches Poll::Ready(None)
                && *final(self) == *old(self) && *final(host) == *old(host) && *final(poller)
                == *old(poller)),
            ({
                // Backpressure: writing from the buffered chunk under one
                // permit, bounded by the destination's capacity.
                let ds = old(self).dest_stream();
                let s = old(host).out_streams@[ds];
                let n = crate::host::min_nat(s.capacity as nat, old(self).buffered().len());
                (!old(self).aborted && old(self).dest is Some && old(self).buf is Some
                    && s.error is None && s.capacity > 0) ==> (r matches Poll::Ready(Some(Ok(
                    Copied::Body(written),
                ))) && written == n && final(host).out_streams@[ds].written@
                    == s.written@ + old(self).buffered().take(n as int) && final(host).out_streams@[ds].capacity == s.capacity - n && final(host).out_streams@[ds].error is None && final(host).out_streams@ == old(host).out_streams@.update(
                    ds,
                    final(host).out_streams@[ds],
                ) && final(self).buffered() == old(self).buffered().skip(n as int) && final(self).dest is Some && final(self).dest->0.body == old(self).dest->0.body && final(self).dest_stream() == old(self).dest_stream() && final(self).src == old(self).src)
            }),
            ({
                let ds = old(self).dest_stream();
                let s = old(host).out_streams@[ds];
                (!old(self).aborted && old(self).dest is Some && old(self).buf is Some
                    && s.error is None && s.capacity == 0) ==> (r is Pending && final(host).out_streams@ == old(host).out_streams@)
            }),
            r is Pending ==> final(host).out_streams@ == old(host).out_streams@ && (old(self).dest is Some ==> (final(self).dest is Some && final(self).dest->0.body == old(self).dest->0.body && final(self).dest_stream() == old(self).dest_stream())),
            r matches Poll::Ready(None) && old(self).dest is Some ==> (final(host).out_bodies@[old(self).dest->0.body as int].finished == Some(
                Option::<Vec<crate::host::FieldEntry>>::None,
            ) && final(host).out_streams@[old(self).dest_stream()].written == old(host).out_streams@[old(self).dest_stream()].written),
            r matches Poll::Ready(Some(Ok(Copied::Trailers))) ==> (old(self).dest is Some && (
            final(host).out_bodies@[old(self).dest->0.body as int].finished matches Some(Some(tv))
                && old(self).src.trailers_outcome(*old(host)) == Some(Some(tv.deep_view())))),
            ({
                // An exhausted producer with a determined "no trailers"
                // outcome forces the single finalize-with-none step: one
                // call, completion reported, not a byte written.
                let tb = old(self).target_body();
                (!old(self).aborted && old(self).dest is Some && old(self).buf is None && (old(self).trailers_pending || old(self).src.at_end(*old(host))) && old(self).src.trailers_outcome(*old(host)) == Some(
                    Option::<Seq<(Seq<char>, Seq<u8>)>>::None,
                ) && old(host).out_bodies@[tb].finish_error is None) ==> (r matches Poll::Ready(
                    None,
                ) && final(host).out_bodies@[tb].finished == Some(
                    Option::<Vec<crate::host::FieldEntry>>::None,
                ) && final(host).out_streams@ == old(host).out_streams@)
            }),
            ({
                // An exhausted producer with a determined trailer set forces
                // the finalize-with-trailers step, provided the host will
                // take them: valid names, no failure pending.
                let tb = old(self).target_body();
                let outc = old(self).src.trailers_outcome(*old(host));
                (!old(self).aborted && old(self).dest is Some && old(self).buf is None && (old(self).trailers_pending || old(self).src.at_end(*old(host))) && (outc matches Some(
                    Some(tv),
                ) && crate::host::all_names_valid(tv)) && old(host).out_bodies@[tb].finish_error is None) ==> (r matches Poll::Ready(Some(Ok(
                    Copied::Trailers,
                ))) && (final(host).out_bodies@[tb].finished matches Some(Some(e))
                    && Some(Some(e.deep_view())) == outc) && final(host).out_streams@ == old(host).out_streams@)
            }),
            ({
                // When a chunk is pulled and written in one step, the bytes
                // that went out are exactly a prefix of the producer's data,
                // and nothing of the rest is lost.
                let ds = old(self).dest_stream();
                (!old(self).aborted && old(self).dest is Some && old(self).buf is None && !old(self).trailers_pending) ==> (r matches Poll::Ready(Some(Ok(Copied::Body(n)))) ==> (final(host).out_streams@[ds].written@ == old(host).out_streams@[ds].written@ + old(self).src.remaining(*old(host)).take(n as int) && final(self).buffered() + final(self).src.remaining(*final(host)) == old(self).src.remaining(*old(host)).skip(
                    n as int,
                ) && final(host).out_streams@ == old(host).out_streams@.update(
                    ds,
                    final(host).out_streams@[ds],
                )))
            }),
            ({
                // Available data and write capacity mean progress: the
                // copier never suspends with both in hand.
                let ds = old(self).dest_stream();
                let s = old(host).out_streams@[ds];
                (!old(self).aborted && old(self).dest is Some && old(self).buf is None && !old(self).trailers_pending && old(self).src.remaining(*old(host)).len() > 0
                    && s.error is None && s.capacity > 0) ==> !(r is Pending)
            }),
            ({
                // A destination failure surfaces as an error, never as
                // silent suspension.
                let ds = old(self).dest_stream();
                (!old(self).aborted && old(self).dest is Some && old(self).buf is Some && old(host).out_streams@[ds].error is Some) ==> (r matches Poll::Ready(Some(Err(
                    Error::WasiStreamOperationFailed(_),
                ))))
            }),
            ({
                // No failed step finalizes the destination.
                let tb = old(self).target_body();
                (r matches Poll::Ready(Some(Err(_))) && old(self).dest is Some) ==> final(host).out_bodies@[tb].finished == old(host).out_bodies@[tb].finished
            }),
    {
        if self.aborted {
            return Poll::Ready(Some(Err(Error::WasiInvalidState("body copy aborted"))));
        }
        if self.dest.is_none() {
            return Poll::Ready(None);
        }
        let ghost mut filled: Seq<u8> = Seq::empty();
        if self.buf.is_none() && !self.trailers_pending {
            // Pull one unit from the producer.
            match self.src.poll_data(host, poller, cx) {
                Poll::Pending => {
                    return Poll::Pending;
                },
                Poll::Ready(Some(Err(e))) => {
                    return Poll::Ready(Some(Err(e)));
                },
                Poll::Ready(Some(Ok(d))) => {
                    proof {
                        filled = bytes_content(d);
                    }
                    self.buf = Some(d);
                },
                Poll::Ready(None) => {
                    // End of body; the trailers are next.
                    self.trailers_pending = true;
                },
            }
        }
        if self.trailers_pending {
            match self.src.poll_trailers(host, poller, cx) {
                Poll::Pending => {
                    return Poll::Pending;
                },
                Poll::Ready(Err(e)) => {
                    return Poll::Ready(Some(Err(e)));
                },
                Poll::Ready(Ok(trailers)) => {
                    let dest = match self.dest.take() {
                        Some(d) => d,
                        None => {
                            proof {
                                assert(false);
                            }
                            return Poll::Pending;
                        },
                    };
                    let ghost hostpre = *host;
                    let ghost pollerpre = *poller;
                    let had_trailers = match &trailers {
                        Some(_) => true,
                        None => false,
                    };
                    match dest.finish(host, poller, trailers) {
                        Ok(()) => {
                            proof {
                                self.src.preserved(hostpre, *host, pollerpre, *poller);
                            }
                            if had_trailers {
                                return Poll::Ready(Some(Ok(Copied::Trailers)));
                            } else {
                                return Poll::Ready(None);
                            }
                        },
                        Err(e) => {
                            self.aborted = true;
                            proof {
                                self.src.preserved(hostpre, *host, pollerpre, *poller);
                            }
                            return Poll::Ready(Some(Err(e)));
                        },
                    }
                },
            }
        }
        // Write as much of the buffered chunk as one permit allows.
        let ghost hostpre = *host;
        let ghost pollerpre = *poller;
        let mut d = match self.dest.take() {
            Some(d) => d,
            None => {
                proof {
                    assert(false);
                }
                OutgoingBody {
                    stream: crate::wasi::OutputStream::new(crate::wasi::OutStreamHandle { idx: 0 }),
                    body: 0,
                }
            },
        };
        let ghost dpre = d;
        let permit = match d.stream.poll_check_write(host, poller, cx) {
            Poll::Pending => {
                proof {
                    assert(d.body == dpre.body);
                    assert(d.stream.idx() == dpre.stream.idx());
                }
                self.dest = Some(d);
                proof {
                    self.src.preserved(hostpre, *host, pollerpre, *poller);
                    assert(self.dest is Some);
                    assert(self.dest->0.body == dpre.body);
                }
                return Poll::Pending;
            },
            Poll::Ready(Err(e)) => {
                self.dest = Some(d);
                proof {
                    self.src.preserved(hostpre, *host, pollerpre, *poller);
                }
                return Poll::Ready(Some(Err(e)));
            },
            Poll::Ready(Ok(p)) => {
                self.dest = Some(d);
                proof {
                    self.src.preserved(hostpre, *host, pollerpre, *poller);
                }
                p
            },
        };
        let ghost hostmid = *host;
        let ghost pollermid = *poller;
        let mut b = match self.buf.take() {
            Some(b) => b,
            None => {
                proof {
                    assert(false);
                }
                crate::body::bytes_from_vec(Vec::new())
            },
        };
        let part = bytes_chunk(&b);
        let plen = part.len();
        let ghost psize = permit.size;
        let written = match permit.write(host, part) {
            Ok(n) => n,
            Err(e) => {
                self.buf = Some(b);
                proof {
                    self.src.preserved(hostmid, *host, pollermid, *poller);
                }
                return Poll::Ready(Some(Err(e)));
            },
        };
        bytes_advance(&mut b, written);
        if bytes_len(&b) == 0 {
            self.buf = None;
        } else {
            self.buf = Some(b);
        }
        proof {
            self.src.preserved(hostmid, *host, pollermid, *poller);
            let ds = old(self).dest_stream();
            assert(plen == part@.len());
            assert(written as nat == crate::host::min_nat(psize as nat, part@.len()));
            if old(self).buf is Some {
                assert(self.src == old(self).src);
                let s0 = old(host).out_streams@[ds];
                assert(hostmid.out_streams@[ds] == s0);
                assert(permit.size == s0.capacity);
                assert(part@ == old(self).buffered());
                assert(written as nat == crate::host::min_nat(
                    s0.capacity as nat,
                    old(self).buffered().len(),
                ));
                assert(host.out_streams@[ds].written@ == s0.written@ + old(self).buffered().take(written as int));
                assert(self.buffered() == old(self).buffered().skip(written as int));
                assert(self.src.remaining(*host) == old(self).src.remaining(*old(host)));
            } else {
                assert(!self.src.data_done());
                assert(part@ == filled);
                assert(old(self).src.remaining(*old(host)).take(filled.len() as int).len()
                    == filled.len());
                assert(self.src.remaining(hostpre) == old(self).src.remaining(*old(host)).skip(
                    filled.len() as int,
                ));
                assert(self.src.remaining(*host) == self.src.remaining(hostpre));
                assert(filled.len() <= old(self).src.remaining(*old(host)).len());
                assert(old(self).src.remaining(*old(host)).skip(filled.len() as int).len()
                    == old(self).src.remaining(*old(host)).len() - filled.len());
                assert(self.src.remaining(*host).len() + part@.len() == old(self).src.remaining(
                    *old(host),
                ).len());
                assert(self.buffered().len() + written == part@.len());
            }
            assert(written >= 1);
            assert(self.work_left(*host) < old(self).work_left(*old(host)));
        }
        Poll::Ready(Some(Ok(Copied::Body(written))))
    }
}

} // verus!
