//! Guest-side wrappers over the host's capability resources.
//!
//! Each wrapper owns a resource handle together with its active readiness
//! registration, and releases the registration strictly before the resource.

use vstd::prelude::*;

verus! {

/// An HTTP request method.
#[derive(Debug, PartialEq, Eq)]
pub enum Method {
    Get,
    Head,
    Post,
    Put,
    Delete,
    Connect,
    Options,
    Trace,
    Patch,
    /// Any other token; valid only if it is made of `tchar`s.
    Other(String),
}

impl Clone for Method {
    fn clone(&self) -> (r: Self)
        ensures
            r == *self,
    {
        match self {
            Method::Get => Method::Get,
            Method::Head => Method::Head,
            Method::Post => Method::Post,
            Method::Put => Method::Put,
            Method::Delete => Method::Delete,
            Method::Connect => Method::Connect,
            Method::Options => Method::Options,
            Method::Trace => Method::Trace,
            Method::Patch => Method::Patch,
            Method::Other(s) => Method::Other(s.clone()),
        }
    }
}

/// A URI scheme.
#[derive(Debug, PartialEq, Eq)]
pub enum Scheme {
    Http,
    Https,
    /// Any other scheme; valid only if it follows the URI scheme syntax.
    Other(String),
}

impl Clone for Scheme {
    fn clone(&self) -> (r: Self)
        ensures
            r == *self,
    {
        match self {
            Scheme::Http => Scheme::Http,
            Scheme::Https => Scheme::Https,
            Scheme::Other(s) => Scheme::Other(s.clone()),
        }
    }
}

} // verus!

verus! {

use crate::Error;
use crate::host::{
    all_names_valid, clone_entries, FieldEntry, Host, PollTarget,
};
use crate::poll::{Entry, Poll, Poller, RegisteredPollable, Waker, WasiSubscribe};

/// Handle of a readable stream resource.
pub struct InStreamHandle {
    pub idx: usize,
}

/// Handle of a writable stream resource.
pub struct OutStreamHandle {
    pub idx: usize,
}

/// Handle of a pending trailer fetch resource.
pub struct TrailersHandle {
    pub idx: usize,
}

/// Handle of a pending response resource.
pub struct FutureResponseHandle {
    pub idx: usize,
}

impl WasiSubscribe for InStreamHandle {
    open spec fn target(&self) -> PollTarget {
        PollTarget::InStream(self.idx)
    }

    fn subscribe(&self, host: &mut Host) -> (p: usize) {
        host.subscribe(PollTarget::InStream(self.idx))
    }
}

impl WasiSubscribe for OutStreamHandle {
    open spec fn target(&self) -> PollTarget {
        PollTarget::OutStream(self.idx)
    }

    fn subscribe(&self, host: &mut Host) -> (p: usize) {
        host.subscribe(PollTarget::OutStream(self.idx))
    }
}

impl WasiSubscribe for TrailersHandle {
    open spec fn target(&self) -> PollTarget {
        PollTarget::Trailers(self.idx)
    }

    fn subscribe(&self, host: &mut Host) -> (p: usize) {
        host.subscribe(PollTarget::Trailers(self.idx))
    }
}

impl WasiSubscribe for FutureResponseHandle {
    open spec fn target(&self) -> PollTarget {
        PollTarget::FutureResponse(self.idx)
    }

    fn subscribe(&self, host: &mut Host) -> (p: usize) {
        host.subscribe(PollTarget::FutureResponse(self.idx))
    }
}

/// What suspension leaves behind: a fresh readiness handle for exactly this
/// resource was minted on the host, and a live registration for it was
/// appended under the waker's task; earlier registrations keep their handle
/// and task, at most moving from live to retired.
pub open spec fn registered_wakeup(
    op: Poller,
    np: Poller,
    oh: Host,
    nh: Host,
    t: PollTarget,
    task: u64,
) -> bool {
    &&& np.entries@.len() == op.entries@.len() + 1
    &&& np.entries@.last() == (Entry { handle: oh.pollables.len(), task: task, live: true })
    &&& nh.pollables@ == oh.pollables@.push(t)
    &&& forall|i: int| 0 <= i < op.entries@.len()
        ==> (#[trigger] np.entries@[i]).handle == op.entries@[i].handle && np.entries@[i].task
        == op.entries@[i].task && (np.entries@[i].live ==> op.entries@[i].live)
}

/// The reactor was left alone: no registration was added, retired or
/// changed.
pub open spec fn poller_untouched(op: Poller, np: Poller) -> bool {
    np == op
}

/// A capability resource paired with its at most one active readiness
/// registration. The registration is released strictly before the resource.
pub struct Subscribable<T> {
    /// The active registration, if any.
    pub reg: Option<RegisteredPollable>,
    /// The wrapped resource handle.
    pub inner: T,
}

impl<T: WasiSubscribe> Subscribable<T> {
    /// The wrapped resource exists and any registration index is in range.
    pub open spec fn wf(self, host: Host, poller: Poller) -> bool {
        host.target_ok(self.inner.target()) && (self.reg matches Some(t) ==> t.idx
            < poller.entries.len())
    }

    /// Wraps a resource with no registration yet.
    pub fn new(inner: T) -> (r: Self)
        ensures
            r.reg is None,
            r.inner == inner,
    {
        Subscribable { reg: None, inner }
    }

    /// Subscribes the resource and registers the fresh readiness handle
    /// under the given waker, retiring any earlier registration first.
    pub fn register_subscribe(&mut self, host: &mut Host, poller: &mut Poller, cx: &Waker)
        requires
            old(host).wf(),
            old(poller).wf_for(*old(host)),
            old(self).wf(*old(host), *old(poller)),
        ensures
            final(host).wf(),
            old(host).grows_to(*final(host)),
            final(poller).wf_for(*final(host)),
            old(poller).entries@.len() <= final(poller).entries@.len(),
            final(self).wf(*final(host), *final(poller)),
            final(self).inner == old(self).inner,
            final(host).pollables@ == old(host).pollables@.push(old(self).inner.target()),
            *final(host) == (Host { pollables: final(host).pollables, ..*old(host) }),
            final(self).reg matches Some(t) && t.idx == final(poller).entries.len() - 1,
            registered_wakeup(
                *old(poller),
                *final(poller),
                *old(host),
                *final(host),
                old(self).inner.target(),
                cx.task,
            ),
            final(poller).entries@.last() == (Entry {
                handle: old(host).pollables.len(),
                task: cx.task,
                live: true,
            }),
            final(poller).entries@.len() == (match old(self).reg {
                Some(_) => old(poller).entries@.len() + 1,
                None => old(poller).entries@.len() + 1,
            }),
            final(poller).entries@ == (match old(self).reg {
                Some(t) => old(poller).entries@.update(
                    t.idx as int,
                    (Entry { live: false, ..old(poller).entries@[t.idx as int] }),
                ),
                None => old(poller).entries@,
            }).push(
                (Entry { handle: old(host).pollables.len(), task: cx.task, live: true }),
            ),
    {
        let p = self.inner.subscribe(host);
        match self.reg.take() {
            Some(t) => poller.release(t),
            None => (),
        }
        self.reg = Some(poller.register_pollable(cx, p));
    }

    /// If the resource is ready, reports so at once; otherwise registers for
    /// wake-up and suspends.
    pub fn maybe_subscribe(&mut self, host: &mut Host, poller: &mut Poller, cx: &Waker) -> (r:
        Poll<()>)
        requires
            old(host).wf(),
            old(poller).wf_for(*old(host)),
            old(self).wf(*old(host), *old(poller)),
        ensures
            final(host).wf(),
            old(host).grows_to(*final(host)),
            final(poller).wf_for(*final(host)),
            old(poller).entries@.len() <= final(poller).entries@.len(),
            final(self).wf(*final(host), *final(poller)),
            final(self).inner == old(self).inner,
            *final(host) == (Host { pollables: final(host).pollables, ..*old(host) }),
            r is Ready <==> old(host).target_ready(old(self).inner.target()),
            r is Ready ==> *final(self) == *old(self) && *final(poller) == *old(poller),
            r is Pending ==> registered_wakeup(
                *old(poller),
                *final(poller),
                *old(host),
                *final(host),
                old(self).inner.target(),
                cx.task,
            ),
    {
        let p = self.inner.subscribe(host);
        if host.pollable_ready(p) {
            Poll::Ready(())
        } else {
            match self.reg.take() {
                Some(t) => poller.release(t),
                None => (),
            }
            self.reg = Some(poller.register_pollable(cx, p));
            Poll::Pending
        }
    }

    /// Releases the active registration, if any: explicit teardown, done
    /// strictly before the resource itself is given back to the host.
    pub fn release(&mut self, poller: &mut Poller)
        requires
            old(self).reg matches Some(t) ==> t.idx < old(poller).entries.len(),
        ensures
            final(self).reg is None,
            final(self).inner == old(self).inner,
            final(poller).entries@.len() == old(poller).entries@.len(),
            forall|i: int| 0 <= i < old(poller).entries@.len()
                ==> (#[trigger] final(poller).entries@[i]).handle == old(poller).entries@[i].handle && final(poller).entries@[i].task == old(poller).entries@[i].task && (final(poller).entries@[i].live ==> old(poller).entries@[i].live),
    {
        match self.reg.take() {
            Some(t) => poller.release(t),
            None => (),
        }
    }
}

/// An ordered list of header entries: names with raw byte values.
///
/// This is the guest's native form of a header list; `try_into_fields`
/// materialises it on the host and `from_fields` reads one back.
#[derive(Debug)]
pub struct FieldEntries(pub Vec<FieldEntry>);

impl View for FieldEntries {
    type V = Seq<(Seq<char>, Seq<u8>)>;

    open spec fn view(&self) -> Seq<(Seq<char>, Seq<u8>)> {
        self.0.deep_view()
    }
}

impl Clone for FieldEntries {
    fn clone(&self) -> (r: Self)
        ensures
            r@ == self@,
    {
        FieldEntries(clone_entries(&self.0))
    }
}

impl FieldEntries {
    /// Wraps a list of entries.
    pub fn from_entries(entries: Vec<FieldEntry>) -> (r: Self)
        ensures
            r@ == entries.deep_view(),
    {
        FieldEntries(entries)
    }

    /// Gives the entries back, in order.
    pub fn into_entries(self) -> (r: Vec<FieldEntry>)
        ensures
            r.deep_view() == self@,
    {
        self.0
    }

    /// Materialises this header list on the host, preserving order and
    /// exact byte values; fails exactly when some name is not a valid
    /// field name.
    pub fn try_into_fields(&self, host: &mut Host) -> (r: Result<usize, Error>)
        requires
            old(host).wf(),
        ensures
            final(host).wf(),
            old(host).grows_to(*final(host)),
            *final(host) == (Host { fields: final(host).fields, ..*old(host) }),
            r is Ok <==> all_names_valid(self@),
            r matches Ok(h) ==> h == old(host).fields.len() && final(host).fields.deep_view()
                == old(host).fields.deep_view().push(self@),
            r matches Err(e) ==> (e matches Error::WasiFieldsError(_)) && final(host).fields@
                == old(host).fields@,
    {
        match host.fields_from_list(&self.0) {
            Ok(h) => Ok(h),
            Err(()) => Err(Error::WasiFieldsError("invalid field name".to_owned())),
        }
    }

    /// Reads a header list back from the host, entry for entry: together
    /// with `try_into_fields` this round-trips losslessly.
    pub fn from_fields(host: &Host, fields: usize) -> (r: Self)
        requires
            host.wf(),
            fields < host.fields.len(),
        ensures
            r@ == host.fields@[fields as int].deep_view(),
    {
        FieldEntries(host.fields_entries(fields))
    }
}

/// Header round-trip: a header list materialised on the host and read back
/// is unchanged, order and exact byte values included.
pub proof fn lemma_header_round_trip(
    before: Host,
    after: Host,
    entries: FieldEntries,
    handle: usize,
    out: FieldEntries,
)
    requires
        handle == before.fields.len(),
        after.fields.deep_view() == before.fields.deep_view().push(entries@),
        out@ == after.fields@[handle as int].deep_view(),
    ensures
        out@ == entries@,
{
    assert(after.fields.deep_view().len() == after.fields@.len());
    assert(before.fields.deep_view().len() == before.fields.len());
    assert(before.fields.deep_view().push(entries@)[handle as int] == entries@);
    assert(after.fields.deep_view()[handle as int] == after.fields@[handle as int].deep_view());
}

} // verus!

verus! {

/// Chunked, non-blocking reader over a capability input stream.
pub struct InputStream {
    pub stream: Subscribable<InStreamHandle>,
}

impl InputStream {
    /// The wrapped stream exists and any registration is in range.
    pub open spec fn wf(self, host: Host, poller: Poller) -> bool {
        self.stream.wf(host, poller)
    }

    /// Index of the wrapped stream resource.
    pub open spec fn idx(self) -> int {
        self.stream.inner.idx as int
    }

    /// Wraps a stream resource.
    pub fn new(stream: InStreamHandle) -> (r: Self)
        ensures
            r.stream.inner == stream,
            r.stream.reg is None,
    {
        InputStream { stream: Subscribable::new(stream) }
    }

    /// One non-blocking read of up to `len` bytes.
    ///
    /// Data buffered on the host is returned at once, the front chunk first,
    /// split if it exceeds `len`. With nothing buffered the stream's closed
    /// signal surfaces as `WasiStreamClosed`; otherwise the task registers
    /// for wake-up and suspends.
    pub fn poll_read(
        &mut self,
        host: &mut Host,
        poller: &mut Poller,
        cx: &Waker,
        len: usize,
    ) -> (r: Poll<Result<Vec<u8>, Error>>)
        requires
            old(host).wf(),
            old(poller).wf_for(*old(host)),
            old(self).wf(*old(host), *old(poller)),
        ensures
            final(host).wf(),
            old(host).grows_to(*final(host)),
            final(poller).wf_for(*final(host)),
            old(poller).entries@.len() <= final(poller).entries@.len(),
            final(self).wf(*final(host), *final(poller)),
            final(self).idx() == old(self).idx(),
            *final(host) == (Host {
                pollables: final(host).pollables,
                in_streams: final(host).in_streams,
                ..*old(host)
            }),
            final(host).in_streams@.len() == old(host).in_streams@.len(),
            forall|k: int| 0 <= k < old(host).in_streams@.len() && k != old(self).idx()
                ==> final(host).in_streams@[k] == old(host).in_streams@[k],
            ({
                let s = old(host).in_streams@[old(self).idx()];
                let s2 = final(host).in_streams@[old(self).idx()];
                if len > 0 && s.error is Some {
                    r matches Poll::Ready(Result::Err(Error::WasiStreamOperationFailed(m)))
                        && m@ == s.error->0@ && s2.chunks_view() == s.chunks_view()
                } else if len > 0 && s.chunks_view().len() > 0 && s.chunks_view()[0].len() > 0 {
                    let c = s.chunks_view()[0];
                    let n = if c.len() <= len {
                        c.len()
                    } else {
                        len as nat
                    };
                    r matches Poll::Ready(Result::Ok(d)) && d@ == c.take(n as int) && (
                    if c.len() <= len {
                        s2.chunks_view() == s.chunks_view().drop_first()
                    } else {
                        s2.chunks_view() == s.chunks_view().update(0, c.skip(len as int))
                    })
                } else if len > 0 && s.chunks_view().len() == 0 && s.closed {
                    r matches Poll::Ready(Result::Err(Error::WasiStreamClosed)) && s2.chunks_view()
                        == s.chunks_view()
                } else {
                    r is Pending && (if len > 0 && s.chunks_view().len() > 0 {
                        s2.chunks_view() == s.chunks_view().drop_first()
                    } else {
                        s2.chunks_view() == s.chunks_view()
                    })
                }
            }),
            ({
                let s = old(host).in_streams@[old(self).idx()];
                (r is Pending ==> len == 0 || (s.error is None && !(s.chunks_view().len() > 0
                    && s.chunks_view()[0].len() > 0) && !(s.chunks_view().len() == 0 && s.closed)))
            }),
            r is Pending ==> registered_wakeup(
                *old(poller),
                *final(poller),
                *old(host),
                *final(host),
                old(self).stream.inner.target(),
                cx.task,
            ),
            !(r is Pending) ==> *final(poller) == *old(poller) && final(host).pollables@ == old(host).pollables@,
    {
        let i = self.stream.inner.idx;
        if len == 0 {
            // A zero-byte request learns nothing; treat it as not ready.
            self.stream.register_subscribe(host, poller, cx);
            return Poll::Pending;
        }
        match host.stream_read(i, len as u64) {
            Err(e) => Poll::Ready(Err(Error::wasi_stream_error(e))),
            Ok(data) => {
                if data.len() == 0 {
                    self.stream.register_subscribe(host, poller, cx);
                    Poll::Pending
                } else {
                    Poll::Ready(Ok(data))
                }
            },
        }
    }
}

/// A one-time authorisation to write up to `size` bytes to a stream.
pub struct OutputStreamPermit {
    /// Index of the stream resource the permit is drawn on.
    pub stream: usize,
    /// The capacity reported when the permit was issued.
    pub size: u64,
}

impl OutputStreamPermit {
    /// Writes as much of `contents` as the permit covers, returning how many
    /// bytes were accepted: the smaller of the permit's size and the input's
    /// length. Excess input is truncated, never an error.
    pub fn write(self, host: &mut Host, contents: &[u8]) -> (r: Result<usize, Error>)
        requires
            old(host).wf(),
            self.stream < old(host).out_streams.len(),
            self.size <= old(host).out_streams@[self.stream as int].capacity,
        ensures
            final(host).wf(),
            old(host).grows_to(*final(host)),
            *final(host) == (Host { out_streams: final(host).out_streams, ..*old(host) }),
            final(host).out_streams@.len() == old(host).out_streams@.len(),
            forall|k: int| 0 <= k < old(host).out_streams@.len() && k != self.stream
                ==> final(host).out_streams@[k] == old(host).out_streams@[k],
            ({
                let s = old(host).out_streams@[self.stream as int];
                let s2 = final(host).out_streams@[self.stream as int];
                let n = crate::host::min_nat(self.size as nat, contents@.len());
                if s.error is Some {
                    r matches Err(Error::WasiStreamOperationFailed(m)) && m@ == s.error->0@
                        && s2 == s
                } else {
                    r == Result::<usize, Error>::Ok(n as usize) && s2.written@ == s.written@
                        + contents@.take(n as int) && s2.capacity == s.capacity - n
                        && s2.error is None
                }
            }),
    {
        let len = if self.size < contents.len() as u64 {
            self.size as usize
        } else {
            contents.len()
        };
        let part = vstd::slice::slice_subrange(contents, 0, len);
        match host.stream_write(self.stream, part) {
            Ok(()) => Ok(len),
            Err(e) => Err(Error::wasi_stream_error(e)),
        }
    }

    /// The permit's capacity.
    pub fn size(&self) -> (r: u64)
        ensures
            r == self.size,
    {
        self.size
    }
}

/// Backpressure-checked writer over a capability output stream.
pub struct OutputStream {
    pub stream: Subscribable<OutStreamHandle>,
}

impl OutputStream {
    /// The wrapped stream exists and any registration is in range.
    pub open spec fn wf(self, host: Host, poller: Poller) -> bool {
        self.stream.wf(host, poller)
    }

    /// Index of the wrapped stream resource.
    pub open spec fn idx(self) -> int {
        self.stream.inner.idx as int
    }

    /// Wraps a stream resource.
    pub fn new(stream: OutStreamHandle) -> (r: Self)
        ensures
            r.stream.inner == stream,
            r.stream.reg is None,
    {
        OutputStream { stream: Subscribable::new(stream) }
    }

    /// Asks the host for the stream's write capacity. Zero capacity means
    /// backpressure: the task registers for wake-up and suspends. Otherwise
    /// a one-time permit bounded by that capacity is returned.
    pub fn poll_check_write(&mut self, host: &mut Host, poller: &mut Poller, cx: &Waker) -> (r:
        Poll<Result<OutputStreamPermit, Error>>)
        requires
            old(host).wf(),
            old(poller).wf_for(*old(host)),
            old(self).wf(*old(host), *old(poller)),
        ensures
            final(host).wf(),
            old(host).grows_to(*final(host)),
            final(poller).wf_for(*final(host)),
            old(poller).entries@.len() <= final(poller).entries@.len(),
            final(self).wf(*final(host), *final(poller)),
            final(self).idx() == old(self).idx(),
            *final(host) == (Host { pollables: final(host).pollables, ..*old(host) }),
            ({
                let s = old(host).out_streams@[old(self).idx()];
                if s.error is Some {
                    r matches Poll::Ready(Result::Err(Error::WasiStreamOperationFailed(m)))
                        && m@ == s.error->0@
                } else if s.capacity > 0 {
                    r matches Poll::Ready(Result::Ok(p)) && p.stream == old(self).idx() && p.size
                        == s.capacity
                } else {
                    r is Pending
                }
            }),
            r is Pending ==> registered_wakeup(
                *old(poller),
                *final(poller),
                *old(host),
                *final(host),
                old(self).stream.inner.target(),
                cx.task,
            ),
            !(r is Pending) ==> *final(poller) == *old(poller) && final(host).pollables@ == old(host).pollables@,
    {
        let i = self.stream.inner.idx;
        match host.stream_check_write(i) {
            Err(e) => Poll::Ready(Err(Error::wasi_stream_error(e))),
            Ok(size) => {
                if size == 0 {
                    self.stream.register_subscribe(host, poller, cx);
                    Poll::Pending
                } else {
                    Poll::Ready(Ok(OutputStreamPermit { stream: i, size }))
                }
            },
        }
    }

    /// Moves up to `len` bytes from `src` into this stream on the host side.
    /// Zero progress with the source still open registers for wake-up and
    /// suspends; the source's closed signal surfaces as `WasiStreamClosed`.
    pub fn poll_splice(
        &mut self,
        host: &mut Host,
        poller: &mut Poller,
        cx: &Waker,
        src: &InputStream,
        len: u64,
    ) -> (r: Poll<Result<u64, Error>>)
        requires
            old(host).wf(),
            old(poller).wf_for(*old(host)),
            old(self).wf(*old(host), *old(poller)),
            src.wf(*old(host), *old(poller)),
        ensures
            final(host).wf(),
            old(host).grows_to(*final(host)),
            final(poller).wf_for(*final(host)),
            old(poller).entries@.len() <= final(poller).entries@.len(),
            final(self).wf(*final(host), *final(poller)),
            final(self).idx() == old(self).idx(),
            *final(host) == (Host {
                pollables: final(host).pollables,
                in_streams: final(host).in_streams,
                out_streams: final(host).out_streams,
                ..*old(host)
            }),
            len == 0 ==> (r matches Poll::Ready(Result::Ok(n)) && n == 0 && *final(host)
                == *old(host) && *final(poller) == *old(poller)),
            len > 0 ==> ({
                let os = old(host).out_streams@[old(self).idx()];
                let is_ = old(host).in_streams@[src.idx()];
                if os.error is Some {
                    (r matches Poll::Ready(Result::Err(Error::WasiStreamOperationFailed(m)))
                        && m@ == os.error->0@) && *final(host) == *old(host)
                } else if is_.error is Some {
                    (r matches Poll::Ready(Result::Err(Error::WasiStreamOperationFailed(m)))
                        && m@ == is_.error->0@) && *final(host) == *old(host)
                } else if is_.chunks_view().len() == 0 {
                    if is_.closed {
                        (r matches Poll::Ready(Result::Err(Error::WasiStreamClosed))) && *final(host) == *old(host)
                    } else {
                        r is Pending
                    }
                } else {
                    let c = is_.chunks_view()[0];
                    let n = crate::host::min_nat(
                        crate::host::min_nat(c.len(), len as nat),
                        os.capacity as nat,
                    );
                    if n == 0 {
                        r is Pending
                    } else {
                        (r matches Poll::Ready(Result::Ok(moved)) && moved == n) && final(host).out_streams@[old(self).idx()].written@ == os.written@ + c.take(n as int)
                            && final(host).out_streams@[old(self).idx()].capacity == os.capacity
                            - n && (if n == c.len() {
                            final(host).in_streams@[src.idx()].chunks_view()
                                == is_.chunks_view().drop_first()
                        } else {
                            final(host).in_streams@[src.idx()].chunks_view()
                                == is_.chunks_view().update(0, c.skip(n as int))
                        })
                    }
                }
            }),
            r is Pending ==> registered_wakeup(
                *old(poller),
                *final(poller),
                *old(host),
                *final(host),
                old(self).stream.inner.target(),
                cx.task,
            ),
            !(r is Pending) ==> *final(poller) == *old(poller) && final(host).pollables@ == old(host).pollables@,
    {
        if len == 0 {
            return Poll::Ready(Ok(0));
        }
        let oi = self.stream.inner.idx;
        let ii = src.stream.inner.idx;
        match host.stream_splice(oi, ii, len) {
            Err(e) => Poll::Ready(Err(Error::wasi_stream_error(e))),
            Ok(size) => {
                if size == 0 {
                    self.stream.register_subscribe(host, poller, cx);
                    Poll::Pending
                } else {
                    Poll::Ready(Ok(size))
                }
            },
        }
    }

    /// Flushes the stream, then waits for it to accept more writes: ready
    /// reports completion at once, otherwise the task registers for wake-up
    /// and suspends.
    pub fn poll_flush(&mut self, host: &mut Host, poller: &mut Poller, cx: &Waker) -> (r: Poll<
        Result<(), Error>,
    >)
        requires
            old(host).wf(),
            old(poller).wf_for(*old(host)),
            old(self).wf(*old(host), *old(poller)),
        ensures
            final(host).wf(),
            old(host).grows_to(*final(host)),
            final(poller).wf_for(*final(host)),
            old(poller).entries@.len() <= final(poller).entries@.len(),
            final(self).wf(*final(host), *final(poller)),
            final(self).idx() == old(self).idx(),
            *final(host) == (Host { pollables: final(host).pollables, ..*old(host) }),
            ({
                let s = old(host).out_streams@[old(self).idx()];
                if s.error is Some {
                    r matches Poll::Ready(Result::Err(Error::WasiStreamOperationFailed(m)))
                        && m@ == s.error->0@
                } else if s.is_ready() {
                    r matches Poll::Ready(Result::Ok(u)) && u == ()
                } else {
                    r is Pending
                }
            }),
            r is Pending ==> registered_wakeup(
                *old(poller),
                *final(poller),
                *old(host),
                *final(host),
                old(self).stream.inner.target(),
                cx.task,
            ),
            !(r is Pending) ==> *final(poller) == *old(poller),
    {
        match host.stream_flush(self.stream.inner.idx) {
            Err(e) => {
                return Poll::Ready(Err(Error::wasi_stream_error(e)));
            },
            Ok(()) => (),
        }
        match self.stream.maybe_subscribe(host, poller, cx) {
            Poll::Ready(()) => Poll::Ready(Ok(())),
            Poll::Pending => Poll::Pending,
        }
    }

    /// Releases the stream's registration: explicit teardown before the
    /// stream resource itself goes away.
    pub fn release(&mut self, poller: &mut Poller)
        requires
            old(self).stream.reg matches Some(t) ==> t.idx < old(poller).entries.len(),
        ensures
            final(self).stream.reg is None,
            final(self).idx() == old(self).idx(),
            final(poller).entries@.len() == old(poller).entries@.len(),
            forall|i: int| 0 <= i < old(poller).entries@.len()
                ==> (#[trigger] final(poller).entries@[i]).handle == old(poller).entries@[i].handle && final(poller).entries@[i].task == old(poller).entries@[i].task && (final(poller).entries@[i].live ==> old(poller).entries@[i].live),
    {
        self.stream.release(poller);
    }
}

} // verus!

verus! {

use crate::host::HostErrorCode;

/// An incoming body resource together with its data stream.
///
/// The stream's registration is released strictly before the body is
/// finished and the stream given back to the host.
pub struct IncomingBody {
    /// Reader over the body's data stream.
    pub stream: InputStream,
    /// Index of the body resource.
    pub body: usize,
}

impl IncomingBody {
    /// The body exists, is not yet finished, and the wrapped stream is the
    /// body's own data stream.
    pub open spec fn wf(self, host: Host, poller: Poller) -> bool {
        self.body < host.in_bodies.len() && !host.in_bodies@[self.body as int].finished
            && self.stream.wf(host, poller) && self.stream.idx()
            == host.in_bodies@[self.body as int].stream
    }

    /// Index of the trailer fetch that finishing this body will hand out.
    pub open spec fn trailers_idx(self, host: Host) -> int {
        host.in_bodies@[self.body as int].trailers as int
    }

    /// Takes charge of a body resource, requesting its data stream; fails
    /// with an invalid-state error exactly when the stream was already
    /// handed out or the body already finished.
    pub fn new(body: usize, host: &mut Host) -> (r: Result<Self, Error>)
        requires
            old(host).wf(),
            body < old(host).in_bodies.len(),
        ensures
            final(host).wf(),
            old(host).grows_to(*final(host)),
            *final(host) == (Host { in_bodies: final(host).in_bodies, ..*old(host) }),
            r is Ok <==> (!old(host).in_bodies@[body as int].stream_taken && !old(host).in_bodies@[body as int].finished),
            r is Ok ==> !final(host).in_bodies@[body as int].finished,
            r matches Ok(b) ==> b.body == body && b.stream.stream.reg is None && b.stream.idx() == old(host).in_bodies@[body as int].stream && final(host).in_bodies@ == old(host).in_bodies@.update(
                body as int,
                (crate::host::InBodyState { stream_taken: true, ..old(host).in_bodies@[body as int] }),
            ),
            r matches Err(e) ==> (e matches Error::WasiInvalidState(m) && m@
                == "incoming-body.stream already called"@) && *final(host) == *old(host),
    {
        match host.body_stream(body) {
            Err(()) => Err(Error::WasiInvalidState("incoming-body.stream already called")),
            Ok(s) => Ok(IncomingBody {
                stream: InputStream::new(InStreamHandle { idx: s }),
                body,
            }),
        }
    }

    /// The body's data stream.
    pub fn stream(&mut self) -> (r: &mut InputStream)
        ensures
            *r == old(self).stream,
            *final(self) == (IncomingBody { stream: *final(r), body: old(self).body }),
    {
        &mut self.stream
    }

    /// Finishes the body: the stream's registration is released first, then
    /// the host hands out the pending trailer fetch.
    pub fn finish(self, host: &mut Host, poller: &mut Poller) -> (r: FutureTrailers)
        requires
            old(host).wf(),
            old(poller).wf_for(*old(host)),
            self.wf(*old(host), *old(poller)),
        ensures
            final(host).wf(),
            old(host).grows_to(*final(host)),
            final(poller).wf_for(*final(host)),
            old(poller).entries@.len() <= final(poller).entries@.len(),
            r.wf(*final(host), *final(poller)),
            r.trailers.reg is None,
            r.idx() == self.trailers_idx(*old(host)),
            *final(host) == (Host { in_bodies: final(host).in_bodies, ..*old(host) }),
            final(host).trailers@ == old(host).trailers@,
            final(poller).entries@.len() == old(poller).entries@.len(),
            forall|i: int| 0 <= i < old(poller).entries@.len()
                ==> (#[trigger] final(poller).entries@[i]).handle == old(poller).entries@[i].handle && final(poller).entries@[i].task == old(poller).entries@[i].task && (final(poller).entries@[i].live ==> old(poller).entries@[i].live),
    {
        let IncomingBody { mut stream, body } = self;
        // Explicit, ordered teardown: registration before resource.
        stream.stream.release(poller);
        let t = host.body_finish(body);
        FutureTrailers { trailers: Subscribable::new(TrailersHandle { idx: t }) }
    }
}

/// A pending trailer fetch: resolves to the trailer header list, to none, or
/// to a host failure code, exactly once.
pub struct FutureTrailers {
    pub trailers: Subscribable<TrailersHandle>,
}

impl FutureTrailers {
    /// The fetch resource exists and any registration is in range.
    pub open spec fn wf(self, host: Host, poller: Poller) -> bool {
        self.trailers.wf(host, poller)
    }

    /// Index of the trailer fetch resource.
    pub open spec fn idx(self) -> int {
        self.trailers.inner.idx as int
    }

    /// Polls the fetch. The outcome is delivered exactly once: the trailer
    /// list, none, or the host's failure code; fetching again afterwards is
    /// an invalid-state error. While the host has no outcome, the task
    /// registers for wake-up and suspends.
    pub fn poll_get(&mut self, host: &mut Host, poller: &mut Poller, cx: &Waker) -> (r: Poll<
        Result<Option<FieldEntries>, Error>,
    >)
        requires
            old(host).wf(),
            old(poller).wf_for(*old(host)),
            old(self).wf(*old(host), *old(poller)),
        ensures
            final(host).wf(),
            old(host).grows_to(*final(host)),
            final(poller).wf_for(*final(host)),
            old(poller).entries@.len() <= final(poller).entries@.len(),
            final(self).wf(*final(host), *final(poller)),
            final(self).idx() == old(self).idx(),
            *final(host) == (Host {
                pollables: final(host).pollables,
                trailers: final(host).trailers,
                ..*old(host)
            }),
            final(host).trailers@.len() == old(host).trailers@.len(),
            forall|k: int| 0 <= k < old(host).trailers@.len() && k != old(self).idx()
                ==> final(host).trailers@[k] == old(host).trailers@[k],
            ({
                let s = old(host).trailers@[old(self).idx()];
                let s2 = final(host).trailers@[old(self).idx()];
                if s.consumed {
                    (r matches Poll::Ready(Result::Err(Error::WasiInvalidState(m))) && m@
                        == "future-trailers.get already consumed"@) && s2 == s
                } else if s.resolved is Some {
                    s2.consumed && s2.resolved is None && (match s.resolved->0 {
                        Ok(Some(entries)) => r matches Poll::Ready(Result::Ok(Some(fe))) && fe@
                            == entries.deep_view(),
                        Ok(None) => r matches Poll::Ready(Result::Ok(None)),
                        Err(code) => r matches Poll::Ready(Result::Err(
                            Error::WasiErrorCode(m),
                        )) && m@ == code.message(),
                    })
                } else {
                    r is Pending && s2 == s
                }
            }),
            r is Pending ==> registered_wakeup(
                *old(poller),
                *final(poller),
                *old(host),
                *final(host),
                old(self).trailers.inner.target(),
                cx.task,
            ),
            !(r is Pending) ==> *final(poller) == *old(poller) && final(host).pollables@ == old(host).pollables@,
    {
        let i = self.trailers.inner.idx;
        match host.trailers_get(i) {
            Some(Ok(out)) => match out {
                Ok(Some(entries)) => Poll::Ready(Ok(Some(FieldEntries::from_entries(entries)))),
                Ok(None) => Poll::Ready(Ok(None)),
                Err(code) => Poll::Ready(Err(Error::wasi_error_code(code))),
            },
            Some(Err(())) => Poll::Ready(Err(Error::WasiInvalidState(
                "future-trailers.get already consumed",
            ))),
            None => {
                self.trailers.register_subscribe(host, poller, cx);
                Poll::Pending
            },
        }
    }
}

} // verus!

verus! {

/// An incoming request: start line and headers read through capability
/// accessors, body taken charge of at construction.
pub struct IncomingRequest {
    /// Index of the request resource.
    pub request: usize,
    /// The request's body.
    pub body: IncomingBody,
}

impl IncomingRequest {
    /// The request exists and the body wrapper is sound.
    pub open spec fn wf(self, host: Host, poller: Poller) -> bool {
        self.request < host.in_requests.len() && self.body.wf(host, poller)
    }

    /// Takes charge of a request resource, consuming its body; fails with
    /// an invalid-state error exactly when the body was already consumed,
    /// its stream already handed out, or the body already finished.
    pub fn new(request: usize, host: &mut Host) -> (r: Result<Self, Error>)
        requires
            old(host).wf(),
            request < old(host).in_requests.len(),
        ensures
            final(host).wf(),
            old(host).grows_to(*final(host)),
            *final(host) == (Host {
                in_requests: final(host).in_requests,
                in_bodies: final(host).in_bodies,
                ..*old(host)
            }),
            final(host).in_requests@.len() == old(host).in_requests@.len(),
            r is Ok <==> ({
                let b = old(host).in_requests@[request as int].body as int;
                !old(host).in_requests@[request as int].consumed && !old(host).in_bodies@[b].stream_taken && !old(host).in_bodies@[b].finished
            }),
            r matches Ok(q) ==> q.request == request && q.body.body == old(host).in_requests@[request as int].body && q.body.stream.stream.reg is None
                && q.body.stream.idx() == old(host).in_bodies@[old(host).in_requests@[request as int].body as int].stream && final(host).in_requests@[request as int].consumed && (forall|k: int|
                0 <= k < old(host).in_requests@.len() && k != request
                    ==> final(host).in_requests@[k] == old(host).in_requests@[k]) && (
            forall|k: int| 0 <= k < old(host).in_requests@.len()
                ==> (#[trigger] final(host).in_requests@[k]).method == old(host).in_requests@[k].method && final(host).in_requests@[k].headers == old(host).in_requests@[k].headers && final(host).in_requests@[k].path_with_query == old(host).in_requests@[k].path_with_query && final(host).in_requests@[k].scheme == old(host).in_requests@[k].scheme && final(host).in_requests@[k].authority == old(host).in_requests@[k].authority && final(host).in_requests@[k].body == old(host).in_requests@[k].body),
            r matches Err(e) ==> e matches Error::WasiInvalidState(_),
            old(host).in_requests@[request as int].consumed ==> *final(host) == *old(host),
            r is Err ==> final(host).in_bodies@ == old(host).in_bodies@,
    {
        let body = match host.request_consume(request) {
            Err(()) => {
                return Err(Error::WasiInvalidState("incoming-request.consume already called"));
            },
            Ok(b) => b,
        };
        let body = match IncomingBody::new(body, host) {
            Err(e) => {
                return Err(e);
            },
            Ok(b) => b,
        };
        Ok(IncomingRequest { request, body })
    }

    /// The request's method.
    pub fn method(&self, host: &Host) -> (m: Method)
        requires
            host.wf(),
            self.request < host.in_requests.len(),
        ensures
            m == host.in_requests@[self.request as int].method,
    {
        host.request_method(self.request)
    }

    /// The request's path and query, if any.
    pub fn path_with_query(&self, host: &Host) -> (p: Option<String>)
        requires
            host.wf(),
            self.request < host.in_requests.len(),
        ensures
            p == host.in_requests@[self.request as int].path_with_query,
    {
        host.request_path_with_query(self.request)
    }

    /// The request's scheme, if any.
    pub fn scheme(&self, host: &Host) -> (p: Option<Scheme>)
        requires
            host.wf(),
            self.request < host.in_requests.len(),
        ensures
            p == host.in_requests@[self.request as int].scheme,
    {
        host.request_scheme(self.request)
    }

    /// The request's authority, if any.
    pub fn authority(&self, host: &Host) -> (p: Option<String>)
        requires
            host.wf(),
            self.request < host.in_requests.len(),
        ensures
            p == host.in_requests@[self.request as int].authority,
    {
        host.request_authority(self.request)
    }

    /// The request's headers, order and exact byte values preserved.
    pub fn headers(&self, host: &Host) -> (h: FieldEntries)
        requires
            host.wf(),
            self.request < host.in_requests.len(),
        ensures
            h@ == host.in_requests@[self.request as int].headers.deep_view(),
    {
        FieldEntries(host.request_headers(self.request))
    }

    /// The request's body.
    pub fn body(&mut self) -> (r: &mut IncomingBody)
        ensures
            *r == old(self).body,
            *final(self) == (IncomingRequest { request: old(self).request, body: *final(r) }),
    {
        &mut self.body
    }

    /// Gives up the request, keeping only its body.
    pub fn into_body(self) -> (r: IncomingBody)
        ensures
            r == self.body,
    {
        self.body
    }
}

/// An incoming response: status and headers read through capability
/// accessors, body taken charge of at construction.
pub struct IncomingResponse {
    pub response: usize,
    pub body: IncomingBody,
}

impl IncomingResponse {
    /// The response exists and the body wrapper is sound.
    pub open spec fn wf(self, host: Host, poller: Poller) -> bool {
        self.response < host.in_responses.len() && self.body.wf(host, poller)
    }

    /// Takes charge of a response resource, consuming its body; fails with
    /// an invalid-state error exactly when the body was already consumed,
    /// its stream already handed out, or the body already finished.
    pub fn new(response: usize, host: &mut Host) -> (r: Result<Self, Error>)
        requires
            old(host).wf(),
            response < old(host).in_responses.len(),
        ensures
            final(host).wf(),
            old(host).grows_to(*final(host)),
            *final(host) == (Host {
                in_responses: final(host).in_responses,
                in_bodies: final(host).in_bodies,
                ..*old(host)
            }),
            final(host).in_responses@.len() == old(host).in_responses@.len(),
            r is Ok <==> ({
                let b = old(host).in_responses@[response as int].body as int;
                !old(host).in_responses@[response as int].consumed && !old(host).in_bodies@[b].stream_taken && !old(host).in_bodies@[b].finished
            }),
            r matches Ok(q) ==> q.response == response && q.body.body == old(host).in_responses@[response as int].body && q.body.stream.stream.reg is None
                && q.body.stream.idx() == old(host).in_bodies@[old(host).in_responses@[response as int].body as int].stream && (forall|k: int|
                0 <= k < old(host).in_responses@.len()
                    ==> (#[trigger] final(host).in_responses@[k]).status == old(host).in_responses@[k].status && final(host).in_responses@[k].headers == old(host).in_responses@[k].headers && final(host).in_responses@[k].body == old(host).in_responses@[k].body),
            r matches Err(e) ==> e matches Error::WasiInvalidState(_),
            old(host).in_responses@[response as int].consumed ==> *final(host) == *old(host),
            r is Err ==> final(host).in_bodies@ == old(host).in_bodies@,
    {
        let body = match host.response_consume(response) {
            Err(()) => {
                return Err(Error::WasiInvalidState("incoming-response.consume already called"));
            },
            Ok(b) => b,
        };
        let body = match IncomingBody::new(body, host) {
            Err(e) => {
                return Err(e);
            },
            Ok(b) => b,
        };
        Ok(IncomingResponse { response, body })
    }

    /// The response's status code.
    pub fn status(&self, host: &Host) -> (s: u16)
        requires
            host.wf(),
            self.response < host.in_responses.len(),
        ensures
            s == host.in_responses@[self.response as int].status,
    {
        host.response_status(self.response)
    }

    /// The response's headers, order and exact byte values preserved.
    pub fn headers(&self, host: &Host) -> (h: FieldEntries)
        requires
            host.wf(),
            self.response < host.in_responses.len(),
        ensures
            h@ == host.in_responses@[self.response as int].headers.deep_view(),
    {
        FieldEntries(host.response_headers(self.response))
    }

    /// The response's body.
    pub fn body(&mut self) -> (r: &mut IncomingBody)
        ensures
            *r == old(self).body,
            *final(self) == (IncomingResponse { response: old(self).response, body: *final(r) }),
    {
        &mut self.body
    }

    /// Gives up the response, keeping only its body.
    pub fn into_body(self) -> (r: IncomingBody)
        ensures
            r == self.body,
    {
        self.body
    }
}

} // verus!

verus! {

/// An outgoing body resource together with its write stream.
///
/// The stream's registration is released strictly before the body is
/// finished; the body is finished exactly once, by consuming this value.
pub struct OutgoingBody {
    /// Writer over the body's stream.
    pub stream: OutputStream,
    /// Index of the body resource.
    pub body: usize,
}

impl OutgoingBody {
    /// The body exists, is not yet finished, and the wrapped stream is the
    /// body's own write stream.
    pub open spec fn wf(self, host: Host, poller: Poller) -> bool {
        self.body < host.out_bodies.len() && host.out_bodies@[self.body as int].finished is None
            && self.stream.wf(host, poller) && self.stream.idx()
            == host.out_bodies@[self.body as int].stream
    }

    /// Takes charge of an outgoing body resource, requesting its write
    /// stream; fails with an invalid-state error exactly when the stream was
    /// already handed out.
    pub fn new(body: usize, host: &mut Host) -> (r: Result<Self, Error>)
        requires
            old(host).wf(),
            body < old(host).out_bodies.len(),
            old(host).out_bodies@[body as int].finished is None,
        ensures
            final(host).wf(),
            old(host).grows_to(*final(host)),
            *final(host) == (Host { out_bodies: final(host).out_bodies, ..*old(host) }),
            r is Ok <==> !old(host).out_bodies@[body as int].stream_taken,
            r matches Ok(b) ==> b.body == body && b.stream.stream.reg is None && b.stream.idx()
                == old(host).out_bodies@[body as int].stream && final(host).out_bodies@ == old(host).out_bodies@.update(
                body as int,
                (crate::host::OutBodyState {
                    stream_taken: true,
                    ..old(host).out_bodies@[body as int]
                }),
            ),
            r matches Err(e) ==> (e matches Error::WasiInvalidState(m) && m@
                == "outgoing-body.write already called"@) && *final(host) == *old(host),
    {
        match host.out_body_write(body) {
            Err(()) => Err(Error::WasiInvalidState("outgoing-body.write already called")),
            Ok(s) => Ok(OutgoingBody {
                stream: OutputStream::new(OutStreamHandle { idx: s }),
                body,
            }),
        }
    }

    /// The body's write stream.
    pub fn stream(&mut self) -> (r: &mut OutputStream)
        ensures
            *r == old(self).stream,
            *final(self) == (OutgoingBody { stream: *final(r), body: old(self).body }),
    {
        &mut self.stream
    }

    /// Finishes the body with the given trailers, exactly once: the stream's
    /// registration is released first, the trailers are validated, and the
    /// host records the completed body. Fails on an invalid trailer name or
    /// on a host failure code, leaving the body unfinished on the host.
    #[verifier::loop_isolation(false)]
    pub fn finish(
        self,
        host: &mut Host,
        poller: &mut Poller,
        trailers: Option<FieldEntries>,
    ) -> (r: Result<(), Error>)
        requires
            old(host).wf(),
            old(poller).wf_for(*old(host)),
            self.wf(*old(host), *old(poller)),
        ensures
            final(host).wf(),
            old(host).grows_to(*final(host)),
            final(poller).wf_for(*final(host)),
            old(poller).entries@.len() <= final(poller).entries@.len(),
            *final(host) == (Host { out_bodies: final(host).out_bodies, ..*old(host) }),
            final(host).out_bodies@.len() == old(host).out_bodies@.len(),
            forall|k: int| 0 <= k < old(host).out_bodies@.len() && k != self.body
                ==> final(host).out_bodies@[k] == old(host).out_bodies@[k],
            trailers matches Some(t) && !all_names_valid(t@) ==> (r matches Err(
                Error::WasiFieldsError(_),
            )) && final(host).out_bodies@[self.body as int].finished is None,
            ({
                let valid = match trailers {
                    Some(t) => all_names_valid(t@),
                    None => true,
                };
                let fe = old(host).out_bodies@[self.body as int].finish_error;
                valid ==> (if fe is Some {
                    (r matches Err(Error::WasiErrorCode(m)) && m@ == fe->0.message()) && final(host).out_bodies@[self.body as int].finished is None
                } else {
                    r is Ok && (final(host).out_bodies@[self.body as int].finished matches Some(
                        t,
                    ) && (match trailers {
                        Some(fs) => t matches Some(tv) && tv.deep_view() == fs@,
                        None => t is None,
                    }))
                })
            }),
            final(poller).entries@.len() == old(poller).entries@.len(),
            forall|i: int| 0 <= i < old(poller).entries@.len()
                ==> (#[trigger] final(poller).entries@[i]).handle == old(poller).entries@[i].handle && final(poller).entries@[i].task == old(poller).entries@[i].task && (final(poller).entries@[i].live ==> old(poller).entries@[i].live),
    {
        let OutgoingBody { mut stream, body } = self;
        let entries = match trailers {
            Some(fs) => {
                let mut i: usize = 0;
                let v = &fs.0;
                while i < v.len()
                    invariant
                        i <= v.len(),
                        *host == *old(host),
                        *poller == *old(poller),
                        old(host).wf(),
                        old(poller).wf_for(*old(host)),
                        forall|j: int| 0 <= j < i ==> crate::host::valid_field_name(
                            #[trigger] v.deep_view()[j].0,
                        ),
                    decreases v.len() - i,
                {
                    let ok = crate::host::check_field_name(v[i].0.as_str());
                    proof {
                        assert(v.deep_view()[i as int].0 == v@[i as int].0@);
                    }
                    if !ok {
                        proof {
                            assert(!crate::host::valid_field_name(v.deep_view()[i as int].0));
                        }
                        return Err(Error::WasiFieldsError("invalid field name".to_owned()));
                    }
                    i = i + 1;
                }
                Some(fs.0)
            },
            None => None,
        };
        // Explicit, ordered teardown: registration before resource.
        stream.release(poller);
        match host.out_body_finish(body, entries) {
            Ok(()) => Ok(()),
            Err(code) => Err(Error::wasi_error_code(code)),
        }
    }
}

/// An outgoing response under construction.
pub struct OutgoingResponse {
    /// Index of the response resource.
    pub response: usize,
    /// The response's body.
    pub body: OutgoingBody,
}

impl OutgoingResponse {
    /// The response exists and the body wrapper is sound.
    pub open spec fn wf(self, host: Host, poller: Poller) -> bool {
        self.response < host.out_responses.len() && self.body.wf(host, poller)
            && host.out_responses@[self.response as int].body == self.body.body
    }

    /// Takes charge of a response resource, requesting its body; fails with
    /// an invalid-state error exactly when the body was already handed out.
    pub fn new(response: usize, host: &mut Host) -> (r: Result<Self, Error>)
        requires
            old(host).wf(),
            response < old(host).out_responses.len(),
            old(host).out_bodies@[old(host).out_responses@[response as int].body as int].finished is None,
            !old(host).out_bodies@[old(host).out_responses@[response as int].body as int].stream_taken,
        ensures
            final(host).wf(),
            old(host).grows_to(*final(host)),
            *final(host) == (Host {
                out_responses: final(host).out_responses,
                out_bodies: final(host).out_bodies,
                ..*old(host)
            }),
            final(host).out_responses@.len() == old(host).out_responses@.len(),
            forall|k: int| 0 <= k < old(host).out_responses@.len()
                ==> (#[trigger] final(host).out_responses@[k]).status_code == old(host).out_responses@[k].status_code && final(host).out_responses@[k].headers == old(host).out_responses@[k].headers && final(host).out_responses@[k].body == old(host).out_responses@[k].body,
            r is Ok <==> !old(host).out_responses@[response as int].body_taken,
            r matches Ok(q) ==> q.response == response && q.body.body == old(host).out_responses@[response as int].body && q.body.stream.stream.reg is None
                && q.body.stream.idx() == old(host).out_bodies@[old(host).out_responses@[response as int].body as int].stream && final(host).out_bodies@[q.body.body as int].finished is None
                && final(host).out_bodies@[q.body.body as int].stream == old(host).out_bodies@[q.body.body as int].stream,
            r matches Err(e) ==> (e matches Error::WasiInvalidState(m) && m@
                == "outgoing-response.body already called"@) && *final(host) == *old(host),
    {
        let body = match host.out_response_body(response) {
            Err(()) => {
                return Err(Error::WasiInvalidState("outgoing-response.body already called"));
            },
            Ok(b) => b,
        };
        let body = match OutgoingBody::new(body, host) {
            Err(e) => {
                return Err(e);
            },
            Ok(b) => b,
        };
        Ok(OutgoingResponse { response, body })
    }

    /// Builds a response whose headers are the given list; fails exactly
    /// when some header name is invalid.
    pub fn from_headers(headers: &FieldEntries, host: &mut Host) -> (r: Result<Self, Error>)
        requires
            old(host).wf(),
        ensures
            final(host).wf(),
            old(host).grows_to(*final(host)),
            r is Ok <==> all_names_valid(headers@),
            *final(host) == (Host {
                fields: final(host).fields,
                out_streams: final(host).out_streams,
                out_bodies: final(host).out_bodies,
                out_responses: final(host).out_responses,
                ..*old(host)
            }),
            r matches Ok(q) ==> q.response == old(host).out_responses.len(),
            r matches Ok(q) ==> q.response < final(host).out_responses.len(),
            r matches Ok(q) ==> q.body.body < final(host).out_bodies.len(),
            r matches Ok(q) ==> q.body.stream.idx() < final(host).out_streams.len(),
            r matches Ok(q) ==> final(host).out_responses@[q.response as int].status_code == 200,
            r matches Ok(q) ==> final(host).out_responses@[q.response as int].headers.deep_view()
                == headers@,
            r matches Ok(q) ==> final(host).out_bodies@[q.body.body as int].finished is None,
            r matches Ok(q) ==> q.body.stream.stream.reg is None,
            r matches Ok(q) ==> q.body.body == final(host).out_responses@[q.response as int].body,
            r matches Ok(q) ==> q.body.stream.idx() == final(host).out_bodies@[q.body.body as int].stream,
            r matches Ok(q) ==> final(host).out_streams@[q.body.stream.idx()].written@ == Seq::<
                u8,
            >::empty(),
            r matches Ok(q) ==> final(host).out_streams@[q.body.stream.idx()].capacity == old(host).default_capacity,
            r matches Ok(q) ==> final(host).out_streams@[q.body.stream.idx()].error is None,
            r matches Err(e) ==> e matches Error::WasiFieldsError(_),
    {
        let fields = match headers.try_into_fields(host) {
            Err(e) => {
                return Err(e);
            },
            Ok(f) => f,
        };
        proof {
            assert(host.fields.deep_view().len() == host.fields@.len());
            assert(host.fields.deep_view()[fields as int] == headers@);
            assert(host.fields@[fields as int].deep_view() == headers@);
        }
        let response = host.new_out_response(fields);
        match Self::new(response, host) {
            Err(e) => Err(e),
            Ok(q) => Ok(q),
        }
    }

    /// Sets the response's status code; fails exactly when the host rejects
    /// the code as out of range.
    pub fn set_status_code(&mut self, host: &mut Host, status_code: u16) -> (r: Result<(), Error>)
        requires
            old(host).wf(),
            old(self).response < old(host).out_responses.len(),
        ensures
            final(host).wf(),
            old(host).grows_to(*final(host)),
            *final(self) == *old(self),
            *final(host) == (Host { out_responses: final(host).out_responses, ..*old(host) }),
            r is Ok <==> (100 <= status_code <= 999),
            r matches Ok(u) ==> final(host).out_responses@ == old(host).out_responses@.update(
                old(self).response as int,
                (crate::host::OutResponseState {
                    status_code: status_code,
                    ..old(host).out_responses@[old(self).response as int]
                }),
            ),
            r is Err ==> (*final(host) == *old(host)),
            r matches Err(e) ==> (e matches Error::WasiInvalidValue(m) && m@
                == "invalid status code"@),
    {
        match host.out_response_set_status(self.response, status_code) {
            Ok(()) => Ok(()),
            Err(()) => Err(Error::WasiInvalidValue("invalid status code")),
        }
    }

    /// The response's body.
    pub fn body(&mut self) -> (r: &mut OutgoingBody)
        ensures
            *r == old(self).body,
            *final(self) == (OutgoingResponse { response: old(self).response, body: *final(r) }),
    {
        &mut self.body
    }

    /// Gives up the response, keeping only its body.
    pub fn into_body(self) -> (r: OutgoingBody)
        ensures
            r == self.body,
    {
        self.body
    }

    /// Splits the response into its resource index and its body.
    pub(crate) fn into_parts(self) -> (r: (usize, OutgoingBody))
        ensures
            r.0 == self.response,
            r.1 == self.body,
    {
        (self.response, self.body)
    }
}

/// The out-parameter through which the guest answers one
/// request/response cycle, exactly once.
pub struct ResponseOutparam {
    /// Index of the out-parameter resource.
    pub outparam: usize,
}

impl ResponseOutparam {
    /// The out-parameter exists and is still unset.
    pub open spec fn wf(self, host: Host) -> bool {
        self.outparam < host.outparams.len()
            && host.outparams@[self.outparam as int].set_to is None
    }

    /// Takes charge of an out-parameter resource.
    pub fn new(outparam: usize) -> (r: Self)
        ensures
            r.outparam == outparam,
    {
        ResponseOutparam { outparam }
    }

    /// Delivers a successful response; what remains is to copy its body.
    pub fn set_response(self, host: &mut Host, response: OutgoingResponse) -> (r: OutgoingBody)
        requires
            old(host).wf(),
            self.wf(*old(host)),
            response.response < old(host).out_responses.len(),
        ensures
            final(host).wf(),
            old(host).grows_to(*final(host)),
            *final(host) == (Host { outparams: final(host).outparams, ..*old(host) }),
            final(host).outparams@ == old(host).outparams@.update(
                self.outparam as int,
                (crate::host::OutparamState {
                    set_to: Some(Result::<usize, HostErrorCode>::Ok(response.response)),
                }),
            ),
            r == response.body,
    {
        let (resp, body) = response.into_parts();
        host.outparam_set(self.outparam, Ok(resp));
        body
    }

    /// Reports a failure code instead of a response.
    pub fn set_error(self, host: &mut Host, err: HostErrorCode)
        requires
            old(host).wf(),
            self.wf(*old(host)),
        ensures
            final(host).wf(),
            old(host).grows_to(*final(host)),
            *final(host) == (Host { outparams: final(host).outparams, ..*old(host) }),
            final(host).outparams@ == old(host).outparams@.update(
                self.outparam as int,
                (crate::host::OutparamState {
                    set_to: Some(Result::<usize, HostErrorCode>::Err(err)),
                }),
            ),
    {
        host.outparam_set(self.outparam, Err(err));
    }
}

} // verus!

verus! {

use crate::host::{method_token_ok, scheme_token_ok};

/// An outgoing request under construction.
pub struct OutgoingRequest {
    /// Index of the request resource.
    pub request: usize,
    /// The request's body.
    pub body: OutgoingBody,
}

impl OutgoingRequest {
    /// The request exists, was not dispatched yet, and the body wrapper is
    /// sound.
    pub open spec fn wf(self, host: Host, poller: Poller) -> bool {
        self.request < host.out_requests.len() && !host.out_requests@[self.request as int].sent
            && self.body.wf(host, poller) && host.out_requests@[self.request as int].body
            == self.body.body
    }

    /// Takes charge of a request resource, requesting its body; fails with
    /// an invalid-state error exactly when the body was already handed out.
    pub fn new(request: usize, host: &mut Host) -> (r: Result<Self, Error>)
        requires
            old(host).wf(),
            request < old(host).out_requests.len(),
            !old(host).out_requests@[request as int].sent,
            old(host).out_bodies@[old(host).out_requests@[request as int].body as int].finished is None,
            !old(host).out_bodies@[old(host).out_requests@[request as int].body as int].stream_taken,
        ensures
            final(host).wf(),
            old(host).grows_to(*final(host)),
            *final(host) == (Host {
                out_requests: final(host).out_requests,
                out_bodies: final(host).out_bodies,
                ..*old(host)
            }),
            final(host).out_requests@.len() == old(host).out_requests@.len(),
            forall|k: int| 0 <= k < old(host).out_requests@.len()
                ==> (#[trigger] final(host).out_requests@[k]).method == old(host).out_requests@[k].method
                && final(host).out_requests@[k].headers == old(host).out_requests@[k].headers
                && final(host).out_requests@[k].body == old(host).out_requests@[k].body
                && final(host).out_requests@[k].sent == old(host).out_requests@[k].sent,
            r is Ok <==> !old(host).out_requests@[request as int].body_taken,
            r matches Ok(q) ==> q.request == request && q.body.body == old(host).out_requests@[request as int].body && q.body.stream.stream.reg is None
                && q.body.stream.idx() == old(host).out_bodies@[old(host).out_requests@[request as int].body as int].stream
                && final(host).out_bodies@[q.body.body as int].finished is None
                && final(host).out_bodies@[q.body.body as int].stream == old(host).out_bodies@[q.body.body as int].stream,
            r matches Err(e) ==> (e matches Error::WasiInvalidState(m) && m@
                == "outgoing-request.body already called"@) && *final(host) == *old(host),
    {
        let body = match host.out_request_body(request) {
            Err(()) => {
                return Err(Error::WasiInvalidState("outgoing-request.body already called"));
            },
            Ok(b) => b,
        };
        let body = match OutgoingBody::new(body, host) {
            Err(e) => {
                return Err(e);
            },
            Ok(b) => b,
        };
        Ok(OutgoingRequest { request, body })
    }

    /// Builds a request whose headers are the given list; fails exactly
    /// when some header name is invalid.
    pub fn from_headers(headers: &FieldEntries, host: &mut Host) -> (r: Result<Self, Error>)
        requires
            old(host).wf(),
        ensures
            final(host).wf(),
            old(host).grows_to(*final(host)),
            r is Ok <==> all_names_valid(headers@),
            r matches Ok(q) ==> q.request == old(host).out_requests.len(),
            r matches Ok(q) ==> q.request < final(host).out_requests.len(),
            r matches Ok(q) ==> q.body.body < final(host).out_bodies.len(),
            r matches Ok(q) ==> q.body.stream.idx() < final(host).out_streams.len(),
            r matches Ok(q) ==> final(host).out_requests@[q.request as int].headers.deep_view()
                == headers@,
            r matches Ok(q) ==> !final(host).out_requests@[q.request as int].sent,
            r matches Ok(q) ==> final(host).out_bodies@[q.body.body as int].finished is None,
            r matches Ok(q) ==> q.body.stream.stream.reg is None,
            r matches Ok(q) ==> q.body.body == final(host).out_requests@[q.request as int].body,
            r matches Ok(q) ==> q.body.stream.idx() == final(host).out_bodies@[q.body.body as int].stream,
            r matches Err(e) ==> e matches Error::WasiFieldsError(_),
    {
        let fields = match headers.try_into_fields(host) {
            Err(e) => {
                return Err(e);
            },
            Ok(f) => f,
        };
        proof {
            assert(host.fields.deep_view().len() == host.fields@.len());
            assert(host.fields.deep_view()[fields as int] == headers@);
            assert(host.fields@[fields as int].deep_view() == headers@);
        }
        let request = host.new_out_request(fields);
        match Self::new(request, host) {
            Err(e) => Err(e),
            Ok(q) => Ok(q),
        }
    }

    /// Sets the request's method; fails exactly when the host rejects the
    /// token as malformed.
    pub fn set_method(&mut self, host: &mut Host, method: Method) -> (r: Result<(), Error>)
        requires
            old(host).wf(),
            old(self).request < old(host).out_requests.len(),
        ensures
            final(host).wf(),
            old(host).grows_to(*final(host)),
            *final(self) == *old(self),
            *final(host) == (Host { out_requests: final(host).out_requests, ..*old(host) }),
            r is Ok <==> method_token_ok(method),
            r matches Ok(u) ==> final(host).out_requests@ == old(host).out_requests@.update(
                old(self).request as int,
                (crate::host::OutRequestState {
                    method: Some(method),
                    ..old(host).out_requests@[old(self).request as int]
                }),
            ),
            r is Err ==> *final(host) == *old(host),
            r matches Err(e) ==> (e matches Error::WasiInvalidValue(m) && m@
                == "invalid method"@),
    {
        match host.out_request_set_method(self.request, &method) {
            Ok(()) => Ok(()),
            Err(()) => Err(Error::WasiInvalidValue("invalid method")),
        }
    }

    /// Sets the request's path and query.
    pub fn set_path_with_query(&mut self, host: &mut Host, path_with_query: Option<&str>) -> (r:
        Result<(), Error>)
        requires
            old(host).wf(),
            old(self).request < old(host).out_requests.len(),
        ensures
            final(host).wf(),
            old(host).grows_to(*final(host)),
            *final(self) == *old(self),
            *final(host) == (Host { out_requests: final(host).out_requests, ..*old(host) }),
            r is Ok,
            final(host).out_requests@ == old(host).out_requests@.update(
                old(self).request as int,
                (crate::host::OutRequestState {
                    path_with_query: final(host).out_requests@[old(self).request as int].path_with_query,
                    ..old(host).out_requests@[old(self).request as int]
                }),
            ),
            final(host).out_requests@[old(self).request as int].path_with_query is Some
                <==> path_with_query is Some,
            path_with_query is Some ==> final(host).out_requests@[old(self).request as int].path_with_query->0@ == path_with_query->0@,
    {
        match host.out_request_set_path_with_query(self.request, path_with_query) {
            Ok(()) => Ok(()),
            Err(()) => Err(Error::WasiInvalidValue("invalid path_with_query")),
        }
    }

    /// Sets the request's scheme; fails exactly when the host rejects the
    /// token as malformed.
    pub fn set_scheme(&mut self, host: &mut Host, scheme: Option<Scheme>) -> (r: Result<(), Error>)
        requires
            old(host).wf(),
            old(self).request < old(host).out_requests.len(),
        ensures
            final(host).wf(),
            old(host).grows_to(*final(host)),
            *final(self) == *old(self),
            *final(host) == (Host { out_requests: final(host).out_requests, ..*old(host) }),
            r is Ok <==> (scheme matches Some(sc) ==> scheme_token_ok(sc)),
            r is Ok ==> (final(host).out_requests@[old(self).request as int].scheme == scheme && final(host).out_requests@ == old(host).out_requests@.update(
                old(self).request as int,
                (crate::host::OutRequestState {
                    scheme: scheme,
                    ..old(host).out_requests@[old(self).request as int]
                }),
            )),
            r is Err ==> *final(host) == *old(host),
            r matches Err(e) ==> (e matches Error::WasiInvalidValue(m) && m@
                == "invalid scheme"@),
    {
        let r = match &scheme {
            Some(sc) => host.out_request_set_scheme(self.request, Some(sc)),
            None => host.out_request_set_scheme(self.request, None),
        };
        match r {
            Ok(()) => Ok(()),
            Err(()) => Err(Error::WasiInvalidValue("invalid scheme")),
        }
    }

    /// Sets the request's authority.
    pub fn set_authority(&mut self, host: &mut Host, authority: Option<&str>) -> (r: Result<
        (),
        Error,
    >)
        requires
            old(host).wf(),
            old(self).request < old(host).out_requests.len(),
        ensures
            final(host).wf(),
            old(host).grows_to(*final(host)),
            *final(self) == *old(self),
            *final(host) == (Host { out_requests: final(host).out_requests, ..*old(host) }),
            r is Ok,
            final(host).out_requests@ == old(host).out_requests@.update(
                old(self).request as int,
                (crate::host::OutRequestState {
                    authority: final(host).out_requests@[old(self).request as int].authority,
                    ..old(host).out_requests@[old(self).request as int]
                }),
            ),
            final(host).out_requests@[old(self).request as int].authority is Some
                <==> authority is Some,
            authority is Some ==> final(host).out_requests@[old(self).request as int].authority->0@ == authority->0@,
    {
        match host.out_request_set_authority(self.request, authority) {
            Ok(()) => Ok(()),
            Err(()) => Err(Error::WasiInvalidValue("invalid authority")),
        }
    }

    /// Dispatches the request to the host's outgoing handler. On success the
    /// body remains to be copied while the response arrives through a
    /// pending response resource; a failure code reported by the handler
    /// surfaces at once.
    pub fn send(self, host: &mut Host) -> (r: Result<ActiveOutgoingRequest, Error>)
        requires
            old(host).wf(),
            self.request < old(host).out_requests.len(),
            !old(host).out_requests@[self.request as int].sent,
            self.body.body < old(host).out_bodies.len(),
        ensures
            final(host).wf(),
            old(host).grows_to(*final(host)),
            *final(host) == (Host {
                out_requests: final(host).out_requests,
                future_responses: final(host).future_responses,
                handler_error: final(host).handler_error,
                ..*old(host)
            }),
            r is Ok <==> old(host).handler_error is None,
            final(host).handler_error is None,
            r matches Ok(a) ==> a.body == self.body && a.future_response.inner.reg is None
                && a.future_response.idx() == old(host).future_responses.len() && final(host).future_responses@ == old(host).future_responses@.push(
                (crate::host::FutureResponseState { resolved: None, consumed: false }),
            ) && final(host).out_requests@ == old(host).out_requests@.update(
                self.request as int,
                (crate::host::OutRequestState {
                    sent: true,
                    ..old(host).out_requests@[self.request as int]
                }),
            ),
            r matches Err(e) ==> (e matches Error::WasiErrorCode(m) && m@ == old(host).handler_error->0.message()),
    {
        let OutgoingRequest { request, body } = self;
        match host.out_request_handle(request) {
            Err(code) => Err(Error::wasi_error_code(code)),
            Ok(f) => Ok(ActiveOutgoingRequest {
                body,
                future_response: FutureIncomingResponse {
                    inner: Subscribable::new(FutureResponseHandle { idx: f }),
                },
            }),
        }
    }
}

/// A dispatched request: its body still to be streamed, its response still
/// to arrive.
pub struct ActiveOutgoingRequest {
    pub body: OutgoingBody,
    pub future_response: FutureIncomingResponse,
}

impl ActiveOutgoingRequest {
    /// The request's body.
    pub fn body(&mut self) -> (r: &mut OutgoingBody)
        ensures
            *r == old(self).body,
            *final(self) == (ActiveOutgoingRequest {
                body: *final(r),
                future_response: old(self).future_response,
            }),
    {
        &mut self.body
    }

    /// Splits into the body to stream and the response to await.
    pub fn into_parts(self) -> (r: (OutgoingBody, FutureIncomingResponse))
        ensures
            r.0 == self.body,
            r.1 == self.future_response,
    {
        (self.body, self.future_response)
    }
}

/// A pending incoming response to a dispatched request.
pub struct FutureIncomingResponse {
    pub inner: Subscribable<FutureResponseHandle>,
}

impl FutureIncomingResponse {
    /// The resource exists and any registration is in range.
    pub open spec fn wf(self, host: Host, poller: Poller) -> bool {
        self.inner.wf(host, poller)
    }

    /// Index of the pending response resource.
    pub open spec fn idx(self) -> int {
        self.inner.inner.idx as int
    }

    /// Polls for the response. The outcome is delivered exactly once: the
    /// incoming response (whose body this call takes charge of), or the
    /// host's failure code; polling again afterwards is an invalid-state
    /// error. While the host has no outcome, the task registers for wake-up
    /// and suspends.
    pub fn poll_get(&mut self, host: &mut Host, poller: &mut Poller, cx: &Waker) -> (r: Poll<
        Result<IncomingResponse, Error>,
    >)
        requires
            old(host).wf(),
            old(poller).wf_for(*old(host)),
            old(self).wf(*old(host), *old(poller)),
        ensures
            final(host).wf(),
            old(host).grows_to(*final(host)),
            final(poller).wf_for(*final(host)),
            old(poller).entries@.len() <= final(poller).entries@.len(),
            final(self).wf(*final(host), *final(poller)),
            final(self).idx() == old(self).idx(),
            final(host).outparams@ == old(host).outparams@,
            final(host).out_responses@ == old(host).out_responses@,
            final(host).future_responses@[old(self).idx()].resolved is None || *final(host) == (
            Host { pollables: final(host).pollables, ..*old(host) }),
            ({
                let s = old(host).future_responses@[old(self).idx()];
                if s.consumed {
                    (r matches Poll::Ready(Result::Err(Error::WasiInvalidState(m))) && m@
                        == "future-incoming-response polled after completion"@)
                } else if s.resolved is Some {
                    match s.resolved->0 {
                        Ok(resp) => {
                            let b = old(host).in_responses@[resp as int].body as int;
                            if !old(host).in_responses@[resp as int].consumed && !old(host).in_bodies@[b].stream_taken && !old(host).in_bodies@[b].finished {
                                r matches Poll::Ready(Result::Ok(q)) && q.response == resp
                            } else {
                                r matches Poll::Ready(Result::Err(Error::WasiInvalidState(_)))
                            }
                        },
                        Err(code) => r matches Poll::Ready(Result::Err(Error::WasiErrorCode(m)))
                            && m@ == code.message(),
                    }
                } else {
                    r is Pending
                }
            }),
            r is Pending ==> registered_wakeup(
                *old(poller),
                *final(poller),
                *old(host),
                *final(host),
                old(self).inner.inner.target(),
                cx.task,
            ),
            !(r is Pending) ==> *final(poller) == *old(poller) && final(host).pollables@ == old(host).pollables@,
    {
        let i = self.inner.inner.idx;
        match host.future_response_get(i) {
            Some(Ok(out)) => match out {
                Ok(resp) => match IncomingResponse::new(resp, host) {
                    Ok(q) => Poll::Ready(Ok(q)),
                    Err(e) => Poll::Ready(Err(e)),
                },
                Err(code) => Poll::Ready(Err(Error::wasi_error_code(code))),
            },
            Some(Err(())) => Poll::Ready(Err(Error::WasiInvalidState(
                "future-incoming-response polled after completion",
            ))),
            None => {
                self.inner.register_subscribe(host, poller, cx);
                Poll::Pending
            },
        }
    }
}

} // verus!

verus! {

use crate::poll::GuestTask;

impl GuestTask for FutureTrailers {
    type Output = Result<Option<FieldEntries>, Error>;

    open spec fn task_inv(&self, host: Host, poller: Poller) -> bool {
        self.wf(host, poller)
    }

    open spec fn task_post(&self, host: Host, out: &Result<Option<FieldEntries>, Error>) -> bool {
        out is Ok ==> 0 <= self.idx() < host.trailers.len() && host.trailers@[self.idx()].consumed
    }

    open spec fn task_token(&self) -> int {
        self.idx()
    }

    proof fn task_inv_stable(&self, oh: Host, nh: Host, op: Poller, np: Poller) {
        assert(nh.trailers == oh.trailers);
        assert(nh.pollables == oh.pollables);
    }

    fn poll_task(&mut self, host: &mut Host, poller: &mut Poller, cx: &Waker) -> (r: Poll<
        Result<Option<FieldEntries>, Error>,
    >) {
        self.poll_get(host, poller, cx)
    }
}

impl GuestTask for FutureIncomingResponse {
    type Output = Result<IncomingResponse, Error>;

    open spec fn task_inv(&self, host: Host, poller: Poller) -> bool {
        self.wf(host, poller)
    }

    open spec fn task_post(&self, host: Host, out: &Result<IncomingResponse, Error>) -> bool {
        out matches Ok(q) ==> q.response < host.in_responses.len()
    }

    open spec fn task_token(&self) -> int {
        self.idx()
    }

    proof fn task_inv_stable(&self, oh: Host, nh: Host, op: Poller, np: Poller) {
        assert(nh.future_responses == oh.future_responses);
        assert(nh.pollables == oh.pollables);
    }

    fn poll_task(&mut self, host: &mut Host, poller: &mut Poller, cx: &Waker) -> (r: Poll<
        Result<IncomingResponse, Error>,
    >) {
        self.poll_get(host, poller, cx)
    }
}

} // verus!
