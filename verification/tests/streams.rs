use wasi_http_guest::host::{Host, PollTarget};
use wasi_http_guest::poll::{noop_waker, Poll, Poller};
use wasi_http_guest::wasi::{InStreamHandle, InputStream, OutStreamHandle, OutputStream};
use wasi_http_guest::Error;

#[test]
fn a_permit_truncates_excess_input_and_reports_bytes_written() {
    let mut host = Host::new();
    let mut poller = Poller::new();
    let cx = noop_waker();
    let s = host.new_out_stream();
    host.add_write_capacity(s, 3);
    let mut out = OutputStream::new(OutStreamHandle { idx: s });
    let permit = match out.poll_check_write(&mut host, &mut poller, &cx) {
        Poll::Ready(Ok(p)) => p,
        _ => panic!("capacity was granted"),
    };
    assert_eq!(permit.size(), 3);
    let n = permit.write(&mut host, b"abcdef").expect("write");
    assert_eq!(n, 3);
    assert_eq!(host.out_streams[s].written, b"abc".to_vec());
    assert_eq!(host.out_streams[s].capacity, 0);
    // With the budget exhausted, the next permit request suspends.
    assert!(matches!(
        out.poll_check_write(&mut host, &mut poller, &cx),
        Poll::Pending
    ));
}

#[test]
fn a_failed_stream_reports_the_operation_failure() {
    let mut host = Host::new();
    let mut poller = Poller::new();
    let cx = noop_waker();
    let s = host.new_out_stream();
    host.fail_out_stream(s, "backend gone".to_string());
    let mut out = OutputStream::new(OutStreamHandle { idx: s });
    match out.poll_check_write(&mut host, &mut poller, &cx) {
        Poll::Ready(Err(Error::WasiStreamOperationFailed(m))) => {
            assert_eq!(m, "backend gone");
        },
        _ => panic!("expected the failure"),
    }
}

#[test]
fn splice_moves_bytes_bounded_by_capacity_and_request() {
    let mut host = Host::new();
    let mut poller = Poller::new();
    let cx = noop_waker();
    let si = host.new_in_stream();
    let so = host.new_out_stream();
    host.push_chunk(si, b"0123456789".to_vec());
    host.add_write_capacity(so, 6);
    let input = InputStream::new(InStreamHandle { idx: si });
    let mut out = OutputStream::new(OutStreamHandle { idx: so });
    // Bounded by the requested length.
    match out.poll_splice(&mut host, &mut poller, &cx, &input, 4) {
        Poll::Ready(Ok(n)) => assert_eq!(n, 4),
        _ => panic!("expected four bytes spliced"),
    }
    // Then bounded by the remaining capacity of two.
    match out.poll_splice(&mut host, &mut poller, &cx, &input, 100) {
        Poll::Ready(Ok(n)) => assert_eq!(n, 2),
        _ => panic!("expected two bytes spliced"),
    }
    assert_eq!(host.out_streams[so].written, b"012345".to_vec());
    // A zero-length splice completes at once with nothing moved.
    match out.poll_splice(&mut host, &mut poller, &cx, &input, 0) {
        Poll::Ready(Ok(n)) => assert_eq!(n, 0),
        _ => panic!("expected an empty splice"),
    }
}

#[test]
fn splice_reports_the_closed_source() {
    let mut host = Host::new();
    let mut poller = Poller::new();
    let cx = noop_waker();
    let si = host.new_in_stream();
    let so = host.new_out_stream();
    host.close_in_stream(si);
    host.add_write_capacity(so, 10);
    let input = InputStream::new(InStreamHandle { idx: si });
    let mut out = OutputStream::new(OutStreamHandle { idx: so });
    assert!(matches!(
        out.poll_splice(&mut host, &mut poller, &cx, &input, 5),
        Poll::Ready(Err(Error::WasiStreamClosed))
    ));
}

#[test]
fn flush_completes_on_a_ready_stream_and_suspends_otherwise() {
    let mut host = Host::new();
    let mut poller = Poller::new();
    let cx = noop_waker();
    let s = host.new_out_stream();
    let mut out = OutputStream::new(OutStreamHandle { idx: s });
    // No capacity: flushed, but the stream is not ready for more writes.
    assert!(matches!(
        out.poll_flush(&mut host, &mut poller, &cx),
        Poll::Pending
    ));
    host.add_write_capacity(s, 1);
    assert!(matches!(
        out.poll_flush(&mut host, &mut poller, &cx),
        Poll::Ready(Ok(()))
    ));
}

#[test]
fn a_read_on_a_drained_closed_stream_reports_closed() {
    let mut host = Host::new();
    let mut poller = Poller::new();
    let cx = noop_waker();
    let s = host.new_in_stream();
    host.push_chunk(s, b"tail".to_vec());
    host.close_in_stream(s);
    let mut input = InputStream::new(InStreamHandle { idx: s });
    match input.poll_read(&mut host, &mut poller, &cx, 100) {
        Poll::Ready(Ok(d)) => assert_eq!(d, b"tail".to_vec()),
        _ => panic!("expected the buffered tail"),
    }
    assert!(matches!(
        input.poll_read(&mut host, &mut poller, &cx, 100),
        Poll::Ready(Err(Error::WasiStreamClosed))
    ));
}

#[test]
fn readiness_handles_report_their_resource() {
    let mut host = Host::new();
    let s = host.new_in_stream();
    let p = host.subscribe(PollTarget::InStream(s));
    assert!(!host.pollable_ready(p));
    host.push_chunk(s, vec![1]);
    assert!(host.pollable_ready(p));
}
