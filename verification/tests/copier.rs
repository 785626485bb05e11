use wasi_http_guest::body::FullBody;
use wasi_http_guest::host::Host;
use wasi_http_guest::outgoing::{Copied, OutgoingBodyCopier, WasiOutgoingBodyCopier};
use wasi_http_guest::poll::{block_on, noop_waker, Poll, Poller};
use wasi_http_guest::wasi::{FieldEntries, OutgoingBody};
use wasi_http_guest::Error;

fn setup_dest(host: &mut Host) -> (OutgoingBody, usize, usize) {
    let b = host.new_out_body();
    let stream = host.out_bodies[b].stream;
    let dest = OutgoingBody::new(b, host).expect("stream not yet taken");
    (dest, b, stream)
}

#[test]
fn zero_length_body_finalizes_once_with_no_trailers_and_no_bytes() {
    let mut host = Host::new();
    let mut poller = Poller::new();
    let cx = noop_waker();
    let (dest, b, stream) = setup_dest(&mut host);
    let src = FullBody::new(Vec::new(), None);
    let mut copier = WasiOutgoingBodyCopier::new(src, dest).expect("copier");
    // Exactly one step: completion, no byte written, finalized with none.
    assert!(matches!(
        copier.poll_copy(&mut host, &mut poller, &cx),
        Poll::Ready(None)
    ));
    assert_eq!(host.out_streams[stream].written.len(), 0);
    assert!(matches!(host.out_bodies[b].finished, Some(None)));
    // A later step still reports completion and changes nothing.
    assert!(matches!(
        copier.poll_copy(&mut host, &mut poller, &cx),
        Poll::Ready(None)
    ));
    assert!(matches!(host.out_bodies[b].finished, Some(None)));
}

#[test]
fn backpressure_splits_a_chunk_into_permits_summing_to_its_length() {
    let mut host = Host::new();
    let mut poller = Poller::new();
    let cx = noop_waker();
    let (dest, b, stream) = setup_dest(&mut host);
    host.add_write_capacity(stream, 4);
    let payload = b"0123456789".to_vec();
    let src = FullBody::new(payload.clone(), None);
    let mut copier = WasiOutgoingBodyCopier::new(src, dest).expect("copier");

    let mut permit_sizes: Vec<usize> = Vec::new();
    // First permit: bounded by the capacity of 4.
    match copier.poll_copy(&mut host, &mut poller, &cx) {
        Poll::Ready(Some(Ok(Copied::Body(n)))) => permit_sizes.push(n),
        _ => panic!("expected a partial write"),
    }
    assert_eq!(permit_sizes, vec![4]);
    // No capacity left: the copier suspends rather than buffering ahead.
    assert!(matches!(
        copier.poll_copy(&mut host, &mut poller, &cx),
        Poll::Pending
    ));
    host.add_write_capacity(stream, 4);
    let woken = poller.drive_one_step(&mut host).expect("registered");
    assert_eq!(woken.len(), 1);
    match copier.poll_copy(&mut host, &mut poller, &cx) {
        Poll::Ready(Some(Ok(Copied::Body(n)))) => permit_sizes.push(n),
        _ => panic!("expected a partial write"),
    }
    host.add_write_capacity(stream, 100);
    match copier.poll_copy(&mut host, &mut poller, &cx) {
        Poll::Ready(Some(Ok(Copied::Body(n)))) => permit_sizes.push(n),
        _ => panic!("expected the last write"),
    }
    // The permits sum to exactly the chunk's length, in order.
    assert_eq!(permit_sizes, vec![4, 4, 2]);
    assert_eq!(host.out_streams[stream].written, payload);
    // Only then is the body finalized.
    assert!(matches!(
        copier.poll_copy(&mut host, &mut poller, &cx),
        Poll::Ready(None)
    ));
    assert!(matches!(host.out_bodies[b].finished, Some(None)));
}

#[test]
fn trailers_are_delivered_to_the_destination() {
    let mut host = Host::new();
    let mut poller = Poller::new();
    let cx = noop_waker();
    let (dest, b, stream) = setup_dest(&mut host);
    host.add_write_capacity(stream, 1024);
    let trailers = FieldEntries::from_entries(vec![("x-trace".to_string(), b"abc".to_vec())]);
    let src = FullBody::new(b"payload".to_vec(), Some(trailers));
    let copier = WasiOutgoingBodyCopier::new(src, dest).expect("copier");
    let mut task = copier.copy_all();
    let r = block_on(&mut task, &mut host, &mut poller, &cx, 1000);
    assert!(matches!(r, Ok(Ok(()))));
    assert_eq!(host.out_streams[stream].written, b"payload".to_vec());
    match &host.out_bodies[b].finished {
        Some(Some(t)) => assert_eq!(t, &vec![("x-trace".to_string(), b"abc".to_vec())]),
        other => panic!("expected trailers, got {:?}", other.is_some()),
    }
}

#[test]
fn a_failing_producer_aborts_the_copy_with_its_error() {
    let mut host = Host::new();
    let mut poller = Poller::new();
    let cx = noop_waker();
    let (dest, b, _stream) = setup_dest(&mut host);
    // The producer is an incoming body whose stream fails outright.
    let src_body = host.new_in_body();
    let src_stream = host.in_bodies[src_body].stream;
    host.fail_in_stream(src_stream, "connection reset".to_string());
    let src = wasi_http_guest::incoming::IncomingHttpBody::new(src_body, &mut host)
        .expect("fresh body");
    let mut copier = WasiOutgoingBodyCopier::new(src, dest).expect("copier");
    match copier.poll_copy(&mut host, &mut poller, &cx) {
        Poll::Ready(Some(Err(Error::WasiStreamOperationFailed(m)))) => {
            assert_eq!(m, "connection reset");
        },
        _ => panic!("expected the producer's failure"),
    }
    // The destination was not finalized by the failed copy.
    assert!(host.out_bodies[b].finished.is_none());
}
