use wasi_http_guest::host::{Host, HostErrorCode};
use wasi_http_guest::incoming::IncomingHttpBody;
use wasi_http_guest::poll::{noop_waker, Poll, Poller};
use wasi_http_guest::Error;

fn setup_body(host: &mut Host) -> (IncomingHttpBody, usize, usize) {
    let b = host.new_in_body();
    let stream = host.in_bodies[b].stream;
    let trailers = host.in_bodies[b].trailers;
    let body = IncomingHttpBody::new(b, host).expect("stream not yet taken");
    (body, stream, trailers)
}

#[test]
fn body_yields_chunks_in_order_then_end_then_trailers_once() {
    let mut host = Host::new();
    let mut poller = Poller::new();
    let cx = noop_waker();
    let (mut body, stream, trailers) = setup_body(&mut host);
    host.push_chunk(stream, b"first".to_vec());
    host.push_chunk(stream, b"second".to_vec());
    host.push_chunk(stream, b"third".to_vec());
    host.close_in_stream(stream);
    host.resolve_trailers(
        trailers,
        Ok(Some(vec![("x-check".to_string(), b"sum".to_vec())])),
    );

    let mut collected: Vec<u8> = Vec::new();
    loop {
        match body.poll_incoming_body(&mut host, &mut poller, &cx) {
            Poll::Ready(Some(Ok(chunk))) => collected.extend_from_slice(&chunk[..]),
            Poll::Ready(None) => break,
            other => panic!("unexpected poll outcome: {:?}", matches!(other, Poll::Pending)),
        }
    }
    assert_eq!(collected, b"firstsecondthird".to_vec());

    // The trailers arrive exactly once.
    match body.poll_incoming_trailers(&mut host, &mut poller, &cx) {
        Poll::Ready(Ok(Some(t))) => {
            assert_eq!(
                t.into_entries(),
                vec![("x-check".to_string(), b"sum".to_vec())]
            );
        },
        _ => panic!("expected the trailer set"),
    }
    // Afterwards the body is consumed: no trailers remain.
    match body.poll_incoming_trailers(&mut host, &mut poller, &cx) {
        Poll::Ready(Ok(None)) => (),
        _ => panic!("expected no further trailers"),
    }
}

#[test]
fn body_suspends_until_data_arrives() {
    let mut host = Host::new();
    let mut poller = Poller::new();
    let cx = noop_waker();
    let (mut body, stream, _trailers) = setup_body(&mut host);
    assert!(matches!(
        body.poll_incoming_body(&mut host, &mut poller, &cx),
        Poll::Pending
    ));
    // The suspension registered a wake-up; feeding the stream makes the
    // reactor report it.
    host.push_chunk(stream, b"late".to_vec());
    let woken = poller.drive_one_step(&mut host).expect("one registration");
    assert_eq!(woken.len(), 1);
    match body.poll_incoming_body(&mut host, &mut poller, &cx) {
        Poll::Ready(Some(Ok(chunk))) => assert_eq!(&chunk[..], b"late"),
        _ => panic!("expected the late chunk"),
    }
}

#[test]
fn connection_terminated_while_fetching_trailers_means_no_trailers() {
    let mut host = Host::new();
    let mut poller = Poller::new();
    let cx = noop_waker();
    let (mut body, stream, trailers) = setup_body(&mut host);
    host.close_in_stream(stream);
    host.resolve_trailers(trailers, Err(HostErrorCode::ConnectionTerminated));
    assert!(matches!(
        body.poll_incoming_body(&mut host, &mut poller, &cx),
        Poll::Ready(None)
    ));
    // The narrow leniency: this one failure counts as "no trailers".
    assert!(matches!(
        body.poll_incoming_trailers(&mut host, &mut poller, &cx),
        Poll::Ready(Ok(None))
    ));
}

#[test]
fn other_trailer_failure_surfaces() {
    let mut host = Host::new();
    let mut poller = Poller::new();
    let cx = noop_waker();
    let (mut body, stream, trailers) = setup_body(&mut host);
    host.close_in_stream(stream);
    host.resolve_trailers(trailers, Err(HostErrorCode::Other("tls torn".to_string())));
    assert!(matches!(
        body.poll_incoming_body(&mut host, &mut poller, &cx),
        Poll::Ready(None)
    ));
    match body.poll_incoming_trailers(&mut host, &mut poller, &cx) {
        Poll::Ready(Err(Error::WasiErrorCode(m))) => assert_eq!(m, "tls torn"),
        _ => panic!("expected the failure code to surface"),
    }
}

#[test]
fn stream_failure_surfaces_and_leaves_data_phase() {
    let mut host = Host::new();
    let mut poller = Poller::new();
    let cx = noop_waker();
    let (mut body, stream, _trailers) = setup_body(&mut host);
    host.fail_in_stream(stream, "disk on fire".to_string());
    match body.poll_incoming_body(&mut host, &mut poller, &cx) {
        Poll::Ready(Some(Err(Error::WasiStreamOperationFailed(m)))) => {
            assert_eq!(m, "disk on fire");
        },
        _ => panic!("expected a stream failure"),
    }
}

#[test]
fn large_chunk_is_split_at_the_read_frame() {
    let mut host = Host::new();
    let mut poller = Poller::new();
    let cx = noop_waker();
    let (mut body, stream, _trailers) = setup_body(&mut host);
    let big = vec![7u8; 20000];
    host.push_chunk(stream, big.clone());
    let first = match body.poll_incoming_body(&mut host, &mut poller, &cx) {
        Poll::Ready(Some(Ok(chunk))) => chunk,
        _ => panic!("expected data"),
    };
    assert_eq!(first.len(), wasi_http_guest::incoming::READ_FRAME_SIZE);
    let second = match body.poll_incoming_body(&mut host, &mut poller, &cx) {
        Poll::Ready(Some(Ok(chunk))) => chunk,
        _ => panic!("expected the rest"),
    };
    assert_eq!(second.len(), 20000 - wasi_http_guest::incoming::READ_FRAME_SIZE);
    let mut all = first[..].to_vec();
    all.extend_from_slice(&second[..]);
    assert_eq!(all, big);
}

#[test]
fn consuming_a_body_twice_is_an_invalid_state() {
    let mut host = Host::new();
    let b = host.new_in_body();
    let _first = IncomingHttpBody::new(b, &mut host).expect("first take");
    assert!(matches!(
        IncomingHttpBody::new(b, &mut host),
        Err(Error::WasiInvalidState(_))
    ));
}

#[test]
fn a_trailer_fetch_can_be_run_to_completion() {
    let mut host = Host::new();
    let mut poller = Poller::new();
    let cx = noop_waker();
    let (mut body, stream, trailers) = setup_body(&mut host);
    host.close_in_stream(stream);
    assert!(matches!(
        body.poll_incoming_body(&mut host, &mut poller, &cx),
        Poll::Ready(None)
    ));
    host.resolve_trailers(trailers, Ok(None));
    // Drive the pending trailer fetch through the trampoline.
    let mut fetch = match body.state {
        wasi_http_guest::incoming::IncomingState::Trailers(t) => t,
        _ => panic!("expected the trailer phase"),
    };
    match wasi_http_guest::poll::block_on(&mut fetch, &mut host, &mut poller, &cx, 10) {
        Ok(Ok(None)) => (),
        _ => panic!("expected no trailers"),
    }
}

#[test]
fn a_finished_body_cannot_be_reopened() {
    let mut host = Host::new();
    let b = host.new_in_body();
    host.body_finish(b);
    assert!(matches!(
        IncomingHttpBody::new(b, &mut host),
        Err(Error::WasiInvalidState(_))
    ));
}
