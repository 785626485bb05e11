use wasi_http_guest::body::FullBody;
use wasi_http_guest::host::{Host, HostErrorCode};
use wasi_http_guest::outgoing::{OutgoingBodyCopier, WasiOutgoingBodyCopier};
use wasi_http_guest::poll::{block_on, noop_waker, Poll, Poller};
use wasi_http_guest::wasi::{FieldEntries, Method, OutgoingRequest, Scheme};
use wasi_http_guest::Error;

#[test]
fn an_outbound_request_is_built_sent_and_answered() {
    let mut host = Host::new();
    let mut poller = Poller::new();
    let cx = noop_waker();
    host.set_default_capacity(1024);

    let headers = FieldEntries::from_entries(vec![("accept".to_string(), b"*/*".to_vec())]);
    let mut req = OutgoingRequest::from_headers(&headers, &mut host).expect("valid names");
    req.set_method(&mut host, Method::Get).expect("method");
    req.set_scheme(&mut host, Some(Scheme::Https)).expect("scheme");
    req.set_authority(&mut host, Some("example.test")).expect("authority");
    req.set_path_with_query(&mut host, Some("/data?x=1")).expect("path");

    let active = req.send(&mut host).expect("dispatched");
    let (body, mut future_response) = active.into_parts();

    // Stream the (empty) request body out.
    let copier = WasiOutgoingBodyCopier::new(FullBody::new(Vec::new(), None), body)
        .expect("copier");
    let mut task = copier.copy_all();
    assert!(matches!(
        block_on(&mut task, &mut host, &mut poller, &cx, 100),
        Ok(Ok(()))
    ));

    // Nothing has answered yet: polling suspends.
    assert!(matches!(
        future_response.poll_get(&mut host, &mut poller, &cx),
        Poll::Pending
    ));

    // The host answers with a 204 response.
    let f = host.out_requests[0].body; // request body resource
    assert!(host.out_bodies[f].finished.is_some());
    let resp = host.new_incoming_response(204, Vec::new());
    host.resolve_future_response(0, Ok(resp));
    let woken = poller.drive_one_step(&mut host).expect("a registration");
    assert_eq!(woken.len(), 1);
    let incoming = match future_response.poll_get(&mut host, &mut poller, &cx) {
        Poll::Ready(Ok(r)) => r,
        _ => panic!("expected the response"),
    };
    assert_eq!(incoming.status(&host), 204);
    assert_eq!(incoming.headers(&host).into_entries().len(), 0);
}

#[test]
fn a_handler_failure_surfaces_at_dispatch() {
    let mut host = Host::new();
    host.set_default_capacity(16);
    let headers = FieldEntries::from_entries(Vec::new());
    let req = OutgoingRequest::from_headers(&headers, &mut host).expect("valid");
    host.set_handler_error(HostErrorCode::Other("no route".to_string()));
    match req.send(&mut host) {
        Err(Error::WasiErrorCode(m)) => assert_eq!(m, "no route"),
        _ => panic!("expected the handler's failure code"),
    }
}

#[test]
fn a_malformed_method_token_is_rejected() {
    let mut host = Host::new();
    host.set_default_capacity(16);
    let headers = FieldEntries::from_entries(Vec::new());
    let mut req = OutgoingRequest::from_headers(&headers, &mut host).expect("valid");
    assert!(matches!(
        req.set_method(&mut host, Method::Other("not a token".to_string())),
        Err(Error::WasiInvalidValue(_))
    ));
    assert!(matches!(
        req.set_method(&mut host, Method::Other("PATCHY".to_string())),
        Ok(())
    ));
}

#[test]
fn a_malformed_scheme_is_rejected() {
    let mut host = Host::new();
    host.set_default_capacity(16);
    let headers = FieldEntries::from_entries(Vec::new());
    let mut req = OutgoingRequest::from_headers(&headers, &mut host).expect("valid");
    assert!(matches!(
        req.set_scheme(&mut host, Some(Scheme::Other("1bad".to_string()))),
        Err(Error::WasiInvalidValue(_))
    ));
    assert!(matches!(
        req.set_scheme(&mut host, Some(Scheme::Other("coap+tcp".to_string()))),
        Ok(())
    ));
}

#[test]
fn an_out_of_range_status_code_is_rejected() {
    let mut host = Host::new();
    host.set_default_capacity(16);
    let headers = FieldEntries::from_entries(Vec::new());
    let mut resp =
        wasi_http_guest::wasi::OutgoingResponse::from_headers(&headers, &mut host).expect("valid");
    assert!(matches!(
        resp.set_status_code(&mut host, 99),
        Err(Error::WasiInvalidValue(_))
    ));
    assert!(matches!(resp.set_status_code(&mut host, 503), Ok(())));
}

#[test]
fn send_request_streams_the_body_then_stalls_awaiting_the_answer() {
    // The model host never answers on its own, so the sequential driver
    // must reach the await and report the stall — after the request body
    // went out in full and was finalized.
    let mut host = Host::new();
    let mut poller = Poller::new();
    host.set_default_capacity(1024);
    let headers = FieldEntries::from_entries(Vec::new());
    let req = OutgoingRequest::from_headers(&headers, &mut host).expect("valid");
    let body_idx = host.out_requests[0].body;
    let stream_idx = host.out_bodies[body_idx].stream;
    let r = wasi_http_guest::service::send_request(
        req,
        FullBody::new(b"ping".to_vec(), None),
        &mut host,
        &mut poller,
        100,
    );
    assert!(matches!(r, Err(Error::Stalled)));
    assert_eq!(host.out_streams[stream_idx].written, b"ping".to_vec());
    assert!(matches!(host.out_bodies[body_idx].finished, Some(None)));
    assert!(host.future_responses[0].resolved.is_none());
}
