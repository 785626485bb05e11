use wasi_http_guest::body::FullBody;
use wasi_http_guest::host::Host;
use wasi_http_guest::incoming::READ_FRAME_SIZE;
use wasi_http_guest::poll::{Poll, Poller, Waker};
use wasi_http_guest::service::{
    handle_service_call, GuestRequest, GuestResponse, GuestService,
};
use wasi_http_guest::wasi::{FieldEntries, Method};
use wasi_http_guest::Error;

/// Replies 200 "Hello, WASI" to any request, reading nothing.
struct HelloService;

impl GuestService for HelloService {
    type ResponseBody = FullBody;

    fn poll_ready(&mut self, _host: &mut Host, _poller: &mut Poller, _cx: &Waker) -> Poll<()> {
        Poll::Ready(())
    }

    fn call(
        &mut self,
        _host: &mut Host,
        _poller: &mut Poller,
        req: GuestRequest,
    ) -> Result<GuestResponse<FullBody>, Error> {
        assert!(matches!(req.method, Method::Get));
        assert_eq!(req.path_with_query.as_deref(), Some("/"));
        let headers = FieldEntries::from_entries(vec![(
            "content-type".to_string(),
            b"text/plain".to_vec(),
        )]);
        Ok(GuestResponse {
            status: 200,
            headers,
            body: FullBody::new(b"Hello, WASI".to_vec(), None),
        })
    }
}

#[test]
fn get_root_yields_200_hello_wasi_with_no_trailers() {
    let mut host = Host::new();
    let mut poller = Poller::new();
    host.set_default_capacity(65536);
    let request = host.new_incoming_request(
        Method::Get,
        Some("/".to_string()),
        None,
        None,
        Vec::new(),
    );
    let outparam = host.new_response_outparam();
    let mut service = HelloService;
    let r = handle_service_call(&mut service, request, outparam, &mut host, &mut poller, 1000);
    assert!(matches!(r, Ok(())));

    let resp = match host.outparams[outparam].set_to {
        Some(Ok(resp)) => resp,
        _ => panic!("expected a successful response"),
    };
    assert_eq!(host.out_responses[resp].status_code, 200);
    assert_eq!(
        host.out_responses[resp].headers,
        vec![("content-type".to_string(), b"text/plain".to_vec())]
    );
    let body = host.out_responses[resp].body;
    let stream = host.out_bodies[body].stream;
    // Exactly the eleven payload bytes were copied, then the body was
    // finalized with no trailers.
    assert_eq!(host.out_streams[stream].written, b"Hello, WASI".to_vec());
    assert_eq!(host.out_streams[stream].written.len(), 11);
    assert!(matches!(host.out_bodies[body].finished, Some(None)));
}

/// Echoes the request body and its trailers back.
struct EchoService;

impl GuestService for EchoService {
    type ResponseBody = FullBody;

    fn poll_ready(&mut self, _host: &mut Host, _poller: &mut Poller, _cx: &Waker) -> Poll<()> {
        Poll::Ready(())
    }

    fn call(
        &mut self,
        host: &mut Host,
        poller: &mut Poller,
        mut req: GuestRequest,
    ) -> Result<GuestResponse<FullBody>, Error> {
        let cx = wasi_http_guest::poll::noop_waker();
        let mut collected: Vec<u8> = Vec::new();
        loop {
            match req.body.poll_incoming_body(host, poller, &cx) {
                Poll::Ready(Some(Ok(chunk))) => collected.extend_from_slice(&chunk[..]),
                Poll::Ready(Some(Err(e))) => return Err(e),
                Poll::Ready(None) => break,
                Poll::Pending => {
                    if !poller.poll(host) {
                        return Err(Error::Stalled);
                    }
                },
            }
        }
        let trailers = loop {
            match req.body.poll_incoming_trailers(host, poller, &cx) {
                Poll::Ready(Ok(t)) => break t,
                Poll::Ready(Err(e)) => return Err(e),
                Poll::Pending => {
                    if !poller.poll(host) {
                        return Err(Error::Stalled);
                    }
                },
            }
        };
        Ok(GuestResponse {
            status: 200,
            headers: FieldEntries::from_entries(Vec::new()),
            body: FullBody::new(collected, trailers),
        })
    }
}

#[test]
fn post_echo_reassembles_chunked_body_and_echoes_trailers() {
    let mut host = Host::new();
    let mut poller = Poller::new();
    host.set_default_capacity(65536);
    let request = host.new_incoming_request(
        Method::Post,
        Some("/echo".to_string()),
        None,
        None,
        Vec::new(),
    );
    let body_idx = host.in_requests[request].body;
    let stream = host.in_bodies[body_idx].stream;
    let trailers = host.in_bodies[body_idx].trailers;
    // The host delivers the payload in chunks of 4000, 4000 and 100 bytes,
    // then the closed signal, then the trailer set.
    let c1 = vec![1u8; 4000];
    let c2 = vec![2u8; 4000];
    let c3 = vec![3u8; 100];
    host.push_chunk(stream, c1.clone());
    host.push_chunk(stream, c2.clone());
    host.push_chunk(stream, c3.clone());
    host.close_in_stream(stream);
    host.resolve_trailers(
        trailers,
        Ok(Some(vec![("x-trace".to_string(), b"abc".to_vec())])),
    );
    let outparam = host.new_response_outparam();
    let mut service = EchoService;
    let r = handle_service_call(&mut service, request, outparam, &mut host, &mut poller, 1000);
    assert!(matches!(r, Ok(())));

    let mut expected = c1;
    expected.extend_from_slice(&c2);
    expected.extend_from_slice(&c3);
    assert_eq!(expected.len(), 8100);
    assert!(expected.len() < READ_FRAME_SIZE);

    let resp = match host.outparams[outparam].set_to {
        Some(Ok(resp)) => resp,
        _ => panic!("expected a successful response"),
    };
    let body = host.out_responses[resp].body;
    let out_stream = host.out_bodies[body].stream;
    // The echoed body is the 8100-byte concatenation, in order.
    assert_eq!(host.out_streams[out_stream].written, expected);
    // The response carries the same trailer set.
    match &host.out_bodies[body].finished {
        Some(Some(t)) => assert_eq!(t, &vec![("x-trace".to_string(), b"abc".to_vec())]),
        other => panic!("expected echoed trailers, got {:?}", other.is_some()),
    }
}

/// Never becomes ready, and never registers a wake-up.
struct NeverReadyService;

impl GuestService for NeverReadyService {
    type ResponseBody = FullBody;

    fn poll_ready(&mut self, _host: &mut Host, _poller: &mut Poller, _cx: &Waker) -> Poll<()> {
        Poll::Pending
    }

    fn call(
        &mut self,
        _host: &mut Host,
        _poller: &mut Poller,
        _req: GuestRequest,
    ) -> Result<GuestResponse<FullBody>, Error> {
        panic!("never called");
    }
}

#[test]
fn a_stalled_cycle_surfaces_as_an_error_response_not_a_hang() {
    let mut host = Host::new();
    let mut poller = Poller::new();
    let request = host.new_incoming_request(Method::Get, None, None, None, Vec::new());
    let outparam = host.new_response_outparam();
    let mut service = NeverReadyService;
    let r = handle_service_call(&mut service, request, outparam, &mut host, &mut poller, 50);
    assert!(matches!(r, Err(Error::Stalled)));
    // The failure still reached the host's error-reporting path.
    assert!(matches!(host.outparams[outparam].set_to, Some(Err(_))));
}

/// Rejects every request with an application error.
struct RefusingService;

impl GuestService for RefusingService {
    type ResponseBody = FullBody;

    fn poll_ready(&mut self, _host: &mut Host, _poller: &mut Poller, _cx: &Waker) -> Poll<()> {
        Poll::Ready(())
    }

    fn call(
        &mut self,
        _host: &mut Host,
        _poller: &mut Poller,
        _req: GuestRequest,
    ) -> Result<GuestResponse<FullBody>, Error> {
        Err(Error::BodyError("no thanks".to_string()))
    }
}

#[test]
fn a_failing_service_becomes_an_error_response() {
    let mut host = Host::new();
    let mut poller = Poller::new();
    let request = host.new_incoming_request(Method::Get, None, None, None, Vec::new());
    let outparam = host.new_response_outparam();
    let mut service = RefusingService;
    let r = handle_service_call(&mut service, request, outparam, &mut host, &mut poller, 50);
    assert!(matches!(r, Err(Error::BodyError(_))));
    assert!(matches!(host.outparams[outparam].set_to, Some(Err(_))));
}
