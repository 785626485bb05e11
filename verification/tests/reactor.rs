use wasi_http_guest::host::{Host, PollTarget};
use wasi_http_guest::poll::{noop_waker, Poller, Waker};

#[test]
fn empty_reactor_reports_no_pending_work_without_host_round_trip() {
    let mut host = Host::new();
    let mut poller = Poller::new();
    let before = host.poll_calls;
    let r = poller.drive_one_step(&mut host);
    assert!(r.is_none());
    assert_eq!(host.poll_calls, before);
    assert!(!poller.poll(&mut host));
    assert_eq!(host.poll_calls, before);
}

#[test]
fn wake_precision_wakes_only_the_ready_registration() {
    let mut host = Host::new();
    let mut poller = Poller::new();
    // Three streams, each subscribed under a different task.
    let s0 = host.new_in_stream();
    let s1 = host.new_in_stream();
    let s2 = host.new_in_stream();
    let p0 = host.subscribe(PollTarget::InStream(s0));
    let p1 = host.subscribe(PollTarget::InStream(s1));
    let p2 = host.subscribe(PollTarget::InStream(s2));
    poller.register_pollable(&Waker { task: 10 }, p0);
    poller.register_pollable(&Waker { task: 11 }, p1);
    poller.register_pollable(&Waker { task: 12 }, p2);
    // Exactly the middle one becomes ready.
    host.push_chunk(s1, vec![1]);
    let woken = poller.drive_one_step(&mut host).expect("work pending");
    assert_eq!(woken, vec![11]);
    // Only that entry was retired; the other two stay live.
    assert!(poller.entries[0].live);
    assert!(!poller.entries[1].live);
    assert!(poller.entries[2].live);
    // A second step issues another query and wakes nobody new.
    let woken2 = poller.drive_one_step(&mut host).expect("still two live");
    assert_eq!(woken2, Vec::<u64>::new());
}

#[test]
fn batched_query_counts_one_host_round_trip_per_step() {
    let mut host = Host::new();
    let mut poller = Poller::new();
    let s0 = host.new_in_stream();
    let p0 = host.subscribe(PollTarget::InStream(s0));
    let p0b = host.subscribe(PollTarget::InStream(s0));
    poller.register_pollable(&noop_waker(), p0);
    poller.register_pollable(&noop_waker(), p0b);
    let before = host.poll_calls;
    poller.drive_one_step(&mut host);
    assert_eq!(host.poll_calls, before + 1);
}

#[test]
fn released_registration_never_wakes() {
    let mut host = Host::new();
    let mut poller = Poller::new();
    let s0 = host.new_in_stream();
    let p0 = host.subscribe(PollTarget::InStream(s0));
    let t = poller.register_pollable(&Waker { task: 7 }, p0);
    poller.release(t);
    host.push_chunk(s0, vec![9]);
    // The only registration is retired: no pending work remains.
    assert!(poller.drive_one_step(&mut host).is_none());
}
