//! The reactor: maps readiness handles to wake callbacks and advances
//! cooperative tasks one step at a time.
//!
//! Exactly one task runs at a time; suspension happens only at capability
//! calls that report "not ready", and resumption only through the matching
//! wake. One reactor step issues a single batched readiness query, then
//! retires and wakes exactly the registrations whose resources are ready.

use vstd::prelude::*;

verus! {

use crate::host::{Host, PollTarget};

/// Result of polling a suspended computation.
pub enum Poll<T> {
    Ready(T),
    Pending,
}

/// Identifies the task to resume when a registered resource becomes ready.
#[derive(Debug, Clone, Copy, PartialEq, Eq, Structural)]
pub struct Waker {
    pub task: u64,
}

/// A waker for driving a task nobody else will resume: the trampoline
/// re-polls on every reactor step, so the wake itself carries no information.
pub fn noop_waker() -> (r: Waker)
    ensures
        r.task == 0,
{
    Waker { task: 0 }
}

/// Proof that a pollable was registered; releasing it retires the entry.
/// The index is stable: entries are retired in place, never moved.
pub struct RegisteredPollable {
    pub idx: usize,
}

/// One registration: a readiness handle paired with the task to wake.
#[derive(Debug, Clone, Copy, PartialEq, Eq, Structural)]
pub struct Entry {
    /// Index of a pollable in the host's table.
    pub handle: usize,
    /// The task to wake when the handle's resource is ready.
    pub task: u64,
    /// Retired entries stay in place but take no further part.
    pub live: bool,
}

/// The tasks that one reactor step wakes: those of the live registrations
/// whose resources are ready, in registration order.
pub open spec fn woken_spec(entries: Seq<Entry>, host: Host) -> Seq<u64>
    decreases entries.len(),
{
    if entries.len() == 0 {
        Seq::empty()
    } else {
        let pre = woken_spec(entries.drop_last(), host);
        let e = entries.last();
        if e.live && host.ready_at(e.handle as int) {
            pre.push(e.task)
        } else {
            pre
        }
    }
}

/// One unfolding step of `woken_spec` along a prefix.
proof fn lemma_woken_spec_step(entries: Seq<Entry>, host: Host, i: int)
    requires
        0 <= i < entries.len(),
    ensures
        woken_spec(entries.take(i + 1), host) == if entries[i].live && host.ready_at(
            entries[i].handle as int,
        ) {
            woken_spec(entries.take(i), host).push(entries[i].task)
        } else {
            woken_spec(entries.take(i), host)
        },
{
    let pre = entries.take(i + 1);
    assert(pre.len() == i + 1);
    assert(pre.drop_last() =~= entries.take(i));
    assert(pre.last() == entries[i]);
}

/// A step with nothing live and ready wakes nobody.
pub proof fn lemma_no_wake(entries: Seq<Entry>, host: Host)
    requires
        forall|j: int| 0 <= j < entries.len() ==> !((#[trigger] entries[j]).live && host.ready_at(
            entries[j].handle as int,
        )),
    ensures
        woken_spec(entries, host) == Seq::<u64>::empty(),
    decreases entries.len(),
{
    if entries.len() > 0 {
        lemma_no_wake(entries.drop_last(), host);
    }
}

/// Wake precision: with exactly one registration both live and ready, one
/// reactor step wakes exactly the task that registered it — no other.
pub proof fn lemma_wake_precision(entries: Seq<Entry>, host: Host, i: int)
    requires
        0 <= i < entries.len(),
        entries[i].live,
        host.ready_at(entries[i].handle as int),
        forall|j: int| 0 <= j < entries.len() && j != i ==> !((#[trigger] entries[j]).live
            && host.ready_at(entries[j].handle as int)),
    ensures
        woken_spec(entries, host) == seq![entries[i].task],
    decreases entries.len(),
{
    if i == entries.len() - 1 {
        lemma_no_wake(entries.drop_last(), host);
        assert(woken_spec(entries, host) =~= seq![entries[i].task]);
    } else {
        lemma_wake_precision(entries.drop_last(), host, i);
        assert(entries.drop_last()[i] == entries[i]);
        assert(!(entries.last().live && host.ready_at(entries.last().handle as int)));
    }
}

/// Relates host and reactor state across one reactor step: the host gains at
/// most a bump of its query counter, and registrations keep their handle and
/// task, only ever moving from live to retired.
pub open spec fn reactor_step(oh: Host, nh: Host, op: Poller, np: Poller) -> bool {
    nh == (Host { poll_calls: nh.poll_calls, ..oh }) && np.entries@.len() == op.entries@.len()
        && forall|i: int| 0 <= i < op.entries@.len()
        ==> (#[trigger] np.entries@[i]).handle == op.entries@[i].handle && np.entries@[i].task
        == op.entries@[i].task && (np.entries@[i].live ==> op.entries@[i].live)
}

/// Interface of a reactor that tasks register their readiness handles with.
pub trait PollableRegistry: Sized {
    /// The registry's registrations, in registration order.
    spec fn entries_view(&self) -> Seq<Entry>;

    /// Registers `pollable` so that when it is ready, the task named by the
    /// given waker is woken.
    fn register_pollable(&mut self, cx: &Waker, pollable: usize) -> (t: RegisteredPollable)
        ensures
            final(self).entries_view() == old(self).entries_view().push(
                (Entry { handle: pollable, task: cx.task, live: true }),
            ),
            t.idx == old(self).entries_view().len(),
    ;

    /// Advances the reactor one step. Returns false exactly when no live
    /// registration remains, in which case the host is not consulted.
    fn poll(&mut self, host: &mut Host) -> (progress: bool)
        requires
            old(host).wf(),
            forall|i: int| 0 <= i < old(self).entries_view().len()
                ==> (#[trigger] old(self).entries_view()[i]).handle < old(host).pollables.len(),
        ensures
            final(host).wf(),
            old(host).grows_to(*final(host)),
            final(self).entries_view().len() == old(self).entries_view().len(),
            progress == exists|i: int|
                0 <= i < old(self).entries_view().len() && (#[trigger] old(
                    self,
                ).entries_view()[i]).live,
    ;
}

/// The reactor: a table of registrations, retired in place once woken or
/// released.
pub struct Poller {
    pub entries: Vec<Entry>,
}

impl Poller {
    /// All registered handles point into the host's pollable table.
    pub open spec fn wf_for(self, host: Host) -> bool {
        forall|i: int| 0 <= i < self.entries.len() ==> (#[trigger] self.entries@[i]).handle
            < host.pollables.len()
    }

    /// Some registration is still live.
    pub open spec fn has_live(self) -> bool {
        exists|i: int| 0 <= i < self.entries.len() && (#[trigger] self.entries@[i]).live
    }

    /// A reactor with no registrations.
    pub fn new() -> (r: Poller)
        ensures
            r.entries@ == Seq::<Entry>::empty(),
    {
        Poller { entries: Vec::new() }
    }

    /// Registers `pollable` under the given waker's task.
    pub fn register_pollable(&mut self, cx: &Waker, pollable: usize) -> (t: RegisteredPollable)
        ensures
            final(self).entries@ == old(self).entries@.push(
                (Entry { handle: pollable, task: cx.task, live: true }),
            ),
            t.idx == old(self).entries.len(),
    {
        let idx = self.entries.len();
        self.entries.push(Entry { handle: pollable, task: cx.task, live: true });
        RegisteredPollable { idx }
    }

    /// Releases a registration: its entry is retired and will never wake.
    pub fn release(&mut self, t: RegisteredPollable)
        requires
            t.idx < old(self).entries.len(),
        ensures
            final(self).entries@ == old(self).entries@.update(
                t.idx as int,
                (Entry { live: false, ..old(self).entries@[t.idx as int] }),
            ),
    {
        self.entries[t.idx].live = false;
    }

    /// One reactor step.
    ///
    /// With no live registration it reports "no pending work" without
    /// touching the host. Otherwise it issues one batched readiness query
    /// and retires and wakes exactly the live registrations whose resources
    /// are ready, in order; every other entry is untouched.
    pub fn drive_one_step(&mut self, host: &mut Host) -> (r: Option<Vec<u64>>)
        requires
            old(host).wf(),
            old(self).wf_for(*old(host)),
        ensures
            final(host).wf(),
            old(host).grows_to(*final(host)),
            final(self).wf_for(*final(host)),
            final(self).entries@.len() == old(self).entries@.len(),
            reactor_step(*old(host), *final(host), *old(self), *final(self)),
            forall|i: int| 0 <= i < old(self).entries@.len()
                ==> (#[trigger] final(self).entries@[i]).handle == old(self).entries@[i].handle
                && final(self).entries@[i].task == old(self).entries@[i].task,
            !old(self).has_live() ==> r is None && *final(self) == *old(self) && *final(host)
                == *old(host),
            old(self).has_live() ==> (r matches Some(w) && w@ == woken_spec(
                old(self).entries@,
                *old(host),
            ) && *final(host) == (Host { poll_calls: final(host).poll_calls, ..*old(host) })
                && final(host).poll_calls == (if old(host).poll_calls == u64::MAX {
                u64::MAX
            } else {
                (old(host).poll_calls + 1) as u64
            }) && forall|i: int|
                0 <= i < old(self).entries@.len() ==> (#[trigger] final(self).entries@[i]).live
                    == (old(self).entries@[i].live && !old(host).ready_at(
                    old(self).entries@[i].handle as int,
                ))),
    {
        // Retired entries take no part; find the live ones.
        let mut idxs: Vec<usize> = Vec::new();
        let mut handles: Vec<usize> = Vec::new();
        let n = self.entries.len();
        let mut i: usize = 0;
        while i < n
            invariant
                n == self.entries.len(),
                i <= n,
                *self == *old(self),
                old(self).wf_for(*old(host)),
                *host == *old(host),
                old(host).wf(),
                idxs.len() == handles.len(),
                forall|a: int, b: int| 0 <= a < b < idxs.len() ==> #[trigger] idxs@[a]
                    < #[trigger] idxs@[b],
                forall|j: int| 0 <= j < idxs.len() ==> #[trigger] idxs@[j] < i,
                forall|j: int| 0 <= j < idxs.len() ==> self.entries@[#[trigger] idxs@[j] as int].live
                    && handles@[j] == self.entries@[idxs@[j] as int].handle,
                forall|k: int| 0 <= k < i && (#[trigger] self.entries@[k]).live ==> exists|j: int|
                    0 <= j < idxs.len() && #[trigger] idxs@[j] == k,
            decreases n - i,
        {
            if self.entries[i].live {
                let ghost previdxs = idxs@;
                idxs.push(i);
                handles.push(self.entries[i].handle);
                proof {
                    assert(idxs@[previdxs.len() as int] == i);
                    assert forall|k: int| 0 <= k < i + 1 && (#[trigger] self.entries@[k]).live
                        implies exists|j: int| 0 <= j < idxs@.len() && #[trigger] idxs@[j] == k by {
                        if k < i {
                            let j = choose|j: int| 0 <= j < previdxs.len() && previdxs[j] == k;
                            assert(idxs@[j] == previdxs[j]);
                        } else {
                            assert(idxs@[previdxs.len() as int] == k);
                        }
                    }
                }
            }
            i = i + 1;
        }
        if idxs.len() == 0 {
            proof {
                assert(!old(self).has_live());
            }
            return None;
        }
        proof {
            assert(old(self).has_live()) by {
                assert(self.entries@[idxs@[0] as int].live);
            }
        }
        proof {
            assert forall|j: int| 0 <= j < handles.len() implies #[trigger] handles@[j]
                < host.pollables.len() by {
                assert(handles@[j] == self.entries@[idxs@[j] as int].handle);
            }
        }
        // One batched host round-trip for the whole table.
        let ready = host.poll_ready(&handles);
        // Retire and wake the ready entries, in registration order.
        let mut woken: Vec<u64> = Vec::new();
        let ghost entries0 = self.entries@;
        let ghost host0 = *old(host);
        let mut j: usize = 0;
        let mut next: usize = 0;
        while next < n
            invariant
                n == self.entries.len(),
                next <= n,
                j <= idxs.len(),
                idxs.len() == handles.len(),
                idxs.len() == ready.len(),
                old(host).wf(),
                host0.wf(),
                *host == (Host { poll_calls: host.poll_calls, ..host0 }),
                entries0.len() == n,
                forall|a: int, b: int| 0 <= a < b < idxs.len() ==> #[trigger] idxs@[a]
                    < #[trigger] idxs@[b],
                forall|k: int| 0 <= k < idxs.len() ==> #[trigger] idxs@[k] < n,
                forall|k: int| 0 <= k < idxs.len() ==> entries0[#[trigger] idxs@[k] as int].live
                    && handles@[k] == entries0[idxs@[k] as int].handle,
                forall|k: int| 0 <= k < n && (#[trigger] entries0[k]).live ==> exists|m: int|
                    0 <= m < idxs.len() && #[trigger] idxs@[m] == k,
                forall|k: int| 0 <= k < idxs.len() ==> #[trigger] ready@[k] == host0.ready_at(
                    handles@[k] as int,
                ),
                forall|k: int| 0 <= k < j ==> #[trigger] idxs@[k] < next,
                forall|k: int| j <= k < idxs.len() ==> #[trigger] idxs@[k] >= next,
                forall|k: int| 0 <= k < n ==> (#[trigger] self.entries@[k]).handle == entries0[k].handle
                    && self.entries@[k].task == entries0[k].task,
                forall|k: int| 0 <= k < next ==> (#[trigger] self.entries@[k]).live == (
                entries0[k].live && !host0.ready_at(entries0[k].handle as int)),
                forall|k: int| next <= k < n ==> (#[trigger] self.entries@[k]).live
                    == entries0[k].live,
                woken@ == woken_spec(entries0.take(next as int), host0),
            decreases n - next,
        {
            proof {
                lemma_woken_spec_step(entries0, host0, next as int);
            }
            if j < idxs.len() && idxs[j] == next {
                // This entry is live; the batch result tells its readiness.
                if ready[j] {
                    woken.push(self.entries[next].task);
                    self.entries[next].live = false;
                }
                j = j + 1;
                proof {
                    assert(entries0[next as int].live);
                }
            } else {
                proof {
                    // Not in the live list: the entry was already retired.
                    assert(!entries0[next as int].live) by {
                        if entries0[next as int].live {
                            let m = choose|m: int|
                                0 <= m < idxs@.len() && idxs@[m] == next as int;
                            assert(idxs@[m] == next);
                            if m < j {
                                assert(idxs@[m] < next);
                            } else {
                                assert(idxs@[m] >= next);
                                if m > j {
                                    assert(idxs@[j as int] < idxs@[m]);
                                    assert(idxs@[j as int] >= next);
                                }
                            }
                        }
                    }
                }
            }
            next = next + 1;
        }
        proof {
            assert(entries0.take(n as int) =~= entries0);
        }
        Some(woken)
    }

    /// One reactor step, reporting only whether work remains: the woken
    /// task list is discarded, everything else is exactly `drive_one_step`.
    /// With no live registration it reports false and leaves reactor and
    /// host untouched; otherwise one batched readiness query runs, and
    /// exactly the live registrations whose resources are ready retire
    /// (their tasks are the ones woken), every other entry untouched.
    pub fn poll(&mut self, host: &mut Host) -> (progress: bool)
        requires
            old(host).wf(),
            old(self).wf_for(*old(host)),
        ensures
            final(host).wf(),
            old(host).grows_to(*final(host)),
            final(self).wf_for(*final(host)),
            final(self).entries@.len() == old(self).entries@.len(),
            reactor_step(*old(host), *final(host), *old(self), *final(self)),
            progress == old(self).has_live(),
            forall|i: int| 0 <= i < old(self).entries@.len()
                ==> (#[trigger] final(self).entries@[i]).handle == old(self).entries@[i].handle
                && final(self).entries@[i].task == old(self).entries@[i].task,
            !old(self).has_live() ==> *final(self) == *old(self) && *final(host) == *old(host),
            old(self).has_live() ==> (*final(host) == (Host {
                poll_calls: final(host).poll_calls,
                ..*old(host)
            }) && final(host).poll_calls == (if old(host).poll_calls == u64::MAX {
                u64::MAX
            } else {
                (old(host).poll_calls + 1) as u64
            }) && forall|i: int|
                0 <= i < old(self).entries@.len() ==> (#[trigger] final(self).entries@[i]).live
                    == (old(self).entries@[i].live && !old(host).ready_at(
                    old(self).entries@[i].handle as int,
                ))),
    {
        match self.drive_one_step(host) {
            Some(_) => true,
            None => false,
        }
    }
}

impl PollableRegistry for Poller {
    open spec fn entries_view(&self) -> Seq<Entry> {
        self.entries@
    }

    fn register_pollable(&mut self, cx: &Waker, pollable: usize) -> (t: RegisteredPollable) {
        Poller::register_pollable(self, cx, pollable)
    }

    fn poll(&mut self, host: &mut Host) -> (progress: bool) {
        proof {
            assert forall|i: int| 0 <= i < self.entries.len() implies (
            #[trigger] self.entries@[i]).handle < host.pollables.len() by {
                assert(self.entries_view()[i].handle < host.pollables.len());
            }
        }
        Poller::poll(self, host)
    }
}

/// Terminal condition: the task cannot finish and no readiness source is
/// outstanding.
#[derive(Debug, PartialEq, Eq, Structural)]
pub struct Stalled;

impl Stalled {
    /// Describes the condition.
    pub fn message(&self) -> (r: &'static str)
        ensures
            r@ == "future stalled with no remaining pollables"@,
    {
        "future stalled with no remaining pollables"
    }
}

/// A resource wrapper that can mint readiness handles for itself.
pub trait WasiSubscribe: Sized {
    /// The resource this value stands for.
    spec fn target(&self) -> PollTarget;

    /// Asks the host for a fresh readiness handle for this resource.
    fn subscribe(&self, host: &mut Host) -> (p: usize)
        requires
            old(host).wf(),
            old(host).target_ok(self.target()),
        ensures
            final(host).wf(),
            old(host).grows_to(*final(host)),
            final(host).pollables@ == old(host).pollables@.push(self.target()),
            p == old(host).pollables.len(),
            *final(host) == (Host { pollables: final(host).pollables, ..*old(host) }),
    ;
}

/// A cooperative computation the trampoline can drive to completion.
pub trait GuestTask {
    type Output;

    /// What must hold of the task's state between steps.
    spec fn task_inv(&self, host: Host, poller: Poller) -> bool;

    /// What holds when the task completes with the given output.
    spec fn task_post(&self, host: Host, out: &Self::Output) -> bool;

    /// A value fixed for the task's whole life; lets a caller carry a fact
    /// about the task's identity across the trampoline.
    spec fn task_token(&self) -> int;

    /// The task's invariant does not depend on anything a reactor step
    /// changes: implementors prove it survives waking.
    proof fn task_inv_stable(&self, oh: Host, nh: Host, op: Poller, np: Poller)
        requires
            self.task_inv(oh, op),
            reactor_step(oh, nh, op, np),
        ensures
            self.task_inv(nh, np),
    ;

    /// Advances the task one step; on "not ready" it registers for wake-up
    /// and suspends. A task never delivers a answer itself: the
    /// out-parameters and outgoing responses are left to the glue.
    fn poll_task(&mut self, host: &mut Host, poller: &mut Poller, cx: &Waker) -> (r: Poll<
        Self::Output,
    >)
        requires
            old(host).wf(),
            old(poller).wf_for(*old(host)),
            old(self).task_inv(*old(host), *old(poller)),
        ensures
            final(host).wf(),
            old(host).grows_to(*final(host)),
            final(poller).wf_for(*final(host)),
            old(poller).entries@.len() <= final(poller).entries@.len(),
            final(host).outparams@ == old(host).outparams@,
            final(host).out_responses@ == old(host).out_responses@,
            final(self).task_token() == old(self).task_token(),
            final(self).task_inv(*final(host), *final(poller)),
            r matches Poll::Ready(v) ==> final(self).task_post(*final(host), &v),
    ;
}

/// Runs one task to completion: the minimal single-task trampoline.
///
/// The task is advanced; while it suspends, one reactor step runs. If the
/// reactor reports no pending work while the task is unfinished, the task
/// is stalled and can never finish. `steps` bounds the loop, making
/// termination explicit; a task that outlives the budget is reported
/// stalled as well, so an `Err` covers both the genuine stall (then no live
/// registration remains) and an exhausted budget (live registrations may
/// remain) — the per-step guarantees live in the reactor's own contract.
pub fn block_on<T: GuestTask>(
    task: &mut T,
    host: &mut Host,
    poller: &mut Poller,
    cx: &Waker,
    steps: u64,
) -> (r: Result<T::Output, Stalled>)
    requires
        old(host).wf(),
        old(poller).wf_for(*old(host)),
        old(task).task_inv(*old(host), *old(poller)),
    ensures
        final(host).wf(),
        old(host).grows_to(*final(host)),
        final(poller).wf_for(*final(host)),
        old(poller).entries@.len() <= final(poller).entries@.len(),
        final(host).outparams@ == old(host).outparams@,
        final(host).out_responses@ == old(host).out_responses@,
        final(task).task_token() == old(task).task_token(),
        final(task).task_inv(*final(host), *final(poller)),
        r matches Ok(v) ==> final(task).task_post(*final(host), &v),
{
    let mut left = steps;
    loop
        invariant
            host.wf(),
            poller.wf_for(*host),
            task.task_inv(*host, *poller),
            old(host).grows_to(*host),
            old(poller).entries@.len() <= poller.entries@.len(),
            host.outparams@ == old(host).outparams@,
            host.out_responses@ == old(host).out_responses@,
            task.task_token() == old(task).task_token(),
        decreases left,
    {
        match task.poll_task(host, poller, cx) {
            Poll::Ready(v) => {
                return Ok(v);
            },
            Poll::Pending => {
                let ghost h0 = *host;
                let ghost p0 = *poller;
                let progress = poller.poll(host);
                proof {
                    task.task_inv_stable(h0, *host, p0, *poller);
                }
                if !progress {
                    return Err(Stalled);
                }
            },
        }
        if left == 0 {
            return Err(Stalled);
        }
        left = left - 1;
    }
}

} // verus!
