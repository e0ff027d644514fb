use vstd::prelude::*;
use crate::util::ParallelizationInfo;
use vstd::relations::injective_on;
use vstd::set_lib::{lemma_int_range, lemma_map_size, lemma_subset_equality, set_int_range};

verus! {

/// Information transferable to threads that either contains the next workload
/// or indicates a stop.
pub enum NextWorkloadOrStop<T: Send> {
    /// Next workload.
    Workload(T),
    /// End of work. This will lead to the termination of worker threads.
    Stop,
}

impl<T: Send> NextWorkloadOrStop<T> {
    pub fn is_stop(&self) -> (r: bool)
        ensures
            r == (self is Stop),
    {
        match self {
            NextWorkloadOrStop::Workload(_) => false,
            NextWorkloadOrStop::Stop => true,
        }
    }
}

/// An envelope arrived after its consumer had already seen the stop signal.
#[derive(Debug, PartialEq, Eq, Structural)]
pub struct ProtocolViolation;

/// The life cycle of one worker thread.
#[derive(Debug, Clone, Copy, PartialEq, Eq, Structural)]
pub enum WorkerState {
    Running,
    Stopped,
}

/// What a worker does with the envelope it just took from the queue.
#[derive(Debug, Clone, Copy, PartialEq, Eq, Structural)]
pub enum WorkerAction {
    /// Decode and encode the workload, then take the next envelope.
    Process,
    /// Leave the loop; the thread ends.
    Exit,
}

/// A worker's transition on an envelope that is a stop (`is_stop`) or a workload.
pub open spec fn worker_transition(state: WorkerState, is_stop: bool) -> Result<
    (WorkerState, WorkerAction),
    ProtocolViolation,
> {
    match state {
        WorkerState::Running => if is_stop {
            Ok((WorkerState::Stopped, WorkerAction::Exit))
        } else {
            Ok((WorkerState::Running, WorkerAction::Process))
        },
        WorkerState::Stopped => Err(ProtocolViolation),
    }
}

/// Decides what a worker in `state` does with `envelope`, and its next state.
pub fn worker_step<T: Send>(state: WorkerState, envelope: &NextWorkloadOrStop<T>) -> (r: Result<
    (WorkerState, WorkerAction),
    ProtocolViolation,
>)
    ensures
        r == worker_transition(state, envelope is Stop),
{
    match state {
        WorkerState::Running => if envelope.is_stop() {
            Ok((WorkerState::Stopped, WorkerAction::Exit))
        } else {
            Ok((WorkerState::Running, WorkerAction::Process))
        },
        WorkerState::Stopped => Err(ProtocolViolation),
    }
}

/// What the dispatch bridge does with an envelope taken from the prefetch queue.
#[derive(Debug, Clone, Copy, PartialEq, Eq, Structural)]
pub enum BridgeAction {
    /// Push the workload onto the pool's queue.
    Forward,
    /// The input is exhausted: do not forward the stop, shut the pool down.
    BeginShutdown,
}

/// One step of the pool's shutdown.
#[derive(Debug, Clone, Copy, PartialEq, Eq, Structural)]
pub enum ShutdownStep {
    /// Push one stop envelope onto the pool's queue.
    SendStop,
    /// Join the worker with this ordinal.
    Join(usize),
    /// Every worker has been stopped and joined.
    Done,
}

/// The `k`-th shutdown step of a pool of `w` workers: first one stop per
/// worker, then a join of each worker in ordinal order, then done.
pub open spec fn shutdown_step_at(w: nat, k: nat) -> ShutdownStep {
    if k < w {
        ShutdownStep::SendStop
    } else if k < 2 * w {
        ShutdownStep::Join((k - w) as usize)
    } else {
        ShutdownStep::Done
    }
}

/// The decisions of the thread that relays workloads from the prefetch queue
/// to the pool's queue and then stops the pool.
pub struct DispatchBridge {
    workers: usize,
    forwarded: usize,
    input_done: bool,
    stops_sent: usize,
    joined: usize,
}

impl DispatchBridge {
    pub closed spec fn spec_workers(&self) -> nat {
        self.workers as nat
    }

    /// How many workloads have been forwarded to the pool.
    pub closed spec fn spec_forwarded(&self) -> nat {
        self.forwarded as nat
    }

    /// Whether the stop envelope of the prefetch queue has been seen.
    pub closed spec fn spec_input_done(&self) -> bool {
        self.input_done
    }

    /// How many shutdown steps other than `Done` have been taken.
    pub closed spec fn spec_shutdown_progress(&self) -> nat {
        (self.stops_sent + self.joined) as nat
    }

    pub closed spec fn wf(&self) -> bool {
        &&& self.stops_sent <= self.workers
        &&& self.joined <= self.workers
        &&& self.joined > 0 ==> self.stops_sent == self.workers
        &&& !self.input_done ==> self.stops_sent == 0 && self.joined == 0
    }

    pub fn new(info: &ParallelizationInfo) -> (r: Self)
        ensures
            r.wf(),
            r.spec_workers() == info.spec_worker_count(),
            r.spec_forwarded() == 0,
            !r.spec_input_done(),
            r.spec_shutdown_progress() == 0,
    {
        DispatchBridge {
            workers: info.worker_count(),
            forwarded: 0,
            input_done: false,
            stops_sent: 0,
            joined: 0,
        }
    }

    pub fn forwarded(&self) -> (r: usize)
        ensures
            r as nat == self.spec_forwarded(),
    {
        self.forwarded
    }

    /// Decides what to do with an envelope taken from the prefetch queue. A
    /// workload is forwarded; the stop ends the input. Anything that arrives
    /// after the stop breaks the protocol and changes nothing.
    pub fn on_input<T: Send>(&mut self, envelope: &NextWorkloadOrStop<T>) -> (r: Result<
        BridgeAction,
        ProtocolViolation,
    >)
        requires
            old(self).wf(),
            old(self).spec_forwarded() < usize::MAX,
        ensures
            final(self).wf(),
            final(self).spec_workers() == old(self).spec_workers(),
            final(self).spec_shutdown_progress() == old(self).spec_shutdown_progress(),
            old(self).spec_input_done() ==> r == Err::<BridgeAction, ProtocolViolation>(
                ProtocolViolation,
            ) && *final(self) == *old(self),
            !old(self).spec_input_done() && envelope is Workload ==> r == Ok::<
                BridgeAction,
                ProtocolViolation,
            >(BridgeAction::Forward) && final(self).spec_forwarded() == old(self).spec_forwarded()
                + 1 && !final(self).spec_input_done(),
            !old(self).spec_input_done() && envelope is Stop ==> r == Ok::<
                BridgeAction,
                ProtocolViolation,
            >(BridgeAction::BeginShutdown) && final(self).spec_forwarded()
                == old(self).spec_forwarded() && final(self).spec_input_done(),
    {
        if self.input_done {
            Err(ProtocolViolation)
        } else if envelope.is_stop() {
            self.input_done = true;
            Ok(BridgeAction::BeginShutdown)
        } else {
            self.forwarded = self.forwarded + 1;
            Ok(BridgeAction::Forward)
        }
    }

    /// The next step of the shutdown, which begins once the input is done.
    pub fn next_shutdown_step(&mut self) -> (r: ShutdownStep)
        requires
            old(self).wf(),
            old(self).spec_input_done(),
        ensures
            final(self).wf(),
            final(self).spec_workers() == old(self).spec_workers(),
            final(self).spec_forwarded() == old(self).spec_forwarded(),
            final(self).spec_input_done(),
            r == shutdown_step_at(old(self).spec_workers(), old(self).spec_shutdown_progress()),
            final(self).spec_shutdown_progress() == if r is Done {
                old(self).spec_shutdown_progress()
            } else {
                old(self).spec_shutdown_progress() + 1
            },
    {
        if self.stops_sent < self.workers {
            self.stops_sent = self.stops_sent + 1;
            ShutdownStep::SendStop
        } else if self.joined < self.workers {
            let id = self.joined;
            self.joined = id + 1;
            ShutdownStep::Join(id)
        } else {
            ShutdownStep::Done
        }
    }
}

/// The shutdown sends exactly one stop per worker and only then joins each
/// worker once, in ordinal order, after which it is done.
pub proof fn lemma_shutdown_stops_then_joins_each_worker(w: nat)
    requires
        w <= usize::MAX,
    ensures
        forall|k: nat| (#[trigger] shutdown_step_at(w, k) is SendStop) <==> k < w,
        forall|k: nat|
            w <= k < 2 * w ==> #[trigger] shutdown_step_at(w, k) == ShutdownStep::Join(
                (k - w) as usize,
            ),
        forall|k: nat| (#[trigger] shutdown_step_at(w, k) is Join) <==> w <= k < 2 * w,
        forall|k: nat| k >= 2 * w ==> #[trigger] shutdown_step_at(w, k) == ShutdownStep::Done,
{
}

/// The envelopes that the bridge pushes onto the pool's queue in one run, in
/// queue order, `true` standing for a stop: `j` workloads, then one stop per
/// worker.
pub open spec fn pool_queue_stream(j: nat, w: nat) -> Seq<bool> {
    Seq::new(j + w, |k: int| k >= j)
}

/// `takers[k]` is the worker that took the `k`-th envelope of `stream`: each
/// taker is one of the `w` workers, and a worker that took a stop takes
/// nothing after it.
pub open spec fn pops_follow_protocol(stream: Seq<bool>, takers: Seq<int>, w: nat) -> bool {
    &&& takers.len() == stream.len()
    &&& forall|k: int| 0 <= k < takers.len() ==> 0 <= #[trigger] takers[k] < w
    &&& forall|a: int, b: int|
        0 <= a < b < takers.len() && #[trigger] takers[a] == #[trigger] takers[b] ==> !stream[a]
}

/// Whether worker `x` takes one of the stops, which follow the `j` workloads.
pub open spec fn takes_a_stop(takers: Seq<int>, j: nat, w: nat, x: int) -> bool {
    exists|k: int| j <= k < j + w && takers[k] == x
}

/// One stop per worker is enough and never too many: however the `w` workers
/// share the pool's queue, each of them takes exactly one stop, so every worker
/// exits and none is left waiting on an empty queue.
pub proof fn lemma_each_worker_takes_one_stop(j: nat, w: nat, takers: Seq<int>)
    requires
        pops_follow_protocol(pool_queue_stream(j, w), takers, w),
    ensures
        forall|x: int| 0 <= x < w ==> #[trigger] takes_a_stop(takers, j, w, x),
        forall|a: int, b: int|
            j <= a < j + w && j <= b < j + w && #[trigger] takers[a] == #[trigger] takers[b] ==> a
                == b,
{
    let stream = pool_queue_stream(j, w);
    let stops = set_int_range(j as int, (j + w) as int);
    let f = |k: int| takers[k];
    let image = stops.map(f);
    let workers = set_int_range(0, w as int);
    assert forall|a: int, b: int|
        j <= a < j + w && j <= b < j + w && #[trigger] takers[a] == #[trigger] takers[b] implies a
            == b by {
        if a < b {
            assert(!stream[a]);
        } else if b < a {
            assert(!stream[b]);
        }
    }
    assert(injective_on(f, stops)) by {
        assert forall|a: int, b: int|
            stops.contains(a) && stops.contains(b) && #[trigger] f(a) == #[trigger] f(b) implies a
                == b by {
            assert(takers[a] == takers[b]);
        }
    }
    lemma_int_range(j as int, (j + w) as int);
    lemma_int_range(0, w as int);
    lemma_map_size(stops, image, f);
    assert(image.subset_of(workers)) by {
        assert forall|x: int| image.contains(x) implies workers.contains(x) by {
            let k = choose|k: int| stops.contains(k) && f(k) == x;
            assert(0 <= takers[k] < w);
        }
    }
    lemma_subset_equality(image, workers);
    assert forall|x: int| 0 <= x < w implies #[trigger] takes_a_stop(takers, j, w, x) by {
        assert(workers.contains(x));
        assert(image.contains(x));
        let k = choose|k: int| stops.contains(k) && f(k) == x;
        assert(takers[k] == x);
    }
}

} // verus!
