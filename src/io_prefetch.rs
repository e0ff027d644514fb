use vstd::prelude::*;
use crate::thread_pool::NextWorkloadOrStop;
use crate::util::ParallelizationInfo;
use std::sync::mpsc::{Receiver, SyncSender};
use std::sync::{Arc, Mutex};

verus! {

/// Raw data of the raw image as it lays in memory. This is expected to be a RAW
/// image format that will be decoded later.
pub type ImageData = Vec<u8>;

/// The sending half of a bounded channel, from `std::sync::mpsc`.
#[verifier::external_type_specification]
#[verifier::external_body]
#[verifier::reject_recursive_types(T)]
pub struct ExSyncSender<T>(SyncSender<T>);

/// The receiving half of a channel, from `std::sync::mpsc`.
#[verifier::external_type_specification]
#[verifier::external_body]
#[verifier::reject_recursive_types(T)]
pub struct ExReceiver<T>(Receiver<T>);

/// A mutual-exclusion lock, from `std::sync`.
#[verifier::external_type_specification]
#[verifier::external_body]
#[verifier::reject_recursive_types(T)]
pub struct ExMutex<T: ?Sized>(Mutex<T>);

/// The number of envelopes that a channel made by `std::sync::mpsc::sync_channel`
/// buffers before a send blocks.
pub uninterp spec fn channel_bound(s: SyncSender<NextWorkloadOrStop<ImageData>>) -> nat;

/// Relies on `std::sync::mpsc::sync_channel`: a channel that buffers up to
/// `bound` messages, sends blocking while it is full.
#[verifier::external_body]
fn bounded_channel(bound: usize) -> (r: (
    SyncSender<NextWorkloadOrStop<ImageData>>,
    Receiver<NextWorkloadOrStop<ImageData>>,
))
    ensures
        channel_bound(r.0) == bound,
{
    std::sync::mpsc::sync_channel(bound)
}

/// Relies on `std::sync::Mutex::new`: a new, unlocked mutex holding the value.
pub assume_specification<T>[ Mutex::<T>::new ](t: T) -> Mutex<T>;

/// Creates a bounded channel that carries [`ImageData`] from the prefetch
/// thread to the dispatch thread. It holds at most one image per worker, so
/// the prefetch thread blocks rather than loading every file into memory, and
/// file reads overlap the CPU-bound work without unbounded memory growth.
pub fn create_channel(info: &ParallelizationInfo) -> (r: (
    Arc<SyncSender<NextWorkloadOrStop<ImageData>>>,
    Arc<Mutex<Receiver<NextWorkloadOrStop<ImageData>>>>,
))
    ensures
        channel_bound(*r.0) == info.spec_worker_count(),
{
    let (sender, receiver) = bounded_channel(info.worker_count());
    (Arc::new(sender), Arc::new(Mutex::new(receiver)))
}

/// One step of the prefetch thread.
#[derive(Debug, Clone, Copy, PartialEq, Eq, Structural)]
pub enum PrefetchStep {
    /// Read the file with this position in the job list and send its bytes.
    Read(usize),
    /// Every file has been sent: send the stop envelope.
    SendStop,
    /// The stop has been sent; the thread ends.
    Finished,
}

/// The `k`-th step of the prefetch thread over `j` jobs.
pub open spec fn prefetch_step_at(j: nat, k: nat) -> PrefetchStep {
    if k < j {
        PrefetchStep::Read(k as usize)
    } else if k == j {
        PrefetchStep::SendStop
    } else {
        PrefetchStep::Finished
    }
}

/// The decisions of the prefetch thread: the files in job-list order, each
/// once, then a single stop.
pub struct PrefetchCursor {
    job_count: usize,
    next: usize,
    stop_sent: bool,
}

impl PrefetchCursor {
    pub closed spec fn spec_job_count(&self) -> nat {
        self.job_count as nat
    }

    /// How many steps other than `Finished` have been taken.
    pub closed spec fn spec_progress(&self) -> nat {
        (self.next + if self.stop_sent { 1usize } else { 0usize }) as nat
    }

    pub closed spec fn wf(&self) -> bool {
        &&& self.next <= self.job_count
        &&& self.stop_sent ==> self.next == self.job_count
    }

    pub fn new(job_count: usize) -> (r: Self)
        ensures
            r.wf(),
            r.spec_job_count() == job_count,
            r.spec_progress() == 0,
    {
        PrefetchCursor { job_count, next: 0, stop_sent: false }
    }

    pub fn next_step(&mut self) -> (r: PrefetchStep)
        requires
            old(self).wf(),
        ensures
            final(self).wf(),
            final(self).spec_job_count() == old(self).spec_job_count(),
            r == prefetch_step_at(old(self).spec_job_count(), old(self).spec_progress()),
            final(self).spec_progress() == if r is Finished {
                old(self).spec_progress()
            } else {
                old(self).spec_progress() + 1
            },
    {
        if self.next < self.job_count {
            let i = self.next;
            self.next = i + 1;
            PrefetchStep::Read(i)
        } else if !self.stop_sent {
            self.stop_sent = true;
            PrefetchStep::SendStop
        } else {
            PrefetchStep::Finished
        }
    }
}

/// The prefetch thread sends every file exactly once and in job-list order,
/// then exactly one stop, which is the last envelope it sends.
pub proof fn lemma_prefetch_sends_each_file_once_then_stop(j: nat)
    requires
        j <= usize::MAX,
    ensures
        forall|k: nat| k < j ==> #[trigger] prefetch_step_at(j, k) == PrefetchStep::Read(k as usize),
        forall|k: nat| (#[trigger] prefetch_step_at(j, k) is Read) <==> k < j,
        forall|a: nat, b: nat|
            #[trigger] prefetch_step_at(j, a) is Read && #[trigger] prefetch_step_at(j, b) is Read
                && prefetch_step_at(j, a) == prefetch_step_at(j, b) ==> a == b,
        forall|k: nat| (#[trigger] prefetch_step_at(j, k) is SendStop) <==> k == j,
        forall|k: nat| k > j ==> #[trigger] prefetch_step_at(j, k) == PrefetchStep::Finished,
{
}

/// The prefetch queue and the pool's queue, both made by [`create_channel`]
/// for one pool, buffer together at most twice the worker count: the bound on
/// the envelopes in flight between the prefetch thread and the workers.
pub proof fn lemma_in_flight_bound(
    info: &ParallelizationInfo,
    prefetch_queue: SyncSender<NextWorkloadOrStop<ImageData>>,
    pool_queue: SyncSender<NextWorkloadOrStop<ImageData>>,
)
    requires
        channel_bound(prefetch_queue) == info.spec_worker_count(),
        channel_bound(pool_queue) == info.spec_worker_count(),
    ensures
        channel_bound(prefetch_queue) + channel_bound(pool_queue) == 2 * info.spec_worker_count(),
{
}

} // verus!
