use vstd::prelude::*;

verus! {

/// The smaller of two natural numbers.
pub open spec fn min_nat(a: nat, b: nat) -> nat {
    if a <= b { a } else { b }
}

/// The number of worker threads for `job_count` jobs on a host that reports
/// `host` units of parallelism; a host that reports none counts as one.
pub open spec fn worker_count_for(host: Option<usize>, job_count: nat) -> nat {
    match host {
        Some(n) => min_nat(n as nat, job_count),
        None => min_nat(1, job_count),
    }
}

/// How many worker threads serve a run: never more than there are jobs.
#[derive(Debug)]
pub struct ParallelizationInfo {
    workers: usize,
}

impl ParallelizationInfo {
    pub closed spec fn spec_worker_count(&self) -> nat {
        self.workers as nat
    }

    /// Sizes the pool for `file_count` jobs. `host_parallelism` is what the host
    /// reported, or `None` where it could not tell, which gives a single worker.
    pub fn new(file_count: usize, host_parallelism: Option<usize>) -> (r: Self)
        requires
            host_parallelism matches Some(n) ==> n >= 1,
        ensures
            r.spec_worker_count() == worker_count_for(host_parallelism, file_count as nat),
    {
        let workers = calculate_worker_thread_count(file_count, host_parallelism);
        Self { workers }
    }

    pub fn worker_count(&self) -> (r: usize)
        ensures
            r as nat == self.spec_worker_count(),
    {
        self.workers
    }
}

/// Returns how many worker threads will be available for the CPU-intensive
/// encoding workload.
fn calculate_worker_thread_count(file_count: usize, host_parallelism: Option<usize>) -> (r: usize)
    ensures
        r as nat == worker_count_for(host_parallelism, file_count as nat),
{
    let cpus: usize = match host_parallelism {
        Some(n) => n,
        None => 1,
    };
    // we do not need more workers than files
    if cpus <= file_count { cpus } else { file_count }
}

/// The worker count is the host's parallelism capped by the job count, and it
/// is zero exactly when there are no jobs.
pub proof fn lemma_worker_count_zero_iff_no_jobs(host: Option<usize>, job_count: nat)
    requires
        host matches Some(n) ==> n >= 1,
    ensures
        worker_count_for(host, job_count) <= job_count,
        host matches Some(n) ==> worker_count_for(host, job_count) <= n,
        worker_count_for(host, job_count) == 0 <==> job_count == 0,
        job_count >= 1 ==> worker_count_for(host, job_count) >= 1,
{
}

/// A cursor over a byte slice that hands its bytes out in order, in chunks
/// of at most the size of the caller's buffer.
pub struct ReadableByteSlice<'a> {
    data: &'a [u8],
    read_i: usize,
}

impl<'a> ReadableByteSlice<'a> {
    /// The bytes not handed out yet.
    pub closed spec fn remaining(&self) -> Seq<u8> {
        self.data@.subrange(self.read_i as int, self.data@.len() as int)
    }

    pub closed spec fn spec_data(&self) -> Seq<u8> {
        self.data@
    }

    pub closed spec fn position(&self) -> nat {
        self.read_i as nat
    }

    #[verifier::type_invariant]
    closed spec fn wf(&self) -> bool {
        self.read_i <= self.data@.len()
    }

    pub fn new(data: &'a [u8]) -> (r: Self)
        ensures
            r.spec_data() == data@,
            r.position() == 0,
    {
        Self { data, read_i: 0 }
    }

    /// Copies the next `min(remaining, buf.len())` bytes to the front of `buf`,
    /// advances past them and returns how many were copied; the rest of `buf`
    /// is left as it was. Zero means the end of the data.
    pub fn read_bytes(&mut self, buf: &mut [u8]) -> (n: usize)
        ensures
            final(self).position() <= final(self).spec_data().len(),
            final(self).spec_data() == old(self).spec_data(),
            n as nat == min_nat(
                (old(self).spec_data().len() - old(self).position()) as nat,
                old(buf)@.len(),
            ),
            final(self).position() == old(self).position() + n,
            final(buf)@.len() == old(buf)@.len(),
            final(buf)@.subrange(0, n as int) == old(self).spec_data().subrange(
                old(self).position() as int,
                old(self).position() + n,
            ),
            final(buf)@.subrange(n as int, final(buf)@.len() as int) == old(buf)@.subrange(
                n as int,
                old(buf)@.len() as int,
            ),
    {
        proof {
            use_type_invariant(&*self);
        }
        let left = self.data.len() - self.read_i;
        let n: usize = if left <= buf.len() { left } else { buf.len() };
        let start = self.read_i;
        let data = self.data;
        let len = data.len();
        let mut i: usize = 0;
        while i < n
            invariant
                self.read_i == start,
                self.data@ == data@,
                data@.len() == len,
                start + n <= len,
                n <= buf@.len(),
                i <= n,
                buf@.len() == old(buf)@.len(),
                forall|k: int| 0 <= k < i ==> buf@[k] == data@[start + k],
                forall|k: int| i <= k < buf@.len() ==> buf@[k] == old(buf)@[k],
            decreases n - i,
        {
            let b = data[start + i];
            buf[i] = b;
            i = i + 1;
        }
        self.read_i = start + n;
        assert(buf@.subrange(0, n as int) =~= self.data@.subrange(start as int, start + n));
        assert(buf@.subrange(n as int, buf@.len() as int) =~= old(buf)@.subrange(
            n as int,
            old(buf)@.len() as int,
        ));
        n
    }
}

/// The error type of `std::io::Read`; the byte cursor never produces one.
#[verifier::external_type_specification]
#[verifier::external_body]
pub struct ExIoError(std::io::Error);

impl<'a> std::io::Read for ReadableByteSlice<'a> {
    fn read(&mut self, buf: &mut [u8]) -> std::io::Result<usize> {
        Ok(self.read_bytes(buf))
    }
}

} // verus!
