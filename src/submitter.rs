//! The outbound solution submitter: one sequence number per solution, in the
//! order the solutions arrive.

use crate::job::StratumJob;
use crate::messages::SubmitShares;
use vstd::prelude::*;

verus! {

/// A solution found by the hashing hardware for one job.
#[derive(Clone)]
pub struct WorkSolution {
    /// The job the solution was found for.
    pub job: StratumJob,
    pub nonce: u32,
    /// Offset of the header time from the job's minimum time.
    pub time_offset: u16,
    /// The version field actually used, rolled bits included.
    pub version: u32,
}

/// The sequence number that follows `seq_num`, wrapping at 2^32.
pub open spec fn next_seq(seq_num: u32) -> u32 {
    ((seq_num as nat + 1) % 0x1_0000_0000) as u32
}

/// The sequence number held after `n` submissions that started at `start`.
pub open spec fn seq_after(start: u32, n: nat) -> u32 {
    ((start as nat + n) % 0x1_0000_0000) as u32
}

/// The submission message for a solution under a given sequence number.
pub open spec fn submission_of(solution: WorkSolution, seq_num: u32) -> SubmitShares {
    SubmitShares {
        channel_id: solution.job.channel_id,
        seq_num,
        job_id: solution.job.id,
        nonce: solution.nonce,
        ntime_offset: solution.time_offset,
        version: solution.version,
    }
}

/// Owns the submission counter; the only sender of submissions.
pub struct StratumSolutionHandler {
    /// The sequence number of the next submission.
    pub seq_num: u32,
}

impl StratumSolutionHandler {
    /// A submitter whose first submission carries sequence number zero.
    pub fn new() -> (r: Self)
        ensures
            r.seq_num == 0,
    {
        StratumSolutionHandler { seq_num: 0 }
    }

    /// Builds the submission for the next solution and advances the counter.
    pub fn process_solution(&mut self, solution: &WorkSolution) -> (r: SubmitShares)
        ensures
            r == submission_of(*solution, old(self).seq_num),
            final(self).seq_num == next_seq(old(self).seq_num),
    {
        let seq_num = self.seq_num;
        self.seq_num = self.seq_num.wrapping_add(1);
        SubmitShares {
            channel_id: solution.job.channel_id,
            seq_num,
            job_id: solution.job.id,
            nonce: solution.nonce,
            ntime_offset: solution.time_offset,
            version: solution.version,
        }
    }
}

/// Submissions are numbered consecutively: the counter after one more
/// submission is the wrapping successor of the counter before it, so the
/// submission made `n`-th from `start` carries `start + n` modulo 2^32,
/// with no gap and no reordering.
pub proof fn lemma_seq_nums_consecutive(start: u32, n: nat)
    ensures
        seq_after(start, 0) == start,
        seq_after(start, n + 1) == next_seq(seq_after(start, n)),
        seq_after(start, n + 1) != seq_after(start, n),
{
    vstd::arithmetic::div_mod::lemma_add_mod_noop(start as int + n, 1, 0x1_0000_0000);
    vstd::arithmetic::div_mod::lemma_mod_self_0(0x1_0000_0000);
    vstd::arithmetic::div_mod::lemma_small_mod(1, 0x1_0000_0000);
}

/// The counter after `n` calls of `process_solution` starting at `start`:
/// each call moves it to its wrapping successor.
pub open spec fn advance(start: u32, n: nat) -> u32
    decreases n,
{
    if n == 0 {
        start
    } else {
        next_seq(advance(start, (n - 1) as nat))
    }
}

/// The submission made after `n` earlier ones from `start` carries
/// `start + n` modulo 2^32: numbers follow arrival order with no gap and no
/// repeat within 2^32 submissions.
pub proof fn lemma_nth_submission_seq_num(start: u32, n: nat)
    ensures
        advance(start, n) == seq_after(start, n),
    decreases n,
{
    if n > 0 {
        lemma_nth_submission_seq_num(start, (n - 1) as nat);
        lemma_seq_nums_consecutive(start, (n - 1) as nat);
    }
}

} // verus!
