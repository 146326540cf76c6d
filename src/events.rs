//! The inbound event processor: pending jobs, promotion on a new block, and
//! target changes.

use crate::height::{HeightReader, HeightWriter};
use crate::job::{max_time_fits, StratumJob};
use crate::messages::{Message, NewMiningJob, SetNewPrevHash, SetTarget};
use std::collections::HashMap;
use vstd::std_specs::iter::IteratorSpec;
use vstd::prelude::*;

verus! {

broadcast use vstd::std_specs::hash::group_hash_axioms;

/// Why the inbound processor ends the session.
#[derive(Clone, Copy, Debug, PartialEq, Eq, Structural)]
pub enum EventError {
    /// A new block was announced with no job announced for its height.
    ProtocolViolation { block_height: u32 },
    /// The announcement's minimum time plus its offset overflows 32 bits.
    MalformedMessage { block_height: u32 },
}

/// What the work-distribution side is handed after an inbound message.
#[derive(Clone)]
pub enum JobEvent {
    /// A new current job to mine.
    NewJob(StratumJob),
    /// A new maximum target, as the server sent it.
    ChangeTarget([u8; 32]),
}

/// Every pending announcement is filed under its own block height.
pub open spec fn keyed_by_height(pending: Map<u32, NewMiningJob>) -> bool {
    forall|h: u32| #[trigger] pending.contains_key(h) ==> pending[h].block_height == h
}

/// The pending table with every height below `height` taken out.
pub open spec fn keep_from(pending: Map<u32, NewMiningJob>, height: u32) -> Map<u32, NewMiningJob> {
    pending.restrict(Set::new(|k: u32| k >= height))
}

/// The pending table after a job announcement: inserted, or replacing the
/// entry of the same height.
pub open spec fn after_new_job(pending: Map<u32, NewMiningJob>, job_msg: NewMiningJob) -> Map<
    u32,
    NewMiningJob,
> {
    pending.insert(job_msg.block_height, job_msg)
}

/// What a new-block announcement leads to on a pending table: the job
/// announcement to promote, or the error that ends the session.
pub open spec fn promotion(pending: Map<u32, NewMiningJob>, prevhash_msg: SetNewPrevHash) -> Result<
    NewMiningJob,
    EventError,
> {
    let h = prevhash_msg.block_height;
    if !pending.contains_key(h) {
        Err(EventError::ProtocolViolation { block_height: h })
    } else if !max_time_fits(prevhash_msg) {
        Err(EventError::MalformedMessage { block_height: h })
    } else {
        Ok(pending[h])
    }
}

/// The pending table after a new-block announcement: the matching entry is
/// taken out, and on success every lower height is purged.
pub open spec fn after_prev_hash(pending: Map<u32, NewMiningJob>, prevhash_msg: SetNewPrevHash) -> Map<
    u32,
    NewMiningJob,
> {
    let h = prevhash_msg.block_height;
    match promotion(pending, prevhash_msg) {
        Ok(_) => keep_from(pending.remove(h), h),
        Err(_) => pending.remove(h),
    }
}

/// Consumes decoded server messages and keeps the jobs announced ahead of
/// their block.
pub struct StratumEventHandler {
    /// Announced jobs by block height, not yet promoted.
    pub new_jobs: HashMap<u32, NewMiningJob>,
    /// Write side of the session's current-height cell.
    pub current_block_height: HeightWriter,
}

impl StratumEventHandler {
    pub open spec fn pending(&self) -> Map<u32, NewMiningJob> {
        self.new_jobs@
    }

    pub open spec fn height(&self) -> u32 {
        self.current_block_height.published()
    }

    /// The handler's invariant: the pending table is keyed by height.
    pub open spec fn wf(&self) -> bool {
        keyed_by_height(self.pending())
    }

    /// An empty pending table and a fresh height cell at zero.
    pub fn new() -> (r: Self)
        ensures
            r.wf(),
            r.pending() == Map::<u32, NewMiningJob>::empty(),
            r.height() == 0,
    {
        let r = StratumEventHandler { new_jobs: HashMap::new(), current_block_height: HeightWriter::new() };
        assert(r.pending() =~= Map::<u32, NewMiningJob>::empty());
        r
    }

    /// Records a job announcement; one for an already pending height
    /// replaces the earlier one.
    pub fn visit_new_mining_job(&mut self, job_msg: &NewMiningJob)
        requires
            old(self).wf(),
        ensures
            final(self).wf(),
            final(self).pending() == after_new_job(old(self).pending(), *job_msg),
            final(self).current_block_height == old(self).current_block_height,
    {
        self.new_jobs.insert(job_msg.block_height, *job_msg);
    }

    /// Drops every pending entry below `height`.
    fn purge_below(&mut self, height: u32)
        requires
            old(self).wf(),
        ensures
            final(self).wf(),
            final(self).pending() == keep_from(old(self).pending(), height),
            final(self).current_block_height == old(self).current_block_height,
    {
        let ghost entries = vstd::std_specs::hash::spec_hash_map_iter(&self.new_jobs).remaining();
        let ghost mut seen: int = 0;
        let mut kept: HashMap<u32, NewMiningJob> = HashMap::new();
        for pair in it: self.new_jobs.iter()
            invariant
                it.seq() == entries,
                seen == it.index(),
                forall|k: u32| #[trigger]
                    kept@.contains_key(k) ==> k >= height && self.new_jobs@.contains_key(k)
                        && kept@[k] == self.new_jobs@[k],
                forall|i: int|
                    0 <= i < seen && *entries[i].0 >= height ==> kept@.contains_key(
                        *#[trigger] entries[i].0,
                    ),
        {
            let (k, v) = pair;
            if *k >= height {
                kept.insert(*k, *v);
            }
            proof {
                seen = seen + 1;
            }
        }
        proof {
            assert(seen == entries.len());
            assert forall|k: u32| self.new_jobs@.contains_key(k) && k >= height implies kept@.contains_key(k) by {
                assert(entries.contains((&k, &self.new_jobs@[k])));
                let i = choose|i: int| 0 <= i < entries.len() && entries[i] == (&k, &self.new_jobs@[k]);
                assert(*entries[i].0 == k);
            }
        }
        assert(kept@ =~= keep_from(self.new_jobs@, height));
        self.new_jobs = kept;
    }

    /// Handles a new-block announcement.
    ///
    /// The new height is published first, which at once makes every job of a
    /// lower height invalid. Then the pending job of exactly that height is
    /// taken out and combined with the announcement, and every lower height
    /// is purged. With no job pending for the height the session must end.
    pub fn visit_set_new_prev_hash(&mut self, prevhash_msg: &SetNewPrevHash) -> (r: Result<
        StratumJob,
        EventError,
    >)
        requires
            old(self).wf(),
        ensures
            final(self).wf(),
            final(self).height() == prevhash_msg.block_height,
            forall|reader: HeightReader| #[trigger]
                reader.reads(&old(self).current_block_height) ==> reader.reads(
                    &final(self).current_block_height,
                ),
            final(self).pending() == after_prev_hash(old(self).pending(), *prevhash_msg),
            match promotion(old(self).pending(), *prevhash_msg) {
                Ok(job_msg) => r matches Ok(job) && job.built_from(job_msg, *prevhash_msg)
                    && job.current_block_height.reads(&final(self).current_block_height),
                Err(e) => r == Err::<StratumJob, EventError>(e),
            },
    {
        let current_block_height = prevhash_msg.block_height;
        self.current_block_height.publish(current_block_height);
        let job_msg = match self.new_jobs.remove(&current_block_height) {
            Some(job_msg) => job_msg,
            None => {
                return Err(EventError::ProtocolViolation { block_height: current_block_height });
            },
        };
        if prevhash_msg.max_ntime_offset as u32 > u32::MAX - prevhash_msg.min_ntime {
            return Err(EventError::MalformedMessage { block_height: current_block_height });
        }
        let job = StratumJob::new(&job_msg, prevhash_msg, self.current_block_height.reader());
        self.purge_below(current_block_height);
        Ok(job)
    }

    /// Handles a target change: the new maximum target goes on unmodified.
    pub fn visit_set_target(&self, target_msg: &SetTarget) -> (r: [u8; 32])
        ensures
            r == target_msg.max_target,
    {
        target_msg.max_target
    }

    /// Dispatches one inbound message by its kind. Kinds other than job,
    /// new-block and target announcements change nothing.
    pub fn accept(&mut self, msg: &Message) -> (r: Result<Option<JobEvent>, EventError>)
        requires
            old(self).wf(),
        ensures
            final(self).wf(),
            forall|reader: HeightReader| #[trigger]
                reader.reads(&old(self).current_block_height) ==> reader.reads(
                    &final(self).current_block_height,
                ),
            match *msg {
                Message::NewMiningJob(job_msg) => {
                    &&& r == Ok::<Option<JobEvent>, EventError>(None)
                    &&& final(self).pending() == after_new_job(old(self).pending(), job_msg)
                    &&& final(self).height() == old(self).height()
                },
                Message::SetNewPrevHash(prevhash_msg) => {
                    &&& final(self).height() == prevhash_msg.block_height
                    &&& final(self).pending() == after_prev_hash(old(self).pending(), prevhash_msg)
                    &&& match promotion(old(self).pending(), prevhash_msg) {
                        Ok(job_msg) => r matches Ok(Some(JobEvent::NewJob(job))) && job.built_from(
                            job_msg,
                            prevhash_msg,
                        ) && job.current_block_height.reads(&final(self).current_block_height),
                        Err(e) => r == Err::<Option<JobEvent>, EventError>(e),
                    }
                },
                Message::SetTarget(target_msg) => {
                    &&& r == Ok::<Option<JobEvent>, EventError>(
                        Some(JobEvent::ChangeTarget(target_msg.max_target)),
                    )
                    &&& final(self).pending() == old(self).pending()
                    &&& final(self).height() == old(self).height()
                },
                _ => {
                    &&& r == Ok::<Option<JobEvent>, EventError>(None)
                    &&& final(self).pending() == old(self).pending()
                    &&& final(self).height() == old(self).height()
                },
            },
    {
        match msg {
            Message::NewMiningJob(job_msg) => {
                self.visit_new_mining_job(job_msg);
                Ok(None)
            },
            Message::SetNewPrevHash(prevhash_msg) => {
                match self.visit_set_new_prev_hash(prevhash_msg) {
                    Ok(job) => Ok(Some(JobEvent::NewJob(job))),
                    Err(e) => Err(e),
                }
            },
            Message::SetTarget(target_msg) => Ok(Some(JobEvent::ChangeTarget(self.visit_set_target(target_msg)))),
            _ => Ok(None),
        }
    }
}

/// A job announced for a height and then confirmed by a new-block
/// announcement of that height is promoted: exactly that one announcement
/// becomes the new job, and nothing stays pending at that height.
pub proof fn lemma_announced_job_is_promoted(
    pending: Map<u32, NewMiningJob>,
    job_msg: NewMiningJob,
    prevhash_msg: SetNewPrevHash,
)
    requires
        job_msg.block_height == prevhash_msg.block_height,
        max_time_fits(prevhash_msg),
    ensures
        promotion(after_new_job(pending, job_msg), prevhash_msg) == Ok::<NewMiningJob, EventError>(
            job_msg,
        ),
        !after_prev_hash(after_new_job(pending, job_msg), prevhash_msg).contains_key(
            prevhash_msg.block_height,
        ),
{
}

/// After a new block is confirmed, no pending entry below or at its height
/// is left, so none of them can be promoted by a later new-block
/// announcement of a lower height unless it is announced again.
pub proof fn lemma_stale_jobs_never_promoted(
    pending: Map<u32, NewMiningJob>,
    prevhash_msg: SetNewPrevHash,
    later_msg: SetNewPrevHash,
)
    requires
        promotion(pending, prevhash_msg) is Ok,
        later_msg.block_height <= prevhash_msg.block_height,
    ensures
        forall|h: u32| #[trigger]
            after_prev_hash(pending, prevhash_msg).contains_key(h) ==> h > prevhash_msg.block_height,
        promotion(after_prev_hash(pending, prevhash_msg), later_msg) is Err,
{
}

/// One purge pass after taking out the promoted entry leaves exactly the
/// entries above the new height, whatever order they were announced in.
pub proof fn lemma_single_purge_keeps_higher(pending: Map<u32, NewMiningJob>, prevhash_msg: SetNewPrevHash)
    requires
        promotion(pending, prevhash_msg) is Ok,
    ensures
        after_prev_hash(pending, prevhash_msg) == pending.restrict(
            Set::new(|k: u32| k > prevhash_msg.block_height),
        ),
{
    assert(after_prev_hash(pending, prevhash_msg) =~= pending.restrict(
        Set::new(|k: u32| k > prevhash_msg.block_height),
    ));
}

/// A second announcement for a pending height replaces the first one
/// instead of merging with it.
pub proof fn lemma_reannouncement_replaces(
    pending: Map<u32, NewMiningJob>,
    first: NewMiningJob,
    second: NewMiningJob,
)
    requires
        first.block_height == second.block_height,
    ensures
        after_new_job(after_new_job(pending, first), second) == after_new_job(pending, second),
        after_new_job(after_new_job(pending, first), second)[second.block_height] == second,
{
    assert(after_new_job(after_new_job(pending, first), second) =~= after_new_job(pending, second));
}

/// The pending table after a run of job announcements, in arrival order.
pub open spec fn announce_all(pending: Map<u32, NewMiningJob>, msgs: Seq<NewMiningJob>) -> Map<
    u32,
    NewMiningJob,
>
    decreases msgs.len(),
{
    if msgs.len() == 0 {
        pending
    } else {
        after_new_job(announce_all(pending, msgs.drop_last()), msgs.last())
    }
}

/// The last announcement of a run for the given height, if any.
pub open spec fn last_for(msgs: Seq<NewMiningJob>, height: u32) -> Option<NewMiningJob>
    decreases msgs.len(),
{
    if msgs.len() == 0 {
        None
    } else if msgs.last().block_height == height {
        Some(msgs.last())
    } else {
        last_for(msgs.drop_last(), height)
    }
}

/// The table after a run holds, for each height, the run's last
/// announcement of that height, or else the entry it held before.
proof fn lemma_announce_all_overlay(pending: Map<u32, NewMiningJob>, msgs: Seq<NewMiningJob>)
    ensures
        announce_all(pending, msgs) == Map::new(
            |h: u32| pending.contains_key(h) || last_for(msgs, h) is Some,
            |h: u32|
                match last_for(msgs, h) {
                    Some(j) => j,
                    None => pending[h],
                },
        ),
    decreases msgs.len(),
{
    if msgs.len() > 0 {
        lemma_announce_all_overlay(pending, msgs.drop_last());
    }
    assert(announce_all(pending, msgs) =~= Map::new(
        |h: u32| pending.contains_key(h) || last_for(msgs, h) is Some,
        |h: u32|
            match last_for(msgs, h) {
                Some(j) => j,
                None => pending[h],
            },
    ));
}

/// The order in which job announcements arrive does not matter: two runs
/// whose last announcement for each height is the same leave the same table,
/// so a new-block announcement then promotes the same job (or fails alike)
/// and leaves the same table behind.
pub proof fn lemma_arrival_order_irrelevant(
    pending: Map<u32, NewMiningJob>,
    first: Seq<NewMiningJob>,
    second: Seq<NewMiningJob>,
    prevhash_msg: SetNewPrevHash,
)
    requires
        forall|h: u32| #[trigger] last_for(first, h) == last_for(second, h),
    ensures
        announce_all(pending, first) == announce_all(pending, second),
        promotion(announce_all(pending, first), prevhash_msg) == promotion(
            announce_all(pending, second),
            prevhash_msg,
        ),
        after_prev_hash(announce_all(pending, first), prevhash_msg) == after_prev_hash(
            announce_all(pending, second),
            prevhash_msg,
        ),
{
    lemma_announce_all_overlay(pending, first);
    lemma_announce_all_overlay(pending, second);
    assert(announce_all(pending, first) =~= announce_all(pending, second));
}

} // verus!
