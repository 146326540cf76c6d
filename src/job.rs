//! A unit of mining work with a live validity check.

use crate::height::HeightReader;
use crate::messages::{NewMiningJob, SetNewPrevHash};
use bitcoin_hashes::sha256d;
use vstd::prelude::*;

verus! {

/// The bits of the block header version that a miner may roll.
pub const VERSION_MASK: u32 = 0x1fffe000;

#[verifier::external_type_specification]
#[verifier::external_body]
pub struct ExSha256dHash(sha256d::Hash);

/// The double-SHA256 digest whose bytes are `bytes`.
pub uninterp spec fn sha256d_of_bytes(bytes: Seq<u8>) -> sha256d::Hash;

/// Relies on `bitcoin_hashes::Hash::from_byte_array` for `sha256d::Hash`:
/// wraps the 32 bytes as a double-SHA256 digest, without hashing them, so
/// the digest depends on the bytes alone.
#[verifier::external_body]
fn sha256d_from_bytes(bytes: &[u8; 32]) -> (r: sha256d::Hash)
    ensures
        r == sha256d_of_bytes(bytes@),
{
    <sha256d::Hash as bitcoin_hashes::Hash>::from_byte_array(*bytes)
}

/// Whether the maximum time of a job built on this announcement fits in 32 bits.
pub open spec fn max_time_fits(prevhash_msg: SetNewPrevHash) -> bool {
    prevhash_msg.min_ntime + prevhash_msg.max_ntime_offset <= u32::MAX
}

/// One unit of mining work, immutable once built.
///
/// Its validity is read live from the session's height cell: once a higher
/// block height is published there, every copy of the job becomes stale.
#[derive(Clone)]
pub struct StratumJob {
    pub id: u32,
    pub channel_id: u32,
    pub block_height: u32,
    pub version: u32,
    pub prev_hash: [u8; 32],
    pub merkle_root: [u8; 32],
    pub time: u32,
    pub max_time: u32,
    pub bits: u32,
    pub current_block_height: HeightReader,
}

impl StratumJob {
    /// The job is still worth mining when the current height is `current`.
    pub open spec fn valid_at(&self, current: u32) -> bool {
        self.block_height >= current
    }

    /// The job's fields are the ones combined from the two announcements.
    pub open spec fn built_from(&self, job_msg: NewMiningJob, prevhash_msg: SetNewPrevHash) -> bool {
        &&& self.id == job_msg.job_id
        &&& self.channel_id == job_msg.channel_id
        &&& self.block_height == job_msg.block_height
        &&& self.version == job_msg.version
        &&& self.prev_hash == prevhash_msg.prev_hash
        &&& self.merkle_root == job_msg.merkle_root
        &&& self.time == prevhash_msg.min_ntime
        &&& self.max_time == prevhash_msg.min_ntime + prevhash_msg.max_ntime_offset
        &&& self.bits == prevhash_msg.nbits
    }

    /// Combines a job announcement with the new-block announcement of the
    /// same height. The heights must agree, and the maximum time must fit.
    pub fn new(
        job_msg: &NewMiningJob,
        prevhash_msg: &SetNewPrevHash,
        current_block_height: HeightReader,
    ) -> (r: Self)
        requires
            job_msg.block_height == prevhash_msg.block_height,
            max_time_fits(*prevhash_msg),
        ensures
            r.built_from(*job_msg, *prevhash_msg),
            r.current_block_height == current_block_height,
    {
        StratumJob {
            id: job_msg.job_id,
            channel_id: job_msg.channel_id,
            block_height: job_msg.block_height,
            version: job_msg.version,
            prev_hash: prevhash_msg.prev_hash,
            merkle_root: job_msg.merkle_root,
            time: prevhash_msg.min_ntime,
            max_time: prevhash_msg.min_ntime + prevhash_msg.max_ntime_offset as u32,
            bits: prevhash_msg.nbits,
            current_block_height,
        }
    }

    pub fn version(&self) -> (r: u32)
        ensures
            r == self.version,
    {
        self.version
    }

    pub fn version_mask(&self) -> (r: u32)
        ensures
            r == VERSION_MASK,
    {
        VERSION_MASK
    }

    /// The previous block hash as a double-SHA256 digest.
    pub fn previous_hash(&self) -> (r: sha256d::Hash)
        ensures
            r == sha256d_of_bytes(self.prev_hash@),
    {
        sha256d_from_bytes(&self.prev_hash)
    }

    /// The merkle root as a double-SHA256 digest.
    pub fn merkle_root(&self) -> (r: sha256d::Hash)
        ensures
            r == sha256d_of_bytes(self.merkle_root@),
    {
        sha256d_from_bytes(&self.merkle_root)
    }

    pub fn time(&self) -> (r: u32)
        ensures
            r == self.time,
    {
        self.time
    }

    pub fn max_time(&self) -> (r: u32)
        ensures
            r == self.max_time,
    {
        self.max_time
    }

    pub fn bits(&self) -> (r: u32)
        ensures
            r == self.bits,
    {
        self.bits
    }

    /// Validity against a given current height.
    pub fn is_valid_at(&self, current: u32) -> (r: bool)
        ensures
            r == self.valid_at(current),
    {
        self.block_height >= current
    }

    /// Validity against the height that the session's cell holds now.
    ///
    /// The cell is written concurrently, so the result is `valid_at` of
    /// whatever height was read; a job at the largest height is always valid.
    pub fn is_valid(&self) -> (r: bool)
        ensures
            self.block_height == u32::MAX ==> r,
    {
        self.is_valid_at(self.current_block_height.current())
    }
}

/// Once the current height has passed a job's height, the job stays invalid
/// for every later current height that is at least as high.
pub proof fn lemma_validity_monotonic(job: StratumJob, earlier: u32, later: u32)
    requires
        earlier <= later,
    ensures
        !job.valid_at(earlier) ==> !job.valid_at(later),
        job.valid_at(later) ==> job.valid_at(earlier),
{
}

} // verus!
