//! Client side of a binary mining protocol: handshake, job tracking across
//! block-height changes, and sequenced submission of solutions.

mod events;
mod handshake;
mod height;
mod job;
mod messages;
mod submitter;

pub use events::{
    after_new_job, after_prev_hash, announce_all, keep_from, last_for,
    lemma_arrival_order_irrelevant, keyed_by_height, lemma_announced_job_is_promoted,
    lemma_reannouncement_replaces, lemma_single_purge_keeps_higher, lemma_stale_jobs_never_promoted,
    promotion, EventError, JobEvent, StratumEventHandler,
};
pub use handshake::{
    accepts, action_after, default_device, lemma_handshake_outcome, next_handshake_action,
    open_channel,
    setup_mining_connection, HandshakeAction, HandshakeError, HandshakeStep,
    StratumConnectionHandler, AGGREGATED_DEVICE_COUNT, MAX_TARGET_NBITS, NOMINAL_HASHRATE,
    OPEN_CHANNEL_REQ_ID, PROTOCOL_VERSION, REQUIRED_EXTRANONCE_SIZE,
};
pub use height::{HeightReader, HeightWriter};
pub use job::{
    lemma_validity_monotonic, max_time_fits, sha256d_of_bytes, StratumJob, VERSION_MASK,
};
pub use messages::{
    DeviceInfo, Message, NewMiningJob, OpenChannel, SetNewPrevHash, SetTarget,
    SetupMiningConnection, SubmitShares,
};
pub use submitter::{
    advance, lemma_nth_submission_seq_num, lemma_seq_nums_consecutive, next_seq, seq_after, submission_of, StratumSolutionHandler,
    WorkSolution,
};
