//! Decoded protocol messages, as the frame codec hands them over and takes
//! them back.

use vstd::prelude::*;

verus! {

/// Announcement of a job that becomes minable once its block height is confirmed.
#[derive(Clone, Copy, Debug, PartialEq, Eq)]
pub struct NewMiningJob {
    pub channel_id: u32,
    pub job_id: u32,
    pub block_height: u32,
    pub merkle_root: [u8; 32],
    pub version: u32,
}

/// Announcement of a new block: the new current height and the header context.
#[derive(Clone, Copy, Debug, PartialEq, Eq)]
pub struct SetNewPrevHash {
    pub block_height: u32,
    pub prev_hash: [u8; 32],
    pub min_ntime: u32,
    pub max_ntime_offset: u16,
    pub nbits: u32,
}

/// Announcement of a new maximum share target.
#[derive(Clone, Copy, Debug, PartialEq, Eq)]
pub struct SetTarget {
    pub channel_id: u32,
    pub max_target: [u8; 32],
}

/// Submission of one solved share.
#[derive(Clone, Copy, Debug, PartialEq, Eq)]
pub struct SubmitShares {
    pub channel_id: u32,
    pub seq_num: u32,
    pub job_id: u32,
    pub nonce: u32,
    pub ntime_offset: u16,
    pub version: u32,
}

/// First handshake request: protocol version, endpoint and extranonce size.
#[derive(Clone, Debug, PartialEq, Eq)]
pub struct SetupMiningConnection {
    pub protocol_version: u16,
    pub connection_url: String,
    pub required_extranonce_size: u16,
}

/// Metadata of the mining device that opens a channel.
#[derive(Clone, Debug, PartialEq, Eq)]
pub struct DeviceInfo {
    pub vendor: String,
    pub hw_rev: String,
    pub fw_ver: String,
    pub dev_id: String,
}

/// Second handshake request: opens a mining channel for a user.
///
/// The nominal hashrate is held in whole hashes per second; the codec
/// writes it in the protocol's own number format.
#[derive(Clone, Debug, PartialEq, Eq)]
pub struct OpenChannel {
    pub req_id: u32,
    pub user: String,
    pub extended: bool,
    pub device: DeviceInfo,
    pub nominal_hashrate: u64,
    pub max_target_nbits: u32,
    pub aggregated_device_count: u32,
}

/// A message received from the server, one variant per kind.
#[derive(Clone, Copy, Debug, PartialEq, Eq)]
pub enum Message {
    SetupMiningConnectionSuccess,
    SetupMiningConnectionError,
    OpenChannelSuccess,
    OpenChannelError,
    NewMiningJob(NewMiningJob),
    SetNewPrevHash(SetNewPrevHash),
    SetTarget(SetTarget),
    /// Any kind this client does not act on.
    Other,
}

} // verus!
