//! The two-step handshake: connection setup, then channel open.

use crate::messages::{DeviceInfo, Message, OpenChannel, SetupMiningConnection};
use vstd::prelude::*;

verus! {

/// The protocol version this client speaks.
pub const PROTOCOL_VERSION: u16 = 0;

/// Header-only mining: no extranonce space is requested.
pub const REQUIRED_EXTRANONCE_SIZE: u16 = 0;

/// Request id of the channel-open request.
pub const OPEN_CHANNEL_REQ_ID: u32 = 10;

/// Compact form of the loosest target, 0xffff << 208 (a difficulty-1 share).
pub const MAX_TARGET_NBITS: u32 = 0x1d00ffff;

/// The nominal hashrate declared when a channel is opened, in hashes per second.
pub const NOMINAL_HASHRATE: u64 = 1_000_000_000;

/// Number of devices that the channel aggregates.
pub const AGGREGATED_DEVICE_COUNT: u32 = 1;

/// The two handshake steps, in the order they run.
#[derive(Clone, Copy, Debug, PartialEq, Eq, Structural)]
pub enum HandshakeStep {
    SetupConnection,
    OpenChannel,
}

/// Why the handshake failed.
#[derive(Clone, Copy, Debug, PartialEq, Eq, Structural)]
pub enum HandshakeError {
    /// The step's response was an error, or not the success of that step.
    Rejected(HandshakeStep),
}

/// What to do after a handshake response.
#[derive(Clone, Copy, Debug, PartialEq, Eq, Structural)]
pub enum HandshakeAction {
    /// Connection setup was accepted: send the channel-open request.
    OpenChannel,
    /// Both steps were accepted: job traffic may flow.
    Established,
    /// The handshake failed; no further step is attempted.
    Fail(HandshakeError),
}

/// The response accepts `step` only when it is that step's explicit success.
pub open spec fn accepts(step: HandshakeStep, response: Message) -> bool {
    match step {
        HandshakeStep::SetupConnection => response == Message::SetupMiningConnectionSuccess,
        HandshakeStep::OpenChannel => response == Message::OpenChannelSuccess,
    }
}

/// The action that follows a response to `step`.
pub open spec fn action_after(step: HandshakeStep, response: Message) -> HandshakeAction {
    if !accepts(step, response) {
        HandshakeAction::Fail(HandshakeError::Rejected(step))
    } else {
        match step {
            HandshakeStep::SetupConnection => HandshakeAction::OpenChannel,
            HandshakeStep::OpenChannel => HandshakeAction::Established,
        }
    }
}

/// Reads one handshake response, rejecting unless it says otherwise.
pub struct StratumConnectionHandler {
    /// The step whose response is read.
    pub step: HandshakeStep,
    /// Whether the responses seen so far leave the step accepted.
    pub accepted: bool,
}

impl StratumConnectionHandler {
    /// Starts out rejected.
    pub fn new(step: HandshakeStep) -> (r: Self)
        ensures
            r.step == step,
            !r.accepted,
    {
        StratumConnectionHandler { step, accepted: false }
    }

    /// An explicit success of the step accepts it, an explicit error of the
    /// step rejects it, and any other message leaves the outcome as it was.
    pub fn accept(&mut self, response: &Message)
        ensures
            final(self).step == old(self).step,
            final(self).accepted == if accepts(old(self).step, *response) {
                true
            } else if *response == Message::SetupMiningConnectionError && old(self).step
                == HandshakeStep::SetupConnection {
                false
            } else if *response == Message::OpenChannelError && old(self).step
                == HandshakeStep::OpenChannel {
                false
            } else {
                old(self).accepted
            },
    {
        match (self.step, response) {
            (HandshakeStep::SetupConnection, Message::SetupMiningConnectionSuccess) => {
                self.accepted = true;
            },
            (HandshakeStep::SetupConnection, Message::SetupMiningConnectionError) => {
                self.accepted = false;
            },
            (HandshakeStep::OpenChannel, Message::OpenChannelSuccess) => {
                self.accepted = true;
            },
            (HandshakeStep::OpenChannel, Message::OpenChannelError) => {
                self.accepted = false;
            },
            _ => {},
        }
    }

    /// The outcome of one step's single response.
    pub fn visit(step: HandshakeStep, response: &Message) -> (r: Result<(), HandshakeError>)
        ensures
            r is Ok <==> accepts(step, *response),
            r is Err ==> r == Err::<(), HandshakeError>(HandshakeError::Rejected(step)),
    {
        let mut handler = Self::new(step);
        handler.accept(response);
        if handler.accepted {
            Ok(())
        } else {
            Err(HandshakeError::Rejected(step))
        }
    }
}

/// The connection-setup request for the given server endpoint.
pub fn setup_mining_connection(stratum_addr: String) -> (r: SetupMiningConnection)
    ensures
        r.protocol_version == PROTOCOL_VERSION,
        r.connection_url@ == stratum_addr@,
        r.required_extranonce_size == REQUIRED_EXTRANONCE_SIZE,
{
    SetupMiningConnection {
        protocol_version: PROTOCOL_VERSION,
        connection_url: stratum_addr,
        required_extranonce_size: REQUIRED_EXTRANONCE_SIZE,
    }
}

/// The device this client announces when it opens a channel.
pub fn default_device() -> (r: DeviceInfo)
    ensures
        r.vendor@ == "Braiins"@,
        r.hw_rev@ == "1"@,
        r.fw_ver@ == "Braiins OS 2019-06-05"@,
        r.dev_id@ == "xyz"@,
{
    DeviceInfo {
        vendor: "Braiins".to_string(),
        hw_rev: "1".to_string(),
        fw_ver: "Braiins OS 2019-06-05".to_string(),
        dev_id: "xyz".to_string(),
    }
}

/// The channel-open request for a user, announcing the default device.
pub fn open_channel(user: String) -> (r: OpenChannel)
    ensures
        r.req_id == OPEN_CHANNEL_REQ_ID,
        r.user@ == user@,
        !r.extended,
        r.device.vendor@ == "Braiins"@,
        r.device.hw_rev@ == "1"@,
        r.device.fw_ver@ == "Braiins OS 2019-06-05"@,
        r.device.dev_id@ == "xyz"@,
        r.nominal_hashrate == NOMINAL_HASHRATE,
        r.max_target_nbits == MAX_TARGET_NBITS,
        r.aggregated_device_count == AGGREGATED_DEVICE_COUNT,
{
    OpenChannel {
        req_id: OPEN_CHANNEL_REQ_ID,
        user,
        extended: false,
        device: default_device(),
        nominal_hashrate: NOMINAL_HASHRATE,
        max_target_nbits: MAX_TARGET_NBITS,
        aggregated_device_count: AGGREGATED_DEVICE_COUNT,
    }
}

/// Decides what follows the response to a handshake step.
pub fn next_handshake_action(step: HandshakeStep, response: &Message) -> (r: HandshakeAction)
    ensures
        r == action_after(step, *response),
{
    match StratumConnectionHandler::visit(step, response) {
        Err(e) => HandshakeAction::Fail(e),
        Ok(()) => match step {
            HandshakeStep::SetupConnection => HandshakeAction::OpenChannel,
            HandshakeStep::OpenChannel => HandshakeAction::Established,
        },
    }
}

/// The handshake is established exactly when both responses are the
/// explicit successes of their steps; a response that is not the success of
/// the first step, an explicit error included, fails the handshake before
/// the channel is opened.
pub proof fn lemma_handshake_outcome(first: Message, second: Message)
    ensures
        accepts(HandshakeStep::SetupConnection, first) && accepts(HandshakeStep::OpenChannel, second)
            ==> action_after(HandshakeStep::SetupConnection, first) == HandshakeAction::OpenChannel
            && action_after(HandshakeStep::OpenChannel, second) == HandshakeAction::Established,
        first != Message::SetupMiningConnectionSuccess ==> action_after(
            HandshakeStep::SetupConnection,
            first,
        ) == HandshakeAction::Fail(HandshakeError::Rejected(HandshakeStep::SetupConnection)),
        second != Message::OpenChannelSuccess ==> action_after(HandshakeStep::OpenChannel, second)
            == HandshakeAction::Fail(HandshakeError::Rejected(HandshakeStep::OpenChannel)),
{
}

} // verus!
