//! What the bridge tells its transmission channels to broadcast about
//! itself, and the fee rule for posting a message.
//!
//! Assembling and attesting the actual wire message is the transport
//! network's business; the host posts what these functions return.

use vstd::prelude::*;
use crate::addr::Address;
use crate::config::{Config, Mode};

verus! {

/// The self-description a channel broadcasts so that remote deployments can
/// discover this manager: its address, its mode, and the token it manages.
#[derive(Clone, Copy, Debug)]
pub struct TransceiverInfo {
    /// The manager program on this chain.
    pub manager_address: Address,
    /// Whether that manager locks or burns.
    pub manager_mode: Mode,
    /// The token mint it manages.
    pub token_address: Address,
    /// The token's decimals on this chain.
    pub token_decimals: u8,
}

/// Builds the self-description message for a broadcast of this deployment's
/// identity; the host posts it on the transport network.
pub fn broadcast_id(config: &Config, manager_address: &Address, token_decimals: u8) -> (r:
    TransceiverInfo)
    ensures
        r.manager_address@ == manager_address@,
        r.manager_mode == config.mode,
        r.token_address@ == config.mint@,
        r.token_decimals == token_decimals,
{
    TransceiverInfo {
        manager_address: *manager_address,
        manager_mode: config.mode,
        token_address: config.mint,
        token_decimals,
    }
}

/// The transport fee owed for posting one message: the bridge's configured
/// fee when it is nonzero, otherwise no payment at all.
pub fn wormhole_fee_due(bridge_fee: u64) -> (r: Option<u64>)
    ensures
        bridge_fee > 0 ==> r == Some(bridge_fee),
        bridge_fee == 0 ==> r is None,
{
    if bridge_fee > 0 {
        Some(bridge_fee)
    } else {
        None
    }
}

} // verus!
