//! Per-remote-chain trust records.
//!
//! A peer record names the manager contract on a remote chain and how many
//! decimals the token carries there. Both queues consult it: outbound to
//! trim amounts and address the remote manager, inbound to authenticate the
//! sender. Registering a peer also installs or adjusts the inbound rate
//! limit for that chain.

use vstd::prelude::*;
use crate::addr::{Address, address_eq};
use crate::config::Config;
use crate::error::NttError;
use crate::rate_limit::RateLimitState;

verus! {

/// The trust record for one remote chain.
#[derive(Clone, Copy, Debug)]
pub struct NttManagerPeer {
    /// The manager contract on the remote chain.
    pub address: Address,
    /// How many decimals the token has on the remote chain.
    pub token_decimals: u8,
}

/// What a peer registration carries.
#[derive(Clone, Copy, Debug)]
pub struct SetPeerArgs {
    /// Which remote chain the record is for; the host keys storage by it.
    pub chain_id: u16,
    /// The manager contract on that chain.
    pub address: Address,
    /// The inbound rate limit for that chain.
    pub limit: u64,
    /// The token decimals on the peer chain.
    pub token_decimals: u8,
}

/// Registers or overwrites the trust record for a remote chain. Only the
/// owner may do so. A never-used inbound rate limiter (one that has no
/// recorded transaction yet) is initialized at full capacity; a live one
/// has its limit adjusted, crystallizing accrued refill first.
pub fn set_peer(
    config: &Config,
    signer: &Address,
    args: &SetPeerArgs,
    inbox_rate_limit: &mut RateLimitState,
    now: i64,
) -> (r: Result<NttManagerPeer, NttError>)
    requires
        old(inbox_rate_limit).wf(),
        now >= old(inbox_rate_limit).last_tx_timestamp,
    ensures
        r is Ok <==> signer@ == config.owner@,
        r matches Ok(p) ==> p.address@ == args.address@ && p.token_decimals == args.token_decimals,
        r is Ok && old(inbox_rate_limit).last_tx_timestamp == 0 ==> *final(inbox_rate_limit) == (
        RateLimitState {
            limit: args.limit,
            capacity_at_last_tx: args.limit,
            last_tx_timestamp: 0,
        }),
        r is Ok && old(inbox_rate_limit).last_tx_timestamp != 0 ==> *final(inbox_rate_limit) == (
        RateLimitState {
            limit: args.limit,
            capacity_at_last_tx: (if old(inbox_rate_limit).spec_capacity_at(now as int)
                <= args.limit {
                old(inbox_rate_limit).spec_capacity_at(now as int)
            } else {
                args.limit as int
            }) as u64,
            last_tx_timestamp: now,
        }),
        r is Err ==> *final(inbox_rate_limit) == *old(inbox_rate_limit) && r == Err::<
            NttManagerPeer,
            NttError,
        >(NttError::InvalidOwner),
        final(inbox_rate_limit).wf(),
{
    if !address_eq(signer, &config.owner) {
        return Err(NttError::InvalidOwner);
    }
    if inbox_rate_limit.last_tx_timestamp == 0 {
        *inbox_rate_limit = RateLimitState::new(args.limit);
    } else {
        inbox_rate_limit.set_limit(args.limit, now);
    }
    Ok(NttManagerPeer { address: args.address, token_decimals: args.token_decimals })
}

/// Authenticates an inbound message's sender: it must be exactly the
/// manager registered for its source chain. Anything else is rejected
/// before any attestation is recorded.
pub fn check_peer_sender(peer: &NttManagerPeer, source_manager: &Address) -> (r: Result<
    (),
    NttError,
>)
    ensures
        r is Ok <==> peer.address@ == source_manager@,
        r is Err ==> r == Err::<(), NttError>(NttError::InvalidNttPeer),
{
    if address_eq(&peer.address, source_manager) {
        Ok(())
    } else {
        Err(NttError::InvalidNttPeer)
    }
}

} // verus!
