//! The send-side state machine: debited transfers waiting to go out.
//!
//! An outbox item is created once when a transfer is queued and afterwards
//! only gains bits in its per-channel completion bitmap; broadcasting twice
//! on one channel is rejected, never silently repeated. A transfer that did
//! not fit the rate limit may be queued instead: its capacity consumption is
//! deferred to the first successful release.

use vstd::prelude::*;
use crate::addr::Address;
use crate::bitmap::Bitmap;
use crate::config::{Config, Mode, RegisteredTransceiver};
use crate::error::NttError;
use crate::peer::NttManagerPeer;
use crate::rate_limit::RateLimitState;
use crate::trimmed_amount::{
    TrimmedAmount,
    spec_trim_target,
    spec_trimmed,
    spec_residual,
    spec_scaled,
    pow10,
    lemma_trim_then_restore,
};

verus! {

/// What a transfer request carries.
#[derive(Clone, Copy, Debug)]
pub struct TransferArgs {
    /// Amount to move, in the local token's native units.
    pub amount: u64,
    /// Which remote chain receives the value.
    pub recipient_chain: u16,
    /// Who receives the value there.
    pub recipient_address: Address,
    /// Whether to queue the transfer instead of failing when it does not
    /// fit the current rate-limit capacity.
    pub should_queue: bool,
}

/// One outbound transfer, created at send time after the caller's debit.
#[derive(Clone, Copy, Debug)]
pub struct OutboxItem {
    /// The debited amount at wire precision.
    pub amount: TrimmedAmount,
    /// Who sent the transfer.
    pub sender: Address,
    /// Which remote chain receives it.
    pub recipient_chain: u16,
    /// The manager contract on the remote chain.
    pub recipient_ntt_manager: Address,
    /// Who receives the value there.
    pub recipient_address: Address,
    /// From when on the item may be broadcast.
    pub release_timestamp: i64,
    /// Which channels have already broadcast it.
    pub released: Bitmap,
    /// Whether rate-limit consumption was deferred to the first release.
    pub queued: bool,
}

/// Whether `amount` survives encoding at the wire precision between
/// `from_decimals` and `to_decimals` without overflowing on the far side.
pub open spec fn spec_encode_fits(amount: u64, from_decimals: u8, to_decimals: u8) -> bool {
    spec_trimmed(amount, from_decimals, to_decimals) * pow10(
        (to_decimals - spec_trim_target(from_decimals, to_decimals)) as nat,
    ) <= u64::MAX
}

/// The units actually debited for a transfer: the requested amount minus
/// the dust that trimming drops.
pub open spec fn spec_debit(amount: u64, from_decimals: u8, to_decimals: u8) -> int {
    amount - spec_residual(amount, from_decimals, to_decimals)
}

/// Queues an outbound transfer whose debit (burn or lock) the caller has
/// already performed, minus the returned dust.
///
/// The amount is trimmed for the wire using the peer's decimals; the debit
/// (amount minus dust) is charged against the outbound rate limiter. When
/// capacity is short, the transfer either fails or — when `should_queue` is
/// set — is created with a release time solved from the refill rate and its
/// consumption deferred to the first release.
pub fn enqueue(
    config: &Config,
    peer: &NttManagerPeer,
    rate_limit: &mut RateLimitState,
    mint_decimals: u8,
    sender: &Address,
    args: &TransferArgs,
    debit_mode: Mode,
    now: i64,
) -> (r: Result<(OutboxItem, u64), NttError>)
    requires
        old(rate_limit).wf(),
        now >= old(rate_limit).last_tx_timestamp,
        now <= i64::MAX - crate::rate_limit::RATE_LIMIT_DURATION,
    ensures
        ({
            let fits = spec_encode_fits(args.amount, mint_decimals, peer.token_decimals);
            let debit = spec_debit(args.amount, mint_decimals, peer.token_decimals);
            let consumed = old(rate_limit).spec_capacity_at(now as int) >= debit;
            &&& (r is Ok <==> !config.paused && debit_mode == config.mode && fits && (consumed
                || args.should_queue))
            &&& (r == Err::<(OutboxItem, u64), NttError>(NttError::Paused) <==> config.paused)
            &&& (r == Err::<(OutboxItem, u64), NttError>(NttError::InvalidMode) <==> !config.paused
                && debit_mode != config.mode)
            &&& (r == Err::<(OutboxItem, u64), NttError>(NttError::AmountTooLarge)
                <==> !config.paused && debit_mode == config.mode && !fits)
            &&& (r == Err::<(OutboxItem, u64), NttError>(NttError::TransferExceedsRateLimit)
                <==> !config.paused && debit_mode == config.mode && fits && !consumed
                && !args.should_queue)
            &&& (r is Err ==> *final(rate_limit) == *old(rate_limit))
            &&& (r matches Ok((item, dust)) ==> {
                &&& item.amount.amount == spec_trimmed(
                    args.amount,
                    mint_decimals,
                    peer.token_decimals,
                )
                &&& item.amount.decimals == spec_trim_target(mint_decimals, peer.token_decimals)
                &&& dust == spec_residual(args.amount, mint_decimals, peer.token_decimals)
                &&& item.sender@ == sender@
                &&& item.recipient_chain == args.recipient_chain
                &&& item.recipient_address@ == args.recipient_address@
                &&& item.recipient_ntt_manager@ == peer.address@
                &&& item.released.count() == 0
                &&& (forall|j: u8| !item.released.has(j))
                &&& item.queued == !consumed
                &&& item.release_timestamp as int == (if consumed {
                    now as int
                } else {
                    old(rate_limit).spec_time_to_sufficient(now, debit as u64)
                })
                &&& (consumed ==> *final(rate_limit) == (RateLimitState {
                    limit: old(rate_limit).limit,
                    capacity_at_last_tx: (old(rate_limit).spec_capacity_at(now as int)
                        - debit) as u64,
                    last_tx_timestamp: now,
                }))
                &&& (!consumed ==> *final(rate_limit) == *old(rate_limit))
            })
            &&& final(rate_limit).wf()
        }),
{
    if config.paused {
        return Err(NttError::Paused);
    }
    if debit_mode != config.mode {
        return Err(NttError::InvalidMode);
    }
    let trimmed: TrimmedAmount;
    let dust: u64;
    match TrimmedAmount::encode(args.amount, mint_decimals, peer.token_decimals) {
        Err(e) => {
            return Err(e);
        },
        Ok(pair) => {
            trimmed = pair.0;
            dust = pair.1;
        },
    }
    proof {
        lemma_trim_then_restore(args.amount, mint_decimals, peer.token_decimals);
    }
    let debit: u64 = args.amount - dust;
    if rate_limit.consume(now, debit) {
        Ok(
            (
                OutboxItem {
                    amount: trimmed,
                    sender: *sender,
                    recipient_chain: args.recipient_chain,
                    recipient_ntt_manager: peer.address,
                    recipient_address: args.recipient_address,
                    release_timestamp: now,
                    released: Bitmap::new(),
                    queued: false,
                },
                dust,
            ),
        )
    } else if args.should_queue {
        let release_timestamp = rate_limit.time_to_sufficient(now, debit);
        Ok(
            (
                OutboxItem {
                    amount: trimmed,
                    sender: *sender,
                    recipient_chain: args.recipient_chain,
                    recipient_ntt_manager: peer.address,
                    recipient_address: args.recipient_address,
                    release_timestamp,
                    released: Bitmap::new(),
                    queued: true,
                },
                dust,
            ),
        )
    } else {
        Err(NttError::TransferExceedsRateLimit)
    }
}

/// Marks the item as broadcast on one channel, exactly once per channel.
///
/// A disabled channel is rejected; before the release time the call either
/// fails or no-ops, as the caller chose; a channel that already broadcast
/// the item is always rejected. The first successful release of an item
/// whose consumption was deferred performs it now, re-checking sufficiency;
/// capacity missing at that point is an unrecoverable accounting violation
/// and rejects the release without any state change.
pub fn release_outbound(
    config: &Config,
    item: &mut OutboxItem,
    rate_limit: &mut RateLimitState,
    transceiver: &RegisteredTransceiver,
    mint_decimals: u8,
    revert_on_delay: bool,
    now: i64,
) -> (r: Result<bool, NttError>)
    requires
        old(rate_limit).wf(),
        now >= old(rate_limit).last_tx_timestamp,
        transceiver.id < 128,
    ensures
        ({
            let enabled = config.enabled_transceivers.has(transceiver.id);
            let due = now >= old(item).release_timestamp;
            let already = old(item).released.has(transceiver.id);
            let defer = old(item).queued && old(item).released.count() == 0;
            let amount = spec_scaled(old(item).amount, mint_decimals);
            let decode_ok = mint_decimals < old(item).amount.decimals || amount <= u64::MAX;
            let sufficient = old(rate_limit).spec_capacity_at(now as int) >= amount;
            &&& (r == Err::<bool, NttError>(NttError::DisabledTransceiver) <==> !enabled)
            &&& (r == Err::<bool, NttError>(NttError::CantReleaseYet) <==> enabled && !due
                && revert_on_delay)
            &&& (r == Ok::<bool, NttError>(false) <==> enabled && !due && !revert_on_delay)
            &&& (r == Err::<bool, NttError>(NttError::MessageAlreadySent) <==> enabled && due
                && already)
            &&& (r == Err::<bool, NttError>(NttError::AmountOverflow) <==> enabled && due
                && !already && defer && !decode_ok)
            &&& (r == Err::<bool, NttError>(NttError::TransferExceedsRateLimit) <==> enabled && due
                && !already && defer && decode_ok && !sufficient)
            &&& (r == Ok::<bool, NttError>(true) <==> enabled && due && !already && (!defer || (
            decode_ok && sufficient)))
            &&& (r == Ok::<bool, NttError>(true) ==> {
                &&& *final(item) == (OutboxItem {
                    released: old(item).released.spec_set(transceiver.id),
                    ..*old(item)
                })
                &&& (defer ==> *final(rate_limit) == (RateLimitState {
                    limit: old(rate_limit).limit,
                    capacity_at_last_tx: (old(rate_limit).spec_capacity_at(now as int)
                        - amount) as u64,
                    last_tx_timestamp: now,
                }))
                &&& (!defer ==> *final(rate_limit) == *old(rate_limit))
            })
            &&& (r != Ok::<bool, NttError>(true) ==> *final(item) == *old(item)
                && *final(rate_limit) == *old(rate_limit))
            &&& final(rate_limit).wf()
        }),
{
    let enabled = match config.enabled_transceivers.get(transceiver.id) {
        Ok(b) => b,
        Err(_) => false,
    };
    if !enabled {
        return Err(NttError::DisabledTransceiver);
    }
    if now < item.release_timestamp {
        if revert_on_delay {
            return Err(NttError::CantReleaseYet);
        }
        return Ok(false);
    }
    let already = match item.released.get(transceiver.id) {
        Ok(b) => b,
        Err(_) => false,
    };
    if already {
        return Err(NttError::MessageAlreadySent);
    }
    if item.queued && item.released.len() == 0 {
        let amount: u64;
        match item.amount.decode(mint_decimals) {
            Ok(v) => {
                amount = v;
            },
            Err(e) => {
                return Err(e);
            },
        }
        if !rate_limit.consume(now, amount) {
            return Err(NttError::TransferExceedsRateLimit);
        }
    }
    match item.released.set(transceiver.id, true) {
        Ok(_) => Ok(true),
        Err(e) => Err(e),
    }
}

} // verus!
