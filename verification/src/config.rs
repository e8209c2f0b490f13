//! Deployment configuration: ownership, pause flag, transfer mode, channel
//! registry and the attestation quorum threshold.
//!
//! Invariant kept by every mutation: the threshold is at least 1 and never
//! exceeds the number of enabled channels (except that with no channel
//! enabled it rests at 1).

use vstd::prelude::*;
use crate::addr::{Address, address_eq, address_is_zero, spec_zero_address};
use crate::bitmap::{
    Bitmap,
    lemma_set_bits,
    lemma_clear_bits,
    lemma_count_bits_agree,
    lemma_count_bits_update,
    lemma_count_bits_positive,
};
use crate::error::NttError;
use crate::rate_limit::RateLimitState;

verus! {

/// Whether outbound value is locked in custody or burned at the source.
#[derive(Clone, Copy, Debug, PartialEq, Eq, Structural)]
pub enum Mode {
    Locking,
    Burning,
}

/// A transmission channel once registered: its id is assigned sequentially
/// and never reused, even after the channel is disabled.
#[derive(Clone, Copy, Debug)]
pub struct RegisteredTransceiver {
    pub id: u8,
    pub transceiver_address: Address,
}

/// The per-deployment configuration record.
#[derive(Clone, Copy, Debug)]
pub struct Config {
    /// Who may perform administrative operations.
    pub owner: Address,
    /// The token mint this deployment manages.
    pub mint: Address,
    /// The custody account holding locked value (Locking mode).
    pub custody: Address,
    /// Locking or Burning.
    pub mode: Mode,
    /// While set, no outbound transfer may be queued and no inbound
    /// transfer released.
    pub paused: bool,
    /// Minimum number of distinct channels that must attest an inbound
    /// message before it is approved.
    pub threshold: u8,
    /// Which channel ids are currently enabled.
    pub enabled_transceivers: Bitmap,
    /// The id the next newly registered channel receives.
    pub next_transceiver_id: u8,
}

impl Config {
    /// The threshold invariant: at least 1, at most the number of enabled
    /// channels (resting at 1 when none is enabled).
    pub open spec fn wf(self) -> bool {
        &&& 1 <= self.threshold
        &&& if self.enabled_transceivers.count() == 0 {
            self.threshold == 1
        } else {
            self.threshold as nat <= self.enabled_transceivers.count()
        }
    }

    /// A fresh configuration: unpaused, no channel yet, threshold 1.
    pub fn new(owner: Address, mint: Address, custody: Address, mode: Mode) -> (r: Config)
        ensures
            r == (Config {
                owner,
                mint,
                custody,
                mode,
                paused: false,
                threshold: 1,
                enabled_transceivers: r.enabled_transceivers,
                next_transceiver_id: 0,
            }),
            r.enabled_transceivers.count() == 0,
            forall|j: u8| !r.enabled_transceivers.has(j),
            r.wf(),
    {
        Config {
            owner,
            mint,
            custody,
            mode,
            paused: false,
            threshold: 1,
            enabled_transceivers: Bitmap::new(),
            next_transceiver_id: 0,
        }
    }
}

/// Sets or clears the pause flag. Only the owner may do so.
pub fn set_paused(config: &mut Config, signer: &Address, paused: bool) -> (r: Result<(), NttError>)
    ensures
        r is Ok <==> signer@ == old(config).owner@,
        r is Ok ==> *final(config) == (Config { paused, ..*old(config) }),
        r is Err ==> *final(config) == *old(config) && r == Err::<(), NttError>(
            NttError::InvalidOwner,
        ),
{
    if !address_eq(signer, &config.owner) {
        return Err(NttError::InvalidOwner);
    }
    config.paused = paused;
    Ok(())
}

/// Sets the attestation quorum threshold. Only the owner may do so; zero is
/// never accepted, nor a value above the number of enabled channels.
pub fn set_threshold(config: &mut Config, signer: &Address, threshold: u8) -> (r: Result<
    (),
    NttError,
>)
    requires
        old(config).wf(),
    ensures
        r is Ok <==> signer@ == old(config).owner@ && 1 <= threshold && threshold as nat <= old(
            config,
        ).enabled_transceivers.count(),
        r is Ok ==> *final(config) == (Config { threshold, ..*old(config) }),
        r is Err ==> *final(config) == *old(config),
        r == Err::<(), NttError>(NttError::InvalidOwner) <==> signer@ != old(config).owner@,
        r == Err::<(), NttError>(NttError::ThresholdTooHigh) <==> signer@ == old(config).owner@
            && threshold as nat > old(config).enabled_transceivers.count(),
        r == Err::<(), NttError>(NttError::ZeroThreshold) <==> signer@ == old(config).owner@
            && threshold == 0,
        final(config).wf(),
{
    if !address_eq(signer, &config.owner) {
        return Err(NttError::InvalidOwner);
    }
    let enabled = config.enabled_transceivers.len();
    if threshold > enabled {
        return Err(NttError::ThresholdTooHigh);
    }
    if threshold == 0 {
        return Err(NttError::ZeroThreshold);
    }
    config.threshold = threshold;
    Ok(())
}

/// Registers a channel, or re-enables one registered before. A fresh
/// channel receives the next sequential id, which is never reused; the
/// zero address is rejected. Only the owner may register.
pub fn register_transceiver(
    config: &mut Config,
    signer: &Address,
    transceiver_address: &Address,
    existing: Option<&RegisteredTransceiver>,
) -> (r: Result<RegisteredTransceiver, NttError>)
    requires
        old(config).wf(),
        existing matches Some(rec) ==> rec.transceiver_address@ == transceiver_address@ && rec.id
            < 128,
    ensures
        r is Ok <==> signer@ == old(config).owner@ && transceiver_address@ != spec_zero_address()
            && (existing is Some || old(config).next_transceiver_id < 128),
        r matches Ok(rec) ==> {
            &&& rec.transceiver_address@ == transceiver_address@
            &&& rec.id == (match existing {
                Some(e) => e.id,
                None => old(config).next_transceiver_id,
            })
            &&& *final(config) == (Config {
                enabled_transceivers: old(config).enabled_transceivers.spec_set(rec.id),
                next_transceiver_id: (if existing is Some {
                    old(config).next_transceiver_id
                } else {
                    (old(config).next_transceiver_id + 1) as u8
                }),
                ..*old(config)
            })
            &&& final(config).threshold == old(config).threshold
        },
        r is Err ==> *final(config) == *old(config),
        r == Err::<RegisteredTransceiver, NttError>(NttError::InvalidOwner) <==> signer@ != old(
            config,
        ).owner@,
        r == Err::<RegisteredTransceiver, NttError>(NttError::InvalidTransceiverProgram) <==> (
        signer@ == old(config).owner@ && transceiver_address@ == spec_zero_address()),
        final(config).wf(),
{
    if !address_eq(signer, &config.owner) {
        return Err(NttError::InvalidOwner);
    }
    if address_is_zero(transceiver_address) {
        return Err(NttError::InvalidTransceiverProgram);
    }
    let id: u8 = match existing {
        Some(rec) => rec.id,
        None => {
            if config.next_transceiver_id >= 128 {
                return Err(NttError::BitmapIndexOutOfBounds);
            }
            let fresh = config.next_transceiver_id;
            config.next_transceiver_id = fresh + 1;
            fresh
        },
    };
    let ghost before = config.enabled_transceivers;
    let set_result = config.enabled_transceivers.set(id, true);
    proof {
        lemma_set_bits(before.map, id);
        let after = config.enabled_transceivers;
        if before.has(id) {
            lemma_count_bits_agree(after.map, before.map, 128);
        } else {
            lemma_count_bits_update(before.map, after.map, id, 128);
        }
        lemma_count_bits_positive(after.map, id, 128);
    }
    match set_result {
        Ok(_) => Ok(RegisteredTransceiver { id, transceiver_address: *transceiver_address }),
        Err(e) => Err(e),
    }
}

/// What an outbound limit adjustment carries.
#[derive(Clone, Copy, Debug)]
pub struct SetOutboundLimitArgs {
    /// The new outbound limit, in native token units.
    pub limit: u64,
}

/// What an inbound limit adjustment carries.
#[derive(Clone, Copy, Debug)]
pub struct SetInboundLimitArgs {
    /// The new inbound limit, in native token units.
    pub limit: u64,
    /// Which remote chain's limiter to adjust; the host keys storage by it.
    pub chain_id: u16,
}

/// Installs a new outbound rate limit. Only the owner may do so.
pub fn set_outbound_limit(
    config: &Config,
    signer: &Address,
    args: &SetOutboundLimitArgs,
    rate_limit: &mut RateLimitState,
    now: i64,
) -> (r: Result<(), NttError>)
    requires
        old(rate_limit).wf(),
        now >= old(rate_limit).last_tx_timestamp,
    ensures
        r is Ok <==> signer@ == config.owner@,
        r is Ok ==> *final(rate_limit) == (RateLimitState {
            limit: args.limit,
            capacity_at_last_tx: (if old(rate_limit).spec_capacity_at(now as int) <= args.limit {
                old(rate_limit).spec_capacity_at(now as int)
            } else {
                args.limit as int
            }) as u64,
            last_tx_timestamp: now,
        }),
        r is Err ==> *final(rate_limit) == *old(rate_limit) && r == Err::<(), NttError>(
            NttError::InvalidOwner,
        ),
        final(rate_limit).wf(),
{
    if !address_eq(signer, &config.owner) {
        return Err(NttError::InvalidOwner);
    }
    rate_limit.set_limit(args.limit, now);
    Ok(())
}

/// Installs a new inbound rate limit for the remote chain the caller
/// resolved from `args.chain_id`. Only the owner may do so.
pub fn set_inbound_limit(
    config: &Config,
    signer: &Address,
    args: &SetInboundLimitArgs,
    rate_limit: &mut RateLimitState,
    now: i64,
) -> (r: Result<(), NttError>)
    requires
        old(rate_limit).wf(),
        now >= old(rate_limit).last_tx_timestamp,
    ensures
        r is Ok <==> signer@ == config.owner@,
        r is Ok ==> *final(rate_limit) == (RateLimitState {
            limit: args.limit,
            capacity_at_last_tx: (if old(rate_limit).spec_capacity_at(now as int) <= args.limit {
                old(rate_limit).spec_capacity_at(now as int)
            } else {
                args.limit as int
            }) as u64,
            last_tx_timestamp: now,
        }),
        r is Err ==> *final(rate_limit) == *old(rate_limit) && r == Err::<(), NttError>(
            NttError::InvalidOwner,
        ),
        final(rate_limit).wf(),
{
    if !address_eq(signer, &config.owner) {
        return Err(NttError::InvalidOwner);
    }
    rate_limit.set_limit(args.limit, now);
    Ok(())
}

/// Disables a channel. The registry record persists and its id is never
/// reassigned; if the threshold would exceed the remaining enabled count,
/// it is lowered to that count, floored at 1. Only the owner may
/// deregister, and only a currently enabled channel.
pub fn deregister_transceiver(
    config: &mut Config,
    signer: &Address,
    transceiver: &RegisteredTransceiver,
) -> (r: Result<(), NttError>)
    requires
        old(config).wf(),
        transceiver.id < 128,
    ensures
        r is Ok <==> signer@ == old(config).owner@ && old(config).enabled_transceivers.has(
            transceiver.id,
        ),
        r is Ok ==> ({
            let remaining = final(config).enabled_transceivers.count();
            &&& *final(config) == (Config {
                enabled_transceivers: old(config).enabled_transceivers.spec_clear(transceiver.id),
                threshold: final(config).threshold,
                ..*old(config)
            })
            &&& remaining == old(config).enabled_transceivers.count() - 1
            &&& final(config).threshold as int == (if remaining < old(config).threshold as nat {
                if remaining == 0 {
                    1int
                } else {
                    remaining as int
                }
            } else {
                old(config).threshold as int
            })
        }),
        r is Err ==> *final(config) == *old(config),
        r == Err::<(), NttError>(NttError::InvalidOwner) <==> signer@ != old(config).owner@,
        r == Err::<(), NttError>(NttError::DisabledTransceiver) <==> signer@ == old(config).owner@
            && !old(config).enabled_transceivers.has(transceiver.id),
        final(config).wf(),
{
    if !address_eq(signer, &config.owner) {
        return Err(NttError::InvalidOwner);
    }
    let was_enabled = match config.enabled_transceivers.get(transceiver.id) {
        Ok(b) => b,
        Err(e) => false,
    };
    if !was_enabled {
        return Err(NttError::DisabledTransceiver);
    }
    let ghost before = config.enabled_transceivers;
    let set_result = config.enabled_transceivers.set(transceiver.id, false);
    proof {
        lemma_clear_bits(before.map, transceiver.id);
        let after = config.enabled_transceivers;
        lemma_count_bits_update(after.map, before.map, transceiver.id, 128);
    }
    let num_enabled = config.enabled_transceivers.len();
    if num_enabled < config.threshold {
        config.threshold = if num_enabled == 0 {
            1
        } else {
            num_enabled
        };
    }
    Ok(())
}

} // verus!
