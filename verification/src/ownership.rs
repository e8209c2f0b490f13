//! Two-step handover of program ownership.
//!
//! Same shape as the token-authority handover: the current owner stages a
//! candidate, only that candidate can claim, and claiming atomically swaps
//! the owner and closes the staging record. A one-step unchecked variant
//! exists for break-glass recovery; a revert clears the staging record
//! without changing the owner.

use vstd::prelude::*;
use crate::addr::{Address, address_eq};
use crate::config::Config;
use crate::error::NttError;

verus! {

/// The staging record of an in-flight ownership handover. At most one
/// exists at a time; it is closed on claim or revert, refunding its storage
/// cost to whoever paid it.
#[derive(Clone, Copy, Debug)]
pub struct PendingOwner {
    /// The candidate that may claim ownership.
    pub pending_address: Address,
    /// Who paid for staging and is refunded when the record closes.
    pub rent_payer: Address,
}

/// Stages an ownership handover to `new_owner`. Only the current owner may
/// initiate; re-initiating overwrites the candidate but keeps the original
/// rent payer.
pub fn transfer_ownership(
    config: &Config,
    signer: &Address,
    new_owner: &Address,
    pending: &mut Option<PendingOwner>,
    rent_payer: &Address,
) -> (r: Result<(), NttError>)
    ensures
        r is Ok <==> signer@ == config.owner@,
        r is Err ==> *final(pending) == *old(pending) && r == Err::<(), NttError>(
            NttError::InvalidOwner,
        ),
        r is Ok ==> (*final(pending) matches Some(p) && p.pending_address@ == new_owner@
            && p.rent_payer@ == (match *old(pending) {
            Some(e) => e.rent_payer@,
            None => rent_payer@,
        })),
{
    if !address_eq(signer, &config.owner) {
        return Err(NttError::InvalidOwner);
    }
    let kept_rent_payer: Address = match pending {
        Some(e) => e.rent_payer,
        None => *rent_payer,
    };
    *pending = Some(PendingOwner { pending_address: *new_owner, rent_payer: kept_rent_payer });
    Ok(())
}

/// Hands ownership to `new_owner` in one step, without staging: break-glass
/// recovery that accepts an unconfirmed recipient. Clears any staged
/// candidate.
pub fn transfer_ownership_one_step_unchecked(
    config: &mut Config,
    signer: &Address,
    new_owner: &Address,
    pending: &mut Option<PendingOwner>,
) -> (r: Result<(), NttError>)
    ensures
        r is Ok <==> signer@ == old(config).owner@,
        r is Ok ==> *final(config) == (Config { owner: *new_owner, ..*old(config) })
            && *final(pending) is None,
        r is Err ==> *final(config) == *old(config) && *final(pending) == *old(pending) && r
            == Err::<(), NttError>(NttError::InvalidOwner),
{
    if !address_eq(signer, &config.owner) {
        return Err(NttError::InvalidOwner);
    }
    config.owner = *new_owner;
    *pending = None;
    Ok(())
}

/// Claims a staged ownership handover: only the staged candidate may claim.
/// On success the claimant becomes the owner and the staging record closes
/// (its rent refunded by the host).
pub fn claim_ownership(
    config: &mut Config,
    claimant: &Address,
    pending: &mut Option<PendingOwner>,
) -> (r: Result<(), NttError>)
    requires
        *old(pending) is Some,
    ensures
        r is Ok <==> claimant@ == old(pending)->Some_0.pending_address@,
        r is Ok ==> *final(config) == (Config { owner: *claimant, ..*old(config) })
            && *final(pending) is None,
        r is Err ==> *final(config) == *old(config) && *final(pending) == *old(pending) && r
            == Err::<(), NttError>(NttError::InvalidPendingOwner),
{
    let current: PendingOwner = match pending {
        Some(p) => *p,
        None => unreached(),
    };
    if !address_eq(claimant, &current.pending_address) {
        return Err(NttError::InvalidPendingOwner);
    }
    config.owner = *claimant;
    *pending = None;
    Ok(())
}

/// Aborts a staged handover without changing the owner: only the current
/// owner may revert. The staging record closes.
pub fn revert_ownership(config: &Config, signer: &Address, pending: &mut Option<PendingOwner>) -> (
    r: Result<(), NttError>)
    requires
        *old(pending) is Some,
    ensures
        r is Ok <==> signer@ == config.owner@,
        r is Ok ==> *final(pending) is None,
        r is Err ==> *final(pending) == *old(pending) && r == Err::<(), NttError>(
            NttError::InvalidOwner,
        ),
{
    if !address_eq(signer, &config.owner) {
        return Err(NttError::InvalidOwner);
    }
    *pending = None;
    Ok(())
}

} // verus!
