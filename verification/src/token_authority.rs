//! Two-step handover of the token-mint authority.
//!
//! The program holds the mint authority either directly (through its
//! token-authority address) or through a recognized 1-of-n multisig. Handing
//! it over is a two-step dance: the owner stages a candidate, and only the
//! candidate itself can claim, which prevents transferring the authority to
//! an address nobody controls. A one-step unchecked variant exists for
//! break-glass recovery. All of these require the bridge to be paused first.
//!
//! Each function decides and validates; the host performs the actual
//! set-authority call on the ledger with the address returned here.

use vstd::prelude::*;
use crate::addr::{Address, address_eq, address_is_zero, spec_zero_address};
use crate::config::Config;
use crate::error::NttError;
use crate::multisig::{SplMultisig, spec_multisig_ok, multisig_ok};

verus! {

/// The staging record of an in-flight token-authority handover. At most one
/// exists at a time; it is closed on claim or revert, refunding its storage
/// cost to whoever paid it.
#[derive(Clone, Copy, Debug)]
pub struct PendingTokenAuthority {
    /// The candidate that may claim the authority.
    pub pending_authority: Address,
    /// Who paid for staging and is refunded when the record closes.
    pub rent_payer: Address,
}

/// The address that should hold the mint authority for this program: the
/// multisig when one is recognized, the program's token authority otherwise.
pub open spec fn spec_held_authority(
    token_authority: Seq<u8>,
    ms: Option<&SplMultisig>,
) -> Seq<u8> {
    match ms {
        Some(m) => m.address@,
        None => token_authority,
    }
}

/// Accepts the mint authority from its current holder: reports which
/// address the holder must set as the new mint authority. Requires the
/// bridge paused and, when a multisig is to hold the authority, that it
/// delegates to the program's token authority.
pub fn accept_token_authority(
    config: &Config,
    token_authority: &Address,
    multisig_token_authority: Option<&SplMultisig>,
) -> (r: Result<Address, NttError>)
    ensures
        r == Err::<Address, NttError>(NttError::NotPaused) <==> !config.paused,
        r == Err::<Address, NttError>(NttError::InvalidMultisig) <==> config.paused
            && !spec_multisig_ok(multisig_token_authority, token_authority@),
        r is Ok <==> config.paused && spec_multisig_ok(multisig_token_authority, token_authority@),
        r matches Ok(a) ==> a@ == spec_held_authority(token_authority@, multisig_token_authority),
{
    if !config.paused {
        return Err(NttError::NotPaused);
    }
    if !multisig_ok(multisig_token_authority, token_authority) {
        return Err(NttError::InvalidMultisig);
    }
    match multisig_token_authority {
        Some(m) => Ok(m.address),
        None => Ok(*token_authority),
    }
}

/// As [`accept_token_authority`], for a current holder that is itself a
/// multisig. Whether the current multisig's signers actually signed is
/// checked by the token program when the host performs the call; the
/// decision which address takes over is the same.
pub fn accept_token_authority_from_multisig(
    config: &Config,
    token_authority: &Address,
    multisig_token_authority: Option<&SplMultisig>,
) -> (r: Result<Address, NttError>)
    ensures
        r == Err::<Address, NttError>(NttError::NotPaused) <==> !config.paused,
        r == Err::<Address, NttError>(NttError::InvalidMultisig) <==> config.paused
            && !spec_multisig_ok(multisig_token_authority, token_authority@),
        r is Ok <==> config.paused && spec_multisig_ok(multisig_token_authority, token_authority@),
        r matches Ok(a) ==> a@ == spec_held_authority(token_authority@, multisig_token_authority),
{
    accept_token_authority(config, token_authority, multisig_token_authority)
}

/// Hands the mint authority to `new_authority` in one step, without
/// staging: break-glass recovery that accepts an unconfirmed recipient.
/// Only the owner may do so, and only while paused.
pub fn set_token_authority_one_step_unchecked(
    config: &Config,
    signer: &Address,
    token_authority: &Address,
    multisig_token_authority: Option<&SplMultisig>,
    new_authority: &Address,
) -> (r: Result<Address, NttError>)
    ensures
        r == Err::<Address, NttError>(NttError::InvalidOwner) <==> signer@ != config.owner@,
        r == Err::<Address, NttError>(NttError::NotPaused) <==> signer@ == config.owner@
            && !config.paused,
        r == Err::<Address, NttError>(NttError::InvalidMultisig) <==> signer@ == config.owner@
            && config.paused && !spec_multisig_ok(multisig_token_authority, token_authority@),
        r is Ok <==> signer@ == config.owner@ && config.paused && spec_multisig_ok(
            multisig_token_authority,
            token_authority@,
        ),
        r matches Ok(a) ==> a@ == new_authority@,
{
    if !address_eq(signer, &config.owner) {
        return Err(NttError::InvalidOwner);
    }
    if !config.paused {
        return Err(NttError::NotPaused);
    }
    if !multisig_ok(multisig_token_authority, token_authority) {
        return Err(NttError::InvalidMultisig);
    }
    Ok(*new_authority)
}

/// Stages a token-authority handover to `new_authority`. Only the owner may
/// initiate, only while paused, and only while the program (directly or
/// through the recognized multisig) actually holds the mint authority.
/// Re-initiating overwrites the candidate but keeps the original rent
/// payer.
pub fn set_token_authority(
    config: &Config,
    signer: &Address,
    current_mint_authority: &Address,
    token_authority: &Address,
    multisig_token_authority: Option<&SplMultisig>,
    new_authority: &Address,
    existing_pending: Option<&PendingTokenAuthority>,
    rent_payer: &Address,
) -> (r: Result<PendingTokenAuthority, NttError>)
    ensures
        ({
            let ms_ok = spec_multisig_ok(multisig_token_authority, token_authority@);
            let held = spec_held_authority(token_authority@, multisig_token_authority);
            &&& (r == Err::<PendingTokenAuthority, NttError>(NttError::InvalidOwner) <==> signer@
                != config.owner@)
            &&& (r == Err::<PendingTokenAuthority, NttError>(NttError::NotPaused) <==> signer@
                == config.owner@ && !config.paused)
            &&& (r == Err::<PendingTokenAuthority, NttError>(NttError::InvalidMultisig) <==> signer@
                == config.owner@ && config.paused && !ms_ok)
            &&& (r == Err::<PendingTokenAuthority, NttError>(NttError::InvalidMintAuthority)
                <==> signer@ == config.owner@ && config.paused && ms_ok
                && current_mint_authority@ != held)
            &&& (r is Ok <==> signer@ == config.owner@ && config.paused && ms_ok
                && current_mint_authority@ == held)
            &&& (r matches Ok(p) ==> p.pending_authority@ == new_authority@)
            &&& (r matches Ok(p) ==> p.rent_payer@ == (match existing_pending {
                Some(e) => if e.rent_payer@ != spec_zero_address() {
                    e.rent_payer@
                } else {
                    rent_payer@
                },
                None => rent_payer@,
            }))
        }),
{
    if !address_eq(signer, &config.owner) {
        return Err(NttError::InvalidOwner);
    }
    if !config.paused {
        return Err(NttError::NotPaused);
    }
    if !multisig_ok(multisig_token_authority, token_authority) {
        return Err(NttError::InvalidMultisig);
    }
    let held: Address = match multisig_token_authority {
        Some(m) => m.address,
        None => *token_authority,
    };
    if !address_eq(current_mint_authority, &held) {
        return Err(NttError::InvalidMintAuthority);
    }
    let kept_rent_payer: Address = match existing_pending {
        Some(e) => {
            if !address_is_zero(&e.rent_payer) {
                e.rent_payer
            } else {
                *rent_payer
            }
        },
        None => *rent_payer,
    };
    Ok(PendingTokenAuthority { pending_authority: *new_authority, rent_payer: kept_rent_payer })
}

/// Claims a staged handover: only the staged candidate may claim. On
/// success the staging record closes (its rent refunded to the recorded
/// payer by the host) and the returned address — the claimant — must be
/// installed as the mint authority.
pub fn claim_token_authority(
    config: &Config,
    token_authority: &Address,
    multisig_token_authority: Option<&SplMultisig>,
    pending: &mut Option<PendingTokenAuthority>,
    rent_payer: &Address,
    new_authority: &Address,
) -> (r: Result<Address, NttError>)
    requires
        *old(pending) is Some,
    ensures
        claim_contract(
            *old(pending),
            *final(pending),
            config,
            token_authority@,
            multisig_token_authority,
            rent_payer@,
            new_authority@,
            r,
        ),
{
    claim_pending_authority(
        config,
        token_authority,
        multisig_token_authority,
        pending,
        rent_payer,
        new_authority,
    )
}

/// As [`claim_token_authority`], for a candidate that is a multisig
/// account. That its signers actually signed is checked by the token
/// program when the host performs the call.
pub fn claim_token_authority_to_multisig(
    config: &Config,
    token_authority: &Address,
    multisig_token_authority: Option<&SplMultisig>,
    pending: &mut Option<PendingTokenAuthority>,
    rent_payer: &Address,
    new_multisig_authority: &SplMultisig,
) -> (r: Result<Address, NttError>)
    requires
        *old(pending) is Some,
    ensures
        claim_contract(
            *old(pending),
            *final(pending),
            config,
            token_authority@,
            multisig_token_authority,
            rent_payer@,
            new_multisig_authority.address@,
            r,
        ),
{
    let candidate = new_multisig_authority.address;
    claim_pending_authority(
        config,
        token_authority,
        multisig_token_authority,
        pending,
        rent_payer,
        &candidate,
    )
}

/// What every claim must satisfy: paused bridge, recognized multisig,
/// matching rent payer, and a claimant equal to the staged candidate; only
/// then does the staging record close and the claimant take the authority.
pub open spec fn claim_contract(
    before: Option<PendingTokenAuthority>,
    after: Option<PendingTokenAuthority>,
    config: &Config,
    token_authority: Seq<u8>,
    ms: Option<&SplMultisig>,
    rent_payer: Seq<u8>,
    claimant: Seq<u8>,
    r: Result<Address, NttError>,
) -> bool {
    let ms_ok = spec_multisig_ok(ms, token_authority);
    let p = before->Some_0;
    &&& (r == Err::<Address, NttError>(NttError::NotPaused) <==> !config.paused)
    &&& (r == Err::<Address, NttError>(NttError::InvalidMultisig) <==> config.paused && !ms_ok)
    &&& (r == Err::<Address, NttError>(NttError::IncorrectRentPayer) <==> config.paused && ms_ok
        && rent_payer != p.rent_payer@)
    &&& (r == Err::<Address, NttError>(NttError::InvalidPendingTokenAuthority) <==> config.paused
        && ms_ok && rent_payer == p.rent_payer@ && claimant != p.pending_authority@)
    &&& (r is Ok <==> config.paused && ms_ok && rent_payer == p.rent_payer@ && claimant
        == p.pending_authority@)
    &&& (r matches Ok(a) ==> a@ == claimant && after is None)
    &&& (r is Err ==> after == before)
}

/// Shared claim path; see [`claim_contract`].
fn claim_pending_authority(
    config: &Config,
    token_authority: &Address,
    multisig_token_authority: Option<&SplMultisig>,
    pending: &mut Option<PendingTokenAuthority>,
    rent_payer: &Address,
    claimant: &Address,
) -> (r: Result<Address, NttError>)
    requires
        *old(pending) is Some,
    ensures
        claim_contract(
            *old(pending),
            *final(pending),
            config,
            token_authority@,
            multisig_token_authority,
            rent_payer@,
            claimant@,
            r,
        ),
{
    if !config.paused {
        return Err(NttError::NotPaused);
    }
    if !multisig_ok(multisig_token_authority, token_authority) {
        return Err(NttError::InvalidMultisig);
    }
    let current: PendingTokenAuthority = match pending {
        Some(p) => *p,
        None => unreached(),
    };
    if !address_eq(rent_payer, &current.rent_payer) {
        return Err(NttError::IncorrectRentPayer);
    }
    if !address_eq(claimant, &current.pending_authority) {
        return Err(NttError::InvalidPendingTokenAuthority);
    }
    *pending = None;
    Ok(*claimant)
}

/// Aborts a staged handover without changing the active authority: only
/// the owner may revert, under the same paused / multisig / rent-payer
/// conditions as a claim. The staging record closes.
pub fn revert_token_authority(
    config: &Config,
    signer: &Address,
    token_authority: &Address,
    multisig_token_authority: Option<&SplMultisig>,
    pending: &mut Option<PendingTokenAuthority>,
    rent_payer: &Address,
) -> (r: Result<(), NttError>)
    requires
        *old(pending) is Some,
    ensures
        ({
            let ms_ok = spec_multisig_ok(multisig_token_authority, token_authority@);
            let p = old(pending)->Some_0;
            &&& (r == Err::<(), NttError>(NttError::NotPaused) <==> !config.paused)
            &&& (r == Err::<(), NttError>(NttError::InvalidMultisig) <==> config.paused && !ms_ok)
            &&& (r == Err::<(), NttError>(NttError::IncorrectRentPayer) <==> config.paused && ms_ok
                && rent_payer@ != p.rent_payer@)
            &&& (r == Err::<(), NttError>(NttError::InvalidOwner) <==> config.paused && ms_ok
                && rent_payer@ == p.rent_payer@ && signer@ != config.owner@)
            &&& (r is Ok <==> config.paused && ms_ok && rent_payer@ == p.rent_payer@ && signer@
                == config.owner@)
            &&& (r is Ok ==> *final(pending) is None)
            &&& (r is Err ==> *final(pending) == *old(pending))
        }),
{
    if !config.paused {
        return Err(NttError::NotPaused);
    }
    if !multisig_ok(multisig_token_authority, token_authority) {
        return Err(NttError::InvalidMultisig);
    }
    let current: PendingTokenAuthority = match pending {
        Some(p) => *p,
        None => unreached(),
    };
    if !address_eq(rent_payer, &current.rent_payer) {
        return Err(NttError::IncorrectRentPayer);
    }
    if !address_eq(signer, &config.owner) {
        return Err(NttError::InvalidOwner);
    }
    *pending = None;
    Ok(())
}

} // verus!
