//! The distinct failure conditions of the bridge core.
//!
//! Every operation either fully applies or returns one of these without
//! touching any state, matching the host ledger's atomic-transaction model.

use vstd::prelude::*;

verus! {

/// Why a bridge operation was rejected.
///
/// The conditions fall into a few families: policy violations (`Paused`,
/// `NotPaused`, `InvalidMode`, `ZeroThreshold`, `ThresholdTooHigh`,
/// `InvalidOwner`), rate limiting (`TransferExceedsRateLimit`), replay or
/// authorization rejections (`MessageAlreadySent`, `TransferAlreadyRedeemed`,
/// `InvalidPendingOwner`, `InvalidPendingTokenAuthority`,
/// `IncorrectRentPayer`, `InvalidMultisig`), precision loss or overflow in
/// the amount codec (`AmountTooLarge`, `AmountOverflow`), and not-yet-due
/// releases (`CantReleaseYet`, `TransferNotApproved`).
#[derive(Clone, Copy, Debug, PartialEq, Eq, Structural)]
pub enum NttError {
    /// The bridge is paused; no transfers may be queued.
    Paused,
    /// The operation requires the bridge to be paused first.
    NotPaused,
    /// The caller's debit action does not match the configured mode.
    InvalidMode,
    /// The signer is not the configured owner.
    InvalidOwner,
    /// The quorum threshold may never be zero.
    ZeroThreshold,
    /// The quorum threshold may not exceed the number of enabled channels.
    ThresholdTooHigh,
    /// The channel is not currently enabled.
    DisabledTransceiver,
    /// A channel may not be registered under the zero address.
    InvalidTransceiverProgram,
    /// A bitmap index beyond the fixed capacity.
    BitmapIndexOutOfBounds,
    /// The outbound transfer does not fit the current rate-limit capacity.
    TransferExceedsRateLimit,
    /// The outbox item was already broadcast on this channel.
    MessageAlreadySent,
    /// The outbox item's release time has not been reached yet.
    CantReleaseYet,
    /// The inbox item has not gathered a quorum of attestations.
    TransferNotApproved,
    /// The inbox item was already released; it must never be credited twice.
    TransferAlreadyRedeemed,
    /// The trimmed amount would overflow when scaled to destination decimals.
    AmountTooLarge,
    /// Scaling a trimmed amount back up overflowed 64 bits.
    AmountOverflow,
    /// The claimant does not match the pending owner candidate.
    InvalidPendingOwner,
    /// The claimant does not match the pending token-authority candidate.
    InvalidPendingTokenAuthority,
    /// The refund target does not match the recorded rent payer.
    IncorrectRentPayer,
    /// The multisig is not a recognized 1-of-n holder of the token authority.
    InvalidMultisig,
    /// The current mint authority is not the one this program controls.
    InvalidMintAuthority,
    /// An inbound message's sender is not the registered peer manager for
    /// its source chain.
    InvalidNttPeer,
}

} // verus!
