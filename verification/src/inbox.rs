//! The receive-side state machine: attested transfers waiting for release.
//!
//! An inbox item exists per remote message. Attestations from distinct
//! channels accumulate as set-union on a bitmap, so arrival order cannot
//! matter; when the quorum threshold is crossed the inbound rate limiter is
//! queried exactly once to fix the release time. Release itself is
//! idempotent in the strictest sense: a released item can never be released
//! again, whatever flags the caller passes.

use vstd::prelude::*;
use crate::addr::Address;
use crate::bitmap::{Bitmap, lemma_set_bits, lemma_count_bits_update};
use crate::config::{Config, Mode};
use crate::error::NttError;
use crate::multisig::{SplMultisig, spec_multisig_delegates, multisig_delegates};
use crate::rate_limit::{RateLimitState, RATE_LIMIT_DURATION};

verus! {

/// Lifecycle of an inbound transfer; transitions only ever move forward.
#[derive(Clone, Copy, Debug, PartialEq, Eq, Structural)]
pub enum ReleaseStatus {
    /// Not enough distinct channels have attested yet.
    NotApproved,
    /// Quorum reached; may be released from the carried time on.
    ReleaseAfter(i64),
    /// The value was handed out; final.
    Released,
}

/// One inbound transfer, created on the first attestation for its message.
#[derive(Clone, Copy, Debug)]
pub struct InboxItem {
    /// Amount to credit, already scaled to this chain's decimals.
    pub amount: u64,
    /// Who receives the value.
    pub recipient_address: Address,
    /// Which channels have attested the message.
    pub votes: Bitmap,
    /// Where in the lifecycle the item stands.
    pub release_status: ReleaseStatus,
}

impl InboxItem {
    /// A fresh item: no votes, not approved.
    pub fn new(amount: u64, recipient_address: Address) -> (r: InboxItem)
        ensures
            r.amount == amount,
            r.recipient_address@ == recipient_address@,
            r.votes.count() == 0,
            forall|j: u8| !r.votes.has(j),
            r.votes.map == 0u128,
            r.release_status == ReleaseStatus::NotApproved,
    {
        InboxItem {
            amount,
            recipient_address,
            votes: Bitmap::new(),
            release_status: ReleaseStatus::NotApproved,
        }
    }
}

/// What recording one attestation does to an item and its inbound limiter:
/// a duplicate or out-of-range channel changes nothing; a new vote is added
/// to the bitmap; and when that leaves the item unapproved at or above the
/// threshold, the limiter fixes the release time — immediately when the
/// amount fits the capacity, at the solved refill time otherwise.
pub open spec fn spec_attest_step(
    item: InboxItem,
    rl: RateLimitState,
    threshold: u8,
    channel_id: u8,
    now: i64,
) -> (InboxItem, RateLimitState) {
    if channel_id >= 128 || item.votes.has(channel_id) {
        (item, rl)
    } else {
        let votes = item.votes.spec_set(channel_id);
        if item.release_status is NotApproved && votes.count() >= threshold {
            if rl.spec_capacity_at(now as int) >= item.amount {
                (
                    InboxItem {
                        votes,
                        release_status: ReleaseStatus::ReleaseAfter(now),
                        ..item
                    },
                    RateLimitState {
                        limit: rl.limit,
                        capacity_at_last_tx: (rl.spec_capacity_at(now as int) - item.amount) as u64,
                        last_tx_timestamp: now,
                    },
                )
            } else {
                (
                    InboxItem {
                        votes,
                        release_status: ReleaseStatus::ReleaseAfter(
                            rl.spec_time_to_sufficient(now, item.amount) as i64,
                        ),
                        ..item
                    },
                    rl,
                )
            }
        } else {
            (InboxItem { votes, ..item }, rl)
        }
    }
}

/// Records one channel's attestation for the item, per
/// [`spec_attest_step`]. Re-attesting from a channel that already voted is
/// a no-op; only a channel id beyond the bitmap capacity is an error.
pub fn record_attestation(
    item: &mut InboxItem,
    rate_limit: &mut RateLimitState,
    threshold: u8,
    channel_id: u8,
    now: i64,
) -> (r: Result<(), NttError>)
    requires
        old(rate_limit).wf(),
        now >= old(rate_limit).last_tx_timestamp,
        now <= i64::MAX - RATE_LIMIT_DURATION,
    ensures
        r is Ok <==> channel_id < 128,
        r is Err ==> r == Err::<(), NttError>(NttError::BitmapIndexOutOfBounds),
        (*final(item), *final(rate_limit)) == spec_attest_step(
            *old(item),
            *old(rate_limit),
            threshold,
            channel_id,
            now,
        ),
        final(rate_limit).wf(),
{
    if channel_id >= 128 {
        return Err(NttError::BitmapIndexOutOfBounds);
    }
    let already = match item.votes.get(channel_id) {
        Ok(b) => b,
        Err(_) => false,
    };
    if already {
        return Ok(());
    }
    let ghost before = item.votes;
    match item.votes.set(channel_id, true) {
        Ok(_) => {},
        Err(e) => {
            return Err(e);
        },
    }
    proof {
        lemma_set_bits(before.map, channel_id);
        lemma_count_bits_update(before.map, item.votes.map, channel_id, 128);
    }
    let approved = match item.release_status {
        ReleaseStatus::NotApproved => true,
        _ => false,
    };
    if approved && item.votes.len() >= threshold {
        let release_timestamp: i64;
        if rate_limit.consume(now, item.amount) {
            release_timestamp = now;
        } else {
            release_timestamp = rate_limit.time_to_sufficient(now, item.amount);
        }
        item.release_status = ReleaseStatus::ReleaseAfter(release_timestamp);
    }
    Ok(())
}

/// The or-mask contributed by one channel id; ids beyond the bitmap
/// capacity contribute nothing (recording them fails without touching
/// state).
pub open spec fn spec_single_mask(c: u8) -> u128 {
    if c < 128 {
        1u128 << (c as u128)
    } else {
        0u128
    }
}

/// The or-mask of a list of channel ids.
pub open spec fn spec_channel_mask(channels: Seq<u8>) -> u128
    decreases channels.len(),
{
    if channels.len() == 0 {
        0u128
    } else {
        spec_single_mask(channels.first()) | spec_channel_mask(channels.drop_first())
    }
}

/// Recording a list of attestations one after another, all at one instant.
pub open spec fn spec_attest_fold(
    item: InboxItem,
    rl: RateLimitState,
    threshold: u8,
    channels: Seq<u8>,
    now: i64,
) -> (InboxItem, RateLimitState)
    decreases channels.len(),
{
    if channels.len() == 0 {
        (item, rl)
    } else {
        let s = spec_attest_step(item, rl, threshold, channels.first(), now);
        spec_attest_fold(s.0, s.1, threshold, channels.drop_first(), now)
    }
}

/// The same in closed form: the votes gain the union of the channels' bits,
/// and the release decision runs exactly once — iff the batch gains at
/// least one new vote while the item is unapproved and the union reaches
/// the threshold.
pub open spec fn spec_attest_all(
    item: InboxItem,
    rl: RateLimitState,
    threshold: u8,
    channels: Seq<u8>,
    now: i64,
) -> (InboxItem, RateLimitState) {
    let votes = Bitmap { map: item.votes.map | spec_channel_mask(channels) };
    if item.release_status is NotApproved && votes.map != item.votes.map && votes.count()
        >= threshold {
        if rl.spec_capacity_at(now as int) >= item.amount {
            (
                InboxItem { votes, release_status: ReleaseStatus::ReleaseAfter(now), ..item },
                RateLimitState {
                    limit: rl.limit,
                    capacity_at_last_tx: (rl.spec_capacity_at(now as int) - item.amount) as u64,
                    last_tx_timestamp: now,
                },
            )
        } else {
            (
                InboxItem {
                    votes,
                    release_status: ReleaseStatus::ReleaseAfter(
                        rl.spec_time_to_sufficient(now, item.amount) as i64,
                    ),
                    ..item
                },
                rl,
            )
        }
    } else {
        (InboxItem { votes, ..item }, rl)
    }
}

/// A batch of attestations folds to its closed form: only the union of the
/// attested bits matters, and the quorum decision runs at most once.
proof fn lemma_attest_fold_closed(
    item: InboxItem,
    rl: RateLimitState,
    threshold: u8,
    channels: Seq<u8>,
    now: i64,
)
    ensures
        spec_attest_fold(item, rl, threshold, channels, now) == spec_attest_all(
            item,
            rl,
            threshold,
            channels,
            now,
        ),
    decreases channels.len(),
{
    let m = item.votes.map;
    if channels.len() == 0 {
        assert(m | 0u128 == m) by (bit_vector);
    } else {
        let c = channels.first();
        let rest = channels.drop_first();
        let mc = spec_single_mask(c);
        let mr = spec_channel_mask(rest);
        let s1 = spec_attest_step(item, rl, threshold, c, now);
        lemma_attest_fold_closed(s1.0, s1.1, threshold, rest, now);
        assert(m | (mc | mr) == (m | mc) | mr) by (bit_vector);
        if c >= 128 {
            assert(m | (0u128 | mr) == m | mr) by (bit_vector);
        } else if item.votes.has(c) {
            let cu = c as u128;
            assert(m | (1u128 << cu) == m) by (bit_vector)
                requires
                    cu < 128,
                    ((m >> cu) & 1) == 1,
            ;
        } else {
            let cu = c as u128;
            let votes1 = item.votes.spec_set(c);
            crate::bitmap::lemma_set_bits(m, c);
            crate::bitmap::lemma_or_bits(votes1.map, mr);
            assert(crate::bitmap::spec_bit(votes1.map | mr, cu));
            assert(!crate::bitmap::spec_bit(m, cu));
            assert(votes1.map | mr != m);
            assert forall|j: u128|
                j < 128 && crate::bitmap::spec_bit(votes1.map, j) implies crate::bitmap::spec_bit(
                votes1.map | mr,
                j,
            ) by {}
            crate::bitmap::lemma_count_bits_subset(votes1.map, votes1.map | mr, 128);
        }
    }
}

/// For one message, the same set of attesting channels yields the same
/// final inbox state and rate-limiter state in whatever order — and with
/// whatever duplication — the attestations arrive, as long as they are
/// processed at one instant: recording is a commutative set-union and the
/// quorum decision runs at most once.
pub proof fn lemma_attestation_order_independent(
    item: InboxItem,
    rl: RateLimitState,
    threshold: u8,
    cs1: Seq<u8>,
    cs2: Seq<u8>,
    now: i64,
)
    requires
        cs1.to_multiset() == cs2.to_multiset(),
    ensures
        spec_attest_fold(item, rl, threshold, cs1, now) == spec_attest_fold(
            item,
            rl,
            threshold,
            cs2,
            now,
        ),
{
    lemma_attest_fold_closed(item, rl, threshold, cs1, now);
    lemma_attest_fold_closed(item, rl, threshold, cs2, now);
    lemma_channel_mask_multiset(cs1, cs2);
}

/// The or-mask of a list is one channel's mask or-ed with the mask of the
/// list without that channel.
proof fn lemma_channel_mask_remove(cs: Seq<u8>, i: int)
    requires
        0 <= i < cs.len(),
    ensures
        spec_channel_mask(cs) == spec_single_mask(cs[i]) | spec_channel_mask(cs.remove(i)),
    decreases cs.len(),
{
    if i == 0 {
        assert(cs.remove(0) =~= cs.drop_first());
    } else {
        let rest = cs.drop_first();
        lemma_channel_mask_remove(rest, i - 1);
        assert(cs.remove(i).drop_first() =~= rest.remove(i - 1));
        assert(cs.remove(i).first() == cs.first());
        let a = spec_single_mask(cs.first());
        let b = spec_single_mask(cs[i]);
        let m0 = spec_channel_mask(rest.remove(i - 1));
        assert(rest[i - 1] == cs[i]);
        assert(a | (b | m0) == b | (a | m0)) by (bit_vector);
    }
}

/// Lists with the same multiset of channels have the same or-mask.
proof fn lemma_channel_mask_multiset(cs1: Seq<u8>, cs2: Seq<u8>)
    requires
        cs1.to_multiset() == cs2.to_multiset(),
    ensures
        spec_channel_mask(cs1) == spec_channel_mask(cs2),
    decreases cs1.len(),
{
    broadcast use vstd::seq_lib::group_to_multiset_ensures;

    if cs1.len() == 0 {
        assert(cs2.len() == cs2.to_multiset().len());
        assert(cs2.len() == 0);
    } else {
        let x = cs1.first();
        assert(cs1.contains(x)) by {
            assert(cs1[0] == x);
        }
        assert(cs1.to_multiset().count(x) > 0);
        assert(cs2.to_multiset().count(x) > 0);
        assert(cs2.contains(x));
        let i = choose|i: int| 0 <= i < cs2.len() && cs2[i] == x;
        lemma_channel_mask_remove(cs2, i);
        assert(cs1.drop_first() =~= cs1.remove(0));
        assert(cs1.remove(0).to_multiset() == cs1.to_multiset().remove(x));
        assert(cs2.remove(i).to_multiset() == cs2.to_multiset().remove(x));
        lemma_channel_mask_multiset(cs1.drop_first(), cs2.remove(i));
    }
}

/// How far along the lifecycle a status is.
pub open spec fn spec_status_rank(status: ReleaseStatus) -> int {
    match status {
        ReleaseStatus::NotApproved => 0,
        ReleaseStatus::ReleaseAfter(_) => 1,
        ReleaseStatus::Released => 2,
    }
}

/// An attestation never moves the lifecycle backwards, and once a release
/// time is fixed no attestation touches it again: the status only ever
/// walks NotApproved, ReleaseAfter, Released.
pub proof fn lemma_attest_status_monotone(
    item: InboxItem,
    rl: RateLimitState,
    threshold: u8,
    channel_id: u8,
    now: i64,
)
    ensures
        ({
            let stepped = spec_attest_step(item, rl, threshold, channel_id, now).0;
            &&& spec_status_rank(stepped.release_status) >= spec_status_rank(item.release_status)
            &&& (!(item.release_status is NotApproved) ==> stepped.release_status
                == item.release_status)
        }),
{
}

/// The outcome a release attempt must have, given the item's status, the
/// caller's `revert_when_not_ready` choice and the clock: not-yet-due and
/// not-yet-approved items fail or no-op as the caller chose, while an
/// already released item always fails, whatever the caller chose.
pub open spec fn spec_release_outcome(status: ReleaseStatus, revert: bool, now: i64) -> Result<
    bool,
    NttError,
> {
    match status {
        ReleaseStatus::NotApproved => if revert {
            Err(NttError::TransferNotApproved)
        } else {
            Ok(false)
        },
        ReleaseStatus::ReleaseAfter(release_timestamp) => if now >= release_timestamp {
            Ok(true)
        } else if revert {
            Err(NttError::CantReleaseYet)
        } else {
            Ok(false)
        },
        ReleaseStatus::Released => Err(NttError::TransferAlreadyRedeemed),
    }
}

/// Moves a due item to `Released` and reports `true`; anything not due yet
/// reports `false`. An item already released is always rejected with
/// `TransferAlreadyRedeemed`: value can never be handed out twice.
pub fn try_release(item: &mut InboxItem, now: i64) -> (r: Result<bool, NttError>)
    ensures
        r == spec_release_outcome(old(item).release_status, false, now),
        r == Ok::<bool, NttError>(true) ==> *final(item) == (InboxItem {
            release_status: ReleaseStatus::Released,
            ..*old(item)
        }),
        r != Ok::<bool, NttError>(true) ==> *final(item) == *old(item),
{
    match item.release_status {
        ReleaseStatus::NotApproved => Ok(false),
        ReleaseStatus::ReleaseAfter(release_timestamp) => {
            if now >= release_timestamp {
                item.release_status = ReleaseStatus::Released;
                Ok(true)
            } else {
                Ok(false)
            }
        },
        ReleaseStatus::Released => Err(NttError::TransferAlreadyRedeemed),
    }
}

/// Releases the item if it is due, honoring `revert_when_not_ready`: when
/// set, a not-yet-due or unapproved item fails with the matching error;
/// when clear, the call no-ops so it can be bundled optimistically. A
/// released item is always rejected.
pub fn release_inbox_item(item: &mut InboxItem, revert_when_not_ready: bool, now: i64) -> (r:
    Result<bool, NttError>)
    ensures
        r == spec_release_outcome(old(item).release_status, revert_when_not_ready, now),
        r == Ok::<bool, NttError>(true) ==> *final(item) == (InboxItem {
            release_status: ReleaseStatus::Released,
            ..*old(item)
        }),
        r != Ok::<bool, NttError>(true) ==> *final(item) == *old(item),
{
    let released = match try_release(item, now) {
        Ok(b) => b,
        Err(e) => {
            return Err(e);
        },
    };
    if released {
        Ok(true)
    } else if revert_when_not_ready {
        match item.release_status {
            ReleaseStatus::NotApproved => Err(NttError::TransferNotApproved),
            ReleaseStatus::ReleaseAfter(_) => Err(NttError::CantReleaseYet),
            ReleaseStatus::Released => Err(NttError::TransferAlreadyRedeemed),
        }
    } else {
        Ok(false)
    }
}

/// What a release request carries.
#[derive(Clone, Copy, Debug)]
pub struct ReleaseInboundArgs {
    /// When set, a not-yet-due release fails the whole call; when clear, it
    /// no-ops so the call can be bundled optimistically with others.
    pub revert_when_not_ready: bool,
}

/// The credit steps a released burn-mode transfer requires: mint to the
/// custody account first, then move from custody to the recipient, so that
/// transfer hooks observe the movement.
#[derive(Clone, Copy, Debug)]
pub struct MintRelease {
    /// Amount the host must mint to the custody account.
    pub mint_to_custody: u64,
    /// Amount the host must then move from custody to the recipient.
    pub custody_to_recipient: u64,
    /// Who receives the value.
    pub recipient: Address,
}

/// The credit step a released lock-mode transfer requires: move the locked
/// value from custody to the recipient.
#[derive(Clone, Copy, Debug)]
pub struct UnlockRelease {
    /// Amount the host must move from custody to the recipient.
    pub custody_to_recipient: u64,
    /// Who receives the value.
    pub recipient: Address,
}

/// Releases an inbound transfer in burn mode and says what to mint.
///
/// Requires the bridge unpaused, the configured mode to be `Burning`, and —
/// when a multisig holds the mint authority — that it delegates to the
/// program's token authority. A release that is not due behaves per
/// [`spec_release_outcome`]; a successful one reports the two-step credit
/// plan and happens at most once per item.
pub fn release_inbound_mint(
    config: &Config,
    item: &mut InboxItem,
    token_authority: &Address,
    multisig_token_authority: Option<&SplMultisig>,
    args: &ReleaseInboundArgs,
    now: i64,
) -> (r: Result<Option<MintRelease>, NttError>)
    ensures
        ({
            let multisig_ok = match multisig_token_authority {
                Some(ms) => spec_multisig_delegates(*ms, token_authority@),
                None => true,
            };
            let proceed = !config.paused && config.mode == Mode::Burning && multisig_ok;
            let outcome = spec_release_outcome(
                old(item).release_status,
                args.revert_when_not_ready,
                now,
            );
            &&& (r == Err::<Option<MintRelease>, NttError>(NttError::Paused) <==> config.paused)
            &&& (r == Err::<Option<MintRelease>, NttError>(NttError::InvalidMode)
                <==> !config.paused && config.mode != Mode::Burning)
            &&& (r == Err::<Option<MintRelease>, NttError>(NttError::InvalidMultisig)
                <==> !config.paused && config.mode == Mode::Burning && !multisig_ok)
            &&& (proceed && outcome == Ok::<bool, NttError>(true) ==> (r matches Ok(Some(plan))
                && plan.mint_to_custody == old(item).amount && plan.custody_to_recipient
                == old(item).amount && plan.recipient@ == old(item).recipient_address@
                && *final(item) == (InboxItem {
                release_status: ReleaseStatus::Released,
                ..*old(item)
            })))
            &&& (proceed && outcome == Ok::<bool, NttError>(false) ==> r == Ok::<
                Option<MintRelease>,
                NttError,
            >(None))
            &&& (proceed ==> (outcome matches Err(e) ==> r == Err::<Option<MintRelease>, NttError>(
                e,
            )))
            &&& (!(proceed && outcome == Ok::<bool, NttError>(true)) ==> *final(item) == *old(item))
        }),
{
    if config.paused {
        return Err(NttError::Paused);
    }
    if config.mode != Mode::Burning {
        return Err(NttError::InvalidMode);
    }
    match multisig_token_authority {
        Some(ms) => {
            if !multisig_delegates(ms, token_authority) {
                return Err(NttError::InvalidMultisig);
            }
        },
        None => {},
    }
    let released = match release_inbox_item(item, args.revert_when_not_ready, now) {
        Ok(b) => b,
        Err(e) => {
            return Err(e);
        },
    };
    if !released {
        return Ok(None);
    }
    Ok(
        Some(
            MintRelease {
                mint_to_custody: item.amount,
                custody_to_recipient: item.amount,
                recipient: item.recipient_address,
            },
        ),
    )
}

/// Releases an inbound transfer in lock mode and says what to unlock.
///
/// Requires the bridge unpaused and the configured mode to be `Locking`;
/// otherwise as [`release_inbound_mint`], with a one-step credit plan.
pub fn release_inbound_unlock(
    config: &Config,
    item: &mut InboxItem,
    args: &ReleaseInboundArgs,
    now: i64,
) -> (r: Result<Option<UnlockRelease>, NttError>)
    ensures
        ({
            let proceed = !config.paused && config.mode == Mode::Locking;
            let outcome = spec_release_outcome(
                old(item).release_status,
                args.revert_when_not_ready,
                now,
            );
            &&& (r == Err::<Option<UnlockRelease>, NttError>(NttError::Paused) <==> config.paused)
            &&& (r == Err::<Option<UnlockRelease>, NttError>(NttError::InvalidMode)
                <==> !config.paused && config.mode != Mode::Locking)
            &&& (proceed && outcome == Ok::<bool, NttError>(true) ==> (r matches Ok(Some(plan))
                && plan.custody_to_recipient == old(item).amount && plan.recipient@
                == old(item).recipient_address@ && *final(item) == (InboxItem {
                release_status: ReleaseStatus::Released,
                ..*old(item)
            })))
            &&& (proceed && outcome == Ok::<bool, NttError>(false) ==> r == Ok::<
                Option<UnlockRelease>,
                NttError,
            >(None))
            &&& (proceed ==> (outcome matches Err(e) ==> r == Err::<
                Option<UnlockRelease>,
                NttError,
            >(e)))
            &&& (!(proceed && outcome == Ok::<bool, NttError>(true)) ==> *final(item) == *old(item))
        }),
{
    if config.paused {
        return Err(NttError::Paused);
    }
    if config.mode != Mode::Locking {
        return Err(NttError::InvalidMode);
    }
    let released = match release_inbox_item(item, args.revert_when_not_ready, now) {
        Ok(b) => b,
        Err(e) => {
            return Err(e);
        },
    };
    if !released {
        return Ok(None);
    }
    Ok(
        Some(
            UnlockRelease {
                custody_to_recipient: item.amount,
                recipient: item.recipient_address,
            },
        ),
    )
}

} // verus!
