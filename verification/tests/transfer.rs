use ntt_core::addr::Address;
use ntt_core::config::{Config, Mode, register_transceiver, set_paused, RegisteredTransceiver};
use ntt_core::error::NttError;
use ntt_core::outbox::{enqueue, release_outbound, TransferArgs};
use ntt_core::peer::NttManagerPeer;
use ntt_core::rate_limit::RateLimitState;
use ntt_core::trimmed_amount::TrimmedAmount;

const OUTBOUND_LIMIT: u64 = 10000;
const MINT_DECIMALS: u8 = 9;

fn addr(n: u8) -> Address {
    let mut a = [0u8; 32];
    a[0] = n;
    a
}

fn owner() -> Address {
    addr(1)
}

fn other_manager() -> Address {
    addr(7)
}

struct Setup {
    config: Config,
    transceiver: RegisteredTransceiver,
    peer: NttManagerPeer,
    outbound: RateLimitState,
}

fn setup(mode: Mode) -> Setup {
    let mut config = Config::new(owner(), addr(2), addr(3), mode);
    let transceiver = register_transceiver(&mut config, &owner(), &addr(10), None).unwrap();
    let peer = NttManagerPeer { address: other_manager(), token_decimals: 7 };
    let outbound = RateLimitState::new(OUTBOUND_LIMIT);
    Setup { config, transceiver, peer, outbound }
}

fn args(amount: u64, should_queue: bool) -> TransferArgs {
    TransferArgs { amount, recipient_chain: 2, recipient_address: [1u8; 32], should_queue }
}

fn transfer_and_release(mode: Mode) {
    let mut s = setup(mode);
    let now = 1000;

    let (mut item, dust) = enqueue(
        &s.config,
        &s.peer,
        &mut s.outbound,
        MINT_DECIMALS,
        &addr(5),
        &args(154, false),
        mode,
        now,
    )
    .unwrap();

    // 154 at 9 decimals, trimmed to the peer's 7: amount 1, 54 dust.
    assert_eq!(item.amount, TrimmedAmount { amount: 1, decimals: 7 });
    assert_eq!(dust, 54);
    assert_eq!(item.sender, addr(5));
    assert_eq!(item.recipient_chain, 2);
    assert_eq!(item.recipient_ntt_manager, other_manager());
    assert_eq!(item.recipient_address, [1u8; 32]);
    assert_eq!(item.release_timestamp, now);
    assert_eq!(item.released.len(), 0);
    assert!(!item.queued);

    let released = release_outbound(
        &s.config,
        &mut item,
        &mut s.outbound,
        &s.transceiver,
        MINT_DECIMALS,
        true,
        now,
    )
    .unwrap();
    assert!(released);

    // The item is marked for this channel and nothing else changed.
    assert!(item.released.get(s.transceiver.id).unwrap());
    assert_eq!(item.released.len(), 1);
    assert_eq!(item.release_timestamp, now);
    assert_eq!(item.amount, TrimmedAmount { amount: 1, decimals: 7 });
}

#[test]
fn test_transfer_locking() {
    transfer_and_release(Mode::Locking);
}

#[test]
fn test_transfer_burning() {
    transfer_and_release(Mode::Burning);
}

#[test]
fn test_burn_mode_burns_tokens() {
    // Transfer 105: the token has 9 decimals and the wire keeps 8, so only
    // 100 may be burned; the 5 dust stays with the sender.
    let mut s = setup(Mode::Burning);
    s.peer.token_decimals = 8;
    let (item, dust) = enqueue(
        &s.config,
        &s.peer,
        &mut s.outbound,
        MINT_DECIMALS,
        &addr(5),
        &args(105, false),
        Mode::Burning,
        0,
    )
    .unwrap();
    assert_eq!(105 - dust, 100);
    assert_eq!(item.amount, TrimmedAmount { amount: 10, decimals: 8 });
}

#[test]
fn locking_mode_locks_tokens() {
    // Transfer 1050: trimmed to the target chain's 7 decimals, 1000 gets
    // locked and 50 dust stays with the sender.
    let mut s = setup(Mode::Locking);
    let (item, dust) = enqueue(
        &s.config,
        &s.peer,
        &mut s.outbound,
        MINT_DECIMALS,
        &addr(5),
        &args(1050, false),
        Mode::Locking,
        0,
    )
    .unwrap();
    assert_eq!(1050 - dust, 1000);
    assert_eq!(item.amount, TrimmedAmount { amount: 10, decimals: 7 });
}

#[test]
fn test_rate_limit() {
    let mut s = setup(Mode::Locking);
    let now = 50;
    let before = s.outbound.capacity_at(now);
    enqueue(
        &s.config,
        &s.peer,
        &mut s.outbound,
        MINT_DECIMALS,
        &addr(5),
        &args(100, false),
        Mode::Locking,
        now,
    )
    .unwrap();
    assert_eq!(before - 100, s.outbound.capacity_at(now));
}

#[test]
fn test_transfer_wrong_mode() {
    let mut s = setup(Mode::Burning);
    let err = enqueue(
        &s.config,
        &s.peer,
        &mut s.outbound,
        MINT_DECIMALS,
        &addr(5),
        &args(100, false),
        Mode::Locking,
        0,
    )
    .unwrap_err();
    assert_eq!(err, NttError::InvalidMode);
}

#[test]
fn test_cant_transfer_when_paused() {
    let mut s = setup(Mode::Locking);
    set_paused(&mut s.config, &owner(), true).unwrap();
    let err = enqueue(
        &s.config,
        &s.peer,
        &mut s.outbound,
        MINT_DECIMALS,
        &addr(5),
        &args(100, false),
        Mode::Locking,
        0,
    )
    .unwrap_err();
    assert_eq!(err, NttError::Paused);

    // Unpausing makes the same transfer go through.
    set_paused(&mut s.config, &owner(), false).unwrap();
    enqueue(
        &s.config,
        &s.peer,
        &mut s.outbound,
        MINT_DECIMALS,
        &addr(5),
        &args(100, false),
        Mode::Locking,
        0,
    )
    .unwrap();
}

#[test]
fn test_large_tx_queue() {
    let mut s = setup(Mode::Locking);
    let now = 10;
    let too_much = OUTBOUND_LIMIT + 1000;
    let before = s.outbound;
    let (item, _) = enqueue(
        &s.config,
        &s.peer,
        &mut s.outbound,
        MINT_DECIMALS,
        &addr(5),
        &args(too_much, true),
        Mode::Locking,
        now,
    )
    .unwrap();
    // Queued: not released anywhere, due only in the future, and the rate
    // limiter untouched.
    assert!(!item.released.get(0).unwrap());
    assert!(item.release_timestamp > now);
    assert!(item.queued);
    assert_eq!(s.outbound, before);
}

#[test]
fn test_large_tx_no_queue() {
    let mut s = setup(Mode::Locking);
    let too_much = OUTBOUND_LIMIT + 1000;
    let err = enqueue(
        &s.config,
        &s.peer,
        &mut s.outbound,
        MINT_DECIMALS,
        &addr(5),
        &args(too_much, false),
        Mode::Locking,
        10,
    )
    .unwrap_err();
    assert_eq!(err, NttError::TransferExceedsRateLimit);
}

#[test]
fn test_cant_release_queued() {
    let mut s = setup(Mode::Locking);
    let now = 10;
    let too_much = OUTBOUND_LIMIT + 1000;
    let (mut item, _) = enqueue(
        &s.config,
        &s.peer,
        &mut s.outbound,
        MINT_DECIMALS,
        &addr(5),
        &args(too_much, true),
        Mode::Locking,
        now,
    )
    .unwrap();

    // With revert_on_delay, releasing early fails loudly.
    let err = release_outbound(
        &s.config,
        &mut item,
        &mut s.outbound,
        &s.transceiver,
        MINT_DECIMALS,
        true,
        now,
    )
    .unwrap_err();
    assert_eq!(err, NttError::CantReleaseYet);

    // Without it, the call succeeds but does not release.
    let released = release_outbound(
        &s.config,
        &mut item,
        &mut s.outbound,
        &s.transceiver,
        MINT_DECIMALS,
        false,
        now,
    )
    .unwrap();
    assert!(!released);
    assert!(!item.released.get(0).unwrap());
    assert!(item.release_timestamp > now);
}

#[test]
fn test_cant_release_twice() {
    let mut s = setup(Mode::Locking);
    let now = 10;
    let (mut item, _) = enqueue(
        &s.config,
        &s.peer,
        &mut s.outbound,
        MINT_DECIMALS,
        &addr(5),
        &args(100, false),
        Mode::Locking,
        now,
    )
    .unwrap();

    assert!(release_outbound(
        &s.config,
        &mut item,
        &mut s.outbound,
        &s.transceiver,
        MINT_DECIMALS,
        true,
        now,
    )
    .unwrap());

    let err = release_outbound(
        &s.config,
        &mut item,
        &mut s.outbound,
        &s.transceiver,
        MINT_DECIMALS,
        true,
        now,
    )
    .unwrap_err();
    assert_eq!(err, NttError::MessageAlreadySent);
}

#[test]
fn queued_transfer_release_time_is_the_refill_solution() {
    // Limit 1000: send 700, then 400 with queueing. 100 units are short and
    // refill at 1000 per day, so the item is due 8640 seconds later.
    let mut s = setup(Mode::Locking);
    s.outbound = RateLimitState::new(1000);
    s.peer.token_decimals = MINT_DECIMALS;
    let now = 0;
    enqueue(
        &s.config,
        &s.peer,
        &mut s.outbound,
        MINT_DECIMALS,
        &addr(5),
        &args(700, false),
        Mode::Locking,
        now,
    )
    .unwrap();
    let (item, _) = enqueue(
        &s.config,
        &s.peer,
        &mut s.outbound,
        MINT_DECIMALS,
        &addr(5),
        &args(400, true),
        Mode::Locking,
        now,
    )
    .unwrap();
    assert!(item.queued);
    assert_eq!(item.release_timestamp, now + 8640);

    // Without queueing the same second transfer is rejected outright.
    let mut limiter = RateLimitState::new(1000);
    assert!(limiter.consume(now, 700));
    let err = enqueue(
        &s.config,
        &s.peer,
        &mut limiter,
        MINT_DECIMALS,
        &addr(5),
        &args(400, false),
        Mode::Locking,
        now,
    )
    .unwrap_err();
    assert_eq!(err, NttError::TransferExceedsRateLimit);
}

#[test]
fn queued_transfer_consumes_at_first_release() {
    // A queued transfer left the limiter untouched; its first release
    // performs the deferred consumption.
    let mut s = setup(Mode::Locking);
    s.outbound = RateLimitState::new(1000);
    s.peer.token_decimals = MINT_DECIMALS;
    let (mut item, _) = enqueue(
        &s.config,
        &s.peer,
        &mut s.outbound,
        MINT_DECIMALS,
        &addr(5),
        &args(400, true),
        Mode::Locking,
        0,
    )
    .unwrap();
    // Capacity 1000 >= 400 would have been consumed directly; force the
    // queued path instead by consuming first.
    let mut limiter = RateLimitState::new(1000);
    assert!(limiter.consume(0, 700));
    let (mut queued_item, _) = enqueue(
        &s.config,
        &s.peer,
        &mut limiter,
        MINT_DECIMALS,
        &addr(5),
        &args(400, true),
        Mode::Locking,
        0,
    )
    .unwrap();
    assert!(queued_item.queued);
    let due = queued_item.release_timestamp;
    let released = release_outbound(
        &s.config,
        &mut queued_item,
        &mut limiter,
        &s.transceiver,
        MINT_DECIMALS,
        true,
        due,
    )
    .unwrap();
    assert!(released);
    // The deferred 400 was consumed at the release instant.
    assert_eq!(limiter.last_tx_timestamp, due);
    assert!(limiter.capacity_at(due) < 400);

    // The direct-path item from above is unaffected machinery: releasing it
    // needs no further consumption.
    assert!(!item.queued);
    let released2 = release_outbound(
        &s.config,
        &mut item,
        &mut s.outbound,
        &s.transceiver,
        MINT_DECIMALS,
        true,
        0,
    )
    .unwrap();
    assert!(released2);
}

#[test]
fn disabled_channel_cannot_broadcast() {
    let mut s = setup(Mode::Locking);
    let (mut item, _) = enqueue(
        &s.config,
        &s.peer,
        &mut s.outbound,
        MINT_DECIMALS,
        &addr(5),
        &args(100, false),
        Mode::Locking,
        0,
    )
    .unwrap();
    let unregistered = RegisteredTransceiver { id: 3, transceiver_address: addr(99) };
    let err = release_outbound(
        &s.config,
        &mut item,
        &mut s.outbound,
        &unregistered,
        MINT_DECIMALS,
        true,
        0,
    )
    .unwrap_err();
    assert_eq!(err, NttError::DisabledTransceiver);
}

#[test]
fn dust_free_amount_encodes_exactly() {
    let mut s = setup(Mode::Locking);
    let (item, dust) = enqueue(
        &s.config,
        &s.peer,
        &mut s.outbound,
        MINT_DECIMALS,
        &addr(5),
        &args(300, false),
        Mode::Locking,
        0,
    )
    .unwrap();
    assert_eq!(dust, 0);
    assert_eq!(item.amount, TrimmedAmount { amount: 3, decimals: 7 });
}
