use ntt_core::addr::Address;
use ntt_core::config::{Config, Mode};
use ntt_core::error::NttError;
use ntt_core::peer::{NttManagerPeer, SetPeerArgs, check_peer_sender, set_peer};
use ntt_core::rate_limit::RateLimitState;
use ntt_core::transceiver::{broadcast_id, wormhole_fee_due};

fn addr(n: u8) -> Address {
    let mut a = [0u8; 32];
    a[0] = n;
    a
}

fn owner() -> Address {
    addr(1)
}

fn setup() -> Config {
    Config::new(owner(), addr(2), addr(3), Mode::Locking)
}

#[test]
fn set_peer_creates_the_record_and_initializes_the_limiter() {
    let config = setup();
    // A limiter with no recorded transaction counts as unused.
    let mut inbound = RateLimitState { limit: 0, capacity_at_last_tx: 0, last_tx_timestamp: 0 };
    let args =
        SetPeerArgs { chain_id: 2, address: addr(7), limit: 1000, token_decimals: 7 };
    let peer = set_peer(&config, &owner(), &args, &mut inbound, 100).unwrap();
    assert_eq!(peer.address, addr(7));
    assert_eq!(peer.token_decimals, 7);
    assert_eq!(inbound, RateLimitState::new(1000));
}

#[test]
fn set_peer_adjusts_a_live_limiter() {
    let config = setup();
    let mut inbound = RateLimitState::new(1000);
    assert!(inbound.consume(50, 1000));
    let args =
        SetPeerArgs { chain_id: 2, address: addr(8), limit: 400, token_decimals: 9 };
    set_peer(&config, &owner(), &args, &mut inbound, 50).unwrap();
    // The accrued capacity (none) is crystallized and clamped to the new
    // limit; the limiter is not reset to full.
    assert_eq!(inbound.limit, 400);
    assert_eq!(inbound.capacity_at_last_tx, 0);
    assert_eq!(inbound.last_tx_timestamp, 50);
}

#[test]
fn set_peer_is_owner_gated() {
    let config = setup();
    let mut inbound = RateLimitState::new(1000);
    let args =
        SetPeerArgs { chain_id: 2, address: addr(7), limit: 10, token_decimals: 7 };
    let err = set_peer(&config, &addr(9), &args, &mut inbound, 100).unwrap_err();
    assert_eq!(err, NttError::InvalidOwner);
    assert_eq!(inbound, RateLimitState::new(1000));
}

#[test]
fn inbound_sender_must_match_the_registered_peer() {
    let peer = NttManagerPeer { address: addr(7), token_decimals: 7 };
    check_peer_sender(&peer, &addr(7)).unwrap();
    let err = check_peer_sender(&peer, &addr(8)).unwrap_err();
    assert_eq!(err, NttError::InvalidNttPeer);
}

#[test]
fn broadcast_id_describes_the_deployment() {
    let config = setup();
    let info = broadcast_id(&config, &addr(42), 9);
    assert_eq!(info.manager_address, addr(42));
    assert_eq!(info.manager_mode, Mode::Locking);
    assert_eq!(info.token_address, config.mint);
    assert_eq!(info.token_decimals, 9);
}

#[test]
fn wormhole_fee_is_paid_only_when_nonzero() {
    assert_eq!(wormhole_fee_due(0), None);
    assert_eq!(wormhole_fee_due(25), Some(25));
}
