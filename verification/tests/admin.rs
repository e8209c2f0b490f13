use ntt_core::addr::Address;
use ntt_core::config::{
    Config, Mode, RegisteredTransceiver, register_transceiver, deregister_transceiver,
    set_threshold, set_paused, set_outbound_limit, SetOutboundLimitArgs, set_inbound_limit,
    SetInboundLimitArgs,
};
use ntt_core::error::NttError;
use ntt_core::rate_limit::RateLimitState;

fn addr(n: u8) -> Address {
    let mut a = [0u8; 32];
    a[0] = n;
    a
}

fn owner() -> Address {
    addr(1)
}

fn setup(mode: Mode) -> Config {
    Config::new(owner(), addr(2), addr(3), mode)
}

#[test]
fn test_invalid_transceiver() {
    // Registering the zero address (the system program stand-in) fails.
    let mut config = setup(Mode::Locking);
    let err = register_transceiver(&mut config, &owner(), &[0u8; 32], None).unwrap_err();
    assert_eq!(err, NttError::InvalidTransceiverProgram);
}

#[test]
fn test_reregister_all_transceivers() {
    let mut config = setup(Mode::Locking);

    // The baked-in transceiver gets id 0 at setup.
    let baked_in = register_transceiver(&mut config, &owner(), &addr(10), None).unwrap();
    assert_eq!(baked_in.id, 0);

    // Register two dummy transceivers.
    let dummy_addrs = [addr(11), addr(12)];
    let mut dummies: Vec<RegisteredTransceiver> = Vec::new();
    for (idx, a) in dummy_addrs.iter().enumerate() {
        let rec = register_transceiver(&mut config, &owner(), a, None).unwrap();
        assert_eq!(rec.id, idx as u8 + 1);
        assert_eq!(rec.transceiver_address, *a);
        dummies.push(rec);
    }

    // Threshold = 1 baked-in + 2 dummies.
    set_threshold(&mut config, &owner(), 3).unwrap();
    assert_eq!(config.threshold, 3);

    // Deregistering lowers the threshold to the remaining enabled count.
    for (idx, rec) in dummies.iter().enumerate() {
        deregister_transceiver(&mut config, &owner(), rec).unwrap();
        assert_eq!(config.threshold, 2 - idx as u8);
    }

    // Deregistering the last enabled channel floors the threshold at 1.
    deregister_transceiver(&mut config, &owner(), &baked_in).unwrap();
    assert_eq!(config.threshold, 1);

    // Re-registering keeps each channel's original id.
    for (idx, a) in dummy_addrs.iter().enumerate() {
        let rec = register_transceiver(&mut config, &owner(), a, Some(&dummies[idx])).unwrap();
        assert_eq!(rec.id, idx as u8 + 1);
        assert_eq!(rec.transceiver_address, *a);
        assert_eq!(config.threshold, 1);
    }
    let again = register_transceiver(&mut config, &owner(), &addr(10), Some(&baked_in)).unwrap();
    assert_eq!(again.id, 0);
    assert_eq!(config.threshold, 1);
}

#[test]
fn test_zero_threshold() {
    let mut config = setup(Mode::Locking);
    register_transceiver(&mut config, &owner(), &addr(10), None).unwrap();
    let err = set_threshold(&mut config, &owner(), 0).unwrap_err();
    assert_eq!(err, NttError::ZeroThreshold);
}

#[test]
fn test_threshold_too_high() {
    let mut config = setup(Mode::Burning);
    register_transceiver(&mut config, &owner(), &addr(10), None).unwrap();
    let err = set_threshold(&mut config, &owner(), 2).unwrap_err();
    assert_eq!(err, NttError::ThresholdTooHigh);
}

#[test]
fn threshold_auto_lowers_on_deregistration() {
    // Two channels enabled, threshold 2; disabling one brings the enabled
    // count to 1 and the threshold follows it down.
    let mut config = setup(Mode::Locking);
    let first = register_transceiver(&mut config, &owner(), &addr(10), None).unwrap();
    register_transceiver(&mut config, &owner(), &addr(11), None).unwrap();
    set_threshold(&mut config, &owner(), 2).unwrap();
    deregister_transceiver(&mut config, &owner(), &first).unwrap();
    assert_eq!(config.threshold, 1);
}

#[test]
fn deregistering_disabled_channel_fails() {
    let mut config = setup(Mode::Locking);
    let rec = register_transceiver(&mut config, &owner(), &addr(10), None).unwrap();
    deregister_transceiver(&mut config, &owner(), &rec).unwrap();
    let err = deregister_transceiver(&mut config, &owner(), &rec).unwrap_err();
    assert_eq!(err, NttError::DisabledTransceiver);
}

#[test]
fn admin_operations_require_the_owner() {
    let mut config = setup(Mode::Locking);
    let stranger = addr(9);
    assert_eq!(set_paused(&mut config, &stranger, true).unwrap_err(), NttError::InvalidOwner);
    assert!(!config.paused);
    assert_eq!(
        register_transceiver(&mut config, &stranger, &addr(10), None).unwrap_err(),
        NttError::InvalidOwner
    );
    assert_eq!(set_threshold(&mut config, &stranger, 1).unwrap_err(), NttError::InvalidOwner);
}

#[test]
fn pause_flag_toggles() {
    let mut config = setup(Mode::Locking);
    set_paused(&mut config, &owner(), true).unwrap();
    assert!(config.paused);
    set_paused(&mut config, &owner(), false).unwrap();
    assert!(!config.paused);
}

#[test]
fn outbound_and_inbound_limits_are_owner_gated() {
    let config = setup(Mode::Locking);
    let mut outbound = RateLimitState::new(1000);
    let err = set_outbound_limit(
        &config,
        &addr(9),
        &SetOutboundLimitArgs { limit: 5 },
        &mut outbound,
        10,
    )
    .unwrap_err();
    assert_eq!(err, NttError::InvalidOwner);
    assert_eq!(outbound.limit, 1000);

    set_outbound_limit(&config, &owner(), &SetOutboundLimitArgs { limit: 600 }, &mut outbound, 10)
        .unwrap();
    assert_eq!(outbound.limit, 600);
    assert_eq!(outbound.capacity_at_last_tx, 600);

    let mut inbound = RateLimitState::new(1000);
    set_inbound_limit(
        &config,
        &owner(),
        &SetInboundLimitArgs { limit: 70, chain_id: 2 },
        &mut inbound,
        10,
    )
    .unwrap();
    assert_eq!(inbound.limit, 70);
    assert_eq!(inbound.capacity_at_last_tx, 70);
}
