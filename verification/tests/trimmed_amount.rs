use ntt_core::error::NttError;
use ntt_core::trimmed_amount::TrimmedAmount;

#[test]
fn encode_trims_to_eight_decimals() {
    // 9 source decimals against an 8-decimal wire: one digit is dropped.
    let (trimmed, residual) = TrimmedAmount::encode(105, 9, 8).unwrap();
    assert_eq!(trimmed.amount, 10);
    assert_eq!(trimmed.decimals, 8);
    assert_eq!(residual, 5);
}

#[test]
fn encode_uses_peer_decimals_when_lower() {
    // Target chain has 7 decimals, so two digits are dropped.
    let (trimmed, residual) = TrimmedAmount::encode(1050, 9, 7).unwrap();
    assert_eq!(trimmed.amount, 10);
    assert_eq!(trimmed.decimals, 7);
    assert_eq!(residual, 50);
}

#[test]
fn encode_without_precision_loss() {
    let (trimmed, residual) = TrimmedAmount::encode(154, 7, 7).unwrap();
    assert_eq!(trimmed.amount, 154);
    assert_eq!(trimmed.decimals, 7);
    assert_eq!(residual, 0);
}

#[test]
fn round_trip_returns_amount_minus_residual() {
    // Trim then restore at the source scale: never more than was debited.
    let (trimmed, residual) = TrimmedAmount::encode(105, 9, 8).unwrap();
    let restored = trimmed.decode(9).unwrap();
    assert_eq!(restored, 105 - residual);
    assert_eq!(restored, 100);

    let (trimmed2, residual2) = TrimmedAmount::encode(1050, 9, 7).unwrap();
    assert_eq!(trimmed2.decode(9).unwrap(), 1050 - residual2);
    assert_eq!(trimmed2.decode(9).unwrap(), 1000);
}

#[test]
fn residual_stays_below_one_dropped_unit() {
    for amount in [0u64, 1, 99, 100, 101, 12345, 99999999] {
        let (_, residual) = TrimmedAmount::encode(amount, 9, 7).unwrap();
        assert!(residual < 100);
    }
}

#[test]
fn encode_rejects_amount_that_overflows_destination() {
    // Destination uses 38 decimals: scaling any nonzero trimmed amount back
    // up would overflow 64 bits.
    let r = TrimmedAmount::encode(u64::MAX, 0, 38);
    assert_eq!(r.unwrap_err(), NttError::AmountTooLarge);
    // A zero amount always fits.
    let (trimmed, residual) = TrimmedAmount::encode(0, 0, 38).unwrap();
    assert_eq!(trimmed.amount, 0);
    assert_eq!(residual, 0);
}

#[test]
fn decode_rejects_multiplication_overflow() {
    let big = TrimmedAmount { amount: u64::MAX, decimals: 0 };
    assert_eq!(big.decode(1).unwrap_err(), NttError::AmountOverflow);
}

#[test]
fn decode_scales_down_by_truncation() {
    let ta = TrimmedAmount { amount: 1999, decimals: 8 };
    assert_eq!(ta.decode(6).unwrap(), 19);
}

#[test]
fn decode_is_identity_at_same_decimals() {
    let ta = TrimmedAmount { amount: 777, decimals: 8 };
    assert_eq!(ta.decode(8).unwrap(), 777);
}
