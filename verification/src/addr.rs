//! 32-byte account addresses, the only identity the logic ever compares.

use vstd::prelude::*;

verus! {

/// A ledger address: 32 raw bytes.
pub type Address = [u8; 32];

/// The all-zero address, used by the host ledger for "not set".
pub open spec fn spec_zero_address() -> Seq<u8> {
    Seq::new(32, |i: int| 0u8)
}

/// Byte-wise equality of two addresses.
pub fn address_eq(a: &Address, b: &Address) -> (r: bool)
    ensures
        r == (a@ == b@),
{
    let mut i: usize = 0;
    while i < 32
        invariant
            0 <= i <= 32,
            forall|j: int| 0 <= j < i ==> a@[j] == b@[j],
        decreases 32 - i,
    {
        if a[i] != b[i] {
            assert(a@[i as int] != b@[i as int]);
            return false;
        }
        i += 1;
    }
    proof {
        assert(a@ =~= b@);
    }
    true
}

/// Whether an address is the all-zero "not set" address.
pub fn address_is_zero(a: &Address) -> (r: bool)
    ensures
        r == (a@ == spec_zero_address()),
{
    let mut i: usize = 0;
    while i < 32
        invariant
            0 <= i <= 32,
            forall|j: int| 0 <= j < i ==> a@[j] == 0u8,
        decreases 32 - i,
    {
        if a[i] != 0 {
            assert(a@[i as int] != 0u8);
            return false;
        }
        i += 1;
    }
    proof {
        assert(a@ =~= spec_zero_address());
    }
    true
}

} // verus!
