//! Model of a ledger multisig account that can hold the mint authority.
//!
//! The bridge recognizes a multisig as its own authority holder only when a
//! single signature suffices (`m == 1`) and the program's token-authority
//! address is one of the signers: authority actions then "sign" through that
//! membership rather than with a private key.

use vstd::prelude::*;
use crate::addr::{Address, address_eq};

verus! {

/// A multisig account: its own address, its signature threshold `m`, its
/// signer count `n`, and the signer addresses.
#[derive(Clone, Debug)]
pub struct SplMultisig {
    pub address: Address,
    pub m: u8,
    pub n: u8,
    pub signers: Vec<Address>,
}

/// Whether the multisig lets `authority` sign alone: threshold 1 and
/// `authority` among the signers.
pub open spec fn spec_multisig_delegates(ms: SplMultisig, authority: Seq<u8>) -> bool {
    ms.m == 1 && exists|k: int| 0 <= k < ms.signers@.len() && #[trigger] ms.signers@[k]@
        == authority
}

/// Whether an optional multisig, when present, lets `authority` sign alone.
/// Authority operations that take no multisig act through `authority`
/// directly and need no such check.
pub open spec fn spec_multisig_ok(ms: Option<&SplMultisig>, authority: Seq<u8>) -> bool {
    match ms {
        Some(m) => spec_multisig_delegates(*m, authority),
        None => true,
    }
}

/// Checks [`spec_multisig_ok`] on an optional multisig.
pub fn multisig_ok(ms: Option<&SplMultisig>, authority: &Address) -> (r: bool)
    ensures
        r == spec_multisig_ok(ms, authority@),
{
    match ms {
        Some(m) => multisig_delegates(m, authority),
        None => true,
    }
}

/// Checks [`spec_multisig_delegates`] on a concrete multisig.
pub fn multisig_delegates(ms: &SplMultisig, authority: &Address) -> (r: bool)
    ensures
        r == spec_multisig_delegates(*ms, authority@),
{
    if ms.m != 1 {
        return false;
    }
    let mut i: usize = 0;
    while i < ms.signers.len()
        invariant
            ms.m == 1,
            0 <= i <= ms.signers@.len(),
            forall|k: int| 0 <= k < i ==> #[trigger] ms.signers@[k]@ != authority@,
        decreases ms.signers@.len() - i,
    {
        if address_eq(&ms.signers[i], authority) {
            proof {
                assert(exists|k: int|
                    0 <= k < ms.signers@.len() && #[trigger] ms.signers@[k]@ == authority@) by {
                    assert(ms.signers@[i as int]@ == authority@);
                }
            }
            return true;
        }
        i += 1;
    }
    false
}

} // verus!
