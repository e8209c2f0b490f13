//! Fixed-capacity bit-indexed set over a `u128`.
//!
//! One type serves two purposes that never share an instance: recording
//! which channels attested an inbound message, and marking which channels an
//! outbound message was already broadcast on.

use vstd::prelude::*;
use crate::error::NttError;

verus! {

/// Number of indices a bitmap can hold.
pub const BITMAP_CAPACITY: u8 = 128;

/// Whether bit `i` of `m` is set; indices at or above 128 never are.
pub open spec fn spec_bit(m: u128, i: u128) -> bool {
    ((m >> i) & 1) == 1
}

/// How many of the bits below `n` are set in `m`.
pub open spec fn count_bits_below(m: u128, n: int) -> nat
    decreases n,
{
    if n <= 0 {
        0
    } else {
        count_bits_below(m, n - 1) + (if spec_bit(m, (n - 1) as u128) { 1nat } else { 0nat })
    }
}

/// A set of up to 128 indices with constant-time get and set.
#[derive(Clone, Copy, Debug, PartialEq, Eq, Structural)]
pub struct Bitmap {
    pub map: u128,
}

impl Bitmap {
    /// Whether index `i` is in the set.
    pub open spec fn has(self, i: u8) -> bool {
        spec_bit(self.map, i as u128)
    }

    /// How many indices are in the set.
    pub open spec fn count(self) -> nat {
        count_bits_below(self.map, 128)
    }

    /// The value of `self` with index `i` added (for `i < 128`).
    pub open spec fn spec_set(self, i: u8) -> Bitmap {
        Bitmap { map: self.map | (1u128 << (i as u128)) }
    }

    /// The value of `self` with index `i` removed (for `i < 128`).
    pub open spec fn spec_clear(self, i: u8) -> Bitmap {
        Bitmap { map: self.map & !(1u128 << (i as u128)) }
    }

    /// The empty set.
    pub fn new() -> (r: Bitmap)
        ensures
            forall|j: u8| !r.has(j),
            r.count() == 0,
            r.map == 0u128,
    {
        proof {
            assert forall|j: u8| !#[trigger] spec_bit(0u128, j as u128) by {
                let ju = j as u128;
                assert(((0u128 >> ju) & 1) != 1) by (bit_vector);
            }
            lemma_count_bits_zero(128);
        }
        Bitmap { map: 0 }
    }

    /// The set holding exactly the bits of `value`.
    pub fn from_value(value: u128) -> (r: Bitmap)
        ensures
            r.map == value,
    {
        Bitmap { map: value }
    }

    /// Whether index `i` is in the set; out-of-range indices are rejected.
    pub fn get(&self, i: u8) -> (r: Result<bool, NttError>)
        ensures
            i < 128 ==> r == Ok::<bool, NttError>(self.has(i)),
            i >= 128 ==> r == Err::<bool, NttError>(NttError::BitmapIndexOutOfBounds),
    {
        if i < 128 {
            Ok(((self.map >> (i as u128)) & 1) == 1)
        } else {
            Err(NttError::BitmapIndexOutOfBounds)
        }
    }

    /// Adds or removes index `i`; out-of-range indices are rejected and
    /// leave the set unchanged.
    pub fn set(&mut self, i: u8, value: bool) -> (r: Result<(), NttError>)
        ensures
            i < 128 && value ==> r == Ok::<(), NttError>(()) && *final(self) == old(self).spec_set(i),
            i < 128 && !value ==> r == Ok::<(), NttError>(()) && *final(self) == old(self).spec_clear(i),
            i >= 128 ==> r == Err::<(), NttError>(NttError::BitmapIndexOutOfBounds)
                && *final(self) == *old(self),
    {
        if i < 128 {
            if value {
                self.map = self.map | (1u128 << (i as u128));
            } else {
                self.map = self.map & !(1u128 << (i as u128));
            }
            Ok(())
        } else {
            Err(NttError::BitmapIndexOutOfBounds)
        }
    }

    /// Number of indices in the set; at most 128.
    pub fn len(&self) -> (r: u8)
        ensures
            r as nat == self.count(),
    {
        let mut i: u8 = 0;
        let mut n: u8 = 0;
        while i < 128
            invariant
                0 <= i <= 128,
                n as nat == count_bits_below(self.map, i as int),
                n <= i,
            decreases 128 - i,
        {
            if ((self.map >> (i as u128)) & 1) == 1 {
                n += 1;
            }
            i += 1;
        }
        n
    }

    /// The union of the two sets.
    pub fn union(&self, other: &Bitmap) -> (r: Bitmap)
        ensures
            forall|j: u8| j < 128 ==> r.has(j) == (self.has(j) || other.has(j)),
    {
        let r = Bitmap { map: self.map | other.map };
        proof {
            let a = self.map;
            let b = other.map;
            assert forall|j: u8| j < 128 implies #[trigger] spec_bit(a | b, j as u128) == (spec_bit(
                a,
                j as u128,
            ) || spec_bit(b, j as u128)) by {
                let ju = j as u128;
                assert(ju < 128 ==>

                    ((((a | b) >> ju) & 1) == 1) == ((((a >> ju) & 1) == 1) || (((b >> ju) & 1)
                    == 1))) by (bit_vector);
            }
        }
        r
    }
}

/// The all-clear map has count zero below any `n`.
proof fn lemma_count_bits_zero(n: int)
    requires
        n <= 128,
    ensures
        count_bits_below(0u128, n) == 0,
    decreases n,
{
    if n > 0 {
        lemma_count_bits_zero(n - 1);
        let j = (n - 1) as u128;
        assert(((0u128 >> j) & 1) != 1) by (bit_vector)
            requires
                j < 128,
        ;
    }
}

/// Setting bit `i` leaves every other bit alone and makes bit `i` true.
pub proof fn lemma_set_bits(m: u128, i: u8)
    requires
        i < 128,
    ensures
        forall|j: u128| j < 128 ==> #[trigger] spec_bit(m | (1u128 << (i as u128)), j) == (j == i
            as u128 || spec_bit(m, j)),
{
    assert forall|j: u128| j < 128 implies #[trigger] spec_bit(m | (1u128 << (i as u128)), j) == (j
        == i as u128 || spec_bit(m, j)) by {
        let iu = i as u128;
        assert(iu < 128 && j < 128 ==> ((((m | (1u128 << iu)) >> j) & 1) == 1) == (j == iu || (((m
        >> j) & 1) == 1))) by (bit_vector);
    }
}

/// Clearing bit `i` leaves every other bit alone and makes bit `i` false.
pub proof fn lemma_clear_bits(m: u128, i: u8)
    requires
        i < 128,
    ensures
        forall|j: u128| j < 128 ==> #[trigger] spec_bit(m & !(1u128 << (i as u128)), j) == (j != i
            as u128 && spec_bit(m, j)),
{
    assert forall|j: u128| j < 128 implies #[trigger] spec_bit(m & !(1u128 << (i as u128)), j) == (
    j != i as u128 && spec_bit(m, j)) by {
        let iu = i as u128;
        assert(iu < 128 && j < 128 ==> ((((m & !(1u128 << iu)) >> j) & 1) == 1) == (j != iu && (((m
        >> j) & 1) == 1))) by (bit_vector);
    }
}

/// A bit of a union is set exactly when it is set in either operand.
pub proof fn lemma_or_bits(a: u128, b: u128)
    ensures
        forall|j: u128| j < 128 ==> #[trigger] spec_bit(a | b, j) == (spec_bit(a, j) || spec_bit(
            b,
            j,
        )),
{
    assert forall|j: u128| j < 128 implies #[trigger] spec_bit(a | b, j) == (spec_bit(a, j)
        || spec_bit(b, j)) by {
        assert(j < 128 ==> ((((a | b) >> j) & 1) == 1) == ((((a >> j) & 1) == 1) || (((b >> j) & 1)
            == 1))) by (bit_vector);
    }
}

/// A sub-map never counts more bits than its super-map.
pub proof fn lemma_count_bits_subset(m1: u128, m2: u128, n: int)
    requires
        n <= 128,
        forall|j: u128| j < 128 ==> (spec_bit(m1, j) ==> spec_bit(m2, j)),
    ensures
        count_bits_below(m1, n) <= count_bits_below(m2, n),
    decreases n,
{
    if n > 0 {
        lemma_count_bits_subset(m1, m2, n - 1);
    }
}

/// Counts below `n` agree when the bits below `n` agree.
pub proof fn lemma_count_bits_agree(m1: u128, m2: u128, n: int)
    requires
        n <= 128,
        forall|j: u128| j < 128 ==> spec_bit(m1, j) == spec_bit(m2, j),
    ensures
        count_bits_below(m1, n) == count_bits_below(m2, n),
    decreases n,
{
    if n > 0 {
        lemma_count_bits_agree(m1, m2, n - 1);
    }
}

/// Flipping bit `i` from clear to set raises the count below `n` by one
/// exactly when `i < n`.
pub proof fn lemma_count_bits_update(m1: u128, m2: u128, i: u8, n: int)
    requires
        i < 128,
        n <= 128,
        !spec_bit(m1, i as u128),
        spec_bit(m2, i as u128),
        forall|j: u128| j < 128 && j != i as u128 ==> spec_bit(m1, j) == spec_bit(m2, j),
    ensures
        count_bits_below(m2, n) == count_bits_below(m1, n) + (if i < n { 1int } else { 0int }),
    decreases n,
{
    if n > 0 {
        lemma_count_bits_update(m1, m2, i, n - 1);
    }
}

/// A set bit below `n` forces a positive count.
pub proof fn lemma_count_bits_positive(m: u128, i: u8, n: int)
    requires
        i < n <= 128,
        spec_bit(m, i as u128),
    ensures
        count_bits_below(m, n) >= 1,
    decreases n,
{
    if i < n - 1 {
        lemma_count_bits_positive(m, i, n - 1);
    }
}

} // verus!
