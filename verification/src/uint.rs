//! A fixed-width 256-bit unsigned integer, used to hold a proof-of-work
//! limit: the easiest (numerically largest) target a valid block hash may
//! satisfy. The registry needs no arithmetic on it beyond equality and
//! ordering.

use vstd::prelude::*;

verus! {

/// A 256-bit unsigned integer stored as four 64-bit words in
/// least-significant-first order: `w0` holds bits 0..64 and `w3` holds
/// bits 192..256. A pure value type: copied and compared by value.
#[derive(Clone, Copy, Debug, PartialEq, Eq, Structural)]
pub struct Uint256 {
    /// Bits 0..64 (least significant word).
    pub w0: u64,
    /// Bits 64..128.
    pub w1: u64,
    /// Bits 128..192.
    pub w2: u64,
    /// Bits 192..256 (most significant word).
    pub w3: u64,
}

impl Uint256 {
    /// The mathematical value of the four words.
    pub open spec fn as_nat(self) -> nat {
        (self.w0 as nat)
            + (self.w1 as nat) * 0x1_0000_0000_0000_0000
            + (self.w2 as nat) * 0x1_0000_0000_0000_0000_0000_0000_0000_0000
            + (self.w3 as nat) * 0x1_0000_0000_0000_0000_0000_0000_0000_0000_0000_0000_0000_0000
    }

    /// Whether `self <= other` as 256-bit unsigned integers: words are
    /// compared from the most significant one down.
    pub fn le(&self, other: &Uint256) -> (r: bool)
        ensures
            r == (self.as_nat() <= other.as_nat()),
    {
        proof {
            lemma_word_place_values(*self);
            lemma_word_place_values(*other);
        }
        if self.w3 != other.w3 {
            self.w3 < other.w3
        } else if self.w2 != other.w2 {
            self.w2 < other.w2
        } else if self.w1 != other.w1 {
            self.w1 < other.w1
        } else {
            self.w0 <= other.w0
        }
    }
}

/// The words below a given position contribute strictly less than one unit
/// of that position's place value, so comparing words from the most
/// significant one down decides the order of the whole values.
proof fn lemma_word_place_values(u: Uint256)
    ensures
        (u.w0 as nat) < 0x1_0000_0000_0000_0000,
        (u.w0 as nat) + (u.w1 as nat) * 0x1_0000_0000_0000_0000
            < 0x1_0000_0000_0000_0000_0000_0000_0000_0000,
        (u.w0 as nat) + (u.w1 as nat) * 0x1_0000_0000_0000_0000
            + (u.w2 as nat) * 0x1_0000_0000_0000_0000_0000_0000_0000_0000
            < 0x1_0000_0000_0000_0000_0000_0000_0000_0000_0000_0000_0000_0000,
{
}

} // verus!
