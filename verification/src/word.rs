//! 256-bit ledger words.
//!
//! Balances, allowances and timestamps travel as 256-bit unsigned integers.
//! [`Word256`] holds one as four 64-bit limbs and views it as a natural
//! number. The arithmetic that needs more than a limb at a time is done by
//! `U256`, behind the trusted functions at the end of this file.

use ethcontract::U256;
use uint::FromStrRadixErr;
use vstd::arithmetic::div_mod::{
    lemma_div_denominator, lemma_fundamental_div_mod, lemma_fundamental_div_mod_converse,
    lemma_small_mod,
};
use vstd::prelude::*;

use crate::text::{decimal_digits, radix_value};

verus! {

/// The parse error of `U256::from_str_radix`, carried through as it comes.
#[verifier::external_type_specification]
#[verifier::external_body]
pub struct ExFromStrRadixErr(FromStrRadixErr);

/// `2^256`: every word is below it.
pub open spec fn word_limit() -> nat {
    0x1_0000_0000_0000_0000_0000_0000_0000_0000_0000_0000_0000_0000_0000_0000_0000_0000nat
}

/// The number that four 64-bit limbs stand for, least significant first.
pub open spec fn limbs_value(w0: u64, w1: u64, w2: u64, w3: u64) -> nat {
    (w0 + w1 * 0x1_0000_0000_0000_0000int + w2 * 0x1_0000_0000_0000_0000_0000_0000_0000_0000int + w3
        * 0x1_0000_0000_0000_0000_0000_0000_0000_0000_0000_0000_0000_0000int) as nat
}

/// `10^e`.
pub open spec fn pow10(e: nat) -> nat
    decreases e,
{
    if e == 0 {
        1
    } else {
        10 * pow10((e - 1) as nat)
    }
}

/// A 256-bit unsigned integer.
#[derive(Clone, Copy, Debug, PartialEq, Eq, Hash, Structural)]
pub struct Word256 {
    w0: u64,
    w1: u64,
    w2: u64,
    w3: u64,
}

impl View for Word256 {
    type V = nat;

    closed spec fn view(&self) -> nat {
        limbs_value(self.w0, self.w1, self.w2, self.w3)
    }
}

impl Word256 {
    /// The word that stands for `n`; meaningful for `n < 2^256`.
    pub closed spec fn of(n: nat) -> Word256 {
        Word256 {
            w0: (n % 0x1_0000_0000_0000_0000nat) as u64,
            w1: ((n / 0x1_0000_0000_0000_0000nat) % 0x1_0000_0000_0000_0000nat) as u64,
            w2: ((n / 0x1_0000_0000_0000_0000_0000_0000_0000_0000nat)
                % 0x1_0000_0000_0000_0000nat) as u64,
            w3: ((n / 0x1_0000_0000_0000_0000_0000_0000_0000_0000_0000_0000_0000_0000nat)
                % 0x1_0000_0000_0000_0000nat) as u64,
        }
    }

    /// Every word is below `2^256`.
    pub proof fn lemma_bounded(self)
        ensures
            self@ < word_limit(),
    {
    }

    /// Two words that stand for the same number are the same word.
    pub proof fn lemma_view_injective(self, other: Word256)
        requires
            self@ == other@,
        ensures
            self == other,
    {
        assert(self.w3 == other.w3) by {
            if self.w3 < other.w3 {
                assert(self@ < other@);
            } else if self.w3 > other.w3 {
                assert(self@ > other@);
            }
        }
        assert(self.w2 == other.w2) by {
            if self.w2 < other.w2 {
                assert(self@ < other@);
            } else if self.w2 > other.w2 {
                assert(self@ > other@);
            }
        }
        assert(self.w1 == other.w1) by {
            if self.w1 < other.w1 {
                assert(self@ < other@);
            } else if self.w1 > other.w1 {
                assert(self@ > other@);
            }
        }
    }

    /// `of` inverts the view.
    pub proof fn lemma_of_view(self)
        ensures
            Word256::of(self@) == self,
    {
        let n: int = self@ as int;
        let b1: int = 0x1_0000_0000_0000_0000int;
        let b2: int = 0x1_0000_0000_0000_0000_0000_0000_0000_0000int;
        let b3: int = 0x1_0000_0000_0000_0000_0000_0000_0000_0000_0000_0000_0000_0000int;
        let r1: int = self.w1 + self.w2 * b1 + self.w3 * b2;
        let r2: int = self.w2 + self.w3 * b1;
        lemma_fundamental_div_mod_converse(n, b1, r1, self.w0 as int);
        lemma_fundamental_div_mod_converse(r1, b1, r2, self.w1 as int);
        lemma_fundamental_div_mod_converse(n, b2, r2, self.w0 + self.w1 * b1);
        lemma_fundamental_div_mod_converse(r2, b1, self.w3 as int, self.w2 as int);
        lemma_fundamental_div_mod_converse(n, b3, self.w3 as int, self.w0 + self.w1 * b1 + self.w2 * b2);
        lemma_fundamental_div_mod_converse(self.w3 as int, b1, 0, self.w3 as int);
    }

    /// `of(n)` stands for `n` whenever `n` fits in 256 bits.
    pub proof fn lemma_view_of(n: nat)
        requires
            n < word_limit(),
        ensures
            Word256::of(n)@ == n,
    {
        let x: int = n as int;
        let b1: int = 0x1_0000_0000_0000_0000int;
        let b2: int = 0x1_0000_0000_0000_0000_0000_0000_0000_0000int;
        let b3: int = 0x1_0000_0000_0000_0000_0000_0000_0000_0000_0000_0000_0000_0000int;
        let q1: int = x / b1;
        let q2: int = q1 / b1;
        let q3: int = q2 / b1;
        assert(b1 * b1 == b2);
        assert(b2 * b1 == b3);
        lemma_div_denominator(x, b1, b1);
        lemma_div_denominator(x, b2, b1);
        assert(q2 == x / b2);
        assert(q3 == x / b3);
        lemma_fundamental_div_mod(x, b1);
        lemma_fundamental_div_mod(q1, b1);
        lemma_fundamental_div_mod(q2, b1);
        assert(x == (x % b1) + b1 * (q1 % b1) + b2 * (q2 % b1) + b3 * q3);
        assert(0 <= q3 < b1);
        lemma_small_mod(q3 as nat, b1 as nat);
    }

    /// Zero.
    pub fn zero() -> (w: Word256)
        ensures
            w@ == 0,
    {
        Word256 { w0: 0, w1: 0, w2: 0, w3: 0 }
    }

    /// The word that stands for a 64-bit number.
    pub fn from_u64(n: u64) -> (w: Word256)
        ensures
            w@ == n,
    {
        Word256 { w0: n, w1: 0, w2: 0, w3: 0 }
    }

    /// The word with the given limbs, least significant first.
    pub fn from_limbs(limbs: [u64; 4]) -> (w: Word256)
        ensures
            w@ == limbs_value(limbs[0], limbs[1], limbs[2], limbs[3]),
    {
        Word256 { w0: limbs[0], w1: limbs[1], w2: limbs[2], w3: limbs[3] }
    }

    /// The four limbs, least significant first.
    pub fn to_limbs(&self) -> (limbs: [u64; 4])
        ensures
            limbs_value(limbs[0], limbs[1], limbs[2], limbs[3]) == self@,
    {
        [self.w0, self.w1, self.w2, self.w3]
    }

    /// Whether the word is zero.
    pub fn is_zero(&self) -> (r: bool)
        ensures
            r == (self@ == 0),
    {
        self.w0 == 0 && self.w1 == 0 && self.w2 == 0 && self.w3 == 0
    }

    /// Whether this word is numerically below the other.
    pub fn lt(&self, other: &Word256) -> (r: bool)
        ensures
            r == (self@ < other@),
    {
        if self.w3 != other.w3 {
            self.w3 < other.w3
        } else if self.w2 != other.w2 {
            self.w2 < other.w2
        } else if self.w1 != other.w1 {
            self.w1 < other.w1
        } else {
            self.w0 < other.w0
        }
    }

    /// The word as a 64-bit number, when it is one.
    pub fn to_u64(&self) -> (r: Option<u64>)
        ensures
            r == (if self@ <= u64::MAX {
                Some(self@ as u64)
            } else {
                None
            }),
    {
        if self.w1 == 0 && self.w2 == 0 && self.w3 == 0 {
            Some(self.w0)
        } else {
            None
        }
    }

    /// `U256::as_u64` for a word that fits in 64 bits.
    pub fn as_u64(&self) -> (r: u64)
        requires
            self@ <= u64::MAX,
        ensures
            r == self@,
    {
        self.w0
    }

    /// `U256::from_str_radix`: the number that `text` spells in radix 10 or 16,
    /// as [`radix_value`] reads it, and an error for every other text or radix.
    #[verifier::external_body]
    pub(crate) fn from_str_radix(text: &str, radix: u32) -> (r: Result<Word256, FromStrRadixErr>)
        ensures
            r is Ok <==> radix_value(text@, radix) is Some,
            r matches Ok(w) ==> radix_value(text@, radix) == Some(w@),
    {
        match U256::from_str_radix(text, radix) {
            Ok(v) => Ok(Word256 { w0: v.0[0], w1: v.0[1], w2: v.0[2], w3: v.0[3] }),
            Err(e) => Err(e),
        }
    }

    /// `U256::exp10`: the power of ten with exponent `n`. Beyond `10^77` the
    /// power does not fit and `U256::exp10` panics.
    #[verifier::external_body]
    pub(crate) fn exp10(n: usize) -> (w: Word256)
        requires
            n <= 77,
        ensures
            w@ == pow10(n as nat),
    {
        let v = U256::exp10(n);
        Word256 { w0: v.0[0], w1: v.0[1], w2: v.0[2], w3: v.0[3] }
    }

    /// `U256::checked_mul`: the product, or `None` when it needs more than 256 bits.
    #[verifier::external_body]
    pub(crate) fn checked_mul(&self, other: &Word256) -> (r: Option<Word256>)
        ensures
            r is Some <==> self@ * other@ < word_limit(),
            r matches Some(p) ==> p@ == self@ * other@,
    {
        let a = U256([self.w0, self.w1, self.w2, self.w3]);
        match a.checked_mul(U256([other.w0, other.w1, other.w2, other.w3])) {
            Some(v) => Some(Word256 { w0: v.0[0], w1: v.0[1], w2: v.0[2], w3: v.0[3] }),
            None => None,
        }
    }

    /// `U256::div_mod`: quotient and remainder. `U256::div_mod` panics on a zero
    /// divisor.
    #[verifier::external_body]
    pub(crate) fn div_mod(&self, other: &Word256) -> (r: (Word256, Word256))
        requires
            other@ != 0,
        ensures
            r.0@ == self@ / other@,
            r.1@ == self@ % other@,
    {
        let a = U256([self.w0, self.w1, self.w2, self.w3]);
        let (q, m) = a.div_mod(U256([other.w0, other.w1, other.w2, other.w3]));
        (
            Word256 { w0: q.0[0], w1: q.0[1], w2: q.0[2], w3: q.0[3] },
            Word256 { w0: m.0[0], w1: m.0[1], w2: m.0[2], w3: m.0[3] },
        )
    }

    /// `Display` of `U256`: the decimal digits of the word, without leading
    /// zeros, `"0"` for zero.
    #[verifier::external_body]
    pub(crate) fn to_decimal(&self) -> (s: String)
        ensures
            s@ == decimal_digits(self@),
    {
        U256([self.w0, self.w1, self.w2, self.w3]).to_string()
    }
}

} // verus!
