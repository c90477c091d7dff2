//! A 256-bit unsigned word, the value type of the transfer protocol.
//!
//! Balances and the transfer value are 256-bit big-endian unsigned integers on
//! the wire. The word is held as two 128-bit halves; its mathematical value is
//! the spec function `as_nat`, and every operation is specified against it.

use vstd::arithmetic::div_mod::{lemma_fundamental_div_mod, lemma_mod_bound, lemma_mod_multiples_vanish, lemma_small_mod};
use vstd::arithmetic::mul::lemma_mul_inequality;
use vstd::prelude::*;

verus! {

/// 2^128, the weight of the high half of a 256-bit word.
pub open spec fn u128_bound() -> nat {
    0x1_0000_0000_0000_0000_0000_0000_0000_0000nat
}

/// 2^256, the modulus of wrapping 256-bit arithmetic.
pub open spec fn u256_bound() -> nat {
    0x1_0000_0000_0000_0000_0000_0000_0000_0000_0000_0000_0000_0000_0000_0000_0000_0000nat
}

/// 256 raised to `e`: the weight of a byte `e` places from the low end.
pub open spec fn pow256(e: nat) -> nat
    decreases e,
{
    if e == 0 {
        1
    } else {
        256 * pow256((e - 1) as nat)
    }
}

/// The value of a byte string read as a big-endian unsigned integer.
pub open spec fn be_nat(s: Seq<u8>) -> nat
    decreases s.len(),
{
    if s.len() == 0 {
        0
    } else {
        be_nat(s.drop_last()) * 256 + (s.last() as nat)
    }
}

pub proof fn lemma_pow256_values()
    ensures
        pow256(15) == 0x1000000000000000000000000000000,
        pow256(16) == u128_bound(),
{
    assert(pow256(15) == 0x1000000000000000000000000000000 && pow256(16) == u128_bound()) by {
        assert(pow256(0) == 1);
        assert(pow256(1) == 0x100);
        assert(pow256(2) == 0x10000);
        assert(pow256(3) == 0x1000000);
        assert(pow256(4) == 0x100000000);
        assert(pow256(5) == 0x10000000000);
        assert(pow256(6) == 0x1000000000000);
        assert(pow256(7) == 0x100000000000000);
        assert(pow256(8) == 0x10000000000000000);
        assert(pow256(9) == 0x1000000000000000000);
        assert(pow256(10) == 0x100000000000000000000);
        assert(pow256(11) == 0x10000000000000000000000);
        assert(pow256(12) == 0x1000000000000000000000000);
        assert(pow256(13) == 0x100000000000000000000000000);
        assert(pow256(14) == 0x10000000000000000000000000000);
        assert(pow256(15) == 0x1000000000000000000000000000000);
        assert(pow256(16) == 0x100000000000000000000000000000000);
    }
}

pub proof fn lemma_pow256_monotone(a: nat, b: nat)
    requires
        a <= b,
    ensures
        pow256(a) <= pow256(b),
    decreases b,
{
    if a < b {
        lemma_pow256_monotone(a, (b - 1) as nat);
    }
}

/// A big-endian byte string of length `n` denotes a value below 256^n.
pub proof fn lemma_be_nat_bound(s: Seq<u8>)
    ensures
        be_nat(s) < pow256(s.len()),
    decreases s.len(),
{
    if s.len() > 0 {
        lemma_be_nat_bound(s.drop_last());
        lemma_mul_inequality(be_nat(s.drop_last()) as int, pow256((s.len() - 1) as nat) - 1, 256);
    }
}

/// Splitting a big-endian byte string splits its value by place weight.
pub proof fn lemma_be_nat_concat(a: Seq<u8>, b: Seq<u8>)
    ensures
        be_nat(a + b) == be_nat(a) * pow256(b.len()) + be_nat(b),
    decreases b.len(),
{
    if b.len() == 0 {
        assert(a + b =~= a);
        assert(be_nat(b) == 0);
        assert(pow256(b.len()) == 1);
        assert(be_nat(a) * 1 == be_nat(a)) by (nonlinear_arith);
    } else {
        lemma_be_nat_concat(a, b.drop_last());
        assert((a + b).drop_last() =~= a + b.drop_last());
        let x = be_nat(a);
        let y = be_nat(b.drop_last());
        let p = pow256((b.len() - 1) as nat);
        let q = pow256(b.len());
        let l = b.last() as nat;
        assert(be_nat(a + b) == (x * p + y) * 256 + l);
        assert(q == 256 * p);
        assert((x * p + y) * 256 + l == x * q + (y * 256 + l)) by (nonlinear_arith)
            requires
                q == 256 * p,
        ;
        assert(be_nat(b) == y * 256 + l);
    }
}

/// A 256-bit unsigned integer, split into a high and a low 128-bit half.
#[derive(Clone, Copy, Debug, PartialEq, Eq, Structural)]
pub struct U256 {
    pub hi: u128,
    pub lo: u128,
}

impl U256 {
    /// The mathematical value of the word.
    pub open spec fn as_nat(self) -> nat {
        (self.hi as nat) * u128_bound() + (self.lo as nat)
    }

    pub fn zero() -> (r: U256)
        ensures
            r.as_nat() == 0,
    {
        U256 { hi: 0, lo: 0 }
    }

    pub fn from_u64(v: u64) -> (r: U256)
        ensures
            r.as_nat() == v,
    {
        U256 { hi: 0, lo: v as u128 }
    }

    /// Reads the 32 bytes starting at `start` as a big-endian word.
    pub fn from_be_bytes_at(bytes: &Vec<u8>, start: usize) -> (r: U256)
        requires
            start + 32 <= bytes@.len(),
        ensures
            r.as_nat() == be_nat(bytes@.subrange(start as int, start as int + 32)),
    {
        proof {
            assert(bytes.len() == bytes@.len());
        }
        let hi = u128_from_be_bytes(bytes, start);
        let lo = u128_from_be_bytes(bytes, start + 16);
        proof {
            let a = bytes@.subrange(start as int, start as int + 16);
            let b = bytes@.subrange(start as int + 16, start as int + 32);
            assert(a + b =~= bytes@.subrange(start as int, start as int + 32));
            lemma_be_nat_concat(a, b);
            lemma_pow256_values();
        }
        U256 { hi, lo }
    }

    /// Strict numeric comparison.
    pub fn lt(&self, other: &U256) -> (r: bool)
        ensures
            r <==> self.as_nat() < other.as_nat(),
    {
        if self.hi < other.hi {
            true
        } else if self.hi == other.hi {
            self.lo < other.lo
        } else {
            false
        }
    }

    /// Addition modulo 2^256, as 256-bit register arithmetic wraps.
    pub fn wrapping_add(&self, other: &U256) -> (r: U256)
        ensures
            r.as_nat() == (self.as_nat() + other.as_nat()) % u256_bound(),
    {
        let (lo, carry): (u128, bool) = if self.lo > u128::MAX - other.lo {
            ((self.lo - (u128::MAX - other.lo)) - 1, true)
        } else {
            (self.lo + other.lo, false)
        };
        let c: u128 = if carry {
            1
        } else {
            0
        };
        let (hi, overflow): (u128, bool) = if self.hi > u128::MAX - other.hi {
            (((self.hi - (u128::MAX - other.hi)) - 1) + c, true)
        } else if (self.hi + other.hi) > u128::MAX - c {
            (0, true)
        } else {
            ((self.hi + other.hi) + c, false)
        };
        let r = U256 { hi, lo };
        proof {
            let total = self.as_nat() + other.as_nat();
            if overflow {
                assert(total == u256_bound() + r.as_nat());
                lemma_mod_multiples_vanish(1, r.as_nat() as int, u256_bound() as int);
                lemma_small_mod(r.as_nat(), u256_bound());
            } else {
                assert(total == r.as_nat());
                lemma_small_mod(r.as_nat(), u256_bound());
            }
        }
        r
    }

    /// Subtraction, defined only when no borrow out of the word occurs.
    pub fn sub(&self, other: &U256) -> (r: U256)
        requires
            other.as_nat() <= self.as_nat(),
        ensures
            r.as_nat() == self.as_nat() - other.as_nat(),
    {
        if self.lo < other.lo {
            proof {
                assert(self.hi > other.hi);
            }
            U256 { hi: (self.hi - other.hi) - 1, lo: ((u128::MAX - other.lo) + self.lo) + 1 }
        } else {
            proof {
                assert(self.hi >= other.hi);
            }
            U256 { hi: self.hi - other.hi, lo: self.lo - other.lo }
        }
    }

    /// Shifts the word left by one hex place and adds a digit; the step of
    /// big-endian base-16 accumulation. Defined only while the result fits.
    pub(crate) fn shl4_add(&self, digit: u8) -> (r: U256)
        requires
            self.hi < 0x1000_0000_0000_0000_0000_0000_0000_0000,
            digit < 16,
        ensures
            r.as_nat() == self.as_nat() * 16 + digit,
    {
        let p124: u128 = 0x1000_0000_0000_0000_0000_0000_0000_0000;
        let q: u128 = self.lo / p124;
        let rem: u128 = self.lo % p124;
        proof {
            lemma_fundamental_div_mod(self.lo as int, p124 as int);
            lemma_mod_bound(self.lo as int, p124 as int);
        }
        U256 { hi: (self.hi * 16) + q, lo: (rem * 16) + (digit as u128) }
    }
}

/// Reads the 16 bytes starting at `start` as a big-endian 128-bit value.
fn u128_from_be_bytes(bytes: &Vec<u8>, start: usize) -> (r: u128)
    requires
        start + 16 <= bytes@.len(),
    ensures
        r as nat == be_nat(bytes@.subrange(start as int, start as int + 16)),
{
    let mut acc: u128 = 0;
    let mut i: usize = 0;
    while i < 16
        invariant
            i <= 16,
            start + 16 <= bytes@.len(),
            acc as nat == be_nat(bytes@.subrange(start as int, start as int + i as int)),
        decreases 16 - i,
    {
        proof {
            assert(bytes.len() == bytes@.len());
            lemma_be_nat_bound(bytes@.subrange(start as int, start as int + i as int));
            lemma_pow256_monotone(i as nat, 15);
            lemma_pow256_values();
            assert(bytes@.subrange(start as int, start as int + i as int + 1).drop_last()
                =~= bytes@.subrange(start as int, start as int + i as int));
        }
        acc = (acc * 256) + (bytes[start + i] as u128);
        i = i + 1;
    }
    acc
}

} // verus!
