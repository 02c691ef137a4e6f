//! 256-bit unsigned amounts.
//!
//! An amount is held as four 64-bit limbs, least significant first, and is
//! specified by the natural number it denotes ([`U256::value`]).

use crate::bytes::{be_bytes, lemma_be_bytes_concat, lemma_be_bytes_len, pow256, u64_to_be_bytes};
use vstd::prelude::*;
use vstd::std_specs::convert::FromSpecImpl;

verus! {

/// 2^64, the weight of the second limb.
pub open spec fn limb_base() -> nat {
    0x1_0000_0000_0000_0000nat
}

/// 2^128, the weight of the third limb.
pub open spec fn limb_base_2() -> nat {
    0x1_0000_0000_0000_0000_0000_0000_0000_0000nat
}

/// 2^192, the weight of the fourth limb.
pub open spec fn limb_base_3() -> nat {
    0x1_0000_0000_0000_0000_0000_0000_0000_0000_0000_0000_0000_0000nat
}

/// 2^256, the first natural number that no amount can hold.
pub open spec fn u256_modulus() -> nat {
    0x1_0000_0000_0000_0000_0000_0000_0000_0000_0000_0000_0000_0000_0000_0000_0000_0000nat
}

/// A 256-bit unsigned integer.
#[derive(Clone, Copy, Debug, PartialEq, Eq, Structural)]
pub struct U256 {
    pub l0: u64,
    pub l1: u64,
    pub l2: u64,
    pub l3: u64,
}

impl From<u64> for U256 {
    fn from(n: u64) -> (r: U256) {
        U256 { l0: n, l1: 0, l2: 0, l3: 0 }
    }
}

impl FromSpecImpl<u64> for U256 {
    open spec fn obeys_from_spec() -> bool {
        true
    }

    open spec fn from_spec(n: u64) -> U256 {
        U256 { l0: n, l1: 0, l2: 0, l3: 0 }
    }
}

/// Adds two limbs and an incoming carry, returning the low 64 bits of the sum
/// and the outgoing carry.
fn add_limb(a: u64, b: u64, carry: bool) -> (r: (u64, bool))
    ensures
        r.0 + (if r.1 { limb_base() } else { 0 }) == a + b + (if carry { 1nat } else { 0 }),
{
    let c: u128 = if carry { 1 } else { 0 };
    let t: u128 = a as u128 + b as u128 + c;
    if t >= 0x1_0000_0000_0000_0000u128 {
        ((t - 0x1_0000_0000_0000_0000u128) as u64, true)
    } else {
        (t as u64, false)
    }
}

/// Subtracts a limb and an incoming borrow from a limb, returning the low 64
/// bits of the difference and the outgoing borrow.
fn sub_limb(a: u64, b: u64, borrow: bool) -> (r: (u64, bool))
    ensures
        r.0 - (if r.1 { limb_base() as int } else { 0 }) == a - b - (if borrow { 1int } else { 0 }),
{
    let c: u128 = if borrow { 1 } else { 0 };
    let need: u128 = b as u128 + c;
    if (a as u128) >= need {
        ((a as u128 - need) as u64, false)
    } else {
        ((a as u128 + 0x1_0000_0000_0000_0000u128 - need) as u64, true)
    }
}

impl U256 {
    /// The natural number that the four limbs denote.
    pub open spec fn value(self) -> nat {
        self.l0 as nat + self.l1 as nat * limb_base() + self.l2 as nat * limb_base_2()
            + self.l3 as nat * limb_base_3()
    }

    /// The amount that denotes `n`; meaningful for `n < 2^256`.
    pub open spec fn from_nat(n: nat) -> U256 {
        U256 {
            l0: (n % limb_base()) as u64,
            l1: ((n / limb_base()) % limb_base()) as u64,
            l2: ((n / limb_base_2()) % limb_base()) as u64,
            l3: ((n / limb_base_3()) % limb_base()) as u64,
        }
    }

    /// The value written as nested multiples of 2^64.
    pub open spec fn nested_value(self) -> nat {
        self.l0 as nat + limb_base() * (self.l1 as nat + limb_base() * (self.l2 as nat
            + limb_base() * self.l3 as nat))
    }

    /// The nested form denotes the same number.
    pub proof fn lemma_nested_value(self)
        ensures
            self.value() == self.nested_value(),
    {
        let b: nat = limb_base();
        let l1: nat = self.l1 as nat;
        let l2: nat = self.l2 as nat;
        let l3: nat = self.l3 as nat;
        assert(b * (l1 + b * (l2 + b * l3)) == l1 * b + l2 * (b * b) + l3 * (b * b * b))
            by (nonlinear_arith);
        assert(b * b == limb_base_2());
        assert(b * b * b == limb_base_3());
    }

    /// Every amount is below 2^256.
    pub proof fn lemma_value_bound(self)
        ensures
            self.value() < u256_modulus(),
    {
    }

    /// Two amounts that denote the same number are the same amount.
    pub proof fn lemma_value_injective(a: U256, b: U256)
        requires
            a.value() == b.value(),
        ensures
            a == b,
    {
        a.lemma_from_nat_value();
        b.lemma_from_nat_value();
    }

    /// `from_nat` undoes `value`.
    pub proof fn lemma_from_nat_value(self)
        ensures
            U256::from_nat(self.value()) == self,
    {
        let n: int = self.value() as int;
        let b: int = limb_base() as int;
        let b2: int = limb_base_2() as int;
        let b3: int = limb_base_3() as int;
        let l0: int = self.l0 as int;
        let l1: int = self.l1 as int;
        let l2: int = self.l2 as int;
        let l3: int = self.l3 as int;
        let q1: int = l1 + l2 * b + l3 * b2;
        assert(n == q1 * b + l0) by (nonlinear_arith)
            requires
                n == l0 + l1 * b + l2 * b2 + l3 * b3,
                q1 == l1 + l2 * b + l3 * b2,
                b2 == b * b,
                b3 == b * b * b,
        ;
        vstd::arithmetic::div_mod::lemma_fundamental_div_mod_converse(n, b, q1, l0);
        let q2: int = l2 + l3 * b;
        assert(q1 == q2 * b + l1) by (nonlinear_arith)
            requires
                q1 == l1 + l2 * b + l3 * b2,
                q2 == l2 + l3 * b,
                b2 == b * b,
        ;
        vstd::arithmetic::div_mod::lemma_fundamental_div_mod_converse(q1, b, q2, l1);
        vstd::arithmetic::div_mod::lemma_fundamental_div_mod_converse(q2, b, l3, l2);
        let r2: int = l0 + l1 * b;
        assert(n == q2 * b2 + r2) by (nonlinear_arith)
            requires
                n == l0 + l1 * b + l2 * b2 + l3 * b3,
                q2 == l2 + l3 * b,
                r2 == l0 + l1 * b,
                b2 == b * b,
                b3 == b * b * b,
        ;
        vstd::arithmetic::div_mod::lemma_fundamental_div_mod_converse(n, b2, q2, r2);
        let r3: int = l0 + l1 * b + l2 * b2;
        assert(n == l3 * b3 + r3);
        vstd::arithmetic::div_mod::lemma_fundamental_div_mod_converse(n, b3, l3, r3);
        vstd::arithmetic::div_mod::lemma_small_mod(l3 as nat, b as nat);
    }

    /// `value` undoes `from_nat` below 2^256.
    pub proof fn lemma_value_from_nat(n: nat)
        requires
            n < u256_modulus(),
        ensures
            U256::from_nat(n).value() == n,
    {
        let x: int = n as int;
        let b: int = limb_base() as int;
        let b2: int = limb_base_2() as int;
        let b3: int = limb_base_3() as int;
        let q1: int = x / b;
        let q2: int = q1 / b;
        let q3: int = q2 / b;
        vstd::arithmetic::div_mod::lemma_fundamental_div_mod(x, b);
        vstd::arithmetic::div_mod::lemma_fundamental_div_mod(q1, b);
        vstd::arithmetic::div_mod::lemma_fundamental_div_mod(q2, b);
        vstd::arithmetic::div_mod::lemma_div_denominator(x, b, b);
        vstd::arithmetic::div_mod::lemma_div_denominator(q1, b, b);
        vstd::arithmetic::div_mod::lemma_div_denominator(x, b2, b);
        assert(b * b == b2);
        assert(b2 * b == b3);
        assert(q2 == x / b2);
        assert(q3 == x / b3);
        assert(q3 < b) by {
            if q3 >= b {
                vstd::arithmetic::div_mod::lemma_fundamental_div_mod(x, b3);
                assert(b3 * q3 >= b3 * b) by (nonlinear_arith)
                    requires
                        q3 >= b,
                        b3 > 0,
                ;
            }
        }
        vstd::arithmetic::div_mod::lemma_small_mod(q3 as nat, b as nat);
        let r = U256::from_nat(n);
        assert(r.l0 == x % b);
        assert(r.l1 == q1 % b);
        assert(r.l2 == q2 % b);
        assert(r.l3 == q3);
        assert(x == (x % b) + (q1 % b) * b + (q2 % b) * b2 + q3 * b3) by (nonlinear_arith)
            requires
                x == b * q1 + x % b,
                q1 == b * q2 + q1 % b,
                q2 == b * q3 + q2 % b,
                b2 == b * b,
                b3 == b2 * b,
        ;
    }

    /// The amount zero.
    pub fn zero() -> (r: U256)
        ensures
            r.value() == 0,
            r == (U256 { l0: 0, l1: 0, l2: 0, l3: 0 }),
    {
        U256 { l0: 0, l1: 0, l2: 0, l3: 0 }
    }

    /// Whether the amount is zero.
    pub fn is_zero(&self) -> (r: bool)
        ensures
            r == (self.value() == 0),
    {
        self.l0 == 0 && self.l1 == 0 && self.l2 == 0 && self.l3 == 0
    }

    /// The amount that denotes a 64-bit number.
    pub fn from_u64(n: u64) -> (r: U256)
        ensures
            r.value() == n,
            r == (U256 { l0: n, l1: 0, l2: 0, l3: 0 }),
    {
        U256 { l0: n, l1: 0, l2: 0, l3: 0 }
    }

    /// Limb order: whether `self` comes before `other` when the limbs are
    /// compared from the most significant down.
    pub open spec fn limbs_less(self, other: U256) -> bool {
        self.l3 < other.l3 || (self.l3 == other.l3 && (self.l2 < other.l2 || (self.l2 == other.l2
            && (self.l1 < other.l1 || (self.l1 == other.l1 && self.l0 < other.l0)))))
    }

    /// Limb order is the order of the values.
    pub proof fn lemma_limbs_less(self, other: U256)
        ensures
            self.limbs_less(other) == (self.value() < other.value()),
    {
        let lo_a: nat = self.l0 as nat + self.l1 as nat * limb_base() + self.l2 as nat
            * limb_base_2();
        let lo_b: nat = other.l0 as nat + other.l1 as nat * limb_base() + other.l2 as nat
            * limb_base_2();
        assert(lo_a < limb_base_3());
        assert(lo_b < limb_base_3());
        if self.l3 < other.l3 {
            assert(self.l3 as nat * limb_base_3() + limb_base_3() <= other.l3 as nat
                * limb_base_3()) by (nonlinear_arith)
                requires
                    self.l3 < other.l3,
            ;
        } else if self.l3 > other.l3 {
            assert(other.l3 as nat * limb_base_3() + limb_base_3() <= self.l3 as nat
                * limb_base_3()) by (nonlinear_arith)
                requires
                    self.l3 > other.l3,
            ;
        } else {
            let mid_a: nat = self.l0 as nat + self.l1 as nat * limb_base();
            let mid_b: nat = other.l0 as nat + other.l1 as nat * limb_base();
            assert(mid_a < limb_base_2());
            assert(mid_b < limb_base_2());
            if self.l2 < other.l2 {
                assert(self.l2 as nat * limb_base_2() + limb_base_2() <= other.l2 as nat
                    * limb_base_2()) by (nonlinear_arith)
                    requires
                        self.l2 < other.l2,
                ;
            } else if self.l2 > other.l2 {
                assert(other.l2 as nat * limb_base_2() + limb_base_2() <= self.l2 as nat
                    * limb_base_2()) by (nonlinear_arith)
                    requires
                        self.l2 > other.l2,
                ;
            } else {
                if self.l1 < other.l1 {
                    assert(self.l1 as nat * limb_base() + limb_base() <= other.l1 as nat
                        * limb_base()) by (nonlinear_arith)
                        requires
                            self.l1 < other.l1,
                    ;
                } else if self.l1 > other.l1 {
                    assert(other.l1 as nat * limb_base() + limb_base() <= self.l1 as nat
                        * limb_base()) by (nonlinear_arith)
                        requires
                            self.l1 > other.l1,
                    ;
                }
            }
        }
    }

    /// Whether `self` is strictly less than `other`.
    pub fn lt(&self, other: &U256) -> (r: bool)
        ensures
            r == (self.value() < other.value()),
    {
        proof {
            self.lemma_limbs_less(*other);
        }
        self.l3 < other.l3 || (self.l3 == other.l3 && (self.l2 < other.l2 || (self.l2 == other.l2
            && (self.l1 < other.l1 || (self.l1 == other.l1 && self.l0 < other.l0)))))
    }

    /// Whether `self` is at most `other`.
    pub fn le(&self, other: &U256) -> (r: bool)
        ensures
            r == (self.value() <= other.value()),
    {
        !other.lt(self)
    }

    /// Whether `self` is strictly greater than `other`.
    pub fn gt(&self, other: &U256) -> (r: bool)
        ensures
            r == (self.value() > other.value()),
    {
        other.lt(self)
    }

    /// Whether `self` is at least `other`.
    pub fn ge(&self, other: &U256) -> (r: bool)
        ensures
            r == (self.value() >= other.value()),
    {
        !self.lt(other)
    }

    /// The sum, or `None` where it does not fit in 256 bits.
    pub fn checked_add(&self, other: &U256) -> (r: Option<U256>)
        ensures
            r == (if self.value() + other.value() < u256_modulus() {
                Some(U256::from_nat(self.value() + other.value()))
            } else {
                None
            }),
            r matches Some(sum) ==> sum.value() == self.value() + other.value(),
    {
        let (l0, c0) = add_limb(self.l0, other.l0, false);
        let (l1, c1) = add_limb(self.l1, other.l1, c0);
        let (l2, c2) = add_limb(self.l2, other.l2, c1);
        let (l3, c3) = add_limb(self.l3, other.l3, c2);
        let sum = U256 { l0, l1, l2, l3 };
        proof {
            assert(sum.value() + (if c3 { u256_modulus() } else { 0 }) == self.value()
                + other.value()) by {
                assert(limb_base() * limb_base() == limb_base_2());
                assert(limb_base_2() * limb_base() == limb_base_3());
                assert(limb_base_3() * limb_base() == u256_modulus());
            }
            sum.lemma_from_nat_value();
        }
        if c3 {
            None
        } else {
            Some(sum)
        }
    }

    /// The difference, or `None` where `other` is the larger.
    pub fn checked_sub(&self, other: &U256) -> (r: Option<U256>)
        ensures
            r == (if self.value() >= other.value() {
                Some(U256::from_nat((self.value() - other.value()) as nat))
            } else {
                None
            }),
            r matches Some(diff) ==> diff.value() == self.value() - other.value(),
    {
        let (l0, c0) = sub_limb(self.l0, other.l0, false);
        let (l1, c1) = sub_limb(self.l1, other.l1, c0);
        let (l2, c2) = sub_limb(self.l2, other.l2, c1);
        let (l3, c3) = sub_limb(self.l3, other.l3, c2);
        let diff = U256 { l0, l1, l2, l3 };
        proof {
            assert(diff.value() - (if c3 { u256_modulus() as int } else { 0 }) == self.value()
                - other.value()) by {
                assert(limb_base() * limb_base() == limb_base_2());
                assert(limb_base_2() * limb_base() == limb_base_3());
                assert(limb_base_3() * limb_base() == u256_modulus());
            }
            diff.lemma_from_nat_value();
        }
        if c3 {
            None
        } else {
            Some(diff)
        }
    }

    /// The 32 bytes of the amount, most significant first.
    pub fn to_be_bytes(&self) -> (r: [u8; 32])
        ensures
            r@ == be_bytes(self.value(), 32),
    {
        let b3 = u64_to_be_bytes(self.l3);
        let b2 = u64_to_be_bytes(self.l2);
        let b1 = u64_to_be_bytes(self.l1);
        let b0 = u64_to_be_bytes(self.l0);
        let mut out: [u8; 32] = [0u8; 32];
        let mut i: usize = 0;
        while i < 8
            invariant
                i <= 8,
                forall|j: int| 0 <= j < i ==> out@[j] == b3@[j],
                forall|j: int| 0 <= j < i ==> out@[8 + j] == b2@[j],
                forall|j: int| 0 <= j < i ==> out@[16 + j] == b1@[j],
                forall|j: int| 0 <= j < i ==> out@[24 + j] == b0@[j],
            decreases 8 - i,
        {
            out[i] = b3[i];
            out[8 + i] = b2[i];
            out[16 + i] = b1[i];
            out[24 + i] = b0[i];
            i += 1;
        }
        proof {
            self.lemma_be_bytes_by_limbs();
            assert(out@ =~= b3@ + b2@ + b1@ + b0@);
        }
        out
    }

    /// The big-endian encoding of an amount is that of its limbs, the most
    /// significant limb first.
    pub proof fn lemma_be_bytes_by_limbs(self)
        ensures
            be_bytes(self.value(), 32) == be_bytes(self.l3 as nat, 8) + be_bytes(self.l2 as nat, 8)
                + be_bytes(self.l1 as nat, 8) + be_bytes(self.l0 as nat, 8),
    {
        reveal_with_fuel(pow256, 9);
        assert(pow256(8) == limb_base());
        let b: nat = limb_base();
        let l0 = self.l0 as nat;
        let l1 = self.l1 as nat;
        let l2 = self.l2 as nat;
        let l3 = self.l3 as nat;
        let h2: nat = l3 * b + l2;
        let h1: nat = h2 * b + l1;
        assert(self.value() == h1 * b + l0) by {
            self.lemma_nested_value();
            assert(h1 * b + l0 == l0 + b * (l1 + b * (l2 + b * l3))) by (nonlinear_arith)
                requires
                    h1 == (l3 * b + l2) * b + l1,
            ;
        }
        lemma_be_bytes_concat(h1, l0, 24, 8);
        lemma_be_bytes_concat(h2, l1, 16, 8);
        lemma_be_bytes_concat(l3, l2, 8, 8);
        lemma_be_bytes_len(l3, 8);
        lemma_be_bytes_len(l2, 8);
        lemma_be_bytes_len(l1, 8);
        lemma_be_bytes_len(l0, 8);
        assert(be_bytes(self.value(), 32) =~= be_bytes(l3, 8) + be_bytes(l2, 8) + be_bytes(l1, 8)
            + be_bytes(l0, 8));
    }

    /// Calls `U256::checked_mul` of the `primitive-types` crate, which
    /// returns the product, or `None` where it does not fit in 256 bits.
    #[verifier::external_body]
    pub(crate) fn checked_mul(&self, other: &U256) -> (product: Option<U256>)
        ensures
            product == (if self.value() * other.value() < u256_modulus() {
                Some(U256::from_nat(self.value() * other.value()))
            } else {
                None
            }),
    {
        sails_rs::U256([self.l0, self.l1, self.l2, self.l3]).checked_mul(
            sails_rs::U256([other.l0, other.l1, other.l2, other.l3]),
        ).map(|p| U256 { l0: p.0[0], l1: p.0[1], l2: p.0[2], l3: p.0[3] })
    }

    /// Calls the division operator of `U256` of the `primitive-types` crate,
    /// which returns the quotient rounded down and panics on a zero divisor.
    #[verifier::external_body]
    pub(crate) fn div(&self, divisor: &U256) -> (quotient: U256)
        requires
            divisor.value() != 0,
        ensures
            quotient == U256::from_nat(self.value() / divisor.value()),
    {
        let q = sails_rs::U256([self.l0, self.l1, self.l2, self.l3]) / sails_rs::U256(
            [divisor.l0, divisor.l1, divisor.l2, divisor.l3],
        );
        U256 { l0: q.0[0], l1: q.0[1], l2: q.0[2], l3: q.0[3] }
    }
}

} // verus!
