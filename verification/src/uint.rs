//! 256-bit unsigned integers.
//!
//! A [`U256`] holds four 64-bit limbs, least significant first, the layout of
//! `ethereum_types::U256`. Arithmetic is done by that crate; the functions
//! that call it state, over the mathematical value of the limbs, what the
//! call returns.

use vstd::arithmetic::power2::pow2;
use vstd::prelude::*;

verus! {

/// 2^64, the weight of the second limb.
pub open spec fn two_pow_64() -> nat {
    0x1_0000_0000_0000_0000nat
}

/// 2^128, the weight of the third limb.
pub open spec fn two_pow_128() -> nat {
    0x1_0000_0000_0000_0000_0000_0000_0000_0000nat
}

/// 2^192, the weight of the fourth limb.
pub open spec fn two_pow_192() -> nat {
    0x1_0000_0000_0000_0000_0000_0000_0000_0000_0000_0000_0000_0000nat
}

/// 2^256: every [`U256`] value lies below it.
pub open spec fn two_pow_256() -> nat {
    0x1_0000_0000_0000_0000_0000_0000_0000_0000_0000_0000_0000_0000_0000_0000_0000_0000nat
}

/// The number that four little-endian limbs stand for.
pub open spec fn limbs_value(limbs: Seq<u64>) -> nat {
    (limbs[0] as nat) + (limbs[1] as nat) * two_pow_64() + (limbs[2] as nat) * two_pow_128() + (
    limbs[3] as nat) * two_pow_192()
}

/// The value of a big-endian byte string.
pub open spec fn be_value(bytes: Seq<u8>) -> nat
    decreases bytes.len(),
{
    if bytes.len() == 0 {
        0
    } else {
        be_value(bytes.drop_last()) * 256 + (bytes.last() as nat)
    }
}

/// `base` to the power of `exponent`.
pub open spec fn power(base: nat, exponent: nat) -> nat
    decreases exponent,
{
    if exponent == 0 {
        1
    } else {
        base * power(base, (exponent - 1) as nat)
    }
}

/// A power is at least one, and grows with its exponent.
pub proof fn lemma_power_increases(base: nat, low: nat, high: nat)
    requires
        base >= 1,
        low <= high,
    ensures
        1 <= power(base, low) <= power(base, high),
    decreases high,
{
    if low == 0 {
        if high > 0 {
            lemma_power_increases(base, 0, (high - 1) as nat);
            assert(power(base, (high - 1) as nat) <= base * power(base, (high - 1) as nat))
                by (nonlinear_arith)
                requires
                    base >= 1,
            ;
        }
    } else {
        lemma_power_increases(base, (low - 1) as nat, (high - 1) as nat);
        let below = power(base, (low - 1) as nat);
        let above = power(base, (high - 1) as nat);
        assert(base * below <= base * above) by (nonlinear_arith)
            requires
                below <= above,
        ;
        assert(1 <= base * below) by (nonlinear_arith)
            requires
                base >= 1,
                below >= 1,
        ;
    }
}

/// A 256-bit unsigned integer: four 64-bit limbs, least significant first.
#[derive(Clone, Copy, Debug, PartialEq, Eq, Hash)]
pub struct U256(pub [u64; 4]);

impl View for U256 {
    type V = nat;

    open spec fn view(&self) -> nat {
        limbs_value(self.0@)
    }
}

/// Every value is below 2^256.
pub proof fn lemma_u256_bound(x: U256)
    ensures
        x@ < two_pow_256(),
{
}

/// A number has one low limb and one remainder above it.
proof fn lemma_low_limb(low_x: int, high_x: int, low_y: int, high_y: int)
    requires
        0 <= low_x < two_pow_64(),
        0 <= low_y < two_pow_64(),
        low_x + high_x * two_pow_64() == low_y + high_y * two_pow_64(),
    ensures
        low_x == low_y,
        high_x == high_y,
{
    if high_x > high_y {
        assert((high_x - high_y) * two_pow_64() >= two_pow_64());
    } else if high_x < high_y {
        assert((high_y - high_x) * two_pow_64() >= two_pow_64());
    }
}

/// Two values with the same number have the same limbs.
pub proof fn lemma_u256_injective(x: U256, y: U256)
    requires
        x@ == y@,
    ensures
        x == y,
{
    let x0 = x.0@[0] as int;
    let x1 = x.0@[1] as int;
    let x2 = x.0@[2] as int;
    let x3 = x.0@[3] as int;
    let y0 = y.0@[0] as int;
    let y1 = y.0@[1] as int;
    let y2 = y.0@[2] as int;
    let y3 = y.0@[3] as int;
    let c = two_pow_64() as int;
    assert(x@ == x0 + (x1 + (x2 + x3 * c) * c) * c);
    assert(y@ == y0 + (y1 + (y2 + y3 * c) * c) * c);
    lemma_low_limb(x0, x1 + (x2 + x3 * c) * c, y0, y1 + (y2 + y3 * c) * c);
    lemma_low_limb(x1, x2 + x3 * c, y1, y2 + y3 * c);
    lemma_low_limb(x2, x3, y2, y3);
    assert(x.0 =~= y.0);
}

/// The 256-bit integer that holds `value`.
pub open spec fn u256_of(value: nat) -> U256 {
    choose|x: U256| x@ == value
}

/// A 256-bit integer is the one that holds its value.
pub proof fn lemma_u256_of(x: U256)
    ensures
        u256_of(x@) == x,
{
    lemma_u256_injective(u256_of(x@), x);
}

impl U256 {
    /// Zero.
    pub fn zero() -> (r: U256)
        ensures
            r@ == 0,
    {
        U256([0, 0, 0, 0])
    }

    /// One.
    pub fn one() -> (r: U256)
        ensures
            r@ == 1,
    {
        U256([1, 0, 0, 0])
    }

    /// The largest value, 2^256 - 1.
    pub fn max_value() -> (r: U256)
        ensures
            r@ == two_pow_256() - 1,
    {
        U256([u64::MAX, u64::MAX, u64::MAX, u64::MAX])
    }

    /// The value of a machine word.
    pub fn from_u64(value: u64) -> (r: U256)
        ensures
            r@ == value,
    {
        U256([value, 0, 0, 0])
    }

    /// Whether the value is zero.
    pub fn is_zero(&self) -> (r: bool)
        ensures
            r == (self@ == 0),
    {
        self.0[0] == 0 && self.0[1] == 0 && self.0[2] == 0 && self.0[3] == 0
    }

    /// The low 64 bits.
    pub fn low_u64(&self) -> (r: u64)
        ensures
            r == self@ % two_pow_64(),
    {
        proof {
            let high = self.0@[1] as int + (self.0@[2] as int + self.0@[3] as int * two_pow_64())
                * two_pow_64();
            assert(self@ == high * two_pow_64() + self.0@[0] as int);
            vstd::arithmetic::div_mod::lemma_fundamental_div_mod_converse(
                self@ as int,
                two_pow_64() as int,
                high,
                self.0@[0] as int,
            );
        }
        self.0[0]
    }

    /// Whether the value fits in 64 bits.
    pub fn fits_u64(&self) -> (r: bool)
        ensures
            r == (self@ < two_pow_64()),
    {
        self.0[1] == 0 && self.0[2] == 0 && self.0[3] == 0
    }

    /// Whether both hold the same number.
    pub fn equals(&self, other: &U256) -> (r: bool)
        ensures
            r == (self@ == other@),
            r == (*self == *other),
    {
        proof {
            if self@ == other@ {
                lemma_u256_injective(*self, *other);
            }
        }
        self.0[0] == other.0[0] && self.0[1] == other.0[1] && self.0[2] == other.0[2] && self.0[3]
            == other.0[3]
    }

    /// Whether `self` is strictly below `other`.
    pub fn lt(&self, other: &U256) -> (r: bool)
        ensures
            r == (self@ < other@),
    {
        if self.0[3] != other.0[3] {
            self.0[3] < other.0[3]
        } else if self.0[2] != other.0[2] {
            self.0[2] < other.0[2]
        } else if self.0[1] != other.0[1] {
            self.0[1] < other.0[1]
        } else {
            self.0[0] < other.0[0]
        }
    }

    /// The larger of the two.
    pub fn max(self, other: U256) -> (r: U256)
        ensures
            r@ == if self@ >= other@ { self@ } else { other@ },
            r == self || r == other,
    {
        if self.lt(&other) {
            other
        } else {
            self
        }
    }
}

/// `ethereum_types::U256::checked_add`: the sum, or `None` where it does not
/// fit in 256 bits.
#[verifier::external_body]
pub(crate) fn checked_add(a: &U256, b: &U256) -> (r: Option<U256>)
    ensures
        r is Some <==> a@ + b@ < two_pow_256(),
        r matches Some(sum) ==> sum@ == a@ + b@,
{
    match ethereum_types::U256(a.0).checked_add(ethereum_types::U256(b.0)) {
        Some(sum) => Some(U256(sum.0)),
        None => None,
    }
}

/// `ethereum_types::U256::checked_mul`: the product, or `None` where it does
/// not fit in 256 bits.
#[verifier::external_body]
pub(crate) fn checked_mul(a: &U256, b: &U256) -> (r: Option<U256>)
    ensures
        r is Some <==> a@ * b@ < two_pow_256(),
        r matches Some(product) ==> product@ == a@ * b@,
{
    match ethereum_types::U256(a.0).checked_mul(ethereum_types::U256(b.0)) {
        Some(product) => Some(U256(product.0)),
        None => None,
    }
}

/// `ethereum_types::U256::checked_div`: the quotient rounded down, or `None`
/// where the divisor is zero.
#[verifier::external_body]
pub(crate) fn checked_div(a: &U256, b: &U256) -> (r: Option<U256>)
    ensures
        r is Some <==> b@ != 0,
        r matches Some(quotient) ==> quotient@ == a@ / b@,
{
    match ethereum_types::U256(a.0).checked_div(ethereum_types::U256(b.0)) {
        Some(quotient) => Some(U256(quotient.0)),
        None => None,
    }
}

/// `ethereum_types::U256::saturating_sub`: the difference, or zero where `b`
/// is the larger.
#[verifier::external_body]
pub(crate) fn saturating_sub(a: &U256, b: &U256) -> (r: U256)
    ensures
        r@ == if a@ >= b@ { a@ - b@ } else { 0 },
{
    U256(ethereum_types::U256(a.0).saturating_sub(ethereum_types::U256(b.0)).0)
}

/// The `<<` of `ethereum_types::U256` by a `usize`: the value times
/// `2^shift`, of which the low 256 bits are kept.
#[verifier::external_body]
pub(crate) fn shl(a: &U256, shift: usize) -> (r: U256)
    ensures
        r@ == (a@ * pow2(shift as nat)) % two_pow_256(),
{
    U256((ethereum_types::U256(a.0) << shift).0)
}

/// `ethereum_types::U256::from_big_endian`: the number that up to 32
/// big-endian bytes stand for. The outside function panics on a longer slice.
#[verifier::external_body]
pub(crate) fn from_big_endian(bytes: &[u8]) -> (r: U256)
    requires
        bytes@.len() <= 32,
    ensures
        r@ == be_value(bytes@),
{
    U256(ethereum_types::U256::from_big_endian(bytes).0)
}

/// `ethereum_types::U256::to_big_endian`: the 32 big-endian bytes of the
/// value.
#[verifier::external_body]
pub(crate) fn to_big_endian(a: &U256) -> (r: [u8; 32])
    ensures
        be_value(r@) == a@,
{
    ethereum_types::U256(a.0).to_big_endian()
}

/// Leading zero bytes do not change a big-endian value.
pub proof fn lemma_be_leading_zero(bytes: Seq<u8>)
    requires
        bytes.len() > 0,
        bytes[0] == 0,
    ensures
        be_value(bytes) == be_value(bytes.skip(1)),
    decreases bytes.len(),
{
    if bytes.len() == 1 {
        assert(bytes.skip(1).len() == 0);
        assert(be_value(bytes.drop_last()) == 0);
    } else {
        lemma_be_leading_zero(bytes.drop_last());
        assert(bytes.skip(1).drop_last() =~= bytes.drop_last().skip(1));
        assert(bytes.skip(1).last() == bytes.last());
    }
}

/// The shortest big-endian byte string of a number: it has no leading zero,
/// and zero has no byte at all.
pub open spec fn minimal_be(value: nat) -> Seq<u8>
    decreases value,
{
    if value == 0 {
        Seq::empty()
    } else {
        minimal_be(value / 256).push((value % 256) as u8)
    }
}

/// A byte string without leading zero is the shortest of its value.
pub proof fn lemma_minimal_be_unique(bytes: Seq<u8>)
    requires
        bytes.len() == 0 || bytes[0] != 0,
    ensures
        bytes == minimal_be(be_value(bytes)),
    decreases bytes.len(),
{
    if bytes.len() == 0 {
        assert(bytes =~= Seq::<u8>::empty());
    } else {
        let front = bytes.drop_last();
        let value = be_value(bytes);
        if front.len() > 0 {
            lemma_minimal_be_unique(front);
            assert(be_value(front) != 0);
        }
        assert(value != 0);
        assert(value / 256 == be_value(front));
        assert(value % 256 == bytes.last());
        if front.len() == 0 {
            assert(front =~= Seq::<u8>::empty());
            assert(be_value(front) == 0);
        }
        assert(minimal_be(be_value(front)) == front);
        assert(minimal_be(value) == minimal_be(value / 256).push((value % 256) as u8));
        assert(bytes =~= front.push(bytes.last()));
    }
}

/// The shortest byte string of a number stands for that number.
pub proof fn lemma_minimal_be_value(value: nat)
    ensures
        be_value(minimal_be(value)) == value,
    decreases value,
{
    if value != 0 {
        lemma_minimal_be_value(value / 256);
        let front = minimal_be(value / 256);
        let bytes = front.push((value % 256) as u8);
        assert(bytes.drop_last() =~= front);
        assert(bytes.last() == (value % 256) as u8);
    }
}

/// The shortest byte string of a number has no leading zero, and a byte at
/// all unless the number is zero.
pub proof fn lemma_minimal_be_leads(value: nat)
    ensures
        value > 0 ==> minimal_be(value).len() > 0 && minimal_be(value)[0] != 0,
        value == 0 ==> minimal_be(value).len() == 0,
    decreases value,
{
    if value != 0 {
        lemma_minimal_be_leads(value / 256);
    }
}

/// A number below 256 to the power of `length` takes no more than `length`
/// bytes.
pub proof fn lemma_minimal_be_length(value: nat, length: nat)
    requires
        value < power(256, length),
    ensures
        minimal_be(value).len() <= length,
    decreases value,
{
    if value != 0 {
        assert(length > 0);
        assert(power(256, length) == 256 * power(256, (length - 1) as nat));
        lemma_minimal_be_length(value / 256, (length - 1) as nat);
    }
}

/// 256 to the power of 8 is 2^64, and to the power of 32 it is 2^256.
pub proof fn lemma_power_of_bytes()
    ensures
        power(256, 8) == two_pow_64(),
        power(256, 32) == two_pow_256(),
{
    assert(power(256, 8) == two_pow_64()) by {
        reveal_with_fuel(power, 9);
    }
    let word = power(256, 8);
    assert(power(256, 16) == word * word) by {
        lemma_power_adds(256, 8, 8);
    }
    let double = power(256, 16);
    assert(power(256, 32) == double * double) by {
        lemma_power_adds(256, 16, 16);
    }
    assert(word * word == 0x1_0000_0000_0000_0000_0000_0000_0000_0000nat) by (nonlinear_arith)
        requires
            word == 0x1_0000_0000_0000_0000nat,
    ;
    assert(double * double == two_pow_256()) by (nonlinear_arith)
        requires
            double == 0x1_0000_0000_0000_0000_0000_0000_0000_0000nat,
            two_pow_256()
                == 0x1_0000_0000_0000_0000_0000_0000_0000_0000_0000_0000_0000_0000_0000_0000_0000_0000nat,
    ;
}

/// A power of a sum of exponents is the product of the powers.
pub proof fn lemma_power_adds(base: nat, first: nat, second: nat)
    ensures
        power(base, first + second) == power(base, first) * power(base, second),
    decreases first,
{
    if first == 0 {
        assert(1 * power(base, second) == power(base, second)) by (nonlinear_arith);
    } else {
        lemma_power_adds(base, (first - 1) as nat, second);
        let rest = power(base, (first - 1) as nat);
        let other = power(base, second);
        assert(power(base, first + second) == base * power(base, (first - 1 + second) as nat));
        assert(base * (rest * other) == (base * rest) * other) by (nonlinear_arith);
    }
}

impl U256 {
    /// The shortest big-endian byte string of the value.
    pub fn to_be_bytes_trimmed(&self) -> (r: Vec<u8>)
        ensures
            r@ == minimal_be(self@),
            be_value(r@) == self@,
            r@.len() <= 32,
    {
        let full = to_big_endian(self);
        let mut start: usize = 0;
        assert(full@.skip(0) =~= full@);
        while start < 32 && full[start] == 0
            invariant
                start <= 32,
                be_value(full@.skip(start as int)) == self@,
            decreases 32 - start,
        {
            proof {
                lemma_be_leading_zero(full@.skip(start as int));
                assert(full@.skip(start as int).skip(1) =~= full@.skip(start + 1));
            }
            start = start + 1;
        }
        let mut out: Vec<u8> = Vec::new();
        let mut i: usize = start;
        while i < 32
            invariant
                start <= i <= 32,
                out@ =~= full@.subrange(start as int, i as int),
            decreases 32 - i,
        {
            out.push(full[i]);
            i = i + 1;
        }
        assert(out@ =~= full@.skip(start as int));
        proof {
            lemma_minimal_be_unique(out@);
        }
        out
    }
}

} // verus!
