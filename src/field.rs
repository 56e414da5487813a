//! Elements of the BN254 scalar field, the field the constraints live in.
use vstd::prelude::*;

verus! {

/// High 128 bits of the field modulus.
pub const MODULUS_HI: u128 = 0x30644e72e131a029b85045b68181585d;

/// Low 128 bits of the field modulus.
pub const MODULUS_LO: u128 = 0x2833e84879b9709143e1f593f0000001;

/// 2^128 as a mathematical integer.
pub open spec fn two128() -> int {
    0x1_0000_0000_0000_0000_0000_0000_0000_0000int
}

/// 2^32 as a mathematical integer.
pub open spec fn two32() -> int {
    0x1_0000_0000int
}

/// The prime modulus of the field.
pub open spec fn modulus() -> int {
    MODULUS_HI as int * two128() + MODULUS_LO as int
}

/// The modulus lies above 2^128 and below 2^254.
pub proof fn lemma_modulus_bounds()
    ensures
        two128() < modulus(),
        modulus() < two128() * 0x4000_0000_0000_0000_0000_0000_0000_0000,
{
    assert(two128() < modulus()) by (nonlinear_arith)
        requires
            modulus() == MODULUS_HI as int * two128() + MODULUS_LO as int,
            MODULUS_HI as int >= 1,
            two128() > 0,
    ;
    assert(modulus() < two128() * 0x4000_0000_0000_0000_0000_0000_0000_0000) by (nonlinear_arith)
        requires
            modulus() == MODULUS_HI as int * two128() + MODULUS_LO as int,
            MODULUS_HI as int + 1 <= 0x4000_0000_0000_0000_0000_0000_0000_0000,
            (MODULUS_LO as int) < two128(),
            two128() > 0,
    ;
}

/// `y` is a multiplicative inverse of `x` modulo `m`.
pub open spec fn is_inverse_mod(x: int, y: int, m: int) -> bool {
    (x * y) % m == 1
}

/// `y` is a multiplicative inverse of `x` in the field.
pub open spec fn is_inverse(x: int, y: int) -> bool {
    is_inverse_mod(x, y, modulus())
}

/// `x` has a multiplicative inverse. In a prime field this holds of every
/// element that is not zero.
pub open spec fn has_inverse(x: int) -> bool {
    exists|y: int| 0 <= y < modulus() && #[trigger] is_inverse(x, y)
}

/// The zero-inverse convention: the inverse of a zero element is zero, and
/// the inverse of any other element is its multiplicative inverse.
pub open spec fn inverse_convention(x: int, y: int) -> bool {
    &&& x % modulus() == 0 ==> y == 0
    &&& x % modulus() != 0 ==> is_inverse(x, y)
}

/// Zero or one for a boolean.
pub open spec fn bit(b: bool) -> int {
    if b {
        1
    } else {
        0
    }
}

/// `p` is zero in the field.
pub open spec fn vanishes(p: int) -> bool {
    p % modulus() == 0
}

/// A small integer vanishes in the field only when it is zero.
pub proof fn lemma_vanishes_small(d: int)
    requires
        -two128() < d < two128(),
    ensures
        vanishes(d) <==> d == 0,
{
    lemma_modulus_bounds();
    let m = modulus();
    if d >= 0 {
        vstd::arithmetic::div_mod::lemma_small_mod(d as nat, m as nat);
    } else {
        vstd::arithmetic::div_mod::lemma_mod_add_multiples_vanish(d, m);
        vstd::arithmetic::div_mod::lemma_small_mod((m + d) as nat, m as nat);
    }
}

/// Multiplying by an invertible element keeps a small integer away from zero.
pub proof fn lemma_cancel_invertible(c: int, inv: int, x: int)
    requires
        is_inverse(c, inv),
        -two128() < x < two128(),
    ensures
        vanishes(c * x) <==> x == 0,
{
    lemma_modulus_bounds();
    let m = modulus();
    lemma_vanishes_small(x);
    if x == 0 {
        assert(c * x == 0) by (nonlinear_arith)
            requires
                x == 0,
        ;
        vstd::arithmetic::div_mod::lemma_small_mod(0, m as nat);
    } else if vanishes(c * x) {
        vstd::arithmetic::div_mod::lemma_mul_mod_noop_left(c * x, inv, m);
        assert((c * x) * inv == (c * inv) * x) by (nonlinear_arith);
        vstd::arithmetic::div_mod::lemma_mul_mod_noop_left(c * inv, x, m);
        assert(0int * inv == 0);
        vstd::arithmetic::div_mod::lemma_small_mod(0, m as nat);
        assert(false);
    }
}

/// `1 - c * inv` vanishes for an inverse `inv` of `c`, and so does any
/// multiple of it.
pub proof fn lemma_inverse_complement(c: int, inv: int, y: int)
    requires
        is_inverse(c, inv),
    ensures
        vanishes((1 - c * inv) * y),
{
    lemma_modulus_bounds();
    let m = modulus();
    let a = c * inv;
    vstd::arithmetic::div_mod::lemma_fundamental_div_mod(a, m);
    assert((1 - a) * y == (-(a / m) * y) * m) by (nonlinear_arith)
        requires
            a == m * (a / m) + 1,
    ;
    vstd::arithmetic::div_mod::lemma_mod_multiples_basic(-(a / m) * y, m);
}

/// The equality gadget: where `inv` follows the zero-inverse convention for
/// the field element `x`, the two identities `x * inv + is_eq - 1 = 0` and
/// `x * is_eq = 0` hold exactly when `is_eq` is set for a zero `x` and clear
/// for any other.
pub proof fn lemma_equality_gadget(x: int, inv: int, is_eq: bool)
    requires
        0 <= x < modulus(),
        inverse_convention(x, inv),
    ensures
        (vanishes(x * inv + bit(is_eq) - 1) && vanishes(x * bit(is_eq))) <==> (is_eq == (x == 0)),
{
    lemma_modulus_bounds();
    let m = modulus();
    vstd::arithmetic::div_mod::lemma_small_mod(x as nat, m as nat);
    vstd::arithmetic::div_mod::lemma_small_mod(1, m as nat);
    vstd::arithmetic::div_mod::lemma_small_mod(0, m as nat);
    vstd::arithmetic::div_mod::lemma_mod_add_multiples_vanish(-1, m);
    vstd::arithmetic::div_mod::lemma_small_mod((m - 1) as nat, m as nat);
    assert((-1int) % m == m - 1);
    vstd::arithmetic::div_mod::lemma_mod_self_0(m);
    if x == 0 {
        assert(x * inv == 0);
        assert(x * bit(is_eq) == 0);
        assert(vanishes(x * bit(is_eq)));
        if !is_eq {
            assert(!vanishes(x * inv + bit(is_eq) - 1));
        } else {
            assert(vanishes(x * inv + bit(is_eq) - 1));
        }
    } else {
        assert((x * inv) % m == 1);
        vstd::arithmetic::div_mod::lemma_add_mod_noop(x * inv, bit(is_eq) - 1, m);
        if is_eq {
            assert(x * bit(is_eq) == x);
            assert(!vanishes(x * bit(is_eq)));
        } else {
            assert(x * bit(is_eq) == 0);
            assert((x * inv + bit(is_eq) - 1) % m == (1 + (m - 1)) % m);
            assert(vanishes(x * inv + bit(is_eq) - 1));
            assert(vanishes(x * bit(is_eq)));
        }
    }
}

/// Value of little-endian base-2^32 digits, starting at digit `i`.
pub open spec fn digits_from(d: Seq<u32>, i: int) -> int
    decreases d.len() - i,
{
    if i < 0 || i >= d.len() {
        0
    } else {
        d[i] as int + two32() * digits_from(d, i + 1)
    }
}

/// Value of little-endian base-2^32 digits.
pub open spec fn digits_value(d: Seq<u32>) -> int {
    digits_from(d, 0)
}

/// A field element, held as two 128-bit halves of its canonical value.
#[derive(Clone, Copy, Debug, PartialEq, Eq, Structural)]
pub struct Fe {
    pub hi: u128,
    pub lo: u128,
}

impl Fe {
    /// The integer this element stands for.
    pub open spec fn val(self) -> int {
        self.hi as int * two128() + self.lo as int
    }

    /// The value is canonical: below the modulus.
    pub open spec fn wf(self) -> bool {
        self.val() < modulus()
    }

    pub fn zero() -> (r: Fe)
        ensures
            r.val() == 0,
            r.wf(),
    {
        Fe { hi: 0, lo: 0 }
    }

    pub fn one() -> (r: Fe)
        ensures
            r.val() == 1,
            r.wf(),
    {
        Fe { hi: 0, lo: 1 }
    }

    pub fn from_u64(x: u64) -> (r: Fe)
        ensures
            r.val() == x as int,
            r.wf(),
    {
        Fe { hi: 0, lo: x as u128 }
    }

    pub fn from_bool(b: bool) -> (r: Fe)
        ensures
            r.val() == (if b { 1int } else { 0int }),
            r.wf(),
    {
        if b {
            Fe::one()
        } else {
            Fe::zero()
        }
    }

    /// The value of an element known to fit in 64 bits.
    pub fn low_u64(&self) -> (r: u64)
        requires
            0 <= self.val() < 0x1_0000_0000_0000_0000,
        ensures
            r as int == self.val(),
    {
        proof {
            assert(self.hi == 0) by (nonlinear_arith)
                requires
                    0 <= self.hi as int * two128() + (self.lo as int) < 0x1_0000_0000_0000_0000,
                    two128() == 0x1_0000_0000_0000_0000_0000_0000_0000_0000int,
                    self.hi as int >= 0,
                    self.lo as int >= 0,
            ;
        }
        self.lo as u64
    }

    /// The value as a `u64`, when it fits.
    pub fn to_u64(&self) -> (r: Option<u64>)
        ensures
            r matches Some(v) ==> v as int == self.val(),
            r is None <==> self.val() >= 0x1_0000_0000_0000_0000,
    {
        if self.hi == 0 && self.lo <= 0xffff_ffff_ffff_ffff {
            Some(self.lo as u64)
        } else {
            None
        }
    }

    /// The inverse of `x` under the zero-inverse convention. Where `x` has no
    /// inverse at all (never the case for a non-zero element of a prime field)
    /// the result is zero as well.
    pub fn inverse_or_zero(x: u64) -> (r: Fe)
        ensures
            r.wf(),
            x == 0 ==> r.val() == 0,
            has_inverse(x as int) ==> is_inverse(x as int, r.val()),
            has_inverse(x as int) ==> inverse_convention(x as int, r.val()),
            x == 0 ==> inverse_convention(x as int, r.val()),
            !has_inverse(x as int) ==> r.val() == 0,
    {
        let m = modulus_digits();
        let res = biguint_modinv(x, &m);
        match res {
            Some(d) => {
                let r = fe_from_digits(&d);
                proof {
                    lemma_modulus_bounds();
                    vstd::arithmetic::div_mod::lemma_small_mod(x as nat, modulus() as nat);
                    assert(is_inverse(x as int, r.val()));
                    assert(has_inverse(x as int));
                    if x == 0 {
                        assert(0int * r.val() == 0);
                        vstd::arithmetic::div_mod::lemma_small_mod(0, modulus() as nat);
                        assert(!is_inverse(0, r.val()));
                    }
                }
                r
            },
            None => {
                proof {
                    if has_inverse(x as int) {
                        let y = choose|y: int| 0 <= y < modulus() && #[trigger] is_inverse(x as int, y);
                        assert(false);
                    }
                }
                proof {
                    lemma_modulus_bounds();
                    vstd::arithmetic::div_mod::lemma_small_mod(0, modulus() as nat);
                }
                Fe::zero()
            },
        }
    }
}

/// The modulus as little-endian base-2^32 digits.
fn modulus_digits() -> (r: Vec<u32>)
    ensures
        digits_value(r@) == modulus(),
        r@.len() == 8,
{
    let r: Vec<u32> = vec![
        0xf0000001u32,
        0x43e1f593u32,
        0x79b97091u32,
        0x2833e848u32,
        0x8181585du32,
        0xb85045b6u32,
        0xe131a029u32,
        0x30644e72u32,
    ];
    proof {
        assert(r@.len() == 8);
        assert(digit(r@, 0) == 0xf0000001);
        assert(digit(r@, 1) == 0x43e1f593);
        assert(digit(r@, 2) == 0x79b97091);
        assert(digit(r@, 3) == 0x2833e848);
        assert(digit(r@, 4) == 0x8181585d);
        assert(digit(r@, 5) == 0xb85045b6);
        assert(digit(r@, 6) == 0xe131a029);
        assert(digit(r@, 7) == 0x30644e72);
        lemma_digits8(r@);
    }
    r
}

/// The digit at `i`, zero past the end.
pub open spec fn digit(d: Seq<u32>, i: int) -> int {
    if 0 <= i < d.len() {
        d[i] as int
    } else {
        0
    }
}

proof fn lemma_digits_step(d: Seq<u32>, i: int)
    requires
        0 <= i,
    ensures
        digits_from(d, i) == digit(d, i) + two32() * digits_from(d, i + 1),
{
    if i >= d.len() {
        assert(digits_from(d, i + 1) == 0);
    }
}

proof fn lemma_digits8(d: Seq<u32>)
    requires
        d.len() <= 8,
    ensures
        digits_value(d) == (digit(d, 0) + 0x1_0000_0000 * digit(d, 1) + 0x1_0000_0000_0000_0000
            * digit(d, 2) + 0x1_0000_0000_0000_0000_0000_0000 * digit(d, 3)) + two128() * (digit(
            d,
            4,
        ) + 0x1_0000_0000 * digit(d, 5) + 0x1_0000_0000_0000_0000 * digit(d, 6)
            + 0x1_0000_0000_0000_0000_0000_0000 * digit(d, 7)),
{
    lemma_digits_step(d, 0);
    lemma_digits_step(d, 1);
    lemma_digits_step(d, 2);
    lemma_digits_step(d, 3);
    lemma_digits_step(d, 4);
    lemma_digits_step(d, 5);
    lemma_digits_step(d, 6);
    lemma_digits_step(d, 7);
    assert(digits_from(d, 8) == 0);
    let (d0, d1, d2, d3, d4, d5, d6, d7) = (
        digit(d, 0),
        digit(d, 1),
        digit(d, 2),
        digit(d, 3),
        digit(d, 4),
        digit(d, 5),
        digit(d, 6),
        digit(d, 7),
    );
    let b = 0x1_0000_0000int;
    assert(d0 + b * (d1 + b * (d2 + b * (d3 + b * (d4 + b * (d5 + b * (d6 + b * (d7 + b
        * 0))))))) == (d0 + 0x1_0000_0000 * d1 + 0x1_0000_0000_0000_0000 * d2
        + 0x1_0000_0000_0000_0000_0000_0000 * d3) + 0x1_0000_0000_0000_0000_0000_0000_0000_0000 * (
    d4 + 0x1_0000_0000 * d5 + 0x1_0000_0000_0000_0000 * d6 + 0x1_0000_0000_0000_0000_0000_0000
        * d7)) by (nonlinear_arith)
        requires
            b == 0x1_0000_0000int,
    ;
}

/// Packs four base-2^32 digits into one `u128`.
fn pack4(a: u32, b: u32, c: u32, d: u32) -> (r: u128)
    ensures
        r as int == a as int + 0x1_0000_0000 * b as int + 0x1_0000_0000_0000_0000 * c as int
            + 0x1_0000_0000_0000_0000_0000_0000 * d as int,
{
    (a as u128) + (b as u128) * 0x1_0000_0000u128 + (c as u128) * 0x1_0000_0000_0000_0000u128
        + (d as u128) * 0x1_0000_0000_0000_0000_0000_0000u128
}

fn digit_at(d: &Vec<u32>, i: usize) -> (r: u32)
    ensures
        r as int == digit(d@, i as int),
{
    if i < d.len() {
        d[i]
    } else {
        0
    }
}

/// A field element from the digits of a canonical value.
fn fe_from_digits(d: &Vec<u32>) -> (r: Fe)
    requires
        d@.len() <= 8,
        digits_value(d@) < modulus(),
    ensures
        r.val() == digits_value(d@),
        r.wf(),
{
    proof {
        lemma_digits8(d@);
    }
    let lo = pack4(digit_at(d, 0), digit_at(d, 1), digit_at(d, 2), digit_at(d, 3));
    let hi = pack4(digit_at(d, 4), digit_at(d, 5), digit_at(d, 6), digit_at(d, 7));
    Fe { hi, lo }
}

/// Relies on `num_bigint::BigUint::modinv`: the inverse of `x` modulo the
/// modulus (little-endian base-2^32 digits), taken in `[0, modulus)`, or
/// `None` when no inverse exists; and on `BigUint::to_u32_digits`, which
/// gives the digits without trailing zeros.
#[verifier::external_body]
fn biguint_modinv(x: u64, modulus: &Vec<u32>) -> (r: Option<Vec<u32>>)
    requires
        digits_value(modulus@) > 1,
    ensures
        r matches Some(d) ==> {
            &&& 0 <= digits_value(d@) < digits_value(modulus@)
            &&& is_inverse_mod(x as int, digits_value(d@), digits_value(modulus@))
            &&& d@.len() <= modulus@.len()
        },
        r is None ==> forall|y: int|
            0 <= y < digits_value(modulus@) ==> !#[trigger] is_inverse_mod(
                x as int,
                y,
                digits_value(modulus@),
            ),
{
    let m = num_bigint::BigUint::from_slice(modulus.as_slice());
    num_bigint::BigUint::from(x).modinv(&m).map(|v| v.to_u32_digits())
}

} // verus!
