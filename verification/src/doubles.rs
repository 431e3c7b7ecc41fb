//! Whole numbers as double-precision arithmetic handles them: only so many
//! digits are kept, and what does not fit is rounded to the nearest number that
//! does, to the even one of two that are as near.
use vstd::arithmetic::div_mod::{lemma_fundamental_div_mod, lemma_fundamental_div_mod_converse};
use vstd::arithmetic::power2::{
    lemma2_to64, lemma2_to64_rest, lemma_pow2_adds, lemma_pow2_pos, lemma_pow2_strictly_increases,
    lemma_pow2_unfold, pow2,
};
use vstd::prelude::*;

verus! {

/// Two to the power of the number of binary digits that a double keeps.
pub const DIGITS: u64 = 0x20_0000_0000_0000;

/// The double that is written 0.6, as a multiple of one over `DIGITS`.
pub const THREE_FIFTHS: u64 = 5_404_319_552_844_595;

/// The double that is written 0.8, as a multiple of one over `DIGITS`.
pub const FOUR_FIFTHS: u64 = 7_205_759_403_792_794;

/// How far the doubles about `n` lie apart: one as long as all digits are kept.
pub open spec fn spacing(n: nat) -> nat
    decreases n,
{
    if n < DIGITS {
        1
    } else {
        2 * spacing(n / 2)
    }
}

/// The double that is nearest to `n`.
pub open spec fn nearest_double(n: nat) -> nat {
    let u = spacing(n);
    let q = n / u;
    let r = n % u;
    if 2 * r > u || (2 * r == u && q % 2 == 1) {
        (q + 1) * u
    } else {
        q * u
    }
}

/// The whole part of the product of two doubles: `n`, and `part` over `DIGITS`.
pub open spec fn double_part(n: nat, part: nat) -> nat {
    nearest_double(nearest_double(n) * part) / (DIGITS as nat)
}

proof fn lemma_spacing(n: nat) -> (j: nat)
    ensures
        spacing(n) == pow2(j),
        n < DIGITS * spacing(n),
        j > 0 ==> n >= (DIGITS / 2) * spacing(n),
    decreases n,
{
    lemma2_to64();
    if n < DIGITS {
        0
    } else {
        let k = lemma_spacing(n / 2);
        lemma_pow2_unfold(k + 1);
        let v = spacing(n / 2);
        assert(n < DIGITS * (2 * v)) by (nonlinear_arith)
            requires
                n / 2 < DIGITS * v,
                n >= 0,
                DIGITS == 0x20_0000_0000_0000u64,
        ;
        if k > 0 {
            assert(n >= (DIGITS / 2) * (2 * v)) by (nonlinear_arith)
                requires
                    n / 2 >= (DIGITS / 2) * v,
                    n >= 0,
                    DIGITS == 0x20_0000_0000_0000u64,
            ;
        }
        k + 1
    }
}

/// The nearest double is a multiple of the spacing, next to the number or the
/// number itself.
proof fn lemma_nearest(n: nat)
    ensures
        spacing(n) >= 1,
        n < DIGITS * spacing(n),
        spacing(n) == 1 || n >= (DIGITS / 2) * spacing(n),
        n == (n / spacing(n)) * spacing(n) + n % spacing(n),
        n % spacing(n) < spacing(n),
        nearest_double(n) == (n / spacing(n)) * spacing(n) || nearest_double(n) == (n / spacing(n)
            + 1) * spacing(n),
        spacing(n) == 1 ==> nearest_double(n) == n,
{
    lemma2_to64();
    let j = lemma_spacing(n);
    let u = spacing(n);
    lemma_pow2_pos(j);
    lemma_fundamental_div_mod(n as int, u as int);
    assert((n / u) * u == u * (n / u)) by (nonlinear_arith);
}

fn spacing_of(n: u128) -> (r: u128)
    ensures
        r == spacing(n as nat),
        1 <= r,
        r == 1 || r <= n,
    decreases n,
{
    if n < DIGITS as u128 {
        1
    } else {
        2 * spacing_of(n / 2)
    }
}

fn round_to_double(n: u128) -> (r: u128)
    requires
        n <= u128::MAX / 4,
    ensures
        r == nearest_double(n as nat),
{
    let u = spacing_of(n);
    let q: u128 = n / u;
    let r: u128 = n % u;
    proof {
        lemma_nearest(n as nat);
        assert((q + 1) * u == q * u + u) by (nonlinear_arith);
    }
    if 2 * r > u || (2 * r == u && q % 2 == 1) {
        (q + 1) * u
    } else {
        q * u
    }
}

/// The whole part of the product of two doubles: `n`, and `part` over `DIGITS`.
pub fn part_of(n: u64, part: u64) -> (r: u128)
    requires
        part <= DIGITS,
    ensures
        r == double_part(n as nat, part as nat),
{
    let a = round_to_double(n as u128);
    proof {
        lemma_nearest(n as nat);
        let u = spacing(n as nat);
        assert((n as nat / u + 1) * u == (n as nat / u) * u + u) by (nonlinear_arith);
        assert(a <= 0x2_0000_0000_0000_0000u128) by {
            assert(u <= n || u == 1);
        }
        assert(a * part <= 0x2_0000_0000_0000_0000u128 * 0x20_0000_0000_0000u64)
            by (nonlinear_arith)
            requires
                0 <= a <= 0x2_0000_0000_0000_0000u128,
                0 <= part <= 0x20_0000_0000_0000u64,
        ;
    }
    round_to_double(a * part as u128) / DIGITS as u128
}

/// The spacing of doubles that are no greater than those in use here divides
/// the range of the digits.
proof fn lemma_spacing_divides(n: nat)
    requires
        n < DIGITS * 0x1_0000_0000,
    ensures
        spacing(n) >= 1,
        DIGITS == spacing(n) * (DIGITS as nat / spacing(n)),
{
    lemma2_to64();
    lemma2_to64_rest();
    let j = lemma_spacing(n);
    let u = spacing(n);
    lemma_pow2_pos(j);
    if j >= 53 {
        if j > 53 {
            lemma_pow2_strictly_increases(53, j);
        }
        assert((DIGITS / 2) * u >= (DIGITS / 2) * DIGITS) by (nonlinear_arith)
            requires
                u >= DIGITS,
        ;
    }
    lemma_pow2_adds(j, (53 - j) as nat);
    let v = pow2((53 - j) as nat);
    assert(DIGITS == u * v);
    lemma_fundamental_div_mod_converse(DIGITS as int, u as int, v as int, 0);
}

/// The product of a number of 32 bits with a double below one, and how far its
/// rounding can be off.
proof fn lemma_small_product(n: u32, part: nat)
    requires
        part < DIGITS,
    ensures
        nearest_double(n as nat) == n,
        n * part < DIGITS * 0x1_0000_0000,
        spacing((n * part) as nat) <= 2 * n + 1,
        nearest_double((n * part) as nat) <= n * part + 2 * n + 1,
        nearest_double((n * part) as nat) + 2 * n + 1 >= n * part,
{
    let p = (n * part) as nat;
    let u = spacing(p);
    lemma_nearest(n as nat);
    lemma_nearest(p);
    assert(n * part <= n * DIGITS) by (nonlinear_arith)
        requires
            0 <= part < DIGITS,
            n >= 0,
    ;
    assert((p / u + 1) * u == (p / u) * u + u) by (nonlinear_arith);
}

/// Six tenths of a number of 32 bits, whole part only, are three fifths of it.
pub proof fn three_fifths_are_exact(n: u32)
    ensures
        double_part(n as nat, THREE_FIFTHS as nat) == n * 3 / 5,
{
    let p = (n * THREE_FIFTHS) as nat;
    lemma_small_product(n, THREE_FIFTHS as nat);
    let a = n * 3 / 5;
    let b = n * 3 % 5;
    if b == 0 {
        let k = n / 5;
        assert(n == 5 * k && a == 3 * k);
        assert(p + k == a * DIGITS);
        if k > 0 {
            let u = spacing(p);
            lemma_nearest(p);
            lemma_spacing_divides(p);
            let m = a * (DIGITS as nat / u);
            assert(u >= a) by (nonlinear_arith)
                requires
                    p < DIGITS * u,
                    p + k == a * DIGITS,
                    0 < k < DIGITS,
            ;
            assert(m * u == a * DIGITS) by (nonlinear_arith)
                requires
                    m == a * (DIGITS as nat / u),
                    DIGITS == u * (DIGITS as nat / u),
            ;
            assert((m - 1) * u == m * u - u) by (nonlinear_arith);
            lemma_fundamental_div_mod_converse(p as int, u as int, m - 1, u - k);
            assert(nearest_double(p) == a * DIGITS);
        }
    }
}

/// Eight tenths of a number of 32 bits, whole part only, are four fifths of it.
pub proof fn four_fifths_are_exact(n: u32)
    ensures
        double_part(n as nat, FOUR_FIFTHS as nat) == n * 4 / 5,
{
    let p = (n * FOUR_FIFTHS) as nat;
    lemma_small_product(n, FOUR_FIFTHS as nat);
    let a = n * 4 / 5;
    let b = n * 4 % 5;
    if b == 0 {
        let k = n / 5;
        assert(n == 5 * k && a == 4 * k);
        assert(p == a * DIGITS + 2 * k);
        let u = spacing(p);
        lemma_nearest(p);
        lemma_spacing_divides(p);
        let m = a * (DIGITS as nat / u);
        assert(m * u == a * DIGITS) by (nonlinear_arith)
            requires
                m == a * (DIGITS as nat / u),
                DIGITS == u * (DIGITS as nat / u),
        ;
        assert((p / u) * u >= m * u) by (nonlinear_arith)
            requires
                p == (p / u) * u + p % u,
                p % u < u,
                p >= m * u,
        ;
        assert((p / u + 1) * u == (p / u) * u + u) by (nonlinear_arith);
        assert(nearest_double(p) >= a * DIGITS);
    }
}

} // verus!
