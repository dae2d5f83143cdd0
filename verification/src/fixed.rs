//! Saturating fixed-point scalars.
//!
//! Every physical quantity of the library (metres, metres per second, radians,
//! seconds, ...) is a signed 64-bit integer counting millionths of its unit.
//! Results that leave the 64-bit range stick at the nearest bound, quotients
//! round towards zero, so that rounding never makes a magnitude larger, and a
//! division by zero sticks at the bound on the dividend's side. No operation
//! here can fail.

use vstd::prelude::*;

verus! {

/// A quantity in millionths of its unit.
pub type Fixed = i64;

/// The fixed-point representation of 1.
pub const ONE: i64 = 1_000_000;

/// The nearest 64-bit value to `x`.
pub open spec fn saturate(x: int) -> i64 {
    if x < i64::MIN {
        i64::MIN
    } else if x > i64::MAX {
        i64::MAX
    } else {
        x as i64
    }
}

/// `a / b` rounded towards zero, for any non-zero `b`.
pub open spec fn trunc_div(a: int, b: int) -> int {
    if b > 0 {
        if a >= 0 {
            a / b
        } else {
            -((-a) / b)
        }
    } else {
        if a >= 0 {
            -(a / (-b))
        } else {
            (-a) / (-b)
        }
    }
}

/// The sum of two fixed-point values.
pub open spec fn spec_fx_add(a: i64, b: i64) -> i64 {
    saturate(a + b)
}

/// The difference of two fixed-point values.
pub open spec fn spec_fx_sub(a: i64, b: i64) -> i64 {
    saturate(a - b)
}

/// The opposite of a fixed-point value.
pub open spec fn spec_fx_neg(a: i64) -> i64 {
    saturate(-a)
}

/// The magnitude of a fixed-point value.
pub open spec fn spec_fx_abs(a: i64) -> i64 {
    if a >= 0 {
        a
    } else {
        saturate(-a)
    }
}

/// The product of two fixed-point values: `a * b / ONE`.
pub open spec fn spec_fx_mul(a: i64, b: i64) -> i64 {
    saturate(trunc_div(a * b, ONE as int))
}

/// The quotient of two fixed-point values: `a * ONE / b`.
pub open spec fn spec_fx_div(a: i64, b: i64) -> i64 {
    if b == 0 {
        if a > 0 {
            i64::MAX
        } else if a < 0 {
            i64::MIN
        } else {
            0
        }
    } else {
        saturate(trunc_div(a * ONE, b as int))
    }
}

/// Half of `a`.
pub open spec fn spec_fx_half(a: i64) -> i64 {
    trunc_div(a as int, 2) as i64
}

/// The sum of two products, rounded once: `(a * b + c * d) / ONE`.
pub open spec fn spec_fx_mul_add(a: i64, b: i64, c: i64, d: i64) -> i64 {
    saturate(trunc_div(a * b + c * d, ONE as int))
}

/// The difference of two products, rounded once: `(a * b - c * d) / ONE`.
pub open spec fn spec_fx_mul_sub(a: i64, b: i64, c: i64, d: i64) -> i64 {
    saturate(trunc_div(a * b - c * d, ONE as int))
}

/// `r` is the integer square root of `n`.
pub open spec fn is_int_sqrt(n: int, r: int) -> bool {
    0 <= r && r * r <= n < (r + 1) * (r + 1)
}

/// The integer square root: the largest `r` with `r * r <= n`; 0 below 0.
pub open spec fn int_sqrt(n: int) -> int
    decreases n,
{
    if n <= 0 {
        0
    } else {
        let r = 2 * int_sqrt(n / 4);
        if (r + 1) * (r + 1) <= n {
            r + 1
        } else {
            r
        }
    }
}

/// The smallest `r` at or above 0 with `n <= r * r`.
pub open spec fn ceil_sqrt(n: int) -> int {
    let r = int_sqrt(n);
    if r * r >= n {
        r
    } else {
        r + 1
    }
}

/// The other leg of the right triangle with the given hypotenuse and leg,
/// rounded down; 0 where the leg is longer than the hypotenuse.
pub open spec fn spec_fx_leg(hypotenuse: i64, leg: i64) -> i64 {
    saturate(int_sqrt(hypotenuse * hypotenuse - leg * leg))
}

/// `int_sqrt` is an integer square root.
pub proof fn lemma_int_sqrt(n: int)
    requires
        n >= 0,
    ensures
        is_int_sqrt(n, int_sqrt(n)),
    decreases n,
{
    if n > 0 {
        let m = n / 4;
        lemma_int_sqrt(m);
        let s = int_sqrt(m);
        let r = 2 * s;
        assert(r * r <= n && n < (r + 2) * (r + 2)) by (nonlinear_arith)
            requires
                0 <= s,
                s * s <= m,
                m < (s + 1) * (s + 1),
                4 * m <= n <= 4 * m + 3,
                r == 2 * s,
        ;
        assert((r + 1 + 1) * (r + 1 + 1) == (r + 2) * (r + 2));
    } else {
        assert(0 * 0 == 0 && (0 + 1) * (0 + 1) == 1) by (nonlinear_arith);
    }
}

/// A number has one integer square root.
pub proof fn lemma_int_sqrt_unique(n: int, r1: int, r2: int)
    requires
        is_int_sqrt(n, r1),
        is_int_sqrt(n, r2),
    ensures
        r1 == r2,
{
    assert(r1 == r2) by (nonlinear_arith)
        requires
            0 <= r1,
            0 <= r2,
            r1 * r1 <= n,
            n < (r1 + 1) * (r1 + 1),
            r2 * r2 <= n,
            n < (r2 + 1) * (r2 + 1),
    ;
}

/// The integer square root grows with its argument.
pub proof fn lemma_int_sqrt_monotonic(a: int, b: int)
    requires
        0 <= a <= b,
    ensures
        int_sqrt(a) <= int_sqrt(b),
{
    lemma_int_sqrt(a);
    lemma_int_sqrt(b);
    let ra = int_sqrt(a);
    let rb = int_sqrt(b);
    assert(ra <= rb) by (nonlinear_arith)
        requires
            0 <= ra,
            0 <= rb,
            ra * ra <= a,
            a <= b,
            b < (rb + 1) * (rb + 1),
    ;
}

/// The integer square root of a perfect square.
pub proof fn lemma_int_sqrt_square(r: int)
    requires
        r >= 0,
    ensures
        int_sqrt(r * r) == r,
{
    assert(0 <= r * r && r * r < (r + 1) * (r + 1)) by (nonlinear_arith)
        requires
            r >= 0,
    ;
    lemma_int_sqrt(r * r);
    lemma_int_sqrt_unique(r * r, r, int_sqrt(r * r));
}

/// Rounding towards zero keeps the sign and never makes a magnitude larger.
pub proof fn lemma_trunc_div_shrinks(a: int, b: int)
    requires
        b > 0,
    ensures
        a >= 0 ==> 0 <= trunc_div(a, b) * b <= a,
        a <= 0 ==> a <= trunc_div(a, b) * b <= 0,
{
    if a >= 0 {
        vstd::arithmetic::div_mod::lemma_fundamental_div_mod(a, b);
        vstd::arithmetic::div_mod::lemma_mod_bound(a, b);
        vstd::arithmetic::div_mod::lemma_div_pos_is_pos(a, b);
        assert(0 <= (a / b) * b <= a) by (nonlinear_arith)
            requires
                a == b * (a / b) + a % b,
                0 <= a % b,
                0 <= a / b,
                b > 0,
        ;
    } else {
        vstd::arithmetic::div_mod::lemma_fundamental_div_mod(-a, b);
        vstd::arithmetic::div_mod::lemma_mod_bound(-a, b);
        vstd::arithmetic::div_mod::lemma_div_pos_is_pos(-a, b);
        let q = (-a) / b;
        assert(a <= (-q) * b <= 0) by (nonlinear_arith)
            requires
                -a == b * q + (-a) % b,
                0 <= (-a) % b,
                0 <= q,
                b > 0,
        ;
    }
}

/// What a fixed-point operation hands back after rounding and saturation is,
/// times `ONE`, no larger in magnitude than the exact numerator.
pub proof fn lemma_rounded_shrinks(numerator: int, rounded: i64)
    requires
        rounded == saturate(trunc_div(numerator, ONE as int)),
    ensures
        (rounded * ONE) * (rounded * ONE) <= numerator * numerator,
        numerator >= 0 ==> 0 <= rounded * ONE <= numerator,
        numerator <= 0 ==> numerator <= rounded * ONE <= 0,
{
    lemma_trunc_div_shrinks(numerator, ONE as int);
    let q = trunc_div(numerator, ONE as int);
    let r = rounded as int;
    let m = r * ONE;
    if numerator >= 0 {
        assert(0 <= r <= q);
        assert(0 <= m <= numerator) by (nonlinear_arith)
            requires
                0 <= r <= q,
                q * ONE <= numerator,
                m == r * ONE,
        ;
        assert(m * m <= numerator * numerator) by (nonlinear_arith)
            requires
                0 <= m <= numerator,
        ;
    } else {
        assert(q <= r <= 0);
        assert(numerator <= m <= 0) by (nonlinear_arith)
            requires
                q <= r <= 0,
                numerator <= q * ONE,
                m == r * ONE,
        ;
        assert(m * m <= numerator * numerator) by (nonlinear_arith)
            requires
                numerator <= m <= 0,
        ;
    }
}

/// The square of a product is the product of the squares.
pub proof fn lemma_square_of_product(a: int, b: int)
    ensures
        (a * b) * (a * b) == (a * a) * (b * b),
        (a * a) >= 0,
{
    assert((a * b) * (a * b) == (a * a) * (b * b)) by (nonlinear_arith);
    assert(a * a >= 0) by (nonlinear_arith);
}

/// Two rounded coordinates whose exact numerators lie within a circle lie
/// within the circle `ONE` times smaller.
pub proof fn lemma_rounded_pair_within(
    exact_x: int,
    exact_y: int,
    x: i64,
    y: i64,
    bound_squared: int,
)
    requires
        x == saturate(trunc_div(exact_x, ONE as int)),
        y == saturate(trunc_div(exact_y, ONE as int)),
        exact_x * exact_x + exact_y * exact_y <= bound_squared * (ONE * ONE),
    ensures
        x * x + y * y <= bound_squared,
{
    lemma_rounded_shrinks(exact_x, x);
    lemma_rounded_shrinks(exact_y, y);
    lemma_square_of_product(x as int, ONE as int);
    lemma_square_of_product(y as int, ONE as int);
    let k = ONE * ONE;
    let xx = x * x;
    let yy = y * y;
    assert(xx * k + yy * k == (xx + yy) * k) by (nonlinear_arith);
    vstd::arithmetic::mul::lemma_mul_inequality_converse(xx + yy, bound_squared, k);
}

/// Two quotients by the same divisor differ by no more than the quotient of
/// the difference, plus 1.
pub proof fn lemma_quotients_are_close(x: int, y: int, k: int, m: int)
    requires
        0 <= x,
        0 <= y,
        m > 0,
        x - y <= k,
        y - x <= k,
    ensures
        x / m - y / m <= k / m + 1,
        y / m - x / m <= k / m + 1,
{
    vstd::arithmetic::div_mod::lemma_fundamental_div_mod(x, m);
    vstd::arithmetic::div_mod::lemma_fundamental_div_mod(y, m);
    vstd::arithmetic::div_mod::lemma_fundamental_div_mod(k, m);
    vstd::arithmetic::div_mod::lemma_mod_bound(x, m);
    vstd::arithmetic::div_mod::lemma_mod_bound(y, m);
    vstd::arithmetic::div_mod::lemma_mod_bound(k, m);
    let qx = x / m;
    let qy = y / m;
    let qk = k / m;
    assert(qx - qy <= qk + 1) by (nonlinear_arith)
        requires
            x == m * qx + x % m,
            y == m * qy + y % m,
            k == m * qk + k % m,
            0 <= x % m < m,
            0 <= y % m < m,
            0 <= k % m < m,
            x - y <= k,
            m > 0,
    ;
    assert(qy - qx <= qk + 1) by (nonlinear_arith)
        requires
            x == m * qx + x % m,
            y == m * qy + y % m,
            k == m * qk + k % m,
            0 <= x % m < m,
            0 <= y % m < m,
            0 <= k % m < m,
            y - x <= k,
            m > 0,
    ;
}

/// The products of a factor with two values at or above 0, rounded, differ
/// by no more than the factor's magnitude times the difference of the
/// values, rounded, plus 1.
pub proof fn lemma_products_are_close(a: int, b: int, c: int, k: int)
    requires
        0 <= b,
        0 <= c,
        b - c <= k,
        c - b <= k,
    ensures
        trunc_div(a * b, ONE as int) - trunc_div(a * c, ONE as int) <= (if a >= 0 {
            a
        } else {
            -a
        }) * k / (ONE as int) + 1,
        trunc_div(a * c, ONE as int) - trunc_div(a * b, ONE as int) <= (if a >= 0 {
            a
        } else {
            -a
        }) * k / (ONE as int) + 1,
{
    let m = if a >= 0 {
        a
    } else {
        -a
    };
    assert(m * b >= 0 && m * c >= 0 && m * b - m * c <= m * k && m * c - m * b <= m * k)
        by (nonlinear_arith)
        requires
            m >= 0,
            0 <= b,
            0 <= c,
            b - c <= k,
            c - b <= k,
    ;
    lemma_quotients_are_close(m * b, m * c, m * k, ONE as int);
    if a >= 0 {
    } else {
        assert(-(a * b) == m * b && -(a * c) == m * c) by (nonlinear_arith)
            requires
                m == -a,
        ;
        assert(a * b <= 0 && a * c <= 0);
        if a * b == 0 {
            assert(trunc_div(a * b, ONE as int) == 0 && (m * b) / (ONE as int) == 0);
        }
        if a * c == 0 {
            assert(trunc_div(a * c, ONE as int) == 0 && (m * c) / (ONE as int) == 0);
        }
    }
}

/// Brings a wide intermediate result back into 64 bits.
pub fn saturate_i128(x: i128) -> (r: i64)
    ensures
        r == saturate(x as int),
{
    if x < i64::MIN as i128 {
        i64::MIN
    } else if x > i64::MAX as i128 {
        i64::MAX
    } else {
        x as i64
    }
}

/// `a + b`, sticking at the bounds.
#[verifier::when_used_as_spec(spec_fx_add)]
pub fn fx_add(a: i64, b: i64) -> (r: i64)
    ensures
        r == spec_fx_add(a, b),
{
    saturate_i128(a as i128 + b as i128)
}

/// `a - b`, sticking at the bounds.
#[verifier::when_used_as_spec(spec_fx_sub)]
pub fn fx_sub(a: i64, b: i64) -> (r: i64)
    ensures
        r == spec_fx_sub(a, b),
{
    saturate_i128(a as i128 - b as i128)
}

/// `-a`, sticking at the upper bound.
#[verifier::when_used_as_spec(spec_fx_neg)]
pub fn fx_neg(a: i64) -> (r: i64)
    ensures
        r == spec_fx_neg(a),
{
    saturate_i128(-(a as i128))
}

/// The magnitude of `a`, sticking at the upper bound.
#[verifier::when_used_as_spec(spec_fx_abs)]
pub fn fx_abs(a: i64) -> (r: i64)
    ensures
        r == spec_fx_abs(a),
        r >= 0,
{
    if a >= 0 {
        a
    } else {
        saturate_i128(-(a as i128))
    }
}

/// The exact product of two 64-bit values.
pub fn wide_mul(a: i64, b: i64) -> (p: i128)
    ensures
        p == a * b,
        -0x4000_0000_0000_0000_0000_0000_0000_0000 <= p <= 0x4000_0000_0000_0000_0000_0000_0000_0000,
{
    proof {
        lemma_product_bound(a as int, b as int, 0x8000_0000_0000_0000);
    }
    (a as i128) * (b as i128)
}

/// A product is as bounded as its factors.
pub proof fn lemma_product_bound(a: int, b: int, m: int)
    requires
        -m <= a <= m,
        -m <= b <= m,
    ensures
        -(m * m) <= a * b <= m * m,
{
    assert(-(m * m) <= a * b <= m * m) by (nonlinear_arith)
        requires
            -m <= a <= m,
            -m <= b <= m,
    ;
}

/// `a / b` rounded towards zero, for a divisor above 0.
pub fn wide_trunc_div(a: i128, b: i128) -> (q: i128)
    requires
        b > 0,
    ensures
        q == trunc_div(a as int, b as int),
{
    a / b
}

/// The product of two fixed-point values, rounded towards zero and sticking
/// at the bounds.
#[verifier::when_used_as_spec(spec_fx_mul)]
pub fn fx_mul(a: i64, b: i64) -> (r: i64)
    ensures
        r == spec_fx_mul(a, b),
{
    saturate_i128(wide_trunc_div(wide_mul(a, b), ONE as i128))
}

/// The quotient of two fixed-point values, rounded towards zero and sticking
/// at the bounds; a division by 0 sticks at the bound on the side of `a`, and
/// 0 by 0 is 0.
#[verifier::when_used_as_spec(spec_fx_div)]
pub fn fx_div(a: i64, b: i64) -> (r: i64)
    ensures
        r == spec_fx_div(a, b),
{
    if b == 0 {
        if a > 0 {
            i64::MAX
        } else if a < 0 {
            i64::MIN
        } else {
            0
        }
    } else {
        let n: i128 = wide_mul(a, ONE);
        if b > 0 {
            saturate_i128(wide_trunc_div(n, b as i128))
        } else {
            saturate_i128(wide_trunc_div(-n, -(b as i128)))
        }
    }
}

/// Half of `a`, rounded towards zero.
#[verifier::when_used_as_spec(spec_fx_half)]
pub fn fx_half(a: i64) -> (r: i64)
    ensures
        r == spec_fx_half(a),
{
    wide_trunc_div(a as i128, 2) as i64
}

/// `a * b + c * d` as fixed-point values, rounded once.
#[verifier::when_used_as_spec(spec_fx_mul_add)]
pub fn fx_mul_add(a: i64, b: i64, c: i64, d: i64) -> (r: i64)
    ensures
        r == spec_fx_mul_add(a, b, c, d),
{
    match wide_mul(a, b).checked_add(wide_mul(c, d)) {
        Some(sum) => saturate_i128(wide_trunc_div(sum, ONE as i128)),
        None => i64::MAX,
    }
}

/// `a * b - c * d` as fixed-point values, rounded once.
#[verifier::when_used_as_spec(spec_fx_mul_sub)]
pub fn fx_mul_sub(a: i64, b: i64, c: i64, d: i64) -> (r: i64)
    ensures
        r == spec_fx_mul_sub(a, b, c, d),
{
    match wide_mul(a, b).checked_sub(wide_mul(c, d)) {
        Some(difference) => saturate_i128(wide_trunc_div(difference, ONE as i128)),
        None => i64::MAX,
    }
}

/// The integer square root of a 128-bit number.
pub fn isqrt(n: u128) -> (r: u64)
    ensures
        r == int_sqrt(n as int),
        is_int_sqrt(n as int, r as int),
{
    let mut lo: u128 = 0;
    let mut hi: u128 = 0x1_0000_0000_0000_0000;
    assert(0x1_0000_0000_0000_0000int * 0x1_0000_0000_0000_0000int > u128::MAX) by (nonlinear_arith);
    assert(0int * 0int == 0);
    while hi - lo > 1
        invariant
            lo < hi <= 0x1_0000_0000_0000_0000,
            lo * lo <= n < hi * hi,
        decreases hi - lo,
    {
        let mid: u128 = lo + (hi - lo) / 2;
        assert(mid * mid <= u128::MAX) by (nonlinear_arith)
            requires
                0 <= mid <= 0xffff_ffff_ffff_ffff,
        ;
        if mid * mid <= n {
            lo = mid;
        } else {
            hi = mid;
        }
    }
    proof {
        assert(hi == lo + 1);
        lemma_int_sqrt(n as int);
        lemma_int_sqrt_unique(n as int, lo as int, int_sqrt(n as int));
    }
    lo as u64
}

/// The integer square root of a 128-bit number, rounded up.
pub fn isqrt_ceil(n: u128) -> (r: u128)
    requires
        n <= 0x8000_0000_0000_0000_0000_0000_0000_0000,
    ensures
        r == ceil_sqrt(n as int),
        n <= r * r,
        r <= 0xffff_ffff_ffff_ffff,
{
    let root: u64 = isqrt(n);
    assert(root * root <= u128::MAX) by (nonlinear_arith)
        requires
            0 <= root <= 0xffff_ffff_ffff_ffff,
    ;
    if (root as u128) * (root as u128) >= n {
        root as u128
    } else {
        assert(root < 0xffff_ffff_ffff_ffff) by (nonlinear_arith)
            requires
                root * root <= n,
                n <= 0x8000_0000_0000_0000_0000_0000_0000_0000,
                0 <= root <= 0xffff_ffff_ffff_ffff,
        ;
        root as u128 + 1
    }
}

/// The other leg of the right triangle with the given hypotenuse and leg:
/// the square root of the difference of their squares, rounded down, and 0
/// where the leg is longer than the hypotenuse.
#[verifier::when_used_as_spec(spec_fx_leg)]
pub fn fx_leg(hypotenuse: i64, leg: i64) -> (r: i64)
    ensures
        r == spec_fx_leg(hypotenuse, leg),
        r >= 0,
        r * r + leg * leg <= hypotenuse * hypotenuse || r == 0,
{
    let hh: i128 = wide_mul(hypotenuse, hypotenuse);
    let ll: i128 = wide_mul(leg, leg);
    proof {
        assert(leg * leg >= 0) by (nonlinear_arith);
    }
    if hh < ll {
        0
    } else {
        let root: u64 = isqrt((hh - ll) as u128);
        proof {
            let r = root as int;
            assert(r <= 0x8000_0000_0000_0000) by (nonlinear_arith)
                requires
                    0 <= r,
                    r * r <= hh - ll,
                    hh - ll <= 0x4000_0000_0000_0000_0000_0000_0000_0000,
            ;
        }
        if root > i64::MAX as u64 {
            proof {
                let r = root as int;
                assert(0x7fff_ffff_ffff_ffffint * 0x7fff_ffff_ffff_ffffint <= r * r)
                    by (nonlinear_arith)
                    requires
                        r > 0x7fff_ffff_ffff_ffff,
                ;
            }
            i64::MAX
        } else {
            root as i64
        }
    }
}

} // verus!
