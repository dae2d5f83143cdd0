//! Two-dimensional vectors with fixed-point coordinates.

use vstd::prelude::*;
use crate::fixed::{
    ceil_sqrt, fx_add, fx_mul, fx_mul_add, fx_mul_sub, fx_neg, fx_sub, int_sqrt, isqrt,
    isqrt_ceil, lemma_int_sqrt, lemma_int_sqrt_monotonic, lemma_int_sqrt_square,
    lemma_rounded_pair_within, lemma_square_of_product, lemma_trunc_div_shrinks, saturate, spec_fx_add, spec_fx_mul,
    spec_fx_mul_add, spec_fx_mul_sub, spec_fx_neg, spec_fx_sub, trunc_div, wide_mul,
    wide_trunc_div, Fixed, ONE,
};

verus! {

/// A point, a velocity, an acceleration or a direction in the plane.
#[derive(Clone, Copy, Debug, PartialEq, Eq, Structural)]
pub struct Vector2 {
    pub x: Fixed,
    pub y: Fixed,
}

impl Vector2 {
    /// The vector with the given coordinates.
    pub open spec fn spec_new(x: Fixed, y: Fixed) -> Vector2 {
        Vector2 { x, y }
    }

    /// The vector with the given coordinates.
    #[verifier::when_used_as_spec(spec_new)]
    pub fn new(x: Fixed, y: Fixed) -> (v: Vector2)
        ensures
            v == Vector2::spec_new(x, y),
    {
        Vector2 { x, y }
    }

    /// The zero vector.
    pub open spec fn spec_zero() -> Vector2 {
        Vector2 { x: 0, y: 0 }
    }

    /// The zero vector.
    #[verifier::when_used_as_spec(spec_zero)]
    pub fn zero() -> (v: Vector2)
        ensures
            v == Vector2::spec_zero(),
    {
        Vector2 { x: 0, y: 0 }
    }

    /// Both coordinates are 0.
    pub open spec fn spec_is_zero(self) -> bool {
        self.x == 0 && self.y == 0
    }

    /// Whether this is the zero vector.
    #[verifier::when_used_as_spec(spec_is_zero)]
    pub fn is_zero(self) -> (b: bool)
        ensures
            b == self.spec_is_zero(),
    {
        self.x == 0 && self.y == 0
    }

    /// The sum, coordinate by coordinate.
    pub open spec fn spec_plus(self, other: Vector2) -> Vector2 {
        Vector2 { x: fx_add(self.x, other.x), y: fx_add(self.y, other.y) }
    }

    /// The sum of two vectors.
    #[verifier::when_used_as_spec(spec_plus)]
    pub fn plus(self, other: Vector2) -> (v: Vector2)
        ensures
            v == self.spec_plus(other),
    {
        Vector2 { x: fx_add(self.x, other.x), y: fx_add(self.y, other.y) }
    }

    /// The difference, coordinate by coordinate.
    pub open spec fn spec_minus(self, other: Vector2) -> Vector2 {
        Vector2 { x: fx_sub(self.x, other.x), y: fx_sub(self.y, other.y) }
    }

    /// The difference of two vectors.
    #[verifier::when_used_as_spec(spec_minus)]
    pub fn minus(self, other: Vector2) -> (v: Vector2)
        ensures
            v == self.spec_minus(other),
    {
        Vector2 { x: fx_sub(self.x, other.x), y: fx_sub(self.y, other.y) }
    }

    /// The opposite vector.
    pub open spec fn spec_negated(self) -> Vector2 {
        Vector2 { x: fx_neg(self.x), y: fx_neg(self.y) }
    }

    /// The opposite vector.
    #[verifier::when_used_as_spec(spec_negated)]
    pub fn negated(self) -> (v: Vector2)
        ensures
            v == self.spec_negated(),
    {
        Vector2 { x: fx_neg(self.x), y: fx_neg(self.y) }
    }

    /// Each coordinate times the factor.
    pub open spec fn spec_scaled(self, factor: Fixed) -> Vector2 {
        Vector2 { x: fx_mul(self.x, factor), y: fx_mul(self.y, factor) }
    }

    /// The vector times a fixed-point factor.
    #[verifier::when_used_as_spec(spec_scaled)]
    pub fn scaled(self, factor: Fixed) -> (v: Vector2)
        ensures
            v == self.spec_scaled(factor),
    {
        Vector2 { x: fx_mul(self.x, factor), y: fx_mul(self.y, factor) }
    }

    /// The dot product, rounded once.
    pub open spec fn spec_dot(self, other: Vector2) -> Fixed {
        fx_mul_add(self.x, other.x, self.y, other.y)
    }

    /// The dot product.
    #[verifier::when_used_as_spec(spec_dot)]
    pub fn dot(self, other: Vector2) -> (d: Fixed)
        ensures
            d == self.spec_dot(other),
    {
        fx_mul_add(self.x, other.x, self.y, other.y)
    }

    /// The square root of the squared length, rounded down.
    pub open spec fn spec_length(self) -> Fixed {
        saturate(int_sqrt(self.x * self.x + self.y * self.y))
    }

    /// The Euclidean length, rounded down.
    #[verifier::when_used_as_spec(spec_length)]
    pub fn length(self) -> (l: Fixed)
        ensures
            l == self.spec_length(),
            l >= 0,
    {
        let xx: u128 = wide_mul(self.x, self.x) as u128;
        let yy: u128 = wide_mul(self.y, self.y) as u128;
        proof {
            assert(self.x * self.x >= 0) by (nonlinear_arith);
            assert(self.y * self.y >= 0) by (nonlinear_arith);
        }
        let root: u64 = isqrt(xx + yy);
        if root > i64::MAX as u64 {
            i64::MAX
        } else {
            root as i64
        }
    }

    /// The length of the difference.
    pub open spec fn spec_distance(self, other: Vector2) -> Fixed {
        self.minus(other).length()
    }

    /// The distance between two points.
    #[verifier::when_used_as_spec(spec_distance)]
    pub fn distance(self, other: Vector2) -> (l: Fixed)
        ensures
            l == self.spec_distance(other),
            l >= 0,
    {
        self.minus(other).length()
    }

    /// The square of the Euclidean length, exactly.
    pub open spec fn norm_squared(self) -> int {
        self.x * self.x + self.y * self.y
    }

    /// Each coordinate over the length rounded up; the zero vector for the
    /// zero vector.
    pub open spec fn spec_over_length(self) -> Vector2 {
        let l = ceil_sqrt(self.norm_squared());
        if l == 0 {
            Vector2::zero()
        } else {
            Vector2 {
                x: trunc_div(self.x * ONE, l) as i64,
                y: trunc_div(self.y * ONE, l) as i64,
            }
        }
    }

    /// The vector over its length. The coordinates are divided by the length
    /// rounded up to a whole millionth, so that the result is never longer
    /// than 1. The shorter the vector, the more that rounding shortens the
    /// result; from length 1 on it is three millionths at most.
    #[verifier::when_used_as_spec(spec_over_length)]
    pub fn over_length(self) -> (v: Vector2)
        ensures
            v == self.spec_over_length(),
            v.norm_squared() <= ONE * ONE,
    {
        let xx: u128 = wide_mul(self.x, self.x) as u128;
        let yy: u128 = wide_mul(self.y, self.y) as u128;
        proof {
            assert(self.x * self.x >= 0) by (nonlinear_arith);
            assert(self.y * self.y >= 0) by (nonlinear_arith);
        }
        let l: u128 = isqrt_ceil(xx + yy);
        if l == 0 {
            Vector2::zero()
        } else {
            proof {
                lemma_over_length_is_short(self);
                lemma_component_below_length(self.x as int, self.y as int, l as int);
                lemma_component_below_length(self.y as int, self.x as int, l as int);
                lemma_unit_share(self.x as int, l as int);
                lemma_unit_share(self.y as int, l as int);
            }
            let x: i128 = wide_trunc_div(wide_mul(self.x, ONE), l as i128);
            let y: i128 = wide_trunc_div(wide_mul(self.y, ONE), l as i128);
            Vector2 { x: x as i64, y: y as i64 }
        }
    }

    /// The vector itself where it is at least 1 long, and a million times
    /// the vector where it is shorter.
    pub open spec fn spec_magnified(self) -> Vector2 {
        if self.norm_squared() < ONE * ONE {
            Vector2 { x: (self.x * ONE) as i64, y: (self.y * ONE) as i64 }
        } else {
            self
        }
    }

    /// A vector in the same direction that is at least 1 long, unless it is
    /// the zero vector: the vector itself where it is at least 1 long, and a
    /// million times the vector where it is shorter.
    #[verifier::when_used_as_spec(spec_magnified)]
    pub fn magnified(self) -> (v: Vector2)
        ensures
            v == self.spec_magnified(),
            self.norm_squared() < ONE * ONE ==> v.x == self.x * ONE && v.y == self.y * ONE,
            !self.is_zero() ==> v.norm_squared() >= ONE * ONE,
            self.is_zero() ==> v.is_zero(),
    {
        proof {
            lemma_magnified(self);
        }
        let xx: u128 = wide_mul(self.x, self.x) as u128;
        let yy: u128 = wide_mul(self.y, self.y) as u128;
        proof {
            assert(self.x * self.x >= 0) by (nonlinear_arith);
            assert(self.y * self.y >= 0) by (nonlinear_arith);
        }
        if xx + yy < 1_000_000_000_000 {
            Vector2 { x: self.x * ONE, y: self.y * ONE }
        } else {
            self
        }
    }

    /// The magnified vector over its length.
    pub open spec fn spec_normalized(self) -> Vector2 {
        self.magnified().over_length()
    }

    /// The vector of length 1 in the same direction; the zero vector for the
    /// zero vector. A vector shorter than 1 is magnified first, so that the
    /// rounding of its length does not show; then the coordinates are divided
    /// by the length rounded up. The result is never longer than 1, and
    /// shorter by three millionths at most.
    #[verifier::when_used_as_spec(spec_normalized)]
    pub fn normalized(self) -> (v: Vector2)
        ensures
            v == self.spec_normalized(),
            v.norm_squared() <= ONE * ONE,
            !self.is_zero() ==> (ONE - 3) * (ONE - 3) <= v.norm_squared(),
            !self.is_zero() ==> ONE - 3 <= v.length() <= ONE,
            self.is_zero() ==> v.is_zero(),
    {
        proof {
            lemma_normalized_is_short(self);
            if !self.is_zero() {
                lemma_normalized_is_unit(self);
            }
        }
        self.magnified().over_length()
    }

    /// The product of the two vectors taken as complex numbers.
    pub open spec fn spec_rotated(self, direction: Vector2) -> Vector2 {
        Vector2 {
            x: fx_mul_sub(self.x, direction.x, self.y, direction.y),
            y: fx_mul_add(self.x, direction.y, self.y, direction.x),
        }
    }

    /// The vector turned by the angle of `direction`, a vector of length 1
    /// that holds the cosine and the sine of that angle.
    #[verifier::when_used_as_spec(spec_rotated)]
    pub fn rotated(self, direction: Vector2) -> (v: Vector2)
        ensures
            v == self.spec_rotated(direction),
    {
        Vector2 {
            x: fx_mul_sub(self.x, direction.x, self.y, direction.y),
            y: fx_mul_add(self.x, direction.y, self.y, direction.x),
        }
    }

    /// The product with the conjugate of `direction`, the two vectors taken
    /// as complex numbers.
    pub open spec fn spec_unrotated(self, direction: Vector2) -> Vector2 {
        Vector2 {
            x: fx_mul_add(self.x, direction.x, self.y, direction.y),
            y: fx_mul_sub(self.y, direction.x, self.x, direction.y),
        }
    }

    /// The vector turned back by the angle of `direction`: its coordinates in
    /// the frame whose first axis is `direction`.
    #[verifier::when_used_as_spec(spec_unrotated)]
    pub fn unrotated(self, direction: Vector2) -> (v: Vector2)
        ensures
            v == self.spec_unrotated(direction),
    {
        Vector2 {
            x: fx_mul_add(self.x, direction.x, self.y, direction.y),
            y: fx_mul_sub(self.y, direction.x, self.x, direction.y),
        }
    }
}

/// A coordinate is no longer than the vector.
pub proof fn lemma_component_below_length(x: int, y: int, l: int)
    requires
        0 <= l,
        x * x + y * y <= l * l,
    ensures
        -l <= x <= l,
{
    assert(-l <= x <= l) by (nonlinear_arith)
        requires
            0 <= l,
            x * x + y * y <= l * l,
    ;
}

/// A coordinate's share of the length is between -1 and 1.
pub proof fn lemma_unit_share(x: int, l: int)
    requires
        0 < l,
        -l <= x <= l,
    ensures
        -ONE <= trunc_div(x * ONE, l) <= ONE,
        x >= 0 ==> 0 <= trunc_div(x * ONE, l) * l <= x * ONE,
        x <= 0 ==> x * ONE <= trunc_div(x * ONE, l) * l <= 0,
{
    lemma_trunc_div_shrinks(x * ONE, l);
    let q = trunc_div(x * ONE, l);
    if x >= 0 {
        assert(q <= ONE) by (nonlinear_arith)
            requires
                0 <= q * l <= x * ONE,
                x <= l,
                0 < l,
        ;
        assert(q >= 0) by (nonlinear_arith)
            requires
                0 <= q * l,
                0 < l,
        ;
    } else {
        assert(q >= -ONE) by (nonlinear_arith)
            requires
                x * ONE <= q * l <= 0,
                -l <= x,
                0 < l,
        ;
        assert(q <= 0) by (nonlinear_arith)
            requires
                q * l <= 0,
                0 < l,
        ;
    }
}

/// A vector over its length rounded up is never longer than 1.
pub proof fn lemma_over_length_is_short(v: Vector2)
    ensures
        v.over_length().norm_squared() <= ONE * ONE,
{
    let n = v.norm_squared();
    lemma_square_of_product(v.x as int, 1);
    lemma_square_of_product(v.y as int, 1);
    lemma_int_sqrt(n);
    let l = ceil_sqrt(n);
    let root = int_sqrt(n);
    assert(n <= l * l && 0 <= l) by {
        if root * root < n {
            assert((root + 1) * (root + 1) > n);
        }
    }
    assert(ONE * ONE == 1_000_000_000_000);
    if l > 0 {
        lemma_component_below_length(v.x as int, v.y as int, l);
        lemma_component_below_length(v.y as int, v.x as int, l);
        lemma_unit_share(v.x as int, l);
        lemma_unit_share(v.y as int, l);
        let p = trunc_div(v.x * ONE, l);
        let q = trunc_div(v.y * ONE, l);
        let x = v.x as int;
        let y = v.y as int;
        assert((p * l) * (p * l) <= (x * ONE) * (x * ONE)) by (nonlinear_arith)
            requires
                x >= 0 ==> 0 <= p * l <= x * ONE,
                x <= 0 ==> x * ONE <= p * l <= 0,
        ;
        assert((q * l) * (q * l) <= (y * ONE) * (y * ONE)) by (nonlinear_arith)
            requires
                y >= 0 ==> 0 <= q * l <= y * ONE,
                y <= 0 ==> y * ONE <= q * l <= 0,
        ;
        lemma_square_of_product(p, l);
        lemma_square_of_product(q, l);
        lemma_square_of_product(x, ONE as int);
        lemma_square_of_product(y, ONE as int);
        let ll = l * l;
        let pp = p * p;
        let qq = q * q;
        assert((pp + qq) * ll == pp * ll + qq * ll) by (nonlinear_arith);
        assert((pp + qq) * ll <= 1_000_000_000_000 * ll);
        assert(ll > 0) by (nonlinear_arith)
            requires
                l > 0,
                ll == l * l,
        ;
        vstd::arithmetic::mul::lemma_mul_inequality_converse(pp + qq, 1_000_000_000_000, ll);
    }
}

/// Two numbers between 0 and `ONE` whose successors have squares that add up
/// to more than the square of `ONE - 1` have squares that add up to at least
/// the square of `ONE - 3`.
proof fn lemma_nearly_unit(p: int, q: int)
    requires
        0 <= p,
        0 <= q,
        (p + 1) * (p + 1) + (q + 1) * (q + 1) > 999_999 * 999_999,
    ensures
        p * p + q * q >= 999_997 * 999_997,
{
    let s = p * p + q * q;
    let t = p + q;
    assert((p + 1) * (p + 1) + (q + 1) * (q + 1) == s + 2 * t + 2) by (nonlinear_arith)
        requires
            s == p * p + q * q,
            t == p + q,
    ;
    assert(t * t <= 2 * s) by (nonlinear_arith)
        requires
            s == p * p + q * q,
            t == p + q,
    ;
    if s < 999_997 * 999_997 {
        assert(2 * t < 3 * 999_997) by (nonlinear_arith)
            requires
                t * t <= 2 * s,
                s < 999_997 * 999_997,
                0 <= t,
        ;
    }
}

/// A vector that is at least 1 long, over its length rounded up, is 1 long up
/// to three millionths.
pub proof fn lemma_over_length_is_unit(v: Vector2)
    requires
        v.norm_squared() >= ONE * ONE,
    ensures
        (ONE - 3) * (ONE - 3) <= v.over_length().norm_squared() <= ONE * ONE,
        ONE - 3 <= v.over_length().length() <= ONE,
{
    lemma_over_length_is_short(v);
    let n = v.norm_squared();
    lemma_int_sqrt(n);
    let l = ceil_sqrt(n);
    let root = int_sqrt(n);
    assert(ONE * ONE == 1_000_000_000_000);
    assert(n <= l * l && (l - 1) * (l - 1) < n && 1 <= l) by {
        assert(root >= 1) by (nonlinear_arith)
            requires
                n >= 1,
                0 <= root,
                n < (root + 1) * (root + 1),
        ;
        if root * root < n {
            assert((root + 1 - 1) * (root + 1 - 1) == root * root);
        } else {
            assert((root - 1) * (root - 1) < root * root) by (nonlinear_arith)
                requires
                    root >= 1,
            ;
        }
    }
    assert(l >= ONE) by (nonlinear_arith)
        requires
            1 <= l,
            1_000_000_000_000 <= l * l,
            ONE == 1_000_000,
    ;
    let x = v.x as int;
    let y = v.y as int;
    let along = if x >= 0 {
        x
    } else {
        -x
    };
    let across = if y >= 0 {
        y
    } else {
        -y
    };
    lemma_square_of_product(along, 1);
    lemma_square_of_product(across, 1);
    assert(along * along == x * x && across * across == y * y) by (nonlinear_arith)
        requires
            along == x || along == -x,
            across == y || across == -y,
    ;
    let p = (along * ONE) / l;
    let q = (across * ONE) / l;
    let u = v.over_length();
    assert(u.x * u.x == p * p && u.y * u.y == q * q && 0 <= p && 0 <= q) by {
        lemma_component_below_length(x, y, l);
        lemma_component_below_length(y, x, l);
        lemma_unit_share(x, l);
        lemma_unit_share(y, l);
        vstd::arithmetic::div_mod::lemma_div_pos_is_pos(along * ONE, l);
        vstd::arithmetic::div_mod::lemma_div_pos_is_pos(across * ONE, l);
        let ux = trunc_div(x * ONE, l);
        let uy = trunc_div(y * ONE, l);
        assert(ux == p || ux == -p);
        assert(uy == q || uy == -q);
        assert(ux * ux == p * p) by (nonlinear_arith)
            requires
                ux == p || ux == -p,
        ;
        assert(uy * uy == q * q) by (nonlinear_arith)
            requires
                uy == q || uy == -q,
        ;
    }
    // the quotients, plus one, times the length pass the numerators
    vstd::arithmetic::div_mod::lemma_fundamental_div_mod(along * ONE, l);
    vstd::arithmetic::div_mod::lemma_mod_bound(along * ONE, l);
    vstd::arithmetic::div_mod::lemma_fundamental_div_mod(across * ONE, l);
    vstd::arithmetic::div_mod::lemma_mod_bound(across * ONE, l);
    let a = (p + 1) * l;
    let b = along * ONE;
    let c = (q + 1) * l;
    let d = across * ONE;
    assert(a > b) by (nonlinear_arith)
        requires
            b == l * p + b % l,
            b % l < l,
            a == (p + 1) * l,
    ;
    assert(c > d) by (nonlinear_arith)
        requires
            d == l * q + d % l,
            d % l < l,
            c == (q + 1) * l,
    ;
    assert(a * a > b * b) by (nonlinear_arith)
        requires
            a > b,
            b >= 0,
    ;
    assert(c * c > d * d) by (nonlinear_arith)
        requires
            c > d,
            d >= 0,
    ;
    lemma_square_of_product(p + 1, l);
    lemma_square_of_product(q + 1, l);
    lemma_square_of_product(along, ONE as int);
    lemma_square_of_product(across, ONE as int);
    let ll = l * l;
    let t = (p + 1) * (p + 1) + (q + 1) * (q + 1);
    assert(t * ll == (p + 1) * (p + 1) * ll + (q + 1) * (q + 1) * ll) by (nonlinear_arith)
        requires
            t == (p + 1) * (p + 1) + (q + 1) * (q + 1),
    ;
    assert((along * along) * 1_000_000_000_000 + (across * across) * 1_000_000_000_000 == n
        * 1_000_000_000_000);
    assert(t * ll > n * 1_000_000_000_000);
    // the length, less one, times a million is at least the length times a million less one
    let e = (l - 1) * ONE;
    let f = l * (ONE - 1);
    assert(e >= f && f >= 0) by (nonlinear_arith)
        requires
            e == (l - 1) * ONE,
            f == l * (ONE - 1),
            l >= ONE,
            ONE == 1_000_000,
    ;
    assert(e * e >= f * f) by (nonlinear_arith)
        requires
            e >= f,
            f >= 0,
    ;
    lemma_square_of_product(l - 1, ONE as int);
    lemma_square_of_product(l, ONE - 1);
    assert((ONE - 1) * (ONE - 1) == 999_999 * 999_999);
    assert(ll * (999_999 * 999_999) == (999_999 * 999_999) * ll) by (nonlinear_arith);
    assert(t * ll > (999_999 * 999_999) * ll);
    assert(t > 999_999 * 999_999) by (nonlinear_arith)
        requires
            t * ll > (999_999 * 999_999) * ll,
            ll > 0,
    ;
    lemma_nearly_unit(p, q);
    assert((ONE - 3) * (ONE - 3) == 999_997 * 999_997);
    // from the squares to the length
    lemma_length_within(u, ONE as int);
    lemma_int_sqrt_monotonic(999_997int * 999_997int, u.norm_squared());
    lemma_int_sqrt_square(999_997);
}

/// Magnifying keeps the zero vector, and makes every other vector at least 1
/// long; a vector shorter than 1 has coordinates below 1, so that a million
/// times the vector is within the range of the coordinates.
pub proof fn lemma_magnified(v: Vector2)
    ensures
        v.norm_squared() < ONE * ONE ==> -ONE < v.x < ONE && -ONE < v.y < ONE
            && v.magnified().x == v.x * ONE && v.magnified().y == v.y * ONE,
        !v.is_zero() ==> v.magnified().norm_squared() >= ONE * ONE,
        v.is_zero() ==> v.magnified().is_zero(),
{
    let x = v.x as int;
    let y = v.y as int;
    let n = v.norm_squared();
    lemma_square_of_product(x, 1);
    lemma_square_of_product(y, 1);
    assert(ONE * ONE == 1_000_000_000_000);
    if n < ONE * ONE {
        assert(-1_000_000 < x < 1_000_000) by (nonlinear_arith)
            requires
                x * x < 1_000_000_000_000,
        ;
        assert(-1_000_000 < y < 1_000_000) by (nonlinear_arith)
            requires
                y * y < 1_000_000_000_000,
        ;
        lemma_square_of_product(x, ONE as int);
        lemma_square_of_product(y, ONE as int);
        if !v.is_zero() {
            assert(n >= 1) by (nonlinear_arith)
                requires
                    n == x * x + y * y,
                    x != 0 || y != 0,
            ;
        }
    }
}

/// A normalized vector is never longer than 1.
pub proof fn lemma_normalized_is_short(v: Vector2)
    ensures
        v.normalized().norm_squared() <= ONE * ONE,
{
    lemma_over_length_is_short(v.magnified());
}

/// Every vector but the zero vector has a normalized vector whose length is
/// 1, up to three millionths.
pub proof fn lemma_normalized_is_unit(v: Vector2)
    requires
        !v.is_zero(),
    ensures
        (ONE - 3) * (ONE - 3) <= v.normalized().norm_squared() <= ONE * ONE,
        ONE - 3 <= v.normalized().length() <= ONE,
{
    lemma_magnified(v);
    lemma_over_length_is_unit(v.magnified());
}

/// Turning a vector by a direction that is no longer than 1 does not make it
/// longer.
pub proof fn lemma_rotated_is_no_longer(v: Vector2, direction: Vector2)
    requires
        direction.norm_squared() <= ONE * ONE,
    ensures
        v.rotated(direction).norm_squared() <= v.norm_squared(),
{
    let vx = v.x as int;
    let vy = v.y as int;
    let c = direction.x as int;
    let s = direction.y as int;
    let e1 = vx * c;
    let e2 = vy * s;
    let e3 = vx * s;
    let e4 = vy * c;
    let exact_x = e1 - e2;
    let exact_y = e3 + e4;
    let r = v.rotated(direction);
    assert((e1 - e2) * (e1 - e2) == e1 * e1 - 2 * (e1 * e2) + e2 * e2) by (nonlinear_arith);
    assert((e3 + e4) * (e3 + e4) == e3 * e3 + 2 * (e3 * e4) + e4 * e4) by (nonlinear_arith);
    assert(e1 * e2 == e3 * e4) by (nonlinear_arith)
        requires
            e1 == vx * c,
            e2 == vy * s,
            e3 == vx * s,
            e4 == vy * c,
    ;
    lemma_square_of_product(vx, c);
    lemma_square_of_product(vy, s);
    lemma_square_of_product(vx, s);
    lemma_square_of_product(vy, c);
    let xx = vx * vx;
    let yy = vy * vy;
    let cc = c * c;
    let ss = s * s;
    assert(xx * cc + yy * ss + xx * ss + yy * cc == (xx + yy) * (cc + ss)) by (nonlinear_arith);
    assert(exact_x * exact_x + exact_y * exact_y == (xx + yy) * (cc + ss));
    assert((xx + yy) * (cc + ss) <= (xx + yy) * (ONE * ONE)) by {
        if xx + yy > 0 {
            vstd::arithmetic::mul::lemma_mul_left_inequality(xx + yy, cc + ss, ONE * ONE);
        } else {
            assert((xx + yy) * (cc + ss) == 0 && (xx + yy) * (ONE * ONE) == 0) by (nonlinear_arith)
                requires
                    xx + yy == 0,
            ;
        }
    }
    lemma_rounded_pair_within(exact_x, exact_y, r.x, r.y, xx + yy);
}

/// A vector that is no longer than 1, scaled by a factor, is no longer than
/// the factor.
pub proof fn lemma_scaled_is_no_longer(v: Vector2, factor: Fixed)
    requires
        v.norm_squared() <= ONE * ONE,
    ensures
        v.scaled(factor).norm_squared() <= factor * factor,
{
    let vx = v.x as int;
    let vy = v.y as int;
    let f = factor as int;
    let r = v.scaled(factor);
    lemma_square_of_product(vx, f);
    lemma_square_of_product(vy, f);
    let ff = f * f;
    lemma_square_of_product(f, 1);
    assert((vx * vx) * ff + (vy * vy) * ff == (vx * vx + vy * vy) * ff) by (nonlinear_arith);
    vstd::arithmetic::mul::lemma_mul_inequality(vx * vx + vy * vy, ONE * ONE, ff);
    assert((ONE * ONE) * ff == ff * (ONE * ONE)) by (nonlinear_arith);
    lemma_rounded_pair_within(vx * f, vy * f, r.x, r.y, ff);
}

/// The magnitude of a coordinate is at most the rounded length.
pub proof fn lemma_coordinate_within_length(x: int, y: int)
    ensures
        -int_sqrt(x * x + y * y) <= x <= int_sqrt(x * x + y * y),
{
    let magnitude = if x >= 0 {
        x
    } else {
        -x
    };
    lemma_square_of_product(x, 1);
    lemma_square_of_product(y, 1);
    assert(magnitude * magnitude == x * x) by (nonlinear_arith)
        requires
            magnitude == x || magnitude == -x,
    ;
    lemma_int_sqrt_square(magnitude);
    lemma_int_sqrt_monotonic(magnitude * magnitude, x * x + y * y);
}

/// The triangle inequality for rounded lengths: a vector is no longer than
/// another vector and their difference together, plus 1.
pub proof fn lemma_lengths_are_close(a1: int, a2: int, b1: int, b2: int)
    ensures
        int_sqrt(a1 * a1 + a2 * a2) <= int_sqrt(b1 * b1 + b2 * b2) + int_sqrt(
            (a1 - b1) * (a1 - b1) + (a2 - b2) * (a2 - b2),
        ) + 1,
{
    let d1 = a1 - b1;
    let d2 = a2 - b2;
    let na = a1 * a1 + a2 * a2;
    let nb = b1 * b1 + b2 * b2;
    let nd = d1 * d1 + d2 * d2;
    lemma_square_of_product(a1, 1);
    lemma_square_of_product(a2, 1);
    lemma_square_of_product(b1, 1);
    lemma_square_of_product(b2, 1);
    lemma_square_of_product(d1, 1);
    lemma_square_of_product(d2, 1);
    lemma_int_sqrt(na);
    lemma_int_sqrt(nb);
    lemma_int_sqrt(nd);
    let a = int_sqrt(na);
    let b = int_sqrt(nb) + 1;
    let d = int_sqrt(nd) + 1;
    let dot = b1 * d1 + b2 * d2;
    let cross = b1 * d2 - b2 * d1;
    assert(a1 * a1 == b1 * b1 + 2 * (b1 * d1) + d1 * d1) by (nonlinear_arith)
        requires
            a1 == b1 + d1,
    ;
    assert(a2 * a2 == b2 * b2 + 2 * (b2 * d2) + d2 * d2) by (nonlinear_arith)
        requires
            a2 == b2 + d2,
    ;
    assert(na == nb + 2 * dot + nd);
    let p11 = b1 * d1;
    let p22 = b2 * d2;
    let p12 = b1 * d2;
    let p21 = b2 * d1;
    lemma_square_of_product(b1, d1);
    lemma_square_of_product(b2, d2);
    lemma_square_of_product(b1, d2);
    lemma_square_of_product(b2, d1);
    assert(p11 * p22 == p12 * p21) by (nonlinear_arith)
        requires
            p11 == b1 * d1,
            p22 == b2 * d2,
            p12 == b1 * d2,
            p21 == b2 * d1,
    ;
    assert((p11 + p22) * (p11 + p22) == p11 * p11 + 2 * (p11 * p22) + p22 * p22)
        by (nonlinear_arith);
    assert((p12 - p21) * (p12 - p21) == p12 * p12 - 2 * (p12 * p21) + p21 * p21)
        by (nonlinear_arith);
    let bb1 = b1 * b1;
    let bb2 = b2 * b2;
    let dd1 = d1 * d1;
    let dd2 = d2 * d2;
    assert((bb1 + bb2) * (dd1 + dd2) == bb1 * dd1 + bb1 * dd2 + bb2 * dd1 + bb2 * dd2)
        by (nonlinear_arith);
    lemma_square_of_product(cross, 1);
    assert(dot * dot + cross * cross == nb * nd);
    assert(dot * dot <= nb * nd);
    if dot >= b * d {
        let bd = b * d;
        assert(bd > 0) by (nonlinear_arith)
            requires
                bd == b * d,
                b >= 1,
                d >= 1,
        ;
        assert(dot * dot >= bd * bd) by (nonlinear_arith)
            requires
                dot >= bd,
                bd > 0,
        ;
        lemma_square_of_product(b, d);
        let b2s = b * b;
        let d2s = d * d;
        assert(nb * nd < b2s * d2s) by (nonlinear_arith)
            requires
                0 <= nb < b2s,
                0 <= nd < d2s,
        ;
        assert(false);
    }
    let bd = b * d;
    assert((b + d) * (b + d) == b * b + 2 * bd + d * d) by (nonlinear_arith)
        requires
            bd == b * d,
    ;
    assert(na < (b + d) * (b + d));
    assert(a < b + d) by (nonlinear_arith)
        requires
            a * a <= na,
            na < (b + d) * (b + d),
            0 <= a,
            0 <= b + d,
    ;
}

/// A vector whose squared length is at most the square of a bound is no
/// longer than the bound.
pub proof fn lemma_length_within(v: Vector2, bound: int)
    requires
        0 <= bound,
        v.norm_squared() <= bound * bound,
    ensures
        v.length() <= bound,
{
    lemma_square_of_product(v.x as int, 1);
    lemma_square_of_product(v.y as int, 1);
    lemma_int_sqrt_monotonic(v.norm_squared(), bound * bound);
    lemma_int_sqrt_square(bound);
}

} // verus!
