//! Small geometric helpers.

use vstd::prelude::*;
use crate::fixed::{fx_neg, spec_fx_neg, ONE};
use crate::vector::{lemma_component_below_length, lemma_normalized_is_unit, Vector2};

verus! {

/// The vector turned a quarter turn counter-clockwise.
pub open spec fn spec_normal_vector(vector: Vector2) -> Vector2 {
    Vector2 { x: fx_neg(vector.y), y: vector.x }
}

/// The vector turned a quarter turn counter-clockwise. It is as long as the
/// vector and at right angles to it (unless the second coordinate is at the
/// lower bound, whose opposite sticks), and turned once more it is the
/// opposite of the vector.
#[verifier::when_used_as_spec(spec_normal_vector)]
pub fn normal_vector(vector: Vector2) -> (normal: Vector2)
    ensures
        normal == spec_normal_vector(vector),
        normal.norm_squared() <= vector.norm_squared(),
        vector.y > i64::MIN ==> normal.norm_squared() == vector.norm_squared(),
        vector.y > i64::MIN ==> normal.dot(vector) == 0,
        spec_normal_vector(normal) == vector.negated(),
{
    proof {
        if vector.y > i64::MIN {
            lemma_normal_vector_is_at_right_angles(vector);
        }
        let y = vector.y as int;
        let n = fx_neg(vector.y) as int;
        if vector.y > i64::MIN {
            assert(n * n == y * y) by (nonlinear_arith)
                requires
                    n == -y,
            ;
        } else {
            assert(n * n <= y * y) by (nonlinear_arith)
                requires
                    n == 0x7fff_ffff_ffff_ffff,
                    y == -0x8000_0000_0000_0000,
            ;
        }
    }
    Vector2 { x: fx_neg(vector.y), y: vector.x }
}

/// A vector and its normal vector have the dot product 0.
pub proof fn lemma_normal_vector_is_at_right_angles(vector: Vector2)
    requires
        vector.y > i64::MIN,
    ensures
        normal_vector(vector).dot(vector) == 0,
{
    let x = vector.x as int;
    let y = vector.y as int;
    assert((-y) * x + x * y == 0) by (nonlinear_arith);
}

/// The normal vector of a normalized vector is as long as the normalized
/// vector: 1, up to three millionths, unless the vector is the zero vector.
pub proof fn lemma_normal_of_normalized_is_unit(vector: Vector2)
    requires
        !vector.is_zero(),
    ensures
        normal_vector(vector.normalized()).norm_squared() == vector.normalized().norm_squared(),
        (ONE - 3) * (ONE - 3) <= normal_vector(vector.normalized()).norm_squared() <= ONE * ONE,
{
    lemma_normalized_is_unit(vector);
    let u = vector.normalized();
    lemma_component_below_length(u.y as int, u.x as int, ONE as int);
    let y = u.y as int;
    let n = fx_neg(u.y) as int;
    assert(n * n == y * y) by (nonlinear_arith)
        requires
            n == -y,
    ;
}

} // verus!
