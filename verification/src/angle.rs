//! Angles, in millionths of a radian.

use vstd::prelude::*;
use crate::fixed::Fixed;

verus! {

/// Half a turn.
pub const PI: Fixed = 3_141_593;

/// A full turn.
pub const TAU: Fixed = 6_283_185;

/// The rotation from `a` to `b`, brought into the half-open range from
/// `PI - TAU` (excluded) to `PI` (included).
pub open spec fn spec_angle_diff(a: Fixed, b: Fixed) -> Fixed {
    let c = (b - a) % (TAU as int);
    if c > PI {
        (c - TAU) as i64
    } else {
        c as i64
    }
}

/// The smallest rotation that brings the direction `a` onto the direction
/// `b`: above 0 counter-clockwise, below 0 clockwise.
#[verifier::when_used_as_spec(spec_angle_diff)]
pub fn angle_diff(a: Fixed, b: Fixed) -> (r: Fixed)
    ensures
        r == spec_angle_diff(a, b),
        PI - TAU < r <= PI,
        (b - a - r) % (TAU as int) == 0,
{
    let delta: i128 = b as i128 - a as i128;
    let c: i128 = match delta.checked_rem_euclid(TAU as i128) {
        Some(c) => c,
        None => 0,
    };
    proof {
        vstd::arithmetic::div_mod::lemma_fundamental_div_mod(delta as int, TAU as int);
        let q = delta as int / (TAU as int);
        assert((delta - c) % (TAU as int) == 0) by {
            vstd::arithmetic::div_mod::lemma_mod_multiples_basic(q, TAU as int);
            assert(delta - c == q * TAU) by (nonlinear_arith)
                requires
                    delta == TAU * q + c,
            ;
        }
        assert((delta - (c - TAU)) % (TAU as int) == 0) by {
            vstd::arithmetic::div_mod::lemma_mod_multiples_basic(q + 1, TAU as int);
            assert(delta - (c - TAU) == (q + 1) * TAU) by (nonlinear_arith)
                requires
                    delta == TAU * q + c,
            ;
        }
    }
    if c > PI as i128 {
        (c - TAU as i128) as i64
    } else {
        c as i64
    }
}

} // verus!
