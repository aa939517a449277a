//! Quality tiers and the quantizer-range policy derived from them.

use vstd::prelude::*;

verus! {

/// User-facing quality knob: a fixed tier, or an explicit bitrate
/// percentage in `[0, 200]` (values above 200 are clamped).
#[derive(Clone, Copy, Debug, PartialEq, Eq, Structural)]
pub enum Quality {
    Best,
    Balanced,
    Low,
    Custom(u32),
}

/// Lower quantizer bound substituted when a derived pair is unusable.
pub const DEFAULT_Q_MIN: u32 = 12;

/// Upper quantizer bound substituted when a derived pair is unusable.
pub const DEFAULT_Q_MAX: u32 = 56;

/// A quantizer pair the engine accepts: positive lower bound, strictly
/// ordered, upper bound below 64.
pub open spec fn valid_q_pair(q_min: int, q_max: int) -> bool {
    0 < q_min && q_min < q_max && q_max < 64
}

/// Custom bitrate percentages are clamped to `[0, 200]` before use.
pub open spec fn clamp200(b: int) -> int {
    if b > 200 {
        200
    } else {
        b
    }
}

/// Lower quantizer bound for a custom percentage `b`: linear interpolation
/// from 24 at 0% down to 5 at 200%, rounded to the nearest integer
/// (halves away from zero). The interpolated value is `(4800 - 19*b) / 200`,
/// so adding half the divisor before dividing performs the rounding.
pub open spec fn custom_q_min(b: int) -> int {
    (4900 - 19 * clamp200(b)) / 200
}

/// Upper quantizer bound for a custom percentage `b`: linear interpolation
/// from 45 at 0% down to 25 at 200%, rounded to the nearest integer.
pub open spec fn custom_q_max(b: int) -> int {
    (9100 - 20 * clamp200(b)) / 200
}

/// The `(q_min, q_max, bitrate scale %)` triple each quality setting maps to.
pub open spec fn quality_rates(q: Quality) -> (int, int, int) {
    match q {
        Quality::Best => (12, 25, 100),
        Quality::Balanced => (12, 35, 66),
        Quality::Low => (18, 45, 50),
        Quality::Custom(b) => (custom_q_min(b as int), custom_q_max(b as int), clamp200(b as int)),
    }
}

/// Every derivable quantizer pair is usable by the engine: the lower bound
/// is positive, strictly below the upper bound, and the upper bound stays
/// below 64. This holds for the fixed tiers and for the whole custom
/// percentage domain.
pub proof fn lemma_quality_bounds(q: Quality)
    ensures
        valid_q_pair(quality_rates(q).0, quality_rates(q).1),
{
    match q {
        Quality::Custom(b) => {
            let bc = clamp200(b as int);
            assert(0 <= bc && bc <= 200);
            assert(custom_q_min(b as int) >= 5) by (nonlinear_arith)
                requires
                    0 <= bc <= 200,
                    custom_q_min(b as int) == (4900 - 19 * bc) / 200,
            ;
            assert(custom_q_min(b as int) <= 24) by (nonlinear_arith)
                requires
                    0 <= bc <= 200,
                    custom_q_min(b as int) == (4900 - 19 * bc) / 200,
            ;
            assert(custom_q_max(b as int) >= 25) by (nonlinear_arith)
                requires
                    0 <= bc <= 200,
                    custom_q_max(b as int) == (9100 - 20 * bc) / 200,
            ;
            assert(custom_q_max(b as int) <= 45) by (nonlinear_arith)
                requires
                    0 <= bc <= 200,
                    custom_q_max(b as int) == (9100 - 20 * bc) / 200,
            ;
        },
        _ => {},
    }
}

} // verus!
