//! The normalisation constants of the three smoothing kernels.

use vstd::prelude::*;
use crate::fixed::{lemma_quotient_sign, lemma_times_sign, quotient, saturating_quotient, Fixed};

verus! {

/// Numerator of the fraction taken for pi, 355/113.
pub const PI_NUM: i64 = 355;

/// Denominator of the fraction taken for pi.
pub const PI_DEN: i64 = 113;

/// Ten to the 24th: `SCALE * FINE_SCALE`, which turns a quotient by a raw
/// scalar into a factor in units of `1 / FINE_SCALE`.
pub const FINE_OVER_RAW: i128 = 1_000_000_000_000_000_000_000_000;

/// Kernel constants for one smoothing radius `h`, each in units of
/// `1 / FINE_SCALE`.
#[derive(Clone, Copy, Debug, PartialEq, Eq, Structural)]
pub struct KernelConstants {
    /// `315 / (64 pi h^9)`, for the density sum.
    pub poly6: i64,
    /// `-45 / (pi h^6)`, for the pressure gradient.
    pub spiky_grad: i64,
    /// `45 / (pi h^6)`, for the viscosity Laplacian.
    pub visc_lap: i64,
}

/// `h` to the sixth power.
pub open spec fn sixth_power(h: Fixed) -> Fixed {
    let h3 = h.times(h).times(h);
    h3.times(h3)
}

/// `h` to the ninth power.
pub open spec fn ninth_power(h: Fixed) -> Fixed {
    let h3 = h.times(h).times(h);
    h3.times(h3).times(h3)
}

impl KernelConstants {
    pub open spec fn spec_new(h: Fixed) -> KernelConstants {
        KernelConstants {
            poly6: quotient(315 * PI_DEN * FINE_OVER_RAW, 64 * PI_NUM * ninth_power(h).raw) as i64,
            spiky_grad: quotient(-45 * PI_DEN * FINE_OVER_RAW, PI_NUM * sixth_power(h).raw) as i64,
            visc_lap: quotient(45 * PI_DEN * FINE_OVER_RAW, PI_NUM * sixth_power(h).raw) as i64,
        }
    }

    /// The constants for smoothing radius `h`.
    #[verifier::when_used_as_spec(spec_new)]
    pub fn new(h: Fixed) -> (k: KernelConstants)
        ensures
            k == KernelConstants::spec_new(h),
    {
        let h3: Fixed = h.times(h).times(h);
        let h6: Fixed = h3.times(h3);
        let h9: Fixed = h6.times(h3);
        let fine: i128 = 1_000_000_000_000_000_000_000_000;
        let den9: i128 = 64 * 355 * (h9.raw as i128);
        let den6: i128 = 355 * (h6.raw as i128);
        KernelConstants {
            poly6: saturating_quotient(315 * 113 * fine, den9),
            spiky_grad: saturating_quotient(-45 * 113 * fine, den6),
            visc_lap: saturating_quotient(45 * 113 * fine, den6),
        }
    }
}

/// For a radius that is not negative, the density constant is not negative,
/// the pressure-gradient constant is not positive and the viscosity constant
/// is not negative.
pub proof fn lemma_kernel_signs(h: Fixed)
    requires
        h.raw >= 0,
    ensures
        KernelConstants::spec_new(h).poly6 >= 0,
        KernelConstants::spec_new(h).spiky_grad <= 0,
        KernelConstants::spec_new(h).visc_lap >= 0,
{
    let h2 = h.times(h);
    lemma_times_sign(h, h);
    let h3 = h2.times(h);
    lemma_times_sign(h2, h);
    let h6 = h3.times(h3);
    lemma_times_sign(h3, h3);
    let h9 = h6.times(h3);
    lemma_times_sign(h6, h3);
    lemma_quotient_sign(315 * PI_DEN * FINE_OVER_RAW, 64 * PI_NUM * h9.raw);
    lemma_quotient_sign(-45 * PI_DEN * FINE_OVER_RAW, PI_NUM * h6.raw);
    lemma_quotient_sign(45 * PI_DEN * FINE_OVER_RAW, PI_NUM * h6.raw);
}

} // verus!
