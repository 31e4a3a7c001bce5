use vstd::prelude::*;

use crate::fractals::FracOutput;
use crate::graphics::Color;

verus! {

/// The color of a classification result.
///
/// An escape count maps to the gray ramp `channel = iters * 255 / max_iters`
/// (integer division, truncating). A closest-root index maps to a fixed
/// four-entry palette — red, green, blue, cyan — and any index past the
/// palette to a neutral dark gray, so images with more than four roots alias
/// visually by design.
pub open spec fn spec_frac_color(val: FracOutput) -> Color {
    match val {
        FracOutput::MandelJulia { iters, max_iters } => {
            let ch = (iters * 255 / (max_iters as int)) as u8;
            Color { r: ch, g: ch, b: ch }
        },
        FracOutput::Newton { closest, roots: _ } => {
            if closest == 0 {
                Color { r: 255, g: 0, b: 0 }
            } else if closest == 1 {
                Color { r: 0, g: 255, b: 0 }
            } else if closest == 2 {
                Color { r: 0, g: 0, b: 255 }
            } else if closest == 3 {
                Color { r: 0, g: 255, b: 255 }
            } else {
                Color { r: 30, g: 30, b: 30 }
            }
        },
    }
}

/// Maps a classification result to its color, exactly as `spec_frac_color`
/// states; the same result always yields the same color.
#[allow(non_snake_case)]
pub fn FracOutput_to_Color(val: FracOutput) -> (c: Color)
    requires
        val.wf(),
    ensures
        c == spec_frac_color(val),
{
    match val {
        FracOutput::MandelJulia { iters, max_iters } => {
            proof {
                assert((iters as int) * 255 / (max_iters as int) <= 255) by (nonlinear_arith)
                    requires
                        0 < max_iters,
                        iters <= max_iters,
                ;
            }
            let ch = ((iters as u64) * 255 / (max_iters as u64)) as u8;
            Color { r: ch, g: ch, b: ch }
        },
        FracOutput::Newton { closest, roots: _ } => {
            if closest == 0 {
                Color { r: 255, g: 0, b: 0 }
            } else if closest == 1 {
                Color { r: 0, g: 255, b: 0 }
            } else if closest == 2 {
                Color { r: 0, g: 0, b: 255 }
            } else if closest == 3 {
                Color { r: 0, g: 255, b: 255 }
            } else {
                Color { r: 30, g: 30, b: 30 }
            }
        },
    }
}

} // verus!
