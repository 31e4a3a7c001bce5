use vstd::prelude::*;

use crate::fractals::Fractal;
use crate::graphics::bmp_img_maker::PixelSource;
use crate::graphics::color_mapping::{spec_frac_color, FracOutput_to_Color};
use crate::graphics::{Color, PixPos};
use crate::my_complex::{MyComplex, ScalarOps};

verus! {

/// The render driver: maps each pixel of a `width` by `height` grid onto a
/// point of the requested complex rectangle by linear interpolation, runs
/// the fractal's classification on that point, and colors the result. It is
/// handed to the bitmap encoder as its pixel source; the driver itself does
/// no input or output.
pub struct FracRenderer<T: ScalarOps> {
    pub frac: Fractal<T>,
    pub width: u32,
    pub height: u32,
    pub r_start: T,
    pub r_range: T,
    pub i_start: T,
    pub i_range: T,
}

impl<T: ScalarOps> FracRenderer<T> {
    /// The point of the complex plane a pixel lands on:
    /// `start + (coordinate / dimension) * range` on each axis, columns
    /// along the real axis and rows along the imaginary one.
    pub open spec fn spec_point(self, pos: PixPos) -> MyComplex<T> {
        MyComplex {
            r: self.r_start.spec_add(
                T::spec_from_u32(pos.col).spec_div(T::spec_from_u32(self.width)).spec_mul(
                    self.r_range,
                ),
            ),
            i: self.i_start.spec_add(
                T::spec_from_u32(pos.row).spec_div(T::spec_from_u32(self.height)).spec_mul(
                    self.i_range,
                ),
            ),
        }
    }

    pub fn new(
        frac: Fractal<T>,
        width: u32,
        height: u32,
        r_start: T,
        r_range: T,
        i_start: T,
        i_range: T,
    ) -> (rd: Self)
        requires
            frac.wf(),
        ensures
            rd == (FracRenderer { frac, width, height, r_start, r_range, i_start, i_range }),
            rd.inv(),
    {
        FracRenderer { frac, width, height, r_start, r_range, i_start, i_range }
    }
}

impl<T: ScalarOps> PixelSource for FracRenderer<T> {
    open spec fn inv(&self) -> bool {
        self.frac.wf()
    }

    /// The color of a pixel: classify the point it lands on, then map the
    /// classification through the fixed coloring rule.
    open spec fn spec_color_at(&self, pos: PixPos) -> Color {
        spec_frac_color(self.frac.spec_classify(self.spec_point(pos)))
    }

    fn color_at(&self, pos: PixPos) -> (c: Color) {
        let re = self.r_start.add(
            T::from_u32(pos.col).div(T::from_u32(self.width)).mul(self.r_range),
        );
        let im = self.i_start.add(
            T::from_u32(pos.row).div(T::from_u32(self.height)).mul(self.i_range),
        );
        let point = MyComplex::new(re, im);
        let out = self.frac.complex_to_frac_output(point);
        FracOutput_to_Color(out)
    }
}

} // verus!
