//! Linear RGB colors over fixed-point components.
//!
//! Colors compose additively and multiplicatively during accumulation
//! (components may exceed 1.0); they are only mapped to display space by
//! `linear_to_gamma` at the very end of a render.

use vstd::prelude::*;
use crate::fp::{
    Fx, FP_ONE, fp_add, fp_sub, fp_mul, fp_sqrt, spec_fp_add, spec_fp_sub, spec_fp_mul,
    spec_fp_sqrt,
};

verus! {

/// A linear RGB color with fixed-point components.
#[derive(Clone, Copy, Debug, PartialEq, Eq, Structural)]
pub struct Color {
    pub r: Fx,
    pub g: Fx,
    pub b: Fx,
}

/// Black: every component zero.
pub open spec fn spec_black() -> Color {
    Color { r: 0, g: 0, b: 0 }
}

/// White: every component 1.0.
pub open spec fn spec_white() -> Color {
    Color { r: FP_ONE, g: FP_ONE, b: FP_ONE }
}

/// The grey color with every component `k`.
pub open spec fn spec_grey(k: Fx) -> Color {
    Color { r: k, g: k, b: k }
}

/// Componentwise color sum.
pub open spec fn spec_cadd(a: Color, b: Color) -> Color {
    Color { r: spec_fp_add(a.r, b.r), g: spec_fp_add(a.g, b.g), b: spec_fp_add(a.b, b.b) }
}

/// Componentwise color difference.
pub open spec fn spec_csub(a: Color, b: Color) -> Color {
    Color { r: spec_fp_sub(a.r, b.r), g: spec_fp_sub(a.g, b.g), b: spec_fp_sub(a.b, b.b) }
}

/// Componentwise color product.
pub open spec fn spec_cmul(a: Color, b: Color) -> Color {
    Color { r: spec_fp_mul(a.r, b.r), g: spec_fp_mul(a.g, b.g), b: spec_fp_mul(a.b, b.b) }
}

/// Gamma encoding for display: the square root of each linear component.
pub open spec fn spec_linear_to_gamma(c: Color) -> Color {
    Color { r: spec_fp_sqrt(c.r), g: spec_fp_sqrt(c.g), b: spec_fp_sqrt(c.b) }
}

impl Color {
    /// Build a color from its components.
    pub fn new(r: Fx, g: Fx, b: Fx) -> (c: Color)
        ensures
            c == (Color { r, g, b }),
    {
        Color { r, g, b }
    }

    /// Black: every component zero.
    pub fn black() -> (c: Color)
        ensures
            c == spec_black(),
    {
        Color { r: 0, g: 0, b: 0 }
    }

    /// White: every component 1.0.
    pub fn white() -> (c: Color)
        ensures
            c == spec_white(),
    {
        Color { r: FP_ONE, g: FP_ONE, b: FP_ONE }
    }

    /// The grey color with every component `k`.
    pub fn grey(k: Fx) -> (c: Color)
        ensures
            c == spec_grey(k),
    {
        Color { r: k, g: k, b: k }
    }

    /// Componentwise sum.
    pub fn add(self, o: Color) -> (c: Color)
        ensures
            c == spec_cadd(self, o),
    {
        Color { r: fp_add(self.r, o.r), g: fp_add(self.g, o.g), b: fp_add(self.b, o.b) }
    }

    /// Componentwise difference.
    pub fn sub(self, o: Color) -> (c: Color)
        ensures
            c == spec_csub(self, o),
    {
        Color { r: fp_sub(self.r, o.r), g: fp_sub(self.g, o.g), b: fp_sub(self.b, o.b) }
    }

    /// Componentwise product.
    pub fn mul(self, o: Color) -> (c: Color)
        ensures
            c == spec_cmul(self, o),
    {
        Color { r: fp_mul(self.r, o.r), g: fp_mul(self.g, o.g), b: fp_mul(self.b, o.b) }
    }

    /// Gamma encoding for display: the square root of each linear
    /// component.
    pub fn linear_to_gamma(self) -> (c: Color)
        ensures
            c == spec_linear_to_gamma(self),
            c.r == spec_fp_sqrt(self.r),
            c.g == spec_fp_sqrt(self.g),
            c.b == spec_fp_sqrt(self.b),
    {
        Color { r: fp_sqrt(self.r), g: fp_sqrt(self.g), b: fp_sqrt(self.b) }
    }
}

} // verus!
