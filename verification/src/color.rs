//! Red-green-blue colors with fixed-point components.
use crate::fx::{
    approx_eq, approx_eq_s, fx_add, fx_add_s, fx_mul, fx_mul_s, fx_sub, fx_sub_s,
};
use vstd::prelude::*;

verus! {

/// A color; components are unclamped fixed-point scalars.
#[derive(Debug, Clone, Copy, PartialEq, Eq, Structural)]
pub struct Color {
    pub red: i64,
    pub green: i64,
    pub blue: i64,
}

/// Component-wise sum.
pub open spec fn col_add_s(a: Color, b: Color) -> Color {
    Color {
        red: fx_add_s(a.red, b.red),
        green: fx_add_s(a.green, b.green),
        blue: fx_add_s(a.blue, b.blue),
    }
}

/// Component-wise difference.
pub open spec fn col_sub_s(a: Color, b: Color) -> Color {
    Color {
        red: fx_sub_s(a.red, b.red),
        green: fx_sub_s(a.green, b.green),
        blue: fx_sub_s(a.blue, b.blue),
    }
}

/// Every component scaled by the scalar `s`.
pub open spec fn col_scale_s(a: Color, s: i64) -> Color {
    Color {
        red: fx_mul_s(a.red, s),
        green: fx_mul_s(a.green, s),
        blue: fx_mul_s(a.blue, s),
    }
}

/// The component-wise (Hadamard) product of two colors.
pub open spec fn col_mul_s(a: Color, b: Color) -> Color {
    Color {
        red: fx_mul_s(a.red, b.red),
        green: fx_mul_s(a.green, b.green),
        blue: fx_mul_s(a.blue, b.blue),
    }
}

/// Component-wise approximate equality within `EPSILON`.
pub open spec fn col_approx_s(a: Color, b: Color) -> bool {
    approx_eq_s(a.red, b.red) && approx_eq_s(a.green, b.green) && approx_eq_s(a.blue, b.blue)
}

/// The color with all components zero.
pub open spec fn black_s() -> Color {
    Color { red: 0, green: 0, blue: 0 }
}

impl Color {
    /// A color from its three components.
    pub fn new(red: i64, green: i64, blue: i64) -> (r: Color)
        ensures
            r == (Color { red, green, blue }),
    {
        Color { red, green, blue }
    }

    /// The color with all components zero.
    pub fn black() -> (r: Color)
        ensures
            r == black_s(),
    {
        Color { red: 0, green: 0, blue: 0 }
    }

    /// Component-wise sum.
    pub fn add(&self, rhs: &Color) -> (r: Color)
        ensures
            r == col_add_s(*self, *rhs),
    {
        Color {
            red: fx_add(self.red, rhs.red),
            green: fx_add(self.green, rhs.green),
            blue: fx_add(self.blue, rhs.blue),
        }
    }

    /// Component-wise difference.
    pub fn sub(&self, rhs: &Color) -> (r: Color)
        ensures
            r == col_sub_s(*self, *rhs),
    {
        Color {
            red: fx_sub(self.red, rhs.red),
            green: fx_sub(self.green, rhs.green),
            blue: fx_sub(self.blue, rhs.blue),
        }
    }

    /// This color scaled by a scalar.
    pub fn scale(&self, s: i64) -> (r: Color)
        ensures
            r == col_scale_s(*self, s),
    {
        Color {
            red: fx_mul(self.red, s),
            green: fx_mul(self.green, s),
            blue: fx_mul(self.blue, s),
        }
    }

    /// The component-wise product with another color.
    pub fn mul(&self, rhs: &Color) -> (r: Color)
        ensures
            r == col_mul_s(*self, *rhs),
    {
        Color {
            red: fx_mul(self.red, rhs.red),
            green: fx_mul(self.green, rhs.green),
            blue: fx_mul(self.blue, rhs.blue),
        }
    }

    /// Component-wise approximate equality within `EPSILON`.
    pub fn approx_eq(&self, rhs: &Color) -> (r: bool)
        ensures
            r == col_approx_s(*self, *rhs),
    {
        approx_eq(self.red, rhs.red) && approx_eq(self.green, rhs.green)
            && approx_eq(self.blue, rhs.blue)
    }
}

} // verus!
