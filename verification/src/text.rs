//! Text measurements and centering.
//!
//! Measuring a string is the renderer's affair — the result depends on the
//! fonts of the machine — so the measured extents come in from outside as
//! plain values, in micropixels. What is verified is the arithmetic that
//! places the measured text: the pen origin that centers it on a canvas.

use vstd::prelude::*;

use crate::scalar::{rat_eq, rat_half, rat_sub, Scalar};

verus! {

/// Measured extents of a text string in some font: the width and height
/// of its ink, and the bearings from the pen origin to the top-left of the
/// ink. All four are in micropixels: a denominator of one million.
#[derive(Clone, Copy, PartialEq, Eq, Structural, Debug)]
pub struct TextMetrics {
    pub width: Scalar,
    pub height: Scalar,
    pub x_bearing: Scalar,
    pub y_bearing: Scalar,
}

/// The field is in micropixels and within a thousand pixels in magnitude.
pub open spec fn micro_field(s: Scalar) -> bool {
    &&& s.den == 1000000
    &&& -1000000000 <= s.num <= 1000000000
}

impl TextMetrics {
    /// Well-formed: every field is a bounded micropixel quantity.
    pub open spec fn wf(self) -> bool {
        &&& micro_field(self.width)
        &&& micro_field(self.height)
        &&& micro_field(self.x_bearing)
        &&& micro_field(self.y_bearing)
    }

    /// Build metrics from micropixel counts.
    pub fn from_micros(width: i64, height: i64, x_bearing: i64, y_bearing: i64) -> (m:
        TextMetrics)
        requires
            -1000000000 <= width <= 1000000000,
            -1000000000 <= height <= 1000000000,
            -1000000000 <= x_bearing <= 1000000000,
            -1000000000 <= y_bearing <= 1000000000,
        ensures
            m.wf(),
            m.width.num == width,
            m.height.num == height,
            m.x_bearing.num == x_bearing,
            m.y_bearing.num == y_bearing,
    {
        TextMetrics {
            width: Scalar { num: width, den: 1000000 },
            height: Scalar { num: height, den: 1000000 },
            x_bearing: Scalar { num: x_bearing, den: 1000000 },
            y_bearing: Scalar { num: y_bearing, den: 1000000 },
        }
    }
}

/// The x coordinate that centers the measured ink horizontally on a canvas
/// `width` pixels wide: `width/2 - ink_width/2 - x_bearing`.
pub open spec fn centered_x_spec(width: int, m: TextMetrics) -> Scalar {
    Scalar {
        num: (width * 1000000 - m.width.num - 2 * m.x_bearing.num) as i64,
        den: 2000000,
    }
}

/// The y coordinate that centers the measured ink vertically on a canvas
/// `height` pixels high: `height/2 - ink_height/2 - y_bearing`.
pub open spec fn centered_y_spec(height: int, m: TextMetrics) -> Scalar {
    Scalar {
        num: (height * 1000000 - m.height.num - 2 * m.y_bearing.num) as i64,
        den: 2000000,
    }
}

/// The pen origin that centers measured text on a canvas of the given
/// pixel dimensions: on each axis, the canvas midpoint, less half the ink
/// extent, less the bearing.
pub fn centered_origin(width: u32, height: u32, m: &TextMetrics) -> (p: (Scalar, Scalar))
    requires
        m.wf(),
        width <= 100000,
        height <= 100000,
    ensures
        p.0 == centered_x_spec(width as int, *m),
        p.1 == centered_y_spec(height as int, *m),
        rat_eq(
            p.0.val(),
            rat_sub(rat_sub((width as int, 2), rat_half(m.width.val())), m.x_bearing.val()),
        ),
        rat_eq(
            p.1.val(),
            rat_sub(rat_sub((height as int, 2), rat_half(m.height.val())), m.y_bearing.val()),
        ),
{
    let x = Scalar {
        num: (width as i64) * 1000000 - m.width.num - 2 * m.x_bearing.num,
        den: 2000000,
    };
    let y = Scalar {
        num: (height as i64) * 1000000 - m.height.num - 2 * m.y_bearing.num,
        den: 2000000,
    };
    proof {
        let wv = width as int;
        let hv = height as int;
        let xn = x.num as int;
        let yn = y.num as int;
        let wn = m.width.num as int;
        let hn = m.height.num as int;
        let bx = m.x_bearing.num as int;
        let byv = m.y_bearing.num as int;
        assert(xn * (4000000 * 1000000) == ((wv * 2000000 - wn * 2) * 1000000 - bx * 4000000)
            * 2000000) by (nonlinear_arith)
            requires
                xn == wv * 1000000 - wn - 2 * bx,
        ;
        assert(yn * (4000000 * 1000000) == ((hv * 2000000 - hn * 2) * 1000000 - byv * 4000000)
            * 2000000) by (nonlinear_arith)
            requires
                yn == hv * 1000000 - hn - 2 * byv,
        ;
    }
    (x, y)
}

} // verus!
