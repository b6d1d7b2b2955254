//! The drawing command language.
//!
//! A demo is a fixed-dimension canvas together with a script: a sequence of
//! commands for a stateful drawing context bound to that canvas. The command
//! set mirrors what the demos use: solid, gradient and pattern sources, path
//! construction, fill / stroke / paint / mask, text, and scale / translate
//! transforms. Coordinates, colors, sizes and angles are exact rationals;
//! arc angles are given in units of pi radians.

use vstd::prelude::*;

use crate::scalar::Scalar;

verus! {

/// A gradient color stop: an offset along the gradient geometry (0 at the
/// start, 1 at the end) and a color with an alpha channel.
#[derive(Clone, Copy, PartialEq, Eq, Structural, Debug)]
pub struct Stop {
    pub offset: Scalar,
    pub r: Scalar,
    pub g: Scalar,
    pub b: Scalar,
    pub a: Scalar,
}

/// How a pattern samples outside the bounds of its source image.
#[derive(Clone, Copy, PartialEq, Eq, Structural, Debug)]
pub enum Extend {
    /// Pixels outside the source are blank.
    Blank,
    /// The source tiles endlessly.
    Repeat,
    /// The source tiles, mirrored at each edge.
    Reflect,
    /// Edge pixels are extended outward.
    Pad,
}

/// Compositing rule for combining painted pixels with the canvas.
#[derive(Clone, Copy, PartialEq, Eq, Structural, Debug)]
pub enum Operator {
    /// New pixels are drawn over what is there.
    Over,
    /// New pixels are drawn only where the canvas already has alpha.
    Atop,
}

/// Slant of a font face.
#[derive(Clone, Copy, PartialEq, Eq, Structural, Debug)]
pub enum FontSlant {
    Normal,
    Italic,
    Oblique,
}

/// Weight of a font face.
#[derive(Clone, Copy, PartialEq, Eq, Structural, Debug)]
pub enum FontWeight {
    Normal,
    Bold,
}

/// An affine matrix for sampling a pattern: maps user space `(x, y)` to
/// pattern space `(xx*x + xy*y + x0, yx*x + yy*y + y0)`.
#[derive(Clone, Copy, PartialEq, Eq, Structural, Debug)]
pub struct Matrix {
    pub xx: Scalar,
    pub yx: Scalar,
    pub xy: Scalar,
    pub yy: Scalar,
    pub x0: Scalar,
    pub y0: Scalar,
}

/// One command to the drawing context.
#[derive(PartialEq, Eq, Debug)]
pub enum Cmd {
    /// Set the source to an opaque solid color.
    SetSourceRgb { r: Scalar, g: Scalar, b: Scalar },
    /// Set the source to a translucent solid color.
    SetSourceRgba { r: Scalar, g: Scalar, b: Scalar, a: Scalar },
    /// Set the source to a linear gradient from `(x0, y0)` to `(x1, y1)`
    /// with the given color stops.
    SetSourceLinearGradient {
        x0: Scalar,
        y0: Scalar,
        x1: Scalar,
        y1: Scalar,
        stops: Vec<Stop>,
    },
    /// Set the source to a radial gradient between two circles with the
    /// given color stops.
    SetSourceRadialGradient {
        cx0: Scalar,
        cy0: Scalar,
        r0: Scalar,
        cx1: Scalar,
        cy1: Scalar,
        r1: Scalar,
        stops: Vec<Stop>,
    },
    /// Set the source to a pattern built from the canvas itself: the
    /// `setup` script is first drawn on the canvas through a second context
    /// bound to it, and the canvas as it then stands becomes a repeatable
    /// image source with the given extend policy and sampling matrix.
    SetSourceCanvasPattern { setup: Vec<Cmd>, extend: Extend, matrix: Matrix },
    /// Set the width used by `Stroke`.
    SetLineWidth { w: Scalar },
    /// Set the compositing operator.
    SetOperator { op: Operator },
    /// Begin a new sub-path at `(x, y)`.
    MoveTo { x: Scalar, y: Scalar },
    /// Append a straight segment to `(x, y)`; with no current point this
    /// begins a sub-path there instead.
    LineTo { x: Scalar, y: Scalar },
    /// Append a straight segment displaced `(dx, dy)` from the current point.
    RelLineTo { dx: Scalar, dy: Scalar },
    /// Append a cubic Bezier segment; control points and endpoint are
    /// displacements from the current point.
    RelCurveTo {
        dx1: Scalar,
        dy1: Scalar,
        dx2: Scalar,
        dy2: Scalar,
        dx3: Scalar,
        dy3: Scalar,
    },
    /// Append a circular arc around `(cx, cy)` of radius `r`, from angle
    /// `a0` to angle `a1` (in units of pi radians, increasing direction).
    Arc { cx: Scalar, cy: Scalar, r: Scalar, a0: Scalar, a1: Scalar },
    /// Append a closed axis-aligned rectangular sub-path.
    Rectangle { x: Scalar, y: Scalar, w: Scalar, h: Scalar },
    /// Append a straight segment back to the start of the current sub-path.
    ClosePath,
    /// Rasterize the interior of the current path with the source, then
    /// clear the path.
    Fill,
    /// Rasterize a ribbon of the current line width along the current path
    /// with the source, then clear the path.
    Stroke,
    /// Apply the source to the whole canvas; the path is not consumed.
    Paint,
    /// Apply the source through the alpha channel of a radial gradient used
    /// as a stencil.
    MaskRadialGradient {
        cx0: Scalar,
        cy0: Scalar,
        r0: Scalar,
        cx1: Scalar,
        cy1: Scalar,
        r1: Scalar,
        stops: Vec<Stop>,
    },
    /// Choose the font face used by `ShowText`.
    SelectFontFace { family: String, slant: FontSlant, weight: FontWeight },
    /// Set the font size.
    SetFontSize { size: Scalar },
    /// Render glyphs starting at the current point.
    ShowText { text: String },
    /// Compose a scaling onto the current transform.
    Scale { sx: Scalar, sy: Scalar },
    /// Compose a translation (in user space) onto the current transform.
    Translate { tx: Scalar, ty: Scalar },
}

/// A complete demo: a canvas of fixed pixel dimensions, the script drawn on
/// it, and the file the result is exported to.
#[derive(PartialEq, Eq, Debug)]
pub struct Demo {
    /// Canvas width in pixels.
    pub width: u32,
    /// Canvas height in pixels.
    pub height: u32,
    /// Relative path of the exported PNG file.
    pub path: String,
    /// The drawing script.
    pub cmds: Vec<Cmd>,
}

} // verus!
