//! The demo scripts.
//!
//! Each function here builds one demo: a canvas of fixed dimensions, the
//! exact sequence of drawing commands, and the file the rendering is
//! exported to. The `*_script` predicates pin every command of every demo,
//! so two invocations of a builder always return the same script; only the
//! random-lines demo is looser, drawing its line targets from a random
//! source.

use vstd::prelude::*;
use vstd::string::StringExecFns;

use crate::cmd::{Cmd, Demo, Extend, FontSlant, FontWeight, Matrix, Operator, Stop};
use crate::scalar::{sc, Scalar};
use crate::text::{centered_origin, centered_x_spec, centered_y_spec, TextMetrics};

verus! {

/// The script of the `principle` demo: fill a centered 100 by 100 square
/// with a light grey on an otherwise untouched canvas.
pub open spec fn principle_script(s: Seq<Cmd>) -> bool {
    &&& s.len() == 3
    &&& s[0] == (Cmd::SetSourceRgb { r: sc(4, 5), g: sc(4, 5), b: sc(4, 5) })
    &&& s[1] == (Cmd::Rectangle { x: sc(50, 1), y: sc(50, 1), w: sc(100, 1), h: sc(100, 1) })
    &&& s[2] == Cmd::Fill
}

/// Fill a centered square on a blank canvas and export it.
pub fn principle() -> (d: Demo)
    ensures
        d.width == 200,
        d.height == 200,
        d.path@ == "example_output/principle.png"@,
        principle_script(d.cmds@),
{
    let cmds: Vec<Cmd> = vec![
        Cmd::SetSourceRgb {
            r: Scalar { num: 4, den: 5 },
            g: Scalar { num: 4, den: 5 },
            b: Scalar { num: 4, den: 5 },
        },
        Cmd::Rectangle {
            x: Scalar { num: 50, den: 1 },
            y: Scalar { num: 50, den: 1 },
            w: Scalar { num: 100, den: 1 },
            h: Scalar { num: 100, den: 1 },
        },
        Cmd::Fill,
    ];
    Demo {
        width: 200,
        height: 200,
        path: String::from_str("example_output/principle.png"),
        cmds,
    }
}

/// The script of the `paint` demo: a single solid red coat over the whole
/// canvas.
pub open spec fn paint_script(s: Seq<Cmd>) -> bool {
    &&& s.len() == 2
    &&& s[0] == (Cmd::SetSourceRgb { r: sc(1, 1), g: sc(0, 1), b: sc(0, 1) })
    &&& s[1] == Cmd::Paint
}

/// Paint the whole canvas red and export it.
pub fn paint() -> (d: Demo)
    ensures
        d.width == 200,
        d.height == 200,
        d.path@ == "example_output/paint.png"@,
        paint_script(d.cmds@),
{
    let cmds: Vec<Cmd> = vec![
        Cmd::SetSourceRgb {
            r: Scalar { num: 1, den: 1 },
            g: Scalar { num: 0, den: 1 },
            b: Scalar { num: 0, den: 1 },
        },
        Cmd::Paint,
    ];
    Demo {
        width: 200,
        height: 200,
        path: String::from_str("example_output/paint.png"),
        cmds,
    }
}

/// The script of the `scale` demo: set up a 150-pixel working frame
/// centered on the canvas (coordinates inside it range over the unit
/// square), then fill the whole frame with yellow.
pub open spec fn scale_script(s: Seq<Cmd>) -> bool {
    &&& s.len() == 5
    &&& s[0] == (Cmd::Scale { sx: sc(150, 1), sy: sc(150, 1) })
    &&& s[1] == (Cmd::Translate { tx: sc(1, 6), ty: sc(1, 6) })
    &&& s[2] == (Cmd::Rectangle { x: sc(0, 1), y: sc(0, 1), w: sc(1, 1), h: sc(1, 1) })
    &&& s[3] == (Cmd::SetSourceRgb { r: sc(1, 1), g: sc(1, 1), b: sc(0, 1) })
    &&& s[4] == Cmd::Fill
}

/// Draw in a scaled and translated working frame and export the result.
pub fn scale() -> (d: Demo)
    ensures
        d.width == 200,
        d.height == 200,
        d.path@ == "example_output/scale.png"@,
        scale_script(d.cmds@),
{
    let cmds: Vec<Cmd> = vec![
        Cmd::Scale { sx: Scalar { num: 150, den: 1 }, sy: Scalar { num: 150, den: 1 } },
        Cmd::Translate { tx: Scalar { num: 1, den: 6 }, ty: Scalar { num: 1, den: 6 } },
        Cmd::Rectangle {
            x: Scalar { num: 0, den: 1 },
            y: Scalar { num: 0, den: 1 },
            w: Scalar { num: 1, den: 1 },
            h: Scalar { num: 1, den: 1 },
        },
        Cmd::SetSourceRgb {
            r: Scalar { num: 1, den: 1 },
            g: Scalar { num: 1, den: 1 },
            b: Scalar { num: 0, den: 1 },
        },
        Cmd::Fill,
    ];
    Demo {
        width: 200,
        height: 200,
        path: String::from_str("example_output/scale.png"),
        cmds,
    }
}

/// The script of the `source1` demo: stroke a thick black cross over the
/// canvas, then fill three translucent 100 by 100 squares (red, green,
/// blue) in three of its quadrants.
pub open spec fn source1_script(s: Seq<Cmd>) -> bool {
    &&& s.len() == 16
    &&& s[0] == (Cmd::SetSourceRgb { r: sc(0, 1), g: sc(0, 1), b: sc(0, 1) })
    &&& s[1] == (Cmd::MoveTo { x: sc(0, 1), y: sc(0, 1) })
    &&& s[2] == (Cmd::LineTo { x: sc(200, 1), y: sc(200, 1) })
    &&& s[3] == (Cmd::MoveTo { x: sc(200, 1), y: sc(0, 1) })
    &&& s[4] == (Cmd::LineTo { x: sc(0, 1), y: sc(200, 1) })
    &&& s[5] == (Cmd::SetLineWidth { w: sc(25, 1) })
    &&& s[6] == Cmd::Stroke
    &&& s[7] == (Cmd::Rectangle { x: sc(0, 1), y: sc(0, 1), w: sc(100, 1), h: sc(100, 1) })
    &&& s[8] == (Cmd::SetSourceRgba {
        r: sc(225, 255),
        g: sc(96, 255),
        b: sc(78, 255),
        a: sc(4, 5),
    })
    &&& s[9] == Cmd::Fill
    &&& s[10] == (Cmd::Rectangle { x: sc(0, 1), y: sc(100, 1), w: sc(100, 1), h: sc(100, 1) })
    &&& s[11] == (Cmd::SetSourceRgba {
        r: sc(56, 255),
        g: sc(215, 255),
        b: sc(28, 255),
        a: sc(2, 5),
    })
    &&& s[12] == Cmd::Fill
    &&& s[13] == (Cmd::Rectangle { x: sc(100, 1), y: sc(0, 1), w: sc(100, 1), h: sc(100, 1) })
    &&& s[14] == (Cmd::SetSourceRgba {
        r: sc(46, 255),
        g: sc(147, 255),
        b: sc(213, 255),
        a: sc(3, 5),
    })
    &&& s[15] == Cmd::Fill
}

/// Draw elements with several solid sources and export the result.
pub fn source1() -> (d: Demo)
    ensures
        d.width == 200,
        d.height == 200,
        d.path@ == "example_output/source1.png"@,
        source1_script(d.cmds@),
{
    let cmds: Vec<Cmd> = vec![
        Cmd::SetSourceRgb {
            r: Scalar { num: 0, den: 1 },
            g: Scalar { num: 0, den: 1 },
            b: Scalar { num: 0, den: 1 },
        },
        Cmd::MoveTo { x: Scalar { num: 0, den: 1 }, y: Scalar { num: 0, den: 1 } },
        Cmd::LineTo { x: Scalar { num: 200, den: 1 }, y: Scalar { num: 200, den: 1 } },
        Cmd::MoveTo { x: Scalar { num: 200, den: 1 }, y: Scalar { num: 0, den: 1 } },
        Cmd::LineTo { x: Scalar { num: 0, den: 1 }, y: Scalar { num: 200, den: 1 } },
        Cmd::SetLineWidth { w: Scalar { num: 25, den: 1 } },
        Cmd::Stroke,
        Cmd::Rectangle {
            x: Scalar { num: 0, den: 1 },
            y: Scalar { num: 0, den: 1 },
            w: Scalar { num: 100, den: 1 },
            h: Scalar { num: 100, den: 1 },
        },
        Cmd::SetSourceRgba {
            r: Scalar { num: 225, den: 255 },
            g: Scalar { num: 96, den: 255 },
            b: Scalar { num: 78, den: 255 },
            a: Scalar { num: 4, den: 5 },
        },
        Cmd::Fill,
        Cmd::Rectangle {
            x: Scalar { num: 0, den: 1 },
            y: Scalar { num: 100, den: 1 },
            w: Scalar { num: 100, den: 1 },
            h: Scalar { num: 100, den: 1 },
        },
        Cmd::SetSourceRgba {
            r: Scalar { num: 56, den: 255 },
            g: Scalar { num: 215, den: 255 },
            b: Scalar { num: 28, den: 255 },
            a: Scalar { num: 2, den: 5 },
        },
        Cmd::Fill,
        Cmd::Rectangle {
            x: Scalar { num: 100, den: 1 },
            y: Scalar { num: 0, den: 1 },
            w: Scalar { num: 100, den: 1 },
            h: Scalar { num: 100, den: 1 },
        },
        Cmd::SetSourceRgba {
            r: Scalar { num: 46, den: 255 },
            g: Scalar { num: 147, den: 255 },
            b: Scalar { num: 213, den: 255 },
            a: Scalar { num: 3, den: 5 },
        },
        Cmd::Fill,
    ];
    Demo {
        width: 200,
        height: 200,
        path: String::from_str("example_output/source1.png"),
        cmds,
    }
}

/// The script of the `curves` demo: a closed figure of straight segments,
/// a circular arc and a cubic curve, stroked in a dark teal. The arc
/// radius stands for 50 times the square root of two, exact to a
/// millionth; its angles run from minus a quarter turn of pi to a quarter
/// turn of pi.
pub open spec fn curves_script(s: Seq<Cmd>) -> bool {
    &&& s.len() == 8
    &&& s[0] == (Cmd::MoveTo { x: sc(50, 1), y: sc(50, 1) })
    &&& s[1] == (Cmd::LineTo { x: sc(100, 1), y: sc(75, 1) })
    &&& s[2] == (Cmd::RelLineTo { dx: sc(50, 1), dy: sc(-25, 1) })
    &&& s[3] == (Cmd::Arc {
        cx: sc(100, 1),
        cy: sc(100, 1),
        r: sc(70710678, 1000000),
        a0: sc(-1, 4),
        a1: sc(1, 4),
    })
    &&& s[4] == (Cmd::RelCurveTo {
        dx1: sc(-50, 1),
        dy1: sc(-25, 1),
        dx2: sc(-50, 1),
        dy2: sc(25, 1),
        dx3: sc(-100, 1),
        dy3: sc(0, 1),
    })
    &&& s[5] == Cmd::ClosePath
    &&& s[6] == (Cmd::SetSourceRgb { r: sc(6, 255), g: sc(117, 255), b: sc(114, 255) })
    &&& s[7] == Cmd::Stroke
}

/// Stroke a closed figure of lines, an arc and a curve, and export it.
pub fn curves() -> (d: Demo)
    ensures
        d.width == 200,
        d.height == 200,
        d.path@ == "example_output/curves.png"@,
        curves_script(d.cmds@),
{
    let cmds: Vec<Cmd> = vec![
        Cmd::MoveTo { x: Scalar { num: 50, den: 1 }, y: Scalar { num: 50, den: 1 } },
        Cmd::LineTo { x: Scalar { num: 100, den: 1 }, y: Scalar { num: 75, den: 1 } },
        Cmd::RelLineTo { dx: Scalar { num: 50, den: 1 }, dy: Scalar { num: -25, den: 1 } },
        Cmd::Arc {
            cx: Scalar { num: 100, den: 1 },
            cy: Scalar { num: 100, den: 1 },
            r: Scalar { num: 70710678, den: 1000000 },
            a0: Scalar { num: -1, den: 4 },
            a1: Scalar { num: 1, den: 4 },
        },
        Cmd::RelCurveTo {
            dx1: Scalar { num: -50, den: 1 },
            dy1: Scalar { num: -25, den: 1 },
            dx2: Scalar { num: -50, den: 1 },
            dy2: Scalar { num: 25, den: 1 },
            dx3: Scalar { num: -100, den: 1 },
            dy3: Scalar { num: 0, den: 1 },
        },
        Cmd::ClosePath,
        Cmd::SetSourceRgb {
            r: Scalar { num: 6, den: 255 },
            g: Scalar { num: 117, den: 255 },
            b: Scalar { num: 114, den: 255 },
        },
        Cmd::Stroke,
    ];
    Demo {
        width: 200,
        height: 200,
        path: String::from_str("example_output/curves.png"),
        cmds,
    }
}

/// The script of the `mask` demo: a blue-to-green linear gradient across
/// the canvas diagonal, applied through a radial gradient whose alpha
/// fades from opaque at a small inner circle to transparent halfway to the
/// outer circle.
pub open spec fn mask_script(s: Seq<Cmd>) -> bool {
    &&& s.len() == 2
    &&& (s[0] matches Cmd::SetSourceLinearGradient { x0, y0, x1, y1, stops } && {
        &&& x0 == sc(0, 1)
        &&& y0 == sc(0, 1)
        &&& x1 == sc(200, 1)
        &&& y1 == sc(200, 1)
        &&& stops@ =~= seq![
            Stop { offset: sc(0, 1), r: sc(0, 1), g: sc(3, 10), b: sc(4, 5), a: sc(1, 1) },
            Stop { offset: sc(1, 1), r: sc(0, 1), g: sc(4, 5), b: sc(3, 10), a: sc(1, 1) },
        ]
    })
    &&& (s[1] matches Cmd::MaskRadialGradient { cx0, cy0, r0, cx1, cy1, r1, stops } && {
        &&& cx0 == sc(100, 1)
        &&& cy0 == sc(100, 1)
        &&& r0 == sc(10, 1)
        &&& cx1 == sc(100, 1)
        &&& cy1 == sc(100, 1)
        &&& r1 == sc(140, 1)
        &&& stops@ =~= seq![
            Stop { offset: sc(0, 1), r: sc(0, 1), g: sc(0, 1), b: sc(0, 1), a: sc(1, 1) },
            Stop { offset: sc(1, 2), r: sc(0, 1), g: sc(0, 1), b: sc(0, 1), a: sc(0, 1) },
        ]
    })
}

/// Apply a linear gradient through a radial stencil and export the result.
pub fn mask() -> (d: Demo)
    ensures
        d.width == 200,
        d.height == 200,
        d.path@ == "example_output/mask.png"@,
        mask_script(d.cmds@),
{
    let lin_stops: Vec<Stop> = vec![
        Stop {
            offset: Scalar { num: 0, den: 1 },
            r: Scalar { num: 0, den: 1 },
            g: Scalar { num: 3, den: 10 },
            b: Scalar { num: 4, den: 5 },
            a: Scalar { num: 1, den: 1 },
        },
        Stop {
            offset: Scalar { num: 1, den: 1 },
            r: Scalar { num: 0, den: 1 },
            g: Scalar { num: 4, den: 5 },
            b: Scalar { num: 3, den: 10 },
            a: Scalar { num: 1, den: 1 },
        },
    ];
    let rad_stops: Vec<Stop> = vec![
        Stop {
            offset: Scalar { num: 0, den: 1 },
            r: Scalar { num: 0, den: 1 },
            g: Scalar { num: 0, den: 1 },
            b: Scalar { num: 0, den: 1 },
            a: Scalar { num: 1, den: 1 },
        },
        Stop {
            offset: Scalar { num: 1, den: 2 },
            r: Scalar { num: 0, den: 1 },
            g: Scalar { num: 0, den: 1 },
            b: Scalar { num: 0, den: 1 },
            a: Scalar { num: 0, den: 1 },
        },
    ];
    let cmds: Vec<Cmd> = vec![
        Cmd::SetSourceLinearGradient {
            x0: Scalar { num: 0, den: 1 },
            y0: Scalar { num: 0, den: 1 },
            x1: Scalar { num: 200, den: 1 },
            y1: Scalar { num: 200, den: 1 },
            stops: lin_stops,
        },
        Cmd::MaskRadialGradient {
            cx0: Scalar { num: 100, den: 1 },
            cy0: Scalar { num: 100, den: 1 },
            r0: Scalar { num: 10, den: 1 },
            cx1: Scalar { num: 100, den: 1 },
            cy1: Scalar { num: 100, den: 1 },
            r1: Scalar { num: 140, den: 1 },
            stops: rad_stops,
        },
    ];
    Demo {
        width: 200,
        height: 200,
        path: String::from_str("example_output/mask.png"),
        cmds,
    }
}

/// The inner script of the `pattern` demo: a thick vertical red line down
/// the middle, drawn on the white canvas before it becomes a pattern.
pub open spec fn pattern_setup_script(s: Seq<Cmd>) -> bool {
    s =~= seq![
        Cmd::SetSourceRgb { r: sc(1, 1), g: sc(0, 1), b: sc(0, 1) },
        Cmd::SetLineWidth { w: sc(8, 1) },
        Cmd::MoveTo { x: sc(100, 1), y: sc(0, 1) },
        Cmd::LineTo { x: sc(100, 1), y: sc(200, 1) },
        Cmd::Stroke,
    ]
}

/// The script of the `pattern` demo: paint the canvas white, then paint it
/// again through a repeating pattern built from the canvas itself after a
/// red line is drawn on it, sampled through a squeezing matrix, composed
/// with the atop operator.
pub open spec fn pattern_script(s: Seq<Cmd>) -> bool {
    &&& s.len() == 5
    &&& s[0] == (Cmd::SetSourceRgba { r: sc(1, 1), g: sc(1, 1), b: sc(1, 1), a: sc(1, 1) })
    &&& s[1] == Cmd::Paint
    &&& s[2] == (Cmd::SetOperator { op: Operator::Atop })
    &&& (s[3] matches Cmd::SetSourceCanvasPattern { setup, extend, matrix } && {
        &&& pattern_setup_script(setup@)
        &&& extend == Extend::Repeat
        &&& matrix == (Matrix {
            xx: sc(60, 1),
            yx: sc(0, 1),
            xy: sc(0, 1),
            yy: sc(1, 1),
            x0: sc(10, 1),
            y0: sc(0, 1),
        })
    })
    &&& s[4] == Cmd::Paint
}

/// Paint through a repeating canvas pattern and export the result.
pub fn pattern() -> (d: Demo)
    ensures
        d.width == 200,
        d.height == 200,
        d.path@ == "example_output/pattern.png"@,
        pattern_script(d.cmds@),
{
    let setup: Vec<Cmd> = vec![
        Cmd::SetSourceRgb {
            r: Scalar { num: 1, den: 1 },
            g: Scalar { num: 0, den: 1 },
            b: Scalar { num: 0, den: 1 },
        },
        Cmd::SetLineWidth { w: Scalar { num: 8, den: 1 } },
        Cmd::MoveTo { x: Scalar { num: 100, den: 1 }, y: Scalar { num: 0, den: 1 } },
        Cmd::LineTo { x: Scalar { num: 100, den: 1 }, y: Scalar { num: 200, den: 1 } },
        Cmd::Stroke,
    ];
    let cmds: Vec<Cmd> = vec![
        Cmd::SetSourceRgba {
            r: Scalar { num: 1, den: 1 },
            g: Scalar { num: 1, den: 1 },
            b: Scalar { num: 1, den: 1 },
            a: Scalar { num: 1, den: 1 },
        },
        Cmd::Paint,
        Cmd::SetOperator { op: Operator::Atop },
        Cmd::SetSourceCanvasPattern {
            setup,
            extend: Extend::Repeat,
            matrix: Matrix {
                xx: Scalar { num: 60, den: 1 },
                yx: Scalar { num: 0, den: 1 },
                xy: Scalar { num: 0, den: 1 },
                yy: Scalar { num: 1, den: 1 },
                x0: Scalar { num: 10, den: 1 },
                y0: Scalar { num: 0, den: 1 },
            },
        },
        Cmd::Paint,
    ];
    Demo {
        width: 200,
        height: 200,
        path: String::from_str("example_output/pattern.png"),
        cmds,
    }
}

/// The grid square of the `source2` demo in grid row `i`, column `j`
/// (both counted from 1): a 16 by 16 square whose corner sits at
/// `(20 i - 8, 20 j - 8)`.
pub open spec fn source2_grid_rect(i: int, j: int) -> Cmd {
    Cmd::Rectangle { x: sc(20 * i - 8, 1), y: sc(20 * j - 8, 1), w: sc(16, 1), h: sc(16, 1) }
}

/// The script of the `source2` demo: a 9 by 9 grid of squares filled with
/// a radial gradient, then the whole canvas filled with a striped linear
/// gradient.
pub open spec fn source2_script(s: Seq<Cmd>) -> bool {
    &&& s.len() == 86
    &&& forall|k: int| 0 <= k < 81 ==> s[k] == source2_grid_rect(k / 9 + 1, k % 9 + 1)
    &&& (s[81] matches Cmd::SetSourceRadialGradient { cx0, cy0, r0, cx1, cy1, r1, stops } && {
        &&& cx0 == sc(50, 1)
        &&& cy0 == sc(50, 1)
        &&& r0 == sc(20, 1)
        &&& cx1 == sc(100, 1)
        &&& cy1 == sc(100, 1)
        &&& r1 == sc(100, 1)
        &&& stops@ =~= seq![
            Stop { offset: sc(0, 1), r: sc(1, 1), g: sc(4, 5), b: sc(4, 5), a: sc(1, 1) },
            Stop { offset: sc(1, 1), r: sc(9, 10), g: sc(0, 1), b: sc(0, 1), a: sc(1, 1) },
        ]
    })
    &&& s[82] == Cmd::Fill
    &&& s[83] == (Cmd::Rectangle { x: sc(0, 1), y: sc(0, 1), w: sc(200, 1), h: sc(200, 1) })
    &&& (s[84] matches Cmd::SetSourceLinearGradient { x0, y0, x1, y1, stops } && {
        &&& x0 == sc(50, 1)
        &&& y0 == sc(70, 1)
        &&& x1 == sc(150, 1)
        &&& y1 == sc(130, 1)
        &&& stops@ =~= seq![
            Stop { offset: sc(0, 1), r: sc(1, 1), g: sc(1, 1), b: sc(1, 1), a: sc(0, 1) },
            Stop { offset: sc(1, 4), r: sc(0, 1), g: sc(1, 1), b: sc(0, 1), a: sc(1, 2) },
            Stop { offset: sc(1, 2), r: sc(1, 1), g: sc(1, 1), b: sc(1, 1), a: sc(0, 1) },
            Stop { offset: sc(3, 4), r: sc(0, 1), g: sc(0, 1), b: sc(1, 1), a: sc(1, 2) },
            Stop { offset: sc(1, 1), r: sc(1, 1), g: sc(1, 1), b: sc(1, 1), a: sc(0, 1) },
        ]
    })
    &&& s[85] == Cmd::Fill
}

/// Fill a grid of squares and then the whole canvas with gradient sources,
/// and export the result.
pub fn source2() -> (d: Demo)
    ensures
        d.width == 200,
        d.height == 200,
        d.path@ == "example_output/source2.png"@,
        source2_script(d.cmds@),
{
    let mut cmds: Vec<Cmd> = Vec::new();
    let mut i: usize = 1;
    while i < 10
        invariant
            1 <= i <= 10,
            cmds@.len() == (i - 1) * 9,
            forall|k: int|
                0 <= k < cmds@.len() ==> cmds@[k] == source2_grid_rect(k / 9 + 1, k % 9 + 1),
        decreases 10 - i,
    {
        let mut j: usize = 1;
        while j < 10
            invariant
                1 <= i < 10,
                1 <= j <= 10,
                cmds@.len() == (i - 1) * 9 + (j - 1),
                forall|k: int|
                    0 <= k < cmds@.len() ==> cmds@[k] == source2_grid_rect(k / 9 + 1, k % 9 + 1),
            decreases 10 - j,
        {
            cmds.push(
                Cmd::Rectangle {
                    x: Scalar { num: 20 * (i as i64) - 8, den: 1 },
                    y: Scalar { num: 20 * (j as i64) - 8, den: 1 },
                    w: Scalar { num: 16, den: 1 },
                    h: Scalar { num: 16, den: 1 },
                },
            );
            proof {
                let n = cmds@.len() - 1;
                vstd::arithmetic::div_mod::lemma_fundamental_div_mod_converse(
                    n,
                    9,
                    i - 1,
                    j - 1,
                );
                assert(cmds@[n] == source2_grid_rect(n / 9 + 1, n % 9 + 1));
            }
            j = j + 1;
        }
        i = i + 1;
    }
    let rad_stops: Vec<Stop> = vec![
        Stop {
            offset: Scalar { num: 0, den: 1 },
            r: Scalar { num: 1, den: 1 },
            g: Scalar { num: 4, den: 5 },
            b: Scalar { num: 4, den: 5 },
            a: Scalar { num: 1, den: 1 },
        },
        Stop {
            offset: Scalar { num: 1, den: 1 },
            r: Scalar { num: 9, den: 10 },
            g: Scalar { num: 0, den: 1 },
            b: Scalar { num: 0, den: 1 },
            a: Scalar { num: 1, den: 1 },
        },
    ];
    cmds.push(
        Cmd::SetSourceRadialGradient {
            cx0: Scalar { num: 50, den: 1 },
            cy0: Scalar { num: 50, den: 1 },
            r0: Scalar { num: 20, den: 1 },
            cx1: Scalar { num: 100, den: 1 },
            cy1: Scalar { num: 100, den: 1 },
            r1: Scalar { num: 100, den: 1 },
            stops: rad_stops,
        },
    );
    cmds.push(Cmd::Fill);
    cmds.push(
        Cmd::Rectangle {
            x: Scalar { num: 0, den: 1 },
            y: Scalar { num: 0, den: 1 },
            w: Scalar { num: 200, den: 1 },
            h: Scalar { num: 200, den: 1 },
        },
    );
    let lin_stops: Vec<Stop> = vec![
        Stop {
            offset: Scalar { num: 0, den: 1 },
            r: Scalar { num: 1, den: 1 },
            g: Scalar { num: 1, den: 1 },
            b: Scalar { num: 1, den: 1 },
            a: Scalar { num: 0, den: 1 },
        },
        Stop {
            offset: Scalar { num: 1, den: 4 },
            r: Scalar { num: 0, den: 1 },
            g: Scalar { num: 1, den: 1 },
            b: Scalar { num: 0, den: 1 },
            a: Scalar { num: 1, den: 2 },
        },
        Stop {
            offset: Scalar { num: 1, den: 2 },
            r: Scalar { num: 1, den: 1 },
            g: Scalar { num: 1, den: 1 },
            b: Scalar { num: 1, den: 1 },
            a: Scalar { num: 0, den: 1 },
        },
        Stop {
            offset: Scalar { num: 3, den: 4 },
            r: Scalar { num: 0, den: 1 },
            g: Scalar { num: 0, den: 1 },
            b: Scalar { num: 1, den: 1 },
            a: Scalar { num: 1, den: 2 },
        },
        Stop {
            offset: Scalar { num: 1, den: 1 },
            r: Scalar { num: 1, den: 1 },
            g: Scalar { num: 1, den: 1 },
            b: Scalar { num: 1, den: 1 },
            a: Scalar { num: 0, den: 1 },
        },
    ];
    cmds.push(
        Cmd::SetSourceLinearGradient {
            x0: Scalar { num: 50, den: 1 },
            y0: Scalar { num: 70, den: 1 },
            x1: Scalar { num: 150, den: 1 },
            y1: Scalar { num: 130, den: 1 },
            stops: lin_stops,
        },
    );
    cmds.push(Cmd::Fill);
    Demo {
        width: 200,
        height: 200,
        path: String::from_str("example_output/source2.png"),
        cmds,
    }
}

/// Every square of the source2 grid lies on the canvas: each is a 16 by 16
/// whole-pixel square whose corner sits between 12 and 172 on both axes,
/// so corner plus extent stays within the 200-pixel canvas.
pub proof fn lemma_source2_grid_on_canvas(s: Seq<Cmd>, k: int)
    requires
        source2_script(s),
        0 <= k < 81,
    ensures
        s[k] matches Cmd::Rectangle { x, y, w, h } && {
            &&& x.den == 1 && y.den == 1
            &&& 12 <= x.num <= 172 && 12 <= y.num <= 172
            &&& w == sc(16, 1) && h == sc(16, 1)
            &&& x.num + 16 <= 200 && y.num + 16 <= 200
        },
{
    vstd::arithmetic::div_mod::lemma_fundamental_div_mod(k, 9);
    vstd::arithmetic::div_mod::lemma_mod_bound(k, 9);
    let q = k / 9;
    let r = k % 9;
    assert(0 <= q <= 8) by (nonlinear_arith)
        requires
            k == 9 * q + r,
            0 <= r < 9,
            0 <= k < 81,
    ;
    assert(0 <= r <= 8);
    assert(s[k] == source2_grid_rect(q + 1, r + 1));
}

/// A straight segment whose target lies on the canvas: both coordinates
/// are in millipixels and within `[0, 200)` pixels.
pub open spec fn canvas_line_to(c: Cmd) -> bool {
    c matches Cmd::LineTo { x, y } && {
        &&& x.den == 1000
        &&& 0 <= x.num < 200000
        &&& y.den == 1000
        &&& 0 <= y.num < 200000
    }
}

/// The script of the random-lines demo: paint the canvas white, then
/// stroke a black chain of eighty straight segments whose targets lie on
/// the canvas. The targets are the only part left open: they come from a
/// random source.
pub open spec fn rand_lines_script(s: Seq<Cmd>) -> bool {
    &&& s.len() == 84
    &&& s[0] == (Cmd::SetSourceRgb { r: sc(1, 1), g: sc(1, 1), b: sc(1, 1) })
    &&& s[1] == Cmd::Paint
    &&& s[2] == (Cmd::SetSourceRgb { r: sc(0, 1), g: sc(0, 1), b: sc(0, 1) })
    &&& forall|k: int| 3 <= k < 83 ==> canvas_line_to(s[k])
    &&& s[83] == Cmd::Stroke
}

/// Draw a chain of eighty random linked lines, black on white, and export
/// it. Whatever the random source returns, the script satisfies
/// `rand_lines_script`: the chain stays on the canvas and is stroked in a
/// color different from the background.
pub fn rand_lines() -> (d: Demo)
    ensures
        d.width == 200,
        d.height == 200,
        d.path@ == "example_output/rand_lines.png"@,
        rand_lines_script(d.cmds@),
{
    let mut cmds: Vec<Cmd> = Vec::new();
    cmds.push(
        Cmd::SetSourceRgb {
            r: Scalar { num: 1, den: 1 },
            g: Scalar { num: 1, den: 1 },
            b: Scalar { num: 1, den: 1 },
        },
    );
    cmds.push(Cmd::Paint);
    cmds.push(
        Cmd::SetSourceRgb {
            r: Scalar { num: 0, den: 1 },
            g: Scalar { num: 0, den: 1 },
            b: Scalar { num: 0, den: 1 },
        },
    );
    let mut n: usize = 0;
    while n < 80
        invariant
            n <= 80,
            cmds@.len() == 3 + n,
            cmds@[0] == (Cmd::SetSourceRgb { r: sc(1, 1), g: sc(1, 1), b: sc(1, 1) }),
            cmds@[1] == Cmd::Paint,
            cmds@[2] == (Cmd::SetSourceRgb { r: sc(0, 1), g: sc(0, 1), b: sc(0, 1) }),
            forall|k: int| 3 <= k < cmds@.len() ==> canvas_line_to(cmds@[k]),
        decreases 80 - n,
    {
        let x = (crate::rng::random_u64() % 200000) as i64;
        let y = (crate::rng::random_u64() % 200000) as i64;
        cmds.push(Cmd::LineTo { x: Scalar { num: x, den: 1000 }, y: Scalar { num: y, den: 1000 } });
        n = n + 1;
    }
    cmds.push(Cmd::Stroke);
    Demo {
        width: 200,
        height: 200,
        path: String::from_str("example_output/rand_lines.png"),
        cmds,
    }
}

/// Whatever the random source returned, the random-lines script draws:
/// it paints the canvas white, then strokes a nonempty chain of segments
/// — every one of whose targets lies on the canvas — in black, a color
/// different from the background coat.
pub proof fn lemma_rand_lines_always_draws(s: Seq<Cmd>)
    requires
        rand_lines_script(s),
    ensures
        s[1] == Cmd::Paint,
        s[s.len() - 1] == Cmd::Stroke,
        canvas_line_to(s[3]),
        forall|k: int| 3 <= k < s.len() - 1 ==> canvas_line_to(s[k]),
        s[2] != s[0],
{
}

/// The script of the `basics` demo, given the measured extents of the
/// word it shows: paint the canvas black, stroke a teal frame along its
/// border, then show the word "cairo" in a lavender bold Georgia of size
/// forty, centered by the measurements.
pub open spec fn basics_script(s: Seq<Cmd>, m: TextMetrics) -> bool {
    &&& s.len() == 11
    &&& s[0] == (Cmd::SetSourceRgb { r: sc(0, 1), g: sc(0, 1), b: sc(0, 1) })
    &&& s[1] == Cmd::Paint
    &&& s[2] == (Cmd::SetLineWidth { w: sc(8, 1) })
    &&& s[3] == (Cmd::SetSourceRgb { r: sc(26, 255), g: sc(188, 255), b: sc(156, 255) })
    &&& s[4] == (Cmd::Rectangle { x: sc(0, 1), y: sc(0, 1), w: sc(200, 1), h: sc(200, 1) })
    &&& s[5] == Cmd::Stroke
    &&& s[6] == (Cmd::SetSourceRgb { r: sc(204, 255), g: sc(174, 255), b: sc(249, 255) })
    &&& (s[7] matches Cmd::SelectFontFace { family, slant, weight } && {
        &&& family@ == "Georgia"@
        &&& slant == FontSlant::Normal
        &&& weight == FontWeight::Bold
    })
    &&& s[8] == (Cmd::SetFontSize { size: sc(40, 1) })
    &&& s[9] == (Cmd::MoveTo { x: centered_x_spec(200, m), y: centered_y_spec(200, m) })
    &&& (s[10] matches Cmd::ShowText { text } && text@ == "cairo"@)
}

/// Frame the canvas and center the word "cairo" on it, placed by the
/// measured extents handed in, and export the result.
pub fn basics(m: &TextMetrics) -> (d: Demo)
    requires
        m.wf(),
    ensures
        d.width == 200,
        d.height == 200,
        d.path@ == "example_output/basics.png"@,
        basics_script(d.cmds@, *m),
{
    let (cx, cy) = centered_origin(200, 200, m);
    let cmds: Vec<Cmd> = vec![
        Cmd::SetSourceRgb {
            r: Scalar { num: 0, den: 1 },
            g: Scalar { num: 0, den: 1 },
            b: Scalar { num: 0, den: 1 },
        },
        Cmd::Paint,
        Cmd::SetLineWidth { w: Scalar { num: 8, den: 1 } },
        Cmd::SetSourceRgb {
            r: Scalar { num: 26, den: 255 },
            g: Scalar { num: 188, den: 255 },
            b: Scalar { num: 156, den: 255 },
        },
        Cmd::Rectangle {
            x: Scalar { num: 0, den: 1 },
            y: Scalar { num: 0, den: 1 },
            w: Scalar { num: 200, den: 1 },
            h: Scalar { num: 200, den: 1 },
        },
        Cmd::Stroke,
        Cmd::SetSourceRgb {
            r: Scalar { num: 204, den: 255 },
            g: Scalar { num: 174, den: 255 },
            b: Scalar { num: 249, den: 255 },
        },
        Cmd::SelectFontFace {
            family: String::from_str("Georgia"),
            slant: FontSlant::Normal,
            weight: FontWeight::Bold,
        },
        Cmd::SetFontSize { size: Scalar { num: 40, den: 1 } },
        Cmd::MoveTo { x: cx, y: cy },
        Cmd::ShowText { text: String::from_str("cairo") },
    ];
    Demo {
        width: 200,
        height: 200,
        path: String::from_str("example_output/basics.png"),
        cmds,
    }
}

/// The font of the `basics` demo, for whoever must measure its word
/// before building the script: the family name, and its slant and weight.
pub fn basics_font() -> (f: (String, FontSlant, FontWeight))
    ensures
        f.0@ == "Georgia"@,
        f.1 == FontSlant::Normal,
        f.2 == FontWeight::Bold,
{
    (String::from_str("Georgia"), FontSlant::Normal, FontWeight::Bold)
}

/// The font size of the `basics` demo.
pub fn basics_font_size() -> (s: Scalar)
    ensures
        s == sc(40, 1),
{
    Scalar { num: 40, den: 1 }
}

/// The word the `basics` demo shows.
pub fn basics_text() -> (t: String)
    ensures
        t@ == "cairo"@,
{
    String::from_str("cairo")
}

} // verus!
