//! The drawing context as a state machine.
//!
//! A context holds the transient drawing state that the commands mutate:
//! the pen position, whether the path has pending segments, the source,
//! line width, compositing operator, font settings, and the scale and
//! translate transform. `step` is the exact transition function; `run`
//! folds a whole script. The pen is tracked exactly where the script
//! determines it exactly, and becomes `Somewhere` after an arc or shown
//! text, whose endpoint the model does not compute.

use vstd::prelude::*;

use crate::cmd::{Cmd, FontSlant, FontWeight, Operator};
use crate::demos::scale_script;
use crate::scalar::{add_rep, fits_add, fits_mul, mul_rep, rat_add, rat_is_int, sc, Scalar};

verus! {

/// Where the pen stands.
#[derive(Clone, Copy, PartialEq, Eq, Structural, Debug)]
pub enum Pen {
    /// No current point.
    Nowhere,
    /// At an exactly tracked point.
    At { x: Scalar, y: Scalar },
    /// At a point the model does not track (after an arc or shown text).
    Somewhere,
}

/// What kind of source the context draws with. A solid source carries its
/// exact color; the others are tracked by kind.
#[derive(Clone, Copy, PartialEq, Eq, Structural, Debug)]
pub enum SourceTag {
    Solid { r: Scalar, g: Scalar, b: Scalar, a: Scalar },
    LinearGradient,
    RadialGradient,
    CanvasPattern,
}

/// The scale-and-translate transform from user space to device space:
/// `(x, y)` maps to `(sx * x + tx, sy * y + ty)`.
#[derive(Clone, Copy, PartialEq, Eq, Structural, Debug)]
pub struct Xform {
    pub sx: Scalar,
    pub sy: Scalar,
    pub tx: Scalar,
    pub ty: Scalar,
}

/// The drawing state of a context.
#[derive(Clone, Copy, PartialEq, Eq, Structural, Debug)]
pub struct State {
    /// The pen position.
    pub pen: Pen,
    /// Where the current sub-path began; `ClosePath` returns the pen there.
    pub start: Pen,
    /// Whether the path has pending segments for `Fill` or `Stroke`.
    pub has_path: bool,
    /// The width `Stroke` draws with.
    pub line_width: Scalar,
    /// The compositing operator.
    pub op: Operator,
    /// The current source.
    pub source: SourceTag,
    /// Slant of the selected font face.
    pub slant: FontSlant,
    /// Weight of the selected font face.
    pub weight: FontWeight,
    /// The font size.
    pub font_size: Scalar,
    /// The current transform.
    pub transform: Xform,
}

/// The state of a freshly bound context: no point, no pending path, an
/// opaque black source, line width two, the over operator, a normal font
/// of size ten, and the identity transform.
pub open spec fn init_state() -> State {
    State {
        pen: Pen::Nowhere,
        start: Pen::Nowhere,
        has_path: false,
        line_width: sc(2, 1),
        op: Operator::Over,
        source: SourceTag::Solid { r: sc(0, 1), g: sc(0, 1), b: sc(0, 1), a: sc(1, 1) },
        slant: FontSlant::Normal,
        weight: FontWeight::Normal,
        font_size: sc(10, 1),
        transform: Xform { sx: sc(1, 1), sy: sc(1, 1), tx: sc(0, 1), ty: sc(0, 1) },
    }
}

/// How one command changes the state.
pub open spec fn step(s: State, c: Cmd) -> State {
    match c {
        Cmd::SetSourceRgb { r, g, b } => State {
            source: SourceTag::Solid { r, g, b, a: sc(1, 1) },
            ..s
        },
        Cmd::SetSourceRgba { r, g, b, a } => State { source: SourceTag::Solid { r, g, b, a }, ..s },
        Cmd::SetSourceLinearGradient { .. } => State { source: SourceTag::LinearGradient, ..s },
        Cmd::SetSourceRadialGradient { .. } => State { source: SourceTag::RadialGradient, ..s },
        Cmd::SetSourceCanvasPattern { .. } => State { source: SourceTag::CanvasPattern, ..s },
        Cmd::SetLineWidth { w } => State { line_width: w, ..s },
        Cmd::SetOperator { op } => State { op, ..s },
        Cmd::MoveTo { x, y } => State { pen: Pen::At { x, y }, start: Pen::At { x, y }, ..s },
        Cmd::LineTo { x, y } => State {
            pen: Pen::At { x, y },
            start: if s.pen is Nowhere {
                Pen::At { x, y }
            } else {
                s.start
            },
            has_path: if s.pen is Nowhere {
                s.has_path
            } else {
                true
            },
            ..s
        },
        Cmd::RelLineTo { dx, dy } => State {
            pen: match s.pen {
                Pen::At { x, y } => Pen::At { x: add_rep(x, dx), y: add_rep(y, dy) },
                p => p,
            },
            has_path: if s.pen is Nowhere {
                s.has_path
            } else {
                true
            },
            ..s
        },
        Cmd::RelCurveTo { dx3, dy3, .. } => State {
            pen: match s.pen {
                Pen::At { x, y } => Pen::At { x: add_rep(x, dx3), y: add_rep(y, dy3) },
                p => p,
            },
            has_path: if s.pen is Nowhere {
                s.has_path
            } else {
                true
            },
            ..s
        },
        Cmd::Arc { .. } => State {
            pen: Pen::Somewhere,
            start: if s.pen is Nowhere {
                Pen::Somewhere
            } else {
                s.start
            },
            has_path: true,
            ..s
        },
        Cmd::Rectangle { x, y, .. } => State {
            pen: Pen::At { x, y },
            start: Pen::At { x, y },
            has_path: true,
            ..s
        },
        Cmd::ClosePath => State { pen: s.start, ..s },
        Cmd::Fill => State { pen: Pen::Nowhere, start: Pen::Nowhere, has_path: false, ..s },
        Cmd::Stroke => State { pen: Pen::Nowhere, start: Pen::Nowhere, has_path: false, ..s },
        Cmd::Paint => s,
        Cmd::MaskRadialGradient { .. } => s,
        Cmd::SelectFontFace { slant, weight, .. } => State { slant, weight, ..s },
        Cmd::SetFontSize { size } => State { font_size: size, ..s },
        Cmd::ShowText { .. } => State { pen: Pen::Somewhere, ..s },
        Cmd::Scale { sx, sy } => State {
            transform: Xform {
                sx: mul_rep(s.transform.sx, sx),
                sy: mul_rep(s.transform.sy, sy),
                tx: s.transform.tx,
                ty: s.transform.ty,
            },
            ..s
        },
        Cmd::Translate { tx, ty } => State {
            transform: Xform {
                sx: s.transform.sx,
                sy: s.transform.sy,
                tx: add_rep(s.transform.tx, mul_rep(s.transform.sx, tx)),
                ty: add_rep(s.transform.ty, mul_rep(s.transform.sy, ty)),
            },
            ..s
        },
    }
}

/// The arithmetic a step performs stays within `i64` and on well-formed
/// scalars, so the executable step computes exactly `step`.
pub open spec fn step_ok(s: State, c: Cmd) -> bool {
    match c {
        Cmd::RelLineTo { dx, dy } => s.pen matches Pen::At { x, y } ==> {
            &&& x.wf() && y.wf() && dx.wf() && dy.wf()
            &&& fits_add(x, dx)
            &&& fits_add(y, dy)
        },
        Cmd::RelCurveTo { dx3, dy3, .. } => s.pen matches Pen::At { x, y } ==> {
            &&& x.wf() && y.wf() && dx3.wf() && dy3.wf()
            &&& fits_add(x, dx3)
            &&& fits_add(y, dy3)
        },
        Cmd::Scale { sx, sy } => {
            &&& s.transform.sx.wf() && s.transform.sy.wf() && sx.wf() && sy.wf()
            &&& fits_mul(s.transform.sx, sx)
            &&& fits_mul(s.transform.sy, sy)
        },
        Cmd::Translate { tx, ty } => {
            &&& s.transform.sx.wf() && s.transform.sy.wf() && tx.wf() && ty.wf()
            &&& s.transform.tx.wf() && s.transform.ty.wf()
            &&& fits_mul(s.transform.sx, tx)
            &&& fits_mul(s.transform.sy, ty)
            &&& fits_add(s.transform.tx, mul_rep(s.transform.sx, tx))
            &&& fits_add(s.transform.ty, mul_rep(s.transform.sy, ty))
        },
        _ => true,
    }
}

/// The state after running the script from index `i` onward.
pub open spec fn run_from(s: State, cmds: Seq<Cmd>, i: int) -> State
    decreases cmds.len() - i,
{
    if 0 <= i < cmds.len() {
        run_from(step(s, cmds[i]), cmds, i + 1)
    } else {
        s
    }
}

/// Every step of the script from index `i` onward stays within `i64`.
pub open spec fn run_ok_from(s: State, cmds: Seq<Cmd>, i: int) -> bool
    decreases cmds.len() - i,
{
    if 0 <= i < cmds.len() {
        step_ok(s, cmds[i]) && run_ok_from(step(s, cmds[i]), cmds, i + 1)
    } else {
        true
    }
}

/// The state a freshly bound context is in after a whole script.
pub open spec fn run(cmds: Seq<Cmd>) -> State {
    run_from(init_state(), cmds, 0)
}

impl State {
    /// The state of a freshly bound context.
    pub fn initial() -> (s: State)
        ensures
            s == init_state(),
    {
        State {
            pen: Pen::Nowhere,
            start: Pen::Nowhere,
            has_path: false,
            line_width: Scalar { num: 2, den: 1 },
            op: Operator::Over,
            source: SourceTag::Solid {
                r: Scalar { num: 0, den: 1 },
                g: Scalar { num: 0, den: 1 },
                b: Scalar { num: 0, den: 1 },
                a: Scalar { num: 1, den: 1 },
            },
            slant: FontSlant::Normal,
            weight: FontWeight::Normal,
            font_size: Scalar { num: 10, den: 1 },
            transform: Xform {
                sx: Scalar { num: 1, den: 1 },
                sy: Scalar { num: 1, den: 1 },
                tx: Scalar { num: 0, den: 1 },
                ty: Scalar { num: 0, den: 1 },
            },
        }
    }
}

/// Apply one command to the state.
pub fn step_cmd(s: State, c: &Cmd) -> (r: State)
    requires
        step_ok(s, *c),
    ensures
        r == step(s, *c),
{
    match c {
        Cmd::SetSourceRgb { r, g, b } => State {
            source: SourceTag::Solid { r: *r, g: *g, b: *b, a: Scalar { num: 1, den: 1 } },
            ..s
        },
        Cmd::SetSourceRgba { r, g, b, a } => State {
            source: SourceTag::Solid { r: *r, g: *g, b: *b, a: *a },
            ..s
        },
        Cmd::SetSourceLinearGradient { .. } => State { source: SourceTag::LinearGradient, ..s },
        Cmd::SetSourceRadialGradient { .. } => State { source: SourceTag::RadialGradient, ..s },
        Cmd::SetSourceCanvasPattern { .. } => State { source: SourceTag::CanvasPattern, ..s },
        Cmd::SetLineWidth { w } => State { line_width: *w, ..s },
        Cmd::SetOperator { op } => State { op: *op, ..s },
        Cmd::MoveTo { x, y } => State {
            pen: Pen::At { x: *x, y: *y },
            start: Pen::At { x: *x, y: *y },
            ..s
        },
        Cmd::LineTo { x, y } => {
            let fresh = matches!(s.pen, Pen::Nowhere);
            State {
                pen: Pen::At { x: *x, y: *y },
                start: if fresh {
                    Pen::At { x: *x, y: *y }
                } else {
                    s.start
                },
                has_path: if fresh {
                    s.has_path
                } else {
                    true
                },
                ..s
            }
        },
        Cmd::RelLineTo { dx, dy } => {
            let fresh = matches!(s.pen, Pen::Nowhere);
            State {
                pen: match s.pen {
                    Pen::At { x, y } => Pen::At { x: x.add(*dx), y: y.add(*dy) },
                    p => p,
                },
                has_path: if fresh {
                    s.has_path
                } else {
                    true
                },
                ..s
            }
        },
        Cmd::RelCurveTo { dx3, dy3, .. } => {
            let fresh = matches!(s.pen, Pen::Nowhere);
            State {
                pen: match s.pen {
                    Pen::At { x, y } => Pen::At { x: x.add(*dx3), y: y.add(*dy3) },
                    p => p,
                },
                has_path: if fresh {
                    s.has_path
                } else {
                    true
                },
                ..s
            }
        },
        Cmd::Arc { .. } => State {
            pen: Pen::Somewhere,
            start: if matches!(s.pen, Pen::Nowhere) {
                Pen::Somewhere
            } else {
                s.start
            },
            has_path: true,
            ..s
        },
        Cmd::Rectangle { x, y, .. } => State {
            pen: Pen::At { x: *x, y: *y },
            start: Pen::At { x: *x, y: *y },
            has_path: true,
            ..s
        },
        Cmd::ClosePath => State { pen: s.start, ..s },
        Cmd::Fill => State { pen: Pen::Nowhere, start: Pen::Nowhere, has_path: false, ..s },
        Cmd::Stroke => State { pen: Pen::Nowhere, start: Pen::Nowhere, has_path: false, ..s },
        Cmd::Paint => s,
        Cmd::MaskRadialGradient { .. } => s,
        Cmd::SelectFontFace { slant, weight, .. } => State {
            slant: *slant,
            weight: *weight,
            ..s
        },
        Cmd::SetFontSize { size } => State { font_size: *size, ..s },
        Cmd::ShowText { .. } => State { pen: Pen::Somewhere, ..s },
        Cmd::Scale { sx, sy } => State {
            transform: Xform {
                sx: s.transform.sx.mul(*sx),
                sy: s.transform.sy.mul(*sy),
                tx: s.transform.tx,
                ty: s.transform.ty,
            },
            ..s
        },
        Cmd::Translate { tx, ty } => State {
            transform: Xform {
                sx: s.transform.sx,
                sy: s.transform.sy,
                tx: s.transform.tx.add(s.transform.sx.mul(*tx)),
                ty: s.transform.ty.add(s.transform.sy.mul(*ty)),
            },
            ..s
        },
    }
}

/// Run a whole script from the fresh-context state.
pub fn run_script(cmds: &Vec<Cmd>) -> (r: State)
    requires
        run_ok_from(init_state(), cmds@, 0),
    ensures
        r == run(cmds@),
{
    let mut st = State::initial();
    let mut i: usize = 0;
    while i < cmds.len()
        invariant
            i <= cmds@.len(),
            run_ok_from(st, cmds@, i as int),
            run_from(st, cmds@, i as int) == run(cmds@),
        decreases cmds@.len() - i,
    {
        st = step_cmd(st, &cmds[i]);
        i = i + 1;
    }
    st
}

/// Showing text moves only the pen: it leaves the transform and the line
/// width (and every other setting) as they were.
pub proof fn lemma_show_text_keeps_settings(s: State, c: Cmd)
    requires
        c matches Cmd::ShowText { .. },
    ensures
        step(s, c).transform == s.transform,
        step(s, c).line_width == s.line_width,
        step(s, c).source == s.source,
        step(s, c).font_size == s.font_size,
{
}

/// Fill and stroke consume the path: afterwards the path is empty and
/// there is no current point.
pub proof fn lemma_paint_ops_clear_path(s: State, c: Cmd)
    requires
        c == Cmd::Fill || c == Cmd::Stroke,
    ensures
        !step(s, c).has_path,
        step(s, c).pen == Pen::Nowhere,
{
}

/// Closing the path returns the pen to the start of the current sub-path,
/// wherever drawing has taken it since.
pub proof fn lemma_close_path_returns_to_start(s: State)
    ensures
        step(s, Cmd::ClosePath).pen == s.start,
{
}

/// The scale demo's transform does what its comments promise: after the
/// scale and the translation, the working frame is 150 device pixels per
/// user unit with its origin at device pixel 25, so the unit square maps
/// to the centered square from pixel 25 to pixel 175 on both axes — and
/// the final fill has consumed the path.
#[verifier::rlimit(60)]
pub proof fn lemma_scale_demo_frame(s: Seq<Cmd>)
    requires
        scale_script(s),
    ensures
        run(s).transform.sx == sc(150, 1),
        run(s).transform.sy == sc(150, 1),
        rat_is_int(run(s).transform.tx.val(), 25),
        rat_is_int(run(s).transform.ty.val(), 25),
        rat_is_int(rat_add(run(s).transform.sx.val(), run(s).transform.tx.val()), 175),
        rat_is_int(rat_add(run(s).transform.sy.val(), run(s).transform.ty.val()), 175),
        !run(s).has_path,
        run_ok_from(init_state(), s, 0),
{
    let c0 = Cmd::Scale { sx: sc(150, 1), sy: sc(150, 1) };
    let c1 = Cmd::Translate { tx: sc(1, 6), ty: sc(1, 6) };
    let c2 = Cmd::Rectangle { x: sc(0, 1), y: sc(0, 1), w: sc(1, 1), h: sc(1, 1) };
    let c3 = Cmd::SetSourceRgb { r: sc(1, 1), g: sc(1, 1), b: sc(0, 1) };
    let c4 = Cmd::Fill;
    let st0 = init_state();
    let st1 = step(st0, c0);
    let st2 = step(st1, c1);
    let st3 = step(st2, c2);
    let st4 = step(st3, c3);
    let st5 = step(st4, c4);
    assert(run_from(st0, s, 0) == run_from(step(st0, s[0]), s, 1));
    assert(step(st0, s[0]) == st1);
    assert(run_from(st1, s, 1) == run_from(step(st1, s[1]), s, 2));
    assert(step(st1, s[1]) == st2);
    assert(run_from(st2, s, 2) == run_from(step(st2, s[2]), s, 3));
    assert(step(st2, s[2]) == st3);
    assert(run_from(st3, s, 3) == run_from(step(st3, s[3]), s, 4));
    assert(step(st3, s[3]) == st4);
    assert(run_from(st4, s, 4) == run_from(step(st4, s[4]), s, 5));
    assert(step(st4, s[4]) == st5);
    assert(run_from(st5, s, 5) == st5);
    assert(st0.transform.sx.num * sc(150, 1).num == 150) by (nonlinear_arith)
        requires
            st0.transform.sx.num == 1i64,
            sc(150, 1).num == 150i64,
    ;
    assert(st0.transform.sx.den * sc(150, 1).den == 1) by (nonlinear_arith)
        requires
            st0.transform.sx.den == 1i64,
            sc(150, 1).den == 1i64,
    ;
    assert(st0.transform.sy.num * sc(150, 1).num == 150) by (nonlinear_arith)
        requires
            st0.transform.sy.num == 1i64,
            sc(150, 1).num == 150i64,
    ;
    assert(st0.transform.sy.den * sc(150, 1).den == 1) by (nonlinear_arith)
        requires
            st0.transform.sy.den == 1i64,
            sc(150, 1).den == 1i64,
    ;
    assert(st1.transform == (Xform { sx: sc(150, 1), sy: sc(150, 1), tx: sc(0, 1), ty: sc(0, 1) }));
    assert(st1.transform.sx.num * sc(1, 6).num == 150) by (nonlinear_arith)
        requires
            st1.transform.sx.num == 150i64,
            sc(1, 6).num == 1i64,
    ;
    assert(st1.transform.sx.den * sc(1, 6).den == 6) by (nonlinear_arith)
        requires
            st1.transform.sx.den == 1i64,
            sc(1, 6).den == 6i64,
    ;
    assert(st1.transform.sy.num * sc(1, 6).num == 150) by (nonlinear_arith)
        requires
            st1.transform.sy.num == 150i64,
            sc(1, 6).num == 1i64,
    ;
    assert(st1.transform.sy.den * sc(1, 6).den == 6) by (nonlinear_arith)
        requires
            st1.transform.sy.den == 1i64,
            sc(1, 6).den == 6i64,
    ;
    let mx = mul_rep(st1.transform.sx, sc(1, 6));
    let my = mul_rep(st1.transform.sy, sc(1, 6));
    assert(mx == sc(150, 6));
    assert(my == sc(150, 6));
    assert(st1.transform.tx.num * mx.den == 0) by (nonlinear_arith)
        requires
            st1.transform.tx.num == 0i64,
            mx.den == 6i64,
    ;
    assert(mx.num * st1.transform.tx.den == 150) by (nonlinear_arith)
        requires
            mx.num == 150i64,
            st1.transform.tx.den == 1i64,
    ;
    assert(st1.transform.tx.den * mx.den == 6) by (nonlinear_arith)
        requires
            st1.transform.tx.den == 1i64,
            mx.den == 6i64,
    ;
    assert(st1.transform.ty.num * my.den == 0) by (nonlinear_arith)
        requires
            st1.transform.ty.num == 0i64,
            my.den == 6i64,
    ;
    assert(my.num * st1.transform.ty.den == 150) by (nonlinear_arith)
        requires
            my.num == 150i64,
            st1.transform.ty.den == 1i64,
    ;
    assert(st1.transform.ty.den * my.den == 6) by (nonlinear_arith)
        requires
            st1.transform.ty.den == 1i64,
            my.den == 6i64,
    ;
    assert(st2.transform == (Xform {
        sx: sc(150, 1),
        sy: sc(150, 1),
        tx: sc(150, 6),
        ty: sc(150, 6),
    }));
    assert(st5.transform == st2.transform);
    assert(!st5.has_path);
    assert(run(s) == st5);
    let v0 = run(s).transform.sx.val();
    let v1 = run(s).transform.tx.val();
    let v2 = run(s).transform.sy.val();
    let v3 = run(s).transform.ty.val();
    assert(v0.0 * v1.1 == 900) by (nonlinear_arith)
        requires
            v0.0 == 150,
            v1.1 == 6,
    ;
    assert(v1.0 * v0.1 == 150) by (nonlinear_arith)
        requires
            v1.0 == 150,
            v0.1 == 1,
    ;
    assert(v0.1 * v1.1 == 6) by (nonlinear_arith)
        requires
            v0.1 == 1,
            v1.1 == 6,
    ;
    assert(v2.0 * v3.1 == 900) by (nonlinear_arith)
        requires
            v2.0 == 150,
            v3.1 == 6,
    ;
    assert(v3.0 * v2.1 == 150) by (nonlinear_arith)
        requires
            v3.0 == 150,
            v2.1 == 1,
    ;
    assert(v2.1 * v3.1 == 6) by (nonlinear_arith)
        requires
            v2.1 == 1,
            v3.1 == 6,
    ;
    assert(step_ok(st0, s[0]));
    assert(step_ok(st1, s[1]));
    assert(step_ok(st2, s[2]));
    assert(step_ok(st3, s[3]));
    assert(step_ok(st4, s[4]));
    assert(run_ok_from(st5, s, 5));
    assert(run_ok_from(st4, s, 4));
    assert(run_ok_from(st3, s, 3));
    assert(run_ok_from(st2, s, 2));
    assert(run_ok_from(st1, s, 1));
    assert(run_ok_from(st0, s, 0));
}

} // verus!
