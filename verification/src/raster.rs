//! The pixel effect of the solid-color script subset.
//!
//! For scripts built from solid opaque sources, axis-aligned rectangles,
//! `Fill` and `Paint`, the color of every pixel is fully determined: a
//! pixel belongs to a rectangle when the rectangle contains the pixel's
//! center, a fill colors the pixels of its pending rectangles, a paint
//! colors every pixel, and later coats win. `pixel_after` is that
//! semantics; `solid_pixel` computes it.

use vstd::prelude::*;

use crate::cmd::Cmd;
use crate::demos::{paint_script, principle_script};
use crate::scalar::{sc, Scalar};

verus! {

/// An opaque solid color.
#[derive(Clone, Copy, PartialEq, Eq, Structural, Debug)]
pub struct Rgb {
    pub r: Scalar,
    pub g: Scalar,
    pub b: Scalar,
}

/// An axis-aligned rectangle: corner `(x, y)`, extent `(w, h)`.
#[derive(Clone, Copy, PartialEq, Eq, Structural, Debug)]
pub struct Rect {
    pub x: Scalar,
    pub y: Scalar,
    pub w: Scalar,
    pub h: Scalar,
}

/// The rectangle contains the center of pixel `(px, py)`: on each axis,
/// the corner is at most the center `px + 1/2`, and the center is
/// strictly before corner plus extent. Cross-multiplied, since the
/// scalars are rationals with positive denominators.
pub open spec fn rect_covers(rc: Rect, px: int, py: int) -> bool {
    &&& 2 * rc.x.num <= (2 * px + 1) * rc.x.den
    &&& (2 * px + 1) * (rc.x.den * rc.w.den) < 2 * (rc.x.num * rc.w.den + rc.w.num * rc.x.den)
    &&& 2 * rc.y.num <= (2 * py + 1) * rc.y.den
    &&& (2 * py + 1) * (rc.y.den * rc.h.den) < 2 * (rc.y.num * rc.h.den + rc.h.num * rc.y.den)
}

/// What one pixel has seen so far: the current source, the pending
/// rectangles, and the pixel's color — `None` while untouched.
pub struct PixState {
    pub source: Rgb,
    pub rects: Seq<Rect>,
    pub pix: Option<Rgb>,
}

/// The commands whose pixel effect this model gives exactly.
pub open spec fn solid_cmd(c: Cmd) -> bool {
    ||| c matches Cmd::SetSourceRgb { .. }
    ||| c matches Cmd::Rectangle { .. }
    ||| c matches Cmd::Fill
    ||| c matches Cmd::Paint
}

/// The whole script stays in the solid subset.
pub open spec fn solid_script(s: Seq<Cmd>) -> bool {
    forall|i: int| 0 <= i < s.len() ==> solid_cmd(s[i])
}

/// A fresh canvas at one pixel: black source (the context default), no
/// pending rectangles, the pixel untouched.
pub open spec fn pix_init() -> PixState {
    PixState {
        source: Rgb {
            r: Scalar { num: 0, den: 1 },
            g: Scalar { num: 0, den: 1 },
            b: Scalar { num: 0, den: 1 },
        },
        rects: Seq::empty(),
        pix: Option::None,
    }
}

/// How one solid-subset command changes what pixel `(px, py)` has seen.
/// Commands outside the subset are given no effect here; the model is
/// only claimed for solid scripts.
pub open spec fn pix_step(st: PixState, c: Cmd, px: int, py: int) -> PixState {
    match c {
        Cmd::SetSourceRgb { r, g, b } => PixState {
            source: Rgb { r, g, b },
            rects: st.rects,
            pix: st.pix,
        },
        Cmd::Rectangle { x, y, w, h } => PixState {
            source: st.source,
            rects: st.rects.push(Rect { x, y, w, h }),
            pix: st.pix,
        },
        Cmd::Fill => PixState {
            source: st.source,
            rects: Seq::empty(),
            pix: if exists|j: int| 0 <= j < st.rects.len() && rect_covers(st.rects[j], px, py) {
                Option::Some(st.source)
            } else {
                st.pix
            },
        },
        Cmd::Paint => PixState { source: st.source, rects: st.rects, pix: Option::Some(st.source) },
        _ => st,
    }
}

/// The pixel state after the script from index `i` onward.
pub open spec fn pix_run_from(st: PixState, s: Seq<Cmd>, i: int, px: int, py: int) -> PixState
    decreases s.len() - i,
{
    if 0 <= i < s.len() {
        pix_run_from(pix_step(st, s[i], px, py), s, i + 1, px, py)
    } else {
        st
    }
}

/// The color of pixel `(px, py)` after a whole solid script on a fresh
/// canvas; `None` where the canvas was never touched.
pub open spec fn pixel_after(s: Seq<Cmd>, px: int, py: int) -> Option<Rgb> {
    pix_run_from(pix_init(), s, 0, px, py).pix
}

/// The rectangle's scalars are within a million on both sides, so the
/// cross-multiplications of the coverage test fit in `i64`.
pub open spec fn small_rect(rc: Rect) -> bool {
    &&& -1000000 <= rc.x.num <= 1000000 && 1 <= rc.x.den <= 1000000
    &&& -1000000 <= rc.y.num <= 1000000 && 1 <= rc.y.den <= 1000000
    &&& -1000000 <= rc.w.num <= 1000000 && 1 <= rc.w.den <= 1000000
    &&& -1000000 <= rc.h.num <= 1000000 && 1 <= rc.h.den <= 1000000
}

/// Every rectangle of the script is small in the sense of `small_rect`.
pub open spec fn script_small(s: Seq<Cmd>) -> bool {
    forall|i: int|
        0 <= i < s.len() ==> (#[trigger] s[i] matches Cmd::Rectangle { x, y, w, h }
            ==> small_rect(Rect { x, y, w, h }))
}

/// Whether the rectangle contains the center of pixel `(px, py)`.
pub fn rect_covers_px(rc: &Rect, px: u32, py: u32) -> (b: bool)
    requires
        small_rect(*rc),
        px < 100000,
        py < 100000,
    ensures
        b == rect_covers(*rc, px as int, py as int),
{
    let cx: i64 = 2 * (px as i64) + 1;
    let cy: i64 = 2 * (py as i64) + 1;
    proof {
        let xn = rc.x.num as int;
        let xd = rc.x.den as int;
        let wn = rc.w.num as int;
        let wd = rc.w.den as int;
        let yn = rc.y.num as int;
        let yd = rc.y.den as int;
        let hn = rc.h.num as int;
        let hd = rc.h.den as int;
        let cxv = cx as int;
        let cyv = cy as int;
        assert(-1000000000000 <= cxv * xd <= 1000000000000 && 1 <= xd * wd <= 1000000000000
            && -1000000000000000000 <= cxv * (xd * wd) <= 1000000000000000000 && -1000000000000
            <= xn * wd <= 1000000000000 && -1000000000000 <= wn * xd <= 1000000000000
            && -1000000000000 <= cyv * yd <= 1000000000000 && 1 <= yd * hd <= 1000000000000
            && -1000000000000000000 <= cyv * (yd * hd) <= 1000000000000000000 && -1000000000000
            <= yn * hd <= 1000000000000 && -1000000000000 <= hn * yd <= 1000000000000)
            by (nonlinear_arith)
            requires
                1 <= cxv <= 200001,
                1 <= cyv <= 200001,
                -1000000 <= xn <= 1000000,
                1 <= xd <= 1000000,
                -1000000 <= wn <= 1000000,
                1 <= wd <= 1000000,
                -1000000 <= yn <= 1000000,
                1 <= yd <= 1000000,
                -1000000 <= hn <= 1000000,
                1 <= hd <= 1000000,
        ;
    }
    let on_x = 2 * rc.x.num <= cx * rc.x.den && cx * (rc.x.den * rc.w.den) < 2 * (rc.x.num
        * rc.w.den + rc.w.num * rc.x.den);
    let on_y = 2 * rc.y.num <= cy * rc.y.den && cy * (rc.y.den * rc.h.den) < 2 * (rc.y.num
        * rc.h.den + rc.h.num * rc.y.den);
    on_x && on_y
}

/// The color of pixel `(px, py)` after the whole solid script: exactly
/// `pixel_after`, computed.
pub fn solid_pixel(cmds: &Vec<Cmd>, px: u32, py: u32) -> (r: Option<Rgb>)
    requires
        solid_script(cmds@),
        script_small(cmds@),
        px < 100000,
        py < 100000,
    ensures
        r == pixel_after(cmds@, px as int, py as int),
{
    let mut source = Rgb {
        r: Scalar { num: 0, den: 1 },
        g: Scalar { num: 0, den: 1 },
        b: Scalar { num: 0, den: 1 },
    };
    let mut rects: Vec<Rect> = Vec::new();
    let mut pix: Option<Rgb> = Option::None;
    let mut i: usize = 0;
    while i < cmds.len()
        invariant
            i <= cmds@.len(),
            solid_script(cmds@),
            script_small(cmds@),
            px < 100000,
            py < 100000,
            forall|j: int| 0 <= j < rects@.len() ==> small_rect(rects@[j]),
            pix_run_from(
                PixState { source, rects: rects@, pix },
                cmds@,
                i as int,
                px as int,
                py as int,
            ) == pix_run_from(pix_init(), cmds@, 0, px as int, py as int),
        decreases cmds@.len() - i,
    {
        let ghost prev = PixState { source, rects: rects@, pix };
        match &cmds[i] {
            Cmd::SetSourceRgb { r, g, b } => {
                source = Rgb { r: *r, g: *g, b: *b };
                proof {
                    assert(pix_step(prev, cmds@[i as int], px as int, py as int) == (PixState {
                        source,
                        rects: rects@,
                        pix,
                    }));
                }
            },
            Cmd::Rectangle { x, y, w, h } => {
                rects.push(Rect { x: *x, y: *y, w: *w, h: *h });
                proof {
                    assert(pix_step(prev, cmds@[i as int], px as int, py as int) == (PixState {
                        source,
                        rects: rects@,
                        pix,
                    }));
                }
            },
            Cmd::Paint => {
                pix = Option::Some(source);
                proof {
                    assert(pix_step(prev, cmds@[i as int], px as int, py as int) == (PixState {
                        source,
                        rects: rects@,
                        pix,
                    }));
                }
            },
            Cmd::Fill => {
                let mut hit = false;
                let mut j: usize = 0;
                while j < rects.len()
                    invariant
                        j <= rects@.len(),
                        px < 100000,
                        py < 100000,
                        forall|k: int| 0 <= k < rects@.len() ==> small_rect(rects@[k]),
                        hit == exists|k: int|
                            0 <= k < j && rect_covers(rects@[k], px as int, py as int),
                    decreases rects@.len() - j,
                {
                    let c = rect_covers_px(&rects[j], px, py);
                    proof {
                        if c {
                            assert(0 <= j < j + 1 && rect_covers(
                                rects@[j as int],
                                px as int,
                                py as int,
                            ));
                        }
                    }
                    hit = hit || c;
                    j = j + 1;
                }
                if hit {
                    pix = Option::Some(source);
                }
                rects = Vec::new();
                proof {
                    assert(pix_step(prev, cmds@[i as int], px as int, py as int) == (PixState {
                        source,
                        rects: rects@,
                        pix,
                    }));
                }
            },
            _ => {
                proof {
                    assert(solid_cmd(cmds@[i as int]));
                    assert(false);
                }
            },
        }
        i = i + 1;
    }
    pix
}

/// The paint demo coats every pixel: after its script, every pixel of the
/// canvas — whatever its coordinates — carries the solid red the script
/// sets, with no pixel left at the background.
pub proof fn lemma_paint_fills_every_pixel(s: Seq<Cmd>, px: int, py: int)
    requires
        paint_script(s),
    ensures
        pixel_after(s, px, py) == Option::Some(
            Rgb { r: sc(1, 1), g: sc(0, 1), b: sc(0, 1) },
        ),
{
    let c0 = Cmd::SetSourceRgb { r: sc(1, 1), g: sc(0, 1), b: sc(0, 1) };
    let st0 = pix_init();
    let st1 = pix_step(st0, c0, px, py);
    let st2 = pix_step(st1, Cmd::Paint, px, py);
    assert(pix_run_from(st0, s, 0, px, py) == pix_run_from(
        pix_step(st0, s[0], px, py),
        s,
        1,
        px,
        py,
    ));
    assert(pix_step(st0, s[0], px, py) == st1);
    assert(pix_run_from(st1, s, 1, px, py) == pix_run_from(
        pix_step(st1, s[1], px, py),
        s,
        2,
        px,
        py,
    ));
    assert(pix_step(st1, s[1], px, py) == st2);
    assert(pix_run_from(st2, s, 2, px, py) == st2);
}

/// The principle demo's fill stays in its box: pixels whose center lies
/// inside the square from 50 to 150 (the pixels 50 through 149 on each
/// axis) carry the light grey, and every pixel outside that range is
/// still at the background.
pub proof fn lemma_principle_fill_box(s: Seq<Cmd>, px: int, py: int)
    requires
        principle_script(s),
    ensures
        50 <= px <= 149 && 50 <= py <= 149 ==> pixel_after(s, px, py) == Option::Some(
            Rgb { r: sc(4, 5), g: sc(4, 5), b: sc(4, 5) },
        ),
        px < 50 || px > 149 || py < 50 || py > 149 ==> pixel_after(s, px, py) == Option::<
            Rgb,
        >::None,
{
    let c0 = Cmd::SetSourceRgb { r: sc(4, 5), g: sc(4, 5), b: sc(4, 5) };
    let c1 = Cmd::Rectangle { x: sc(50, 1), y: sc(50, 1), w: sc(100, 1), h: sc(100, 1) };
    let rect = Rect { x: sc(50, 1), y: sc(50, 1), w: sc(100, 1), h: sc(100, 1) };
    let st0 = pix_init();
    let st1 = pix_step(st0, c0, px, py);
    let st2 = pix_step(st1, c1, px, py);
    let st3 = pix_step(st2, Cmd::Fill, px, py);
    assert(pix_run_from(st0, s, 0, px, py) == pix_run_from(
        pix_step(st0, s[0], px, py),
        s,
        1,
        px,
        py,
    ));
    assert(pix_step(st0, s[0], px, py) == st1);
    assert(pix_run_from(st1, s, 1, px, py) == pix_run_from(
        pix_step(st1, s[1], px, py),
        s,
        2,
        px,
        py,
    ));
    assert(pix_step(st1, s[1], px, py) == st2);
    assert(pix_run_from(st2, s, 2, px, py) == pix_run_from(
        pix_step(st2, s[2], px, py),
        s,
        3,
        px,
        py,
    ));
    assert(pix_step(st2, s[2], px, py) == st3);
    assert(pix_run_from(st3, s, 3, px, py) == st3);
    assert(st2.rects == seq![rect]);
    assert((2 * px + 1) * rect.x.den == 2 * px + 1) by (nonlinear_arith)
        requires
            rect.x.den == 1i64,
    ;
    assert((2 * py + 1) * rect.y.den == 2 * py + 1) by (nonlinear_arith)
        requires
            rect.y.den == 1i64,
    ;
    assert(rect.x.den * rect.w.den == 1) by (nonlinear_arith)
        requires
            rect.x.den == 1i64,
            rect.w.den == 1i64,
    ;
    assert(rect.y.den * rect.h.den == 1) by (nonlinear_arith)
        requires
            rect.y.den == 1i64,
            rect.h.den == 1i64,
    ;
    assert((2 * px + 1) * (rect.x.den * rect.w.den) == 2 * px + 1) by (nonlinear_arith)
        requires
            rect.x.den * rect.w.den == 1,
    ;
    assert((2 * py + 1) * (rect.y.den * rect.h.den) == 2 * py + 1) by (nonlinear_arith)
        requires
            rect.y.den * rect.h.den == 1,
    ;
    assert(rect.x.num * rect.w.den == 50) by (nonlinear_arith)
        requires
            rect.x.num == 50i64,
            rect.w.den == 1i64,
    ;
    assert(rect.w.num * rect.x.den == 100) by (nonlinear_arith)
        requires
            rect.w.num == 100i64,
            rect.x.den == 1i64,
    ;
    assert(rect.y.num * rect.h.den == 50) by (nonlinear_arith)
        requires
            rect.y.num == 50i64,
            rect.h.den == 1i64,
    ;
    assert(rect.h.num * rect.y.den == 100) by (nonlinear_arith)
        requires
            rect.h.num == 100i64,
            rect.y.den == 1i64,
    ;
    assert(rect_covers(rect, px, py) <==> (50 <= px <= 149 && 50 <= py <= 149));
    if 50 <= px <= 149 && 50 <= py <= 149 {
        assert(0 <= 0 < st2.rects.len() && rect_covers(st2.rects[0], px, py));
    } else {
        assert forall|j: int| 0 <= j < st2.rects.len() implies !rect_covers(
            st2.rects[j],
            px,
            py,
        ) by {
            assert(st2.rects[j] == rect);
        }
    }
}

} // verus!
