//! The state machine, the pixel model and the gradient ramp on concrete
//! values.

use cairo_demos::cmd::{Cmd, Stop};
use cairo_demos::demos::{paint, principle, scale};
use cairo_demos::ramp::gradient_midpoint;
use cairo_demos::raster::{solid_pixel, Rgb};
use cairo_demos::scalar::Scalar;
use cairo_demos::state::{run_script, step_cmd, Pen, State};

fn sc(num: i64, den: i64) -> Scalar {
    Scalar { num, den }
}

#[test]
fn paint_makes_every_sampled_pixel_red() {
    let d = paint();
    let red = Rgb { r: sc(1, 1), g: sc(0, 1), b: sc(0, 1) };
    for (px, py) in [(0, 0), (1, 199), (100, 100), (199, 0), (199, 199)] {
        assert_eq!(solid_pixel(&d.cmds, px, py), Some(red));
    }
}

#[test]
fn principle_fill_stays_inside_its_box() {
    let d = principle();
    let grey = Rgb { r: sc(4, 5), g: sc(4, 5), b: sc(4, 5) };
    for (px, py) in [(50, 50), (100, 100), (149, 149), (50, 149)] {
        assert_eq!(solid_pixel(&d.cmds, px, py), Some(grey));
    }
    for (px, py) in [(0, 0), (49, 100), (100, 49), (150, 100), (100, 150), (199, 199)] {
        assert_eq!(solid_pixel(&d.cmds, px, py), None);
    }
}

#[test]
fn gradient_midpoint_is_the_mean_of_the_stops() {
    // the two stops of the mask demo's linear gradient
    let s0 = Stop { offset: sc(0, 1), r: sc(0, 1), g: sc(3, 10), b: sc(4, 5), a: sc(1, 1) };
    let s1 = Stop { offset: sc(1, 1), r: sc(0, 1), g: sc(4, 5), b: sc(3, 10), a: sc(1, 1) };
    let (r, g, b, a) = gradient_midpoint(&s0, &s1);
    // each channel is (first + second) / 2, over twice the denominator product
    assert_eq!((r.num, r.den), (0, 2));
    assert_eq!((g.num, g.den), (3 * 5 + 4 * 10, 2 * (10 * 5)));
    assert_eq!(g.num * 20, g.den * 11); // 55/100 equals 11/20
    assert_eq!((b.num, b.den), (4 * 10 + 3 * 5, 2 * (5 * 10)));
    assert_eq!((a.num, a.den), (2, 2));
}

#[test]
fn show_text_keeps_transform_and_line_width() {
    let st = State::initial();
    let shown = step_cmd(st, &Cmd::ShowText { text: "hello".to_string() });
    assert_eq!(shown.transform, st.transform);
    assert_eq!(shown.line_width, st.line_width);
    assert_eq!(shown.source, st.source);
    assert_eq!(shown.pen, Pen::Somewhere);
}

#[test]
fn scale_demo_ends_in_a_150_pixel_frame_at_25() {
    let d = scale();
    let end = run_script(&d.cmds);
    assert_eq!(end.transform.sx, sc(150, 1));
    assert_eq!(end.transform.sy, sc(150, 1));
    // the translation is 150/6, that is 25 device pixels
    assert_eq!(end.transform.tx, sc(150, 6));
    assert_eq!(end.transform.tx.num, 25 * end.transform.tx.den);
    assert_eq!(end.transform.ty, sc(150, 6));
    assert!(!end.has_path);
    assert_eq!(end.pen, Pen::Nowhere);
}

#[test]
fn fill_and_stroke_clear_the_path() {
    let st = State::initial();
    let with_rect = step_cmd(
        st,
        &Cmd::Rectangle { x: sc(10, 1), y: sc(10, 1), w: sc(5, 1), h: sc(5, 1) },
    );
    assert!(with_rect.has_path);
    assert_eq!(with_rect.pen, Pen::At { x: sc(10, 1), y: sc(10, 1) });
    let filled = step_cmd(with_rect, &Cmd::Fill);
    assert!(!filled.has_path);
    assert_eq!(filled.pen, Pen::Nowhere);
    let stroked = step_cmd(with_rect, &Cmd::Stroke);
    assert!(!stroked.has_path);
    assert_eq!(stroked.pen, Pen::Nowhere);
}

#[test]
fn a_first_line_only_starts_the_path() {
    let st = State::initial();
    // with no current point, a line target only begins the sub-path there
    let first = step_cmd(st, &Cmd::LineTo { x: sc(3, 1), y: sc(4, 1) });
    assert!(!first.has_path);
    assert_eq!(first.pen, Pen::At { x: sc(3, 1), y: sc(4, 1) });
    let second = step_cmd(first, &Cmd::LineTo { x: sc(7, 1), y: sc(9, 1) });
    assert!(second.has_path);
    assert_eq!(second.pen, Pen::At { x: sc(7, 1), y: sc(9, 1) });
}

#[test]
fn relative_moves_add_exactly() {
    let st = State::initial();
    let at = step_cmd(st, &Cmd::MoveTo { x: sc(1, 2), y: sc(1, 3) });
    let moved = step_cmd(at, &Cmd::RelLineTo { dx: sc(1, 2), dy: sc(2, 3) });
    // 1/2 + 1/2 = 4/4 and 1/3 + 2/3 = 9/9
    assert_eq!(moved.pen, Pen::At { x: sc(4, 4), y: sc(9, 9) });
    assert!(moved.has_path);
}
