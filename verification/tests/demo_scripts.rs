//! The demo builders return exactly the scripts their contracts pin down.

use cairo_demos::cmd::{Cmd, Extend, FontSlant, FontWeight, Operator};
use cairo_demos::demos::{
    basics, basics_font, basics_font_size, basics_text, curves, mask, paint, pattern, principle,
    rand_lines, scale, source1, source2,
};
use cairo_demos::scalar::Scalar;
use cairo_demos::text::TextMetrics;

fn sc(num: i64, den: i64) -> Scalar {
    Scalar { num, den }
}

#[test]
fn principle_fills_a_centered_square() {
    let d = principle();
    assert_eq!(d.width, 200);
    assert_eq!(d.height, 200);
    assert_eq!(d.path, "example_output/principle.png");
    assert_eq!(d.cmds.len(), 3);
    assert_eq!(
        d.cmds[0],
        Cmd::SetSourceRgb { r: sc(4, 5), g: sc(4, 5), b: sc(4, 5) }
    );
    assert_eq!(
        d.cmds[1],
        Cmd::Rectangle { x: sc(50, 1), y: sc(50, 1), w: sc(100, 1), h: sc(100, 1) }
    );
    assert_eq!(d.cmds[2], Cmd::Fill);
}

#[test]
fn paint_coats_the_canvas_red() {
    let d = paint();
    assert_eq!(d.width, 200);
    assert_eq!(d.height, 200);
    assert_eq!(d.path, "example_output/paint.png");
    assert_eq!(d.cmds.len(), 2);
    assert_eq!(
        d.cmds[0],
        Cmd::SetSourceRgb { r: sc(1, 1), g: sc(0, 1), b: sc(0, 1) }
    );
    assert_eq!(d.cmds[1], Cmd::Paint);
}

#[test]
fn deterministic_demos_repeat_byte_for_byte() {
    assert_eq!(principle(), principle());
    assert_eq!(paint(), paint());
    assert_eq!(mask(), mask());
    assert_eq!(source1(), source1());
    assert_eq!(source2(), source2());
    assert_eq!(curves(), curves());
    assert_eq!(pattern(), pattern());
    assert_eq!(scale(), scale());
    let m = TextMetrics::from_micros(50_000_000, 30_000_000, 2_000_000, -20_000_000);
    assert_eq!(basics(&m), basics(&m));
}

#[test]
fn every_demo_has_a_200_pixel_canvas() {
    let m = TextMetrics::from_micros(0, 0, 0, 0);
    for d in [
        principle(),
        paint(),
        rand_lines(),
        basics(&m),
        mask(),
        source1(),
        source2(),
        curves(),
        pattern(),
        scale(),
    ] {
        assert_eq!(d.width, 200);
        assert_eq!(d.height, 200);
    }
}

#[test]
fn source1_layers_translucent_squares() {
    let d = source1();
    assert_eq!(d.cmds.len(), 16);
    assert_eq!(d.cmds[5], Cmd::SetLineWidth { w: sc(25, 1) });
    assert_eq!(d.cmds[6], Cmd::Stroke);
    assert_eq!(
        d.cmds[8],
        Cmd::SetSourceRgba { r: sc(225, 255), g: sc(96, 255), b: sc(78, 255), a: sc(4, 5) }
    );
    assert_eq!(
        d.cmds[13],
        Cmd::Rectangle { x: sc(100, 1), y: sc(0, 1), w: sc(100, 1), h: sc(100, 1) }
    );
    assert_eq!(d.cmds[15], Cmd::Fill);
}

#[test]
fn source2_draws_a_nine_by_nine_grid() {
    let d = source2();
    assert_eq!(d.cmds.len(), 86);
    assert_eq!(
        d.cmds[0],
        Cmd::Rectangle { x: sc(12, 1), y: sc(12, 1), w: sc(16, 1), h: sc(16, 1) }
    );
    assert_eq!(
        d.cmds[80],
        Cmd::Rectangle { x: sc(172, 1), y: sc(172, 1), w: sc(16, 1), h: sc(16, 1) }
    );
    match &d.cmds[81] {
        Cmd::SetSourceRadialGradient { cx0, cy0, r0, cx1, cy1, r1, stops } => {
            assert_eq!(*cx0, sc(50, 1));
            assert_eq!(*cy0, sc(50, 1));
            assert_eq!(*r0, sc(20, 1));
            assert_eq!(*cx1, sc(100, 1));
            assert_eq!(*cy1, sc(100, 1));
            assert_eq!(*r1, sc(100, 1));
            assert_eq!(stops.len(), 2);
            assert_eq!(stops[0].offset, sc(0, 1));
            assert_eq!(stops[1].r, sc(9, 10));
        }
        other => panic!("expected a radial gradient source, got {:?}", other),
    }
    assert_eq!(d.cmds[82], Cmd::Fill);
    match &d.cmds[84] {
        Cmd::SetSourceLinearGradient { x0, y0, x1, y1, stops } => {
            assert_eq!(*x0, sc(50, 1));
            assert_eq!(*y0, sc(70, 1));
            assert_eq!(*x1, sc(150, 1));
            assert_eq!(*y1, sc(130, 1));
            assert_eq!(stops.len(), 5);
            assert_eq!(stops[1].offset, sc(1, 4));
            assert_eq!(stops[3].b, sc(1, 1));
        }
        other => panic!("expected a linear gradient source, got {:?}", other),
    }
    assert_eq!(d.cmds[85], Cmd::Fill);
}

#[test]
fn mask_pairs_a_linear_source_with_a_radial_stencil() {
    let d = mask();
    assert_eq!(d.cmds.len(), 2);
    match &d.cmds[0] {
        Cmd::SetSourceLinearGradient { x0, y0, x1, y1, stops } => {
            assert_eq!((*x0, *y0, *x1, *y1), (sc(0, 1), sc(0, 1), sc(200, 1), sc(200, 1)));
            assert_eq!(stops.len(), 2);
            assert_eq!(stops[0].g, sc(3, 10));
            assert_eq!(stops[1].g, sc(4, 5));
        }
        other => panic!("expected a linear gradient source, got {:?}", other),
    }
    match &d.cmds[1] {
        Cmd::MaskRadialGradient { cx0, r0, r1, stops, .. } => {
            assert_eq!(*cx0, sc(100, 1));
            assert_eq!(*r0, sc(10, 1));
            assert_eq!(*r1, sc(140, 1));
            assert_eq!(stops.len(), 2);
            assert_eq!(stops[0].a, sc(1, 1));
            assert_eq!(stops[1].offset, sc(1, 2));
            assert_eq!(stops[1].a, sc(0, 1));
        }
        other => panic!("expected a radial stencil, got {:?}", other),
    }
}

#[test]
fn curves_closes_a_mixed_figure() {
    let d = curves();
    assert_eq!(d.cmds.len(), 8);
    assert_eq!(d.cmds[0], Cmd::MoveTo { x: sc(50, 1), y: sc(50, 1) });
    assert_eq!(d.cmds[2], Cmd::RelLineTo { dx: sc(50, 1), dy: sc(-25, 1) });
    assert_eq!(
        d.cmds[3],
        Cmd::Arc {
            cx: sc(100, 1),
            cy: sc(100, 1),
            r: sc(70710678, 1000000),
            a0: sc(-1, 4),
            a1: sc(1, 4),
        }
    );
    assert_eq!(d.cmds[5], Cmd::ClosePath);
    assert_eq!(d.cmds[7], Cmd::Stroke);
}

#[test]
fn pattern_repeats_the_canvas_through_a_matrix() {
    let d = pattern();
    assert_eq!(d.cmds.len(), 5);
    assert_eq!(
        d.cmds[0],
        Cmd::SetSourceRgba { r: sc(1, 1), g: sc(1, 1), b: sc(1, 1), a: sc(1, 1) }
    );
    assert_eq!(d.cmds[1], Cmd::Paint);
    assert_eq!(d.cmds[2], Cmd::SetOperator { op: Operator::Atop });
    match &d.cmds[3] {
        Cmd::SetSourceCanvasPattern { setup, extend, matrix } => {
            assert_eq!(setup.len(), 5);
            assert_eq!(setup[1], Cmd::SetLineWidth { w: sc(8, 1) });
            assert_eq!(setup[3], Cmd::LineTo { x: sc(100, 1), y: sc(200, 1) });
            assert_eq!(setup[4], Cmd::Stroke);
            assert_eq!(*extend, Extend::Repeat);
            assert_eq!(matrix.xx, sc(60, 1));
            assert_eq!(matrix.yy, sc(1, 1));
            assert_eq!(matrix.x0, sc(10, 1));
            assert_eq!(matrix.y0, sc(0, 1));
        }
        other => panic!("expected a canvas pattern source, got {:?}", other),
    }
    assert_eq!(d.cmds[4], Cmd::Paint);
}

#[test]
fn scale_sets_up_a_centered_working_frame() {
    let d = scale();
    assert_eq!(d.cmds.len(), 5);
    assert_eq!(d.cmds[0], Cmd::Scale { sx: sc(150, 1), sy: sc(150, 1) });
    assert_eq!(d.cmds[1], Cmd::Translate { tx: sc(1, 6), ty: sc(1, 6) });
    assert_eq!(
        d.cmds[2],
        Cmd::Rectangle { x: sc(0, 1), y: sc(0, 1), w: sc(1, 1), h: sc(1, 1) }
    );
    assert_eq!(d.cmds[4], Cmd::Fill);
}

#[test]
fn rand_lines_stays_on_canvas_whatever_the_randomness() {
    for _ in 0..5 {
        let d = rand_lines();
        assert_eq!(d.width, 200);
        assert_eq!(d.height, 200);
        assert_eq!(d.path, "example_output/rand_lines.png");
        assert_eq!(d.cmds.len(), 84);
        assert_eq!(
            d.cmds[0],
            Cmd::SetSourceRgb { r: sc(1, 1), g: sc(1, 1), b: sc(1, 1) }
        );
        assert_eq!(d.cmds[1], Cmd::Paint);
        assert_eq!(
            d.cmds[2],
            Cmd::SetSourceRgb { r: sc(0, 1), g: sc(0, 1), b: sc(0, 1) }
        );
        for k in 3..83 {
            match &d.cmds[k] {
                Cmd::LineTo { x, y } => {
                    assert_eq!(x.den, 1000);
                    assert!(0 <= x.num && x.num < 200_000);
                    assert_eq!(y.den, 1000);
                    assert!(0 <= y.num && y.num < 200_000);
                }
                other => panic!("expected a line segment, got {:?}", other),
            }
        }
        assert_eq!(d.cmds[83], Cmd::Stroke);
    }
}

#[test]
fn basics_centers_its_word_by_the_measurements() {
    let m = TextMetrics::from_micros(50_000_000, 30_000_000, 2_000_000, -20_000_000);
    let d = basics(&m);
    assert_eq!(d.path, "example_output/basics.png");
    assert_eq!(d.cmds.len(), 11);
    assert_eq!(
        d.cmds[3],
        Cmd::SetSourceRgb { r: sc(26, 255), g: sc(188, 255), b: sc(156, 255) }
    );
    match &d.cmds[7] {
        Cmd::SelectFontFace { family, slant, weight } => {
            assert_eq!(family, "Georgia");
            assert_eq!(*slant, FontSlant::Normal);
            assert_eq!(*weight, FontWeight::Bold);
        }
        other => panic!("expected a font selection, got {:?}", other),
    }
    assert_eq!(d.cmds[8], Cmd::SetFontSize { size: sc(40, 1) });
    match &d.cmds[9] {
        Cmd::MoveTo { x, y } => {
            // 100 - 25 - 2 = 73 and 100 - 15 + 20 = 105, in half-micropixels
            assert_eq!((x.num, x.den), (146_000_000, 2_000_000));
            assert_eq!((y.num, y.den), (210_000_000, 2_000_000));
        }
        other => panic!("expected the centering move, got {:?}", other),
    }
    match &d.cmds[10] {
        Cmd::ShowText { text } => assert_eq!(text, "cairo"),
        other => panic!("expected the shown word, got {:?}", other),
    }
}

#[test]
fn basics_font_getters_match_the_script() {
    let (family, slant, weight) = basics_font();
    assert_eq!(family, "Georgia");
    assert_eq!(slant, FontSlant::Normal);
    assert_eq!(weight, FontWeight::Bold);
    assert_eq!(basics_font_size(), sc(40, 1));
    assert_eq!(basics_text(), "cairo");
}
