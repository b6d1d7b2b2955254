//! The color ramp of a gradient.
//!
//! A gradient's stops define a continuous color ramp: between two stops,
//! each channel is interpolated linearly in the offset. For the common
//! two-stop gradient spanning offsets zero to one, the ramp at parameter
//! `t` weighs the first stop by `1 - t` and the second by `t`; at the
//! midpoint that is the arithmetic mean of the two stop colors.

use vstd::prelude::*;

use crate::cmd::Stop;
use crate::scalar::{rat_add, rat_eq, rat_half, rat_mul, rat_sub, Scalar};

verus! {

/// One channel of the ramp of a two-stop gradient with stops at offsets
/// zero and one, at parameter `t` (a rational pair): the first stop's
/// channel weighed by `1 - t` plus the second's weighed by `t`.
pub open spec fn ramp_channel(c0: Scalar, c1: Scalar, t: (int, int)) -> (int, int) {
    rat_add(rat_mul(c0.val(), rat_sub((1, 1), t)), rat_mul(c1.val(), t))
}

/// Halfway along a two-stop ramp, a channel is the arithmetic mean of the
/// two stop channels.
pub proof fn lemma_ramp_midpoint_channel(c0: Scalar, c1: Scalar)
    requires
        c0.wf(),
        c1.wf(),
    ensures
        rat_eq(ramp_channel(c0, c1, (1, 2)), rat_half(rat_add(c0.val(), c1.val()))),
{
    let rc = ramp_channel(c0, c1, (1, 2));
    let h = rat_half(rat_add(c0.val(), c1.val()));
    let w = rat_sub((1, 1), (1, 2));
    let p0 = rat_mul(c0.val(), w);
    let p1 = rat_mul(c1.val(), (1, 2));
    assert(rc.0 * h.1 == h.0 * rc.1) by (nonlinear_arith)
        requires
            rc.0 == p0.0 * p1.1 + p1.0 * p0.1,
            rc.1 == p0.1 * p1.1,
            p0.0 == c0.num * w.0,
            p0.1 == c0.den * w.1,
            w.0 == 1,
            w.1 == 2,
            p1.0 == c1.num * 1,
            p1.1 == c1.den * 2,
            h.0 == c0.num * c1.den + c1.num * c0.den,
            h.1 == 2 * (c0.den * c1.den),
    ;
    assert(rat_eq(rc, h));
}

/// The color midway along a linear gradient whose two stops sit at
/// offsets zero and one: the channelwise arithmetic mean of the stops,
/// exactly. The channel bounds keep the exact mean within the scalar
/// representation.
pub fn gradient_midpoint(s0: &Stop, s1: &Stop) -> (mid: (Scalar, Scalar, Scalar, Scalar))
    requires
        -1000000 <= s0.r.num <= 1000000 && 1 <= s0.r.den <= 1000000,
        -1000000 <= s0.g.num <= 1000000 && 1 <= s0.g.den <= 1000000,
        -1000000 <= s0.b.num <= 1000000 && 1 <= s0.b.den <= 1000000,
        -1000000 <= s0.a.num <= 1000000 && 1 <= s0.a.den <= 1000000,
        -1000000 <= s1.r.num <= 1000000 && 1 <= s1.r.den <= 1000000,
        -1000000 <= s1.g.num <= 1000000 && 1 <= s1.g.den <= 1000000,
        -1000000 <= s1.b.num <= 1000000 && 1 <= s1.b.den <= 1000000,
        -1000000 <= s1.a.num <= 1000000 && 1 <= s1.a.den <= 1000000,
    ensures
        rat_eq(mid.0.val(), ramp_channel(s0.r, s1.r, (1, 2))),
        rat_eq(mid.1.val(), ramp_channel(s0.g, s1.g, (1, 2))),
        rat_eq(mid.2.val(), ramp_channel(s0.b, s1.b, (1, 2))),
        rat_eq(mid.3.val(), ramp_channel(s0.a, s1.a, (1, 2))),
        mid.0.wf() && mid.1.wf() && mid.2.wf() && mid.3.wf(),
{
    let r = mean_channel(s0.r, s1.r);
    let g = mean_channel(s0.g, s1.g);
    let b = mean_channel(s0.b, s1.b);
    let a = mean_channel(s0.a, s1.a);
    (r, g, b, a)
}

/// The exact mean of two bounded channels: numerators cross-multiplied
/// over twice the product of the denominators.
fn mean_channel(c0: Scalar, c1: Scalar) -> (m: Scalar)
    requires
        -1000000 <= c0.num <= 1000000 && 1 <= c0.den <= 1000000,
        -1000000 <= c1.num <= 1000000 && 1 <= c1.den <= 1000000,
    ensures
        m.wf(),
        rat_eq(m.val(), rat_half(rat_add(c0.val(), c1.val()))),
        rat_eq(m.val(), ramp_channel(c0, c1, (1, 2))),
{
    proof {
        assert(-1000000000000 <= c0.num * c1.den <= 1000000000000 && -1000000000000 <= c1.num
            * c0.den <= 1000000000000 && 1 <= c0.den * c1.den <= 1000000000000)
            by (nonlinear_arith)
            requires
                -1000000 <= c0.num <= 1000000,
                1 <= c0.den <= 1000000,
                -1000000 <= c1.num <= 1000000,
                1 <= c1.den <= 1000000,
        ;
    }
    let m = Scalar { num: c0.num * c1.den + c1.num * c0.den, den: 2 * (c0.den * c1.den) };
    proof {
        let h = rat_half(rat_add(c0.val(), c1.val()));
        let rc = ramp_channel(c0, c1, (1, 2));
        assert((m.num as int) * h.1 == h.0 * (m.den as int)) by (nonlinear_arith)
            requires
                m.num == c0.num * c1.den + c1.num * c0.den,
                m.den == 2 * (c0.den * c1.den),
                h.0 == c0.num * c1.den + c1.num * c0.den,
                h.1 == 2 * (c0.den * c1.den),
        ;
        assert(h.1 >= 1) by (nonlinear_arith)
            requires
                h.1 == 2 * (c0.den * c1.den),
                c0.den >= 1,
                c1.den >= 1,
        ;
        lemma_ramp_midpoint_channel(c0, c1);
        assert((m.num as int) * rc.1 == rc.0 * (m.den as int)) by (nonlinear_arith)
            requires
                (m.num as int) * h.1 == h.0 * (m.den as int),
                rc.0 * h.1 == h.0 * rc.1,
                h.1 >= 1,
        ;
    }
    m
}

} // verus!
