pub mod group_d8;

pub use self::group_d8::GD8;

use vstd::prelude::*;
use crate::math::group_d8::compose_val;
use crate::math::group_d8::dir_x;
use crate::math::group_d8::dir_y;

verus! {

/// An exact fraction `num / den` with a positive denominator; the
/// projection and texture-coordinate math is carried out on these, and a
/// rendering backend divides once at the very end.
#[derive(Clone, Copy, Debug, PartialEq, Eq, Structural)]
pub struct Rational {
    pub num: i64,
    pub den: i64,
}

impl Rational {
    /// A valid fraction keeps its denominator positive.
    pub open spec fn wf(&self) -> bool {
        self.den > 0
    }

    /// The fraction `num / den`.
    pub fn new(num: i64, den: i64) -> (r: Rational)
        requires
            den > 0,
        ensures
            r.num == num,
            r.den == den,
            r.wf(),
    {
        Rational { num, den }
    }

    /// The fraction equal to one.
    pub fn one() -> (r: Rational)
        ensures
            r.num == 1,
            r.den == 1,
            r.wf(),
    {
        Rational { num: 1, den: 1 }
    }
}

/// The non-trivial entries of the orthographic pixel-to-clip projection:
/// the diagonal scales `m_a` and `m_d` and the translation `m_x`, `m_y`.
/// The full column-major matrix a backend uploads is
/// `[[m_a, 0, 0, 0], [0, -m_d, 0, 0], [m_x, -m_y, 1, 0], [0, 0, 0, 1]]`,
/// flipping the y-axis from screen space (down) to clip space (up).
#[derive(Clone, Copy, Debug, PartialEq, Eq, Structural)]
pub struct Projection {
    pub m_a: Rational,
    pub m_d: Rational,
    pub m_x: Rational,
    pub m_y: Rational,
}

/// The orthographic projection for a viewport of `width` by `height`
/// pixels whose origin sits at `(x, y)`, adjusted by the device scale
/// factor: `m_a = 2 * scale / width`, `m_d = 2 * scale / height`,
/// `m_x = -1 - x * m_a`, `m_y = -1 - y * m_d`, each held exactly.
pub fn projection(x: i64, y: i64, width: i64, height: i64, scale: Rational) -> (r: Projection)
    requires
        1 <= width <= 0x10_0000,
        1 <= height <= 0x10_0000,
        -0x10_0000 <= x <= 0x10_0000,
        -0x10_0000 <= y <= 0x10_0000,
        1 <= scale.den <= 0x10_0000,
        -0x10_0000 <= scale.num <= 0x10_0000,
    ensures
        r.m_a.num == 2 * scale.num && r.m_a.den == width * scale.den,
        r.m_d.num == 2 * scale.num && r.m_d.den == height * scale.den,
        r.m_x.num == -(width * scale.den) - 2 * scale.num * x && r.m_x.den == width * scale.den,
        r.m_y.num == -(height * scale.den) - 2 * scale.num * y && r.m_y.den == height * scale.den,
        r.m_a.wf() && r.m_d.wf() && r.m_x.wf() && r.m_y.wf(),
{
    proof {
        assert(1 <= width * scale.den <= 0x100_0000_0000) by (nonlinear_arith)
            requires
                1 <= width <= 0x10_0000,
                1 <= scale.den <= 0x10_0000,
        ;
        assert(1 <= height * scale.den <= 0x100_0000_0000) by (nonlinear_arith)
            requires
                1 <= height <= 0x10_0000,
                1 <= scale.den <= 0x10_0000,
        ;
        assert(-0x200_0000_0000 <= 2 * scale.num * x <= 0x200_0000_0000) by (nonlinear_arith)
            requires
                -0x10_0000 <= scale.num <= 0x10_0000,
                -0x10_0000 <= x <= 0x10_0000,
        ;
        assert(-0x200_0000_0000 <= 2 * scale.num * y <= 0x200_0000_0000) by (nonlinear_arith)
            requires
                -0x10_0000 <= scale.num <= 0x10_0000,
                -0x10_0000 <= y <= 0x10_0000,
        ;
    }
    let wd: i64 = width * scale.den;
    let hd: i64 = height * scale.den;
    let m_a = Rational { num: 2 * scale.num, den: wd };
    let m_d = Rational { num: 2 * scale.num, den: hd };
    let m_x = Rational { num: -wd - 2 * scale.num * x, den: wd };
    let m_y = Rational { num: -hd - 2 * scale.num * y, den: hd };
    Projection { m_a, m_d, m_x, m_y }
}

/// A texture coordinate clamped to the unit interval and quantized to a
/// 16-bit integer, truncating: `floor(clamp(num / den, 0, 1) * 65535)`.
pub open spec fn pack01(num: int, den: int) -> int {
    if num <= 0 {
        0
    } else if num >= den {
        65535
    } else {
        (num * 65535) / den
    }
}

fn pack_component(c: Rational) -> (r: u16)
    requires
        c.wf(),
        c.den <= 0x100_0000_0000,
    ensures
        r as int == pack01(c.num as int, c.den as int),
{
    if c.num <= 0 {
        0
    } else if c.num >= c.den {
        65535
    } else {
        proof {
            assert(0 < c.num * 65535 < c.den * 65536) by (nonlinear_arith)
                requires
                    0 < c.num < c.den,
            ;
            assert((c.num * 65535) / (c.den as int) < 65536) by (nonlinear_arith)
                requires
                    0 < c.num * 65535 < c.den * 65536,
                    c.den > 0,
            ;
        }
        ((c.num * 65535) / c.den) as u16
    }
}

/// Packs a texture coordinate pair into two 16-bit integers, each clamped
/// to the unit interval and scaled by 65535, truncating.
pub fn pack_uv(u: Rational, v: Rational) -> (r: [u16; 2])
    requires
        u.wf(),
        v.wf(),
        u.den <= 0x100_0000_0000,
        v.den <= 0x100_0000_0000,
    ensures
        r[0] as int == pack01(u.num as int, u.den as int),
        r[1] as int == pack01(v.num as int, v.den as int),
{
    [pack_component(u), pack_component(v)]
}

/// A rectangle of a texture atlas in whole pixels.
#[derive(Clone, Copy, Debug, PartialEq, Eq, Structural)]
pub struct AtlasFrame {
    pub x: u32,
    pub y: u32,
    pub w: u32,
    pub h: u32,
}

/// The four texture-coordinate corners of an unrotated atlas frame inside
/// a `tw` by `th` texture, in the order top-left, top-right, bottom-right,
/// bottom-left.
pub fn create_simple_uv(frame: AtlasFrame, tw: u32, th: u32) -> (r: [[Rational; 2]; 4])
    requires
        tw >= 1,
        th >= 1,
    ensures
        forall|k: int| 0 <= k < 4 ==> r[k][0].den == tw && r[k][1].den == th,
        r[0][0].num == frame.x && r[0][1].num == frame.y,
        r[1][0].num == frame.x + frame.w && r[1][1].num == frame.y,
        r[2][0].num == frame.x + frame.w && r[2][1].num == frame.y + frame.h,
        r[3][0].num == frame.x && r[3][1].num == frame.y + frame.h,
{
    let x0 = frame.x as i64;
    let y0 = frame.y as i64;
    let x1 = frame.x as i64 + frame.w as i64;
    let y1 = frame.y as i64 + frame.h as i64;
    let twd = tw as i64;
    let thd = th as i64;
    [
        [Rational { num: x0, den: twd }, Rational { num: y0, den: thd }],
        [Rational { num: x1, den: twd }, Rational { num: y0, den: thd }],
        [Rational { num: x1, den: twd }, Rational { num: y1, den: thd }],
        [Rational { num: x0, den: twd }, Rational { num: y1, den: thd }],
    ]
}

/// The group element that places corner `k` of a rotated frame: the
/// packing rotation composed with northwest (the top-left corner), then
/// rotated a quarter turn clockwise per further corner.
pub open spec fn corner_rot(rotate: int, k: int) -> int
    decreases k,
{
    if k <= 0 {
        compose_val(rotate, 5)
    } else {
        compose_val(corner_rot(rotate, k - 1), 2)
    }
}

/// The numerator of a rotated corner coordinate over the denominator
/// `2 * t`: the frame's center plus half its extent along the rotated
/// axis direction `d` (one of -1, 0, 1).
pub open spec fn rotated_num(lo: int, extent: int, d: int) -> int {
    2 * lo + extent + extent * d
}

/// The four texture-coordinate corners of an atlas frame packed with a
/// rotation, compensated by the given group element: corner `k` sits at
/// the frame's center offset by half the extent along the direction of
/// `corner_rot(rotate, k)`.
pub fn create_rotated_uv(frame: AtlasFrame, tw: u32, th: u32, rotate: GD8) -> (r: [[Rational;
    2]; 4])
    requires
        tw >= 1,
        th >= 1,
        rotate.wf(),
        frame.x <= 0x7fff_ffff,
        frame.y <= 0x7fff_ffff,
        frame.w <= 0x7fff_ffff,
        frame.h <= 0x7fff_ffff,
    ensures
        forall|k: int| 0 <= k < 4 ==> r[k][0].den == 2 * tw && r[k][1].den == 2 * th,
        forall|k: int|
            0 <= k < 4 ==> r[k][0].num == rotated_num(
                frame.x as int,
                frame.w as int,
                dir_x(corner_rot(rotate.value(), k) % 8),
            ),
        forall|k: int|
            0 <= k < 4 ==> r[k][1].num == rotated_num(
                frame.y as int,
                frame.h as int,
                dir_y(corner_rot(rotate.value(), k) % 8),
            ),
{
    let r0 = rotate.compose(GD8::nw());
    let r1 = r0.compose(GD8::s());
    let r2 = r1.compose(GD8::s());
    let r3 = r2.compose(GD8::s());
    let c0 = rotated_corner(frame, tw, th, r0);
    let c1 = rotated_corner(frame, tw, th, r1);
    let c2 = rotated_corner(frame, tw, th, r2);
    let c3 = rotated_corner(frame, tw, th, r3);
    proof {
        assert(r0.value() == corner_rot(rotate.value(), 0));
        assert(r1.value() == corner_rot(rotate.value(), 1));
        assert(r2.value() == corner_rot(rotate.value(), 2));
        assert(r3.value() == corner_rot(rotate.value(), 3));
    }
    [c0, c1, c2, c3]
}

fn rotated_corner(frame: AtlasFrame, tw: u32, th: u32, rot: GD8) -> (r: [Rational; 2])
    requires
        tw >= 1,
        th >= 1,
        rot.wf(),
        frame.x <= 0x7fff_ffff,
        frame.y <= 0x7fff_ffff,
        frame.w <= 0x7fff_ffff,
        frame.h <= 0x7fff_ffff,
    ensures
        r[0].den == 2 * tw,
        r[1].den == 2 * th,
        r[0].num == rotated_num(frame.x as int, frame.w as int, dir_x(rot.value() % 8)),
        r[1].num == rotated_num(frame.y as int, frame.h as int, dir_y(rot.value() % 8)),
{
    let ux = rot.ux();
    let uy = rot.uy();
    proof {
        assert(-(frame.w as int) <= frame.w as int * (ux as int) <= frame.w as int)
            by (nonlinear_arith)
            requires
                -1 <= ux as int <= 1,
                frame.w as int >= 0,
        ;
        assert(-(frame.h as int) <= frame.h as int * (uy as int) <= frame.h as int)
            by (nonlinear_arith)
            requires
                -1 <= uy as int <= 1,
                frame.h as int >= 0,
        ;
    }
    let u_num: i64 = 2 * frame.x as i64 + frame.w as i64 + frame.w as i64 * ux as i64;
    let v_num: i64 = 2 * frame.y as i64 + frame.h as i64 + frame.h as i64 * uy as i64;
    [
        Rational { num: u_num, den: 2 * tw as i64 },
        Rational { num: v_num, den: 2 * th as i64 },
    ]
}

/// The texture-coordinate corners of an atlas frame: the rotated layout
/// when the atlas packed the frame with a rotation, the plain one
/// otherwise.
pub fn create_uv(frame: AtlasFrame, tw: u32, th: u32, rotate: Option<GD8>) -> (r: [[Rational;
    2]; 4])
    requires
        tw >= 1,
        th >= 1,
        frame.x <= 0x7fff_ffff,
        frame.y <= 0x7fff_ffff,
        frame.w <= 0x7fff_ffff,
        frame.h <= 0x7fff_ffff,
        rotate matches Some(g) ==> g.wf(),
    ensures
        match rotate {
            Some(g) => {
                &&& forall|k: int| 0 <= k < 4 ==> r[k][0].den == 2 * tw && r[k][1].den == 2 * th
                &&& forall|k: int|
                    0 <= k < 4 ==> r[k][0].num == rotated_num(
                        frame.x as int,
                        frame.w as int,
                        dir_x(corner_rot(g.value(), k) % 8),
                    )
                &&& forall|k: int|
                    0 <= k < 4 ==> r[k][1].num == rotated_num(
                        frame.y as int,
                        frame.h as int,
                        dir_y(corner_rot(g.value(), k) % 8),
                    )
            },
            None => {
                &&& forall|k: int| 0 <= k < 4 ==> r[k][0].den == tw && r[k][1].den == th
                &&& r[0][0].num == frame.x && r[0][1].num == frame.y
                &&& r[1][0].num == frame.x + frame.w && r[1][1].num == frame.y
                &&& r[2][0].num == frame.x + frame.w && r[2][1].num == frame.y + frame.h
                &&& r[3][0].num == frame.x && r[3][1].num == frame.y + frame.h
            },
        },
{
    match rotate {
        Some(g) => create_rotated_uv(frame, tw, th, g),
        None => create_simple_uv(frame, tw, th),
    }
}

} // verus!
