use pixi::math::{create_rotated_uv, create_simple_uv, create_uv, pack_uv, projection};
use pixi::math::{AtlasFrame, Rational, GD8};

#[test]
fn projection_entries_are_exact() {
    // An 800 by 600 viewport at the origin with scale one:
    // m_a == 2/800, m_d == 2/600, m_x == -1, m_y == -1.
    let p = projection(0, 0, 800, 600, Rational::one());
    assert_eq!((p.m_a.num, p.m_a.den), (2, 800));
    assert_eq!((p.m_d.num, p.m_d.den), (2, 600));
    assert_eq!((p.m_x.num, p.m_x.den), (-800, 800));
    assert_eq!((p.m_y.num, p.m_y.den), (-600, 600));
}

#[test]
fn projection_offset_and_scale() {
    // Origin (10, 20), scale 3/2: m_a = 3/800, m_x = -1 - 10 * m_a.
    let p = projection(10, 20, 800, 600, Rational::new(3, 2));
    assert_eq!((p.m_a.num, p.m_a.den), (6, 1600));
    assert_eq!((p.m_d.num, p.m_d.den), (6, 1200));
    assert_eq!((p.m_x.num, p.m_x.den), (-1600 - 60, 1600));
    assert_eq!((p.m_y.num, p.m_y.den), (-1200 - 120, 1200));
}

#[test]
fn pack_uv_clamps_and_quantizes() {
    let r = pack_uv(Rational::new(1, 2), Rational::new(2, 1));
    assert_eq!(r, [32767, 65535]);
    let r = pack_uv(Rational::new(-3, 4), Rational::new(0, 1));
    assert_eq!(r, [0, 0]);
    let r = pack_uv(Rational::one(), Rational::new(65534, 65535));
    assert_eq!(r, [65535, 65534]);
}

#[test]
fn simple_uv_corners() {
    let frame = AtlasFrame { x: 8, y: 16, w: 32, h: 64 };
    let uv = create_simple_uv(frame, 128, 256);
    assert_eq!(uv[0], [Rational::new(8, 128), Rational::new(16, 256)]);
    assert_eq!(uv[1], [Rational::new(40, 128), Rational::new(16, 256)]);
    assert_eq!(uv[2], [Rational::new(40, 128), Rational::new(80, 256)]);
    assert_eq!(uv[3], [Rational::new(8, 128), Rational::new(80, 256)]);
}

#[test]
fn rotated_uv_quarter_turn() {
    // A full-texture frame packed with a quarter turn: the corner order
    // shifts by one against the unrotated layout.
    let frame = AtlasFrame { x: 0, y: 0, w: 2, h: 2 };
    let uv = create_rotated_uv(frame, 2, 2, GD8::s());
    assert_eq!(uv[0], [Rational::new(4, 4), Rational::new(0, 4)]);
    assert_eq!(uv[1], [Rational::new(4, 4), Rational::new(4, 4)]);
    assert_eq!(uv[2], [Rational::new(0, 4), Rational::new(4, 4)]);
    assert_eq!(uv[3], [Rational::new(0, 4), Rational::new(0, 4)]);
}

#[test]
fn rotated_uv_identity_rotation() {
    // The identity element leaves the corner order of the frame as the
    // unrotated layout: top-left first, clockwise.
    let frame = AtlasFrame { x: 0, y: 0, w: 2, h: 2 };
    let uv = create_rotated_uv(frame, 2, 2, GD8::e());
    assert_eq!(uv[0], [Rational::new(0, 4), Rational::new(0, 4)]);
    assert_eq!(uv[1], [Rational::new(4, 4), Rational::new(0, 4)]);
    assert_eq!(uv[2], [Rational::new(4, 4), Rational::new(4, 4)]);
    assert_eq!(uv[3], [Rational::new(0, 4), Rational::new(4, 4)]);
}

#[test]
fn create_uv_dispatches_on_rotation() {
    let frame = AtlasFrame { x: 0, y: 0, w: 2, h: 2 };
    assert_eq!(create_uv(frame, 2, 2, None), create_simple_uv(frame, 2, 2));
    assert_eq!(
        create_uv(frame, 2, 2, Some(GD8::s())),
        create_rotated_uv(frame, 2, 2, GD8::s())
    );
}
