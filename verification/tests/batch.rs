use pixi::batch::{DrawQuad, QuadBatch, MAX_INDEX, MAX_QUADS};
use pixi::utils::{quad_indices16, quad_indices32};

fn quad(n: u64) -> [u64; 4] {
    [4 * n, 4 * n + 1, 4 * n + 2, 4 * n + 3]
}

#[test]
fn index_pattern() {
    let idx = quad_indices16();
    assert_eq!(idx.len(), MAX_INDEX);
    assert_eq!(&idx[..12], &[0, 1, 2, 0, 2, 3, 4, 5, 6, 4, 6, 7]);
    assert_eq!(idx[MAX_INDEX - 1], 0xffff);

    let idx32 = quad_indices32(3);
    assert_eq!(idx32, vec![0, 1, 2, 0, 2, 3, 4, 5, 6, 4, 6, 7, 8, 9, 10, 8, 10, 11]);
}

#[test]
fn one_quad_one_command() {
    let mut b: QuadBatch<u64> = QuadBatch::new();
    b.add_quad(quad(0)).unwrap();
    let cmds = b.commands();
    assert_eq!(cmds.len(), 1);
    assert_eq!(cmds[0], DrawQuad { end: 6, base: 0 });
}

#[test]
fn command_count_is_ceiling() {
    // One command per full MAX_QUADS slice, plus one for the remainder.
    let mut b: QuadBatch<u32> = QuadBatch::new();
    for i in 0..(MAX_QUADS as u32 + 10) {
        b.add_quad([i, i, i, i]).unwrap();
        let quads = i as usize + 1;
        let expected = (quads + MAX_QUADS - 1) / MAX_QUADS;
        assert_eq!(b.commands().len(), expected);
    }
    let cmds = b.commands();
    assert_eq!(cmds.len(), 2);
    assert_eq!(cmds[0].base, 0);
    assert_eq!(cmds[1].base, (MAX_QUADS * 4) as i32);
}

#[test]
fn round_trip_at_ceiling() {
    let mut b: QuadBatch<u8> = QuadBatch::new();
    for _ in 0..MAX_QUADS {
        b.add_quad([0, 1, 2, 3]).unwrap();
    }
    let cmds = b.commands();
    assert_eq!(cmds.len(), 1);
    assert_eq!(cmds[0], DrawQuad { end: (MAX_QUADS * 6) as u32, base: 0 });

    b.add_quad([9, 9, 9, 9]).unwrap();
    let cmds = b.commands();
    assert_eq!(cmds.len(), 2);
    assert_eq!(cmds[0], DrawQuad { end: MAX_INDEX as u32, base: 0 });
    assert_eq!(cmds[1], DrawQuad { end: 6, base: (MAX_QUADS * 4) as i32 });
}

#[test]
fn flush_hands_out_vertices_and_draws() {
    let mut b: QuadBatch<u64> = QuadBatch::new();
    b.add_quad(quad(0)).unwrap();
    b.add_quad(quad(1)).unwrap();
    let (verts, draws) = b.flush();
    assert_eq!(verts, vec![0, 1, 2, 3, 4, 5, 6, 7]);
    assert_eq!(draws.len(), 1);
    assert_eq!(draws[0], DrawQuad { end: 12, base: 0 });
    let cmds = b.commands();
    assert_eq!(cmds.len(), 1);
    assert_eq!(cmds[0], DrawQuad { end: 0, base: 0 });
}

#[test]
fn clear_then_flush_is_a_no_op() {
    let mut b: QuadBatch<u64> = QuadBatch::new();
    b.add_quad(quad(0)).unwrap();
    let before = b.indices().clone();
    b.clear();
    let (verts, draws) = b.flush();
    assert!(verts.is_empty());
    assert!(draws.is_empty());
    // The static index buffer survives both clear and flush untouched.
    assert_eq!(b.indices(), &before);
    assert_eq!(b.indices().len(), MAX_INDEX);
}
