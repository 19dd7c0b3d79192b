use vstd::prelude::*;

verus! {

/// The shared triangle-list pattern for quad `i / 6`: six indices
/// `[0, 1, 2, 0, 2, 3]` relative to a base of four vertices per quad.
pub open spec fn quad_index_pattern(i: int) -> int {
    let corner = if i % 6 == 0 {
        0int
    } else if i % 6 == 1 {
        1int
    } else if i % 6 == 2 {
        2int
    } else if i % 6 == 3 {
        0int
    } else if i % 6 == 4 {
        2int
    } else {
        3int
    };
    (i / 6) * 4 + corner
}

fn pattern_at(i: usize) -> (r: usize)
    requires
        i < (0x1_0000int / 4) * 6,
    ensures
        r == quad_index_pattern(i as int),
        r <= 0xffff,
{
    let rem: usize = i % 6;
    let corner: usize = if rem == 0 {
        0
    } else if rem == 1 {
        1
    } else if rem == 2 {
        2
    } else if rem == 3 {
        0
    } else if rem == 4 {
        2
    } else {
        3
    };
    assert(i / 6 <= 16383) by {
        assert(i <= 98303);
    }
    (i / 6) * 4 + corner
}

/// The full static index buffer for 16-bit indices: covers the largest
/// quad count whose vertices stay addressable by a `u16` index.
pub fn quad_indices16() -> (r: Vec<u16>)
    ensures
        r@.len() == (0x1_0000int / 4) * 6,
        forall|i: int| 0 <= i < r@.len() ==> r@[i] as int == quad_index_pattern(i),
{
    let total: usize = (0x1_0000 / 4) * 6;
    let mut r: Vec<u16> = Vec::new();
    let mut i: usize = 0;
    while i < total
        invariant
            total == (0x1_0000int / 4) * 6,
            i <= total,
            r@.len() == i,
            forall|j: int| 0 <= j < i ==> r@[j] as int == quad_index_pattern(j),
        decreases total - i,
    {
        let v = pattern_at(i);
        r.push(v as u16);
        i = i + 1;
    }
    r
}

/// The same pattern over 32-bit indices, for the first `quads` quads.
pub fn quad_indices32(quads: usize) -> (r: Vec<u32>)
    requires
        quads <= 0x4000_0000,
        6 * quads <= usize::MAX,
    ensures
        r@.len() == 6 * quads,
        forall|i: int| 0 <= i < r@.len() ==> r@[i] as int == quad_index_pattern(i),
{
    let total: usize = 6 * quads;
    let mut r: Vec<u32> = Vec::new();
    let mut i: usize = 0;
    while i < total
        invariant
            total == 6 * quads,
            quads <= 0x4000_0000,
            i <= total,
            r@.len() == i,
            forall|j: int| 0 <= j < i ==> r@[j] as int == quad_index_pattern(j),
        decreases total - i,
    {
        let rem: usize = i % 6;
        let corner: usize = if rem == 0 {
            0
        } else if rem == 1 {
            1
        } else if rem == 2 {
            2
        } else if rem == 3 {
            0
        } else if rem == 4 {
            2
        } else {
            3
        };
        assert(i / 6 < 0x4000_0000) by {
            assert(i < 6 * 0x4000_0000);
        }
        let v = (i / 6) * 4 + corner;
        r.push(v as u32);
        i = i + 1;
    }
    r
}

} // verus!
