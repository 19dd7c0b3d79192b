use vstd::prelude::*;
use crate::utils::quad_index_pattern;
use crate::utils::quad_indices16;

verus! {

/// Largest number of quads one indexed draw can cover: four vertices per
/// quad, and every index must stay addressable by a 16-bit value relative
/// to the command's own vertex base.
pub const MAX_QUADS: usize = 0x1_0000 / 4;

/// Largest index count of one draw command: six indices per quad.
pub const MAX_INDEX: usize = MAX_QUADS * 6;

/// One indexed draw: `end` is the index count of this command, `base` the
/// vertex offset the command's 16-bit indices are relative to.
#[derive(Clone, Copy, Debug, PartialEq, Eq, Structural)]
pub struct DrawQuad {
    pub end: u32,
    pub base: i32,
}

/// Failure of the batch engine: the vertex list would no longer fit the
/// signed 32-bit base offset a draw command carries.
#[derive(Clone, Copy, Debug, PartialEq, Eq, Structural)]
pub enum BatchError {
    CapacityExceeded,
}

/// How many draw commands a batch of `quads` quads takes: the least number
/// of commands of at most `MAX_QUADS` quads each, `ceil(quads / MAX_QUADS)`.
pub open spec fn command_count(quads: int) -> int {
    (quads + MAX_QUADS - 1) / (MAX_QUADS as int)
}

/// The index count of command `k` in a batch of `quads` quads: every
/// command before the last is full, the last covers the remainder.
pub open spec fn command_end(quads: int, k: int) -> int {
    if quads - k * MAX_QUADS >= MAX_QUADS {
        6 * MAX_QUADS
    } else {
        6 * (quads - k * MAX_QUADS)
    }
}

/// The vertex base of command `k`: the cumulative vertex count at the
/// moment the command was opened.
pub open spec fn command_base(k: int) -> int {
    k * MAX_QUADS * 4
}

/// Accumulates quad vertex data and splits it into indexed draw commands,
/// opening a fresh command whenever the active one would exceed the 16-bit
/// index ceiling. The static index buffer is built once and survives
/// `clear` and `flush`.
pub struct QuadBatch<V> {
    cmd_first: DrawQuad,
    cmd: Vec<DrawQuad>,
    vtx: Vec<V>,
    idx: Vec<u16>,
}

impl<V: Copy> QuadBatch<V> {
    /// The vertex data accumulated so far, in submission order.
    pub closed spec fn verts(&self) -> Seq<V> {
        self.vtx@
    }

    /// The number of whole quads accumulated so far.
    pub open spec fn quads(&self) -> int {
        self.verts().len() as int / 4
    }

    /// The contents of the static index buffer.
    pub closed spec fn index_data(&self) -> Seq<u16> {
        self.idx@
    }

    /// Well-formedness: vertices come in whole quads and fit a signed
    /// 32-bit base; the index buffer holds the shared triangle-list
    /// pattern; the commands partition the quads in order, every command
    /// full except the last, with strictly increasing bases.
    pub closed spec fn wf(&self) -> bool {
        let q = self.quads();
        let e = self.cmd@.len() as int;
        &&& self.vtx@.len() % 4 == 0
        &&& self.vtx@.len() <= 0x7fff_ffff
        &&& self.idx@.len() == MAX_INDEX
        &&& (forall|i: int| 0 <= i < self.idx@.len() ==> self.idx@[i] as int == quad_index_pattern(i))
        &&& self.cmd_first.base == 0
        &&& (forall|k: int| 0 <= k < e ==> self.cmd@[k].base as int == command_base(k + 1))
        &&& if q == 0 {
            e == 0 && self.cmd_first.end == 0
        } else {
            &&& e * MAX_QUADS < q <= (e + 1) * MAX_QUADS
            &&& (if e == 0 {
                self.cmd_first.end as int == 6 * q
            } else {
                self.cmd_first.end as int == MAX_INDEX
                    && self.cmd@[e - 1].end as int == 6 * (q - e * MAX_QUADS)
            })
            &&& (forall|k: int| 0 <= k < e - 1 ==> self.cmd@[k].end as int == MAX_INDEX)
        }
    }

    /// An empty batch with the precomputed static index buffer.
    pub fn new() -> (r: QuadBatch<V>)
        ensures
            r.wf(),
            r.quads() == 0,
            r.verts().len() == 0,
            forall|i: int| 0 <= i < r.index_data().len() ==> r.index_data()[i] as int
                == quad_index_pattern(i),
            r.index_data().len() == MAX_INDEX,
    {
        QuadBatch {
            cmd_first: DrawQuad { end: 0, base: 0 },
            cmd: Vec::new(),
            vtx: Vec::new(),
            idx: quad_indices16(),
        }
    }

    /// The contents of the static index buffer, shared by every draw
    /// command that `flush` emits.
    pub fn indices(&self) -> (r: &Vec<u16>)
        ensures
            r@ == self.index_data(),
    {
        &self.idx
    }

    /// Appends one quad to the active draw command, opening a new command
    /// at the current vertex count when the active one is full. Fails, and
    /// leaves the batch untouched, exactly when four more vertices would
    /// exceed the signed 32-bit vertex range.
    pub fn add_quad(&mut self, quad: [V; 4]) -> (r: Result<(), BatchError>)
        requires
            old(self).wf(),
        ensures
            final(self).wf(),
            final(self).index_data() == old(self).index_data(),
            r is Err <==> old(self).verts().len() + 4 > 0x7fff_ffff,
            r is Err ==> *final(self) == *old(self) && r == Result::<(), BatchError>::Err(
                BatchError::CapacityExceeded,
            ),
            r is Ok ==> final(self).verts() == old(self).verts() + quad@ && final(self).quads()
                == old(self).quads() + 1,
    {
        if self.vtx.len() > 0x7fff_ffff - 4 {
            return Err(BatchError::CapacityExceeded);
        }

        let ghost q = self.quads();
        let ghost olde = self.cmd@.len() as int;
        proof {
            assert(MAX_QUADS == 0x4000);
            assert(MAX_INDEX == 0x18000);
            vstd::arithmetic::div_mod::lemma_fundamental_div_mod(self.vtx@.len() as int, 4);
            assert(self.vtx@.len() == 4 * q);
        }

        let e = self.cmd.len();
        let last_end = if e > 0 {
            self.cmd[e - 1].end
        } else {
            self.cmd_first.end
        };
        proof {
            if q > 0 {
                if olde == 0 {
                    assert(last_end as int == 6 * q);
                } else {
                    assert(last_end as int == 6 * (q - olde * MAX_QUADS));
                }
            }
            // The active command is full exactly when the quad count sits
            // at a multiple of the per-command capacity.
            assert(last_end >= MAX_INDEX as u32 <==> q == (olde + 1) * MAX_QUADS);
        }

        if last_end >= MAX_INDEX as u32 {
            let base = self.vtx.len() as i32;
            self.cmd.push(DrawQuad { end: 0, base });
            proof {
                assert(base as int == command_base(olde + 1));
            }
        }

        let e = self.cmd.len();
        if e > 0 {
            let last = self.cmd[e - 1];
            self.cmd.set(e - 1, DrawQuad { end: last.end + 6, base: last.base });
        } else {
            self.cmd_first = DrawQuad { end: self.cmd_first.end + 6, base: self.cmd_first.base };
        }

        self.vtx.push(quad[0]);
        self.vtx.push(quad[1]);
        self.vtx.push(quad[2]);
        self.vtx.push(quad[3]);

        proof {
            assert(final(self).verts() =~= old(self).verts() + quad@);
            assert(self.vtx@.len() == 4 * q + 4);
            vstd::arithmetic::div_mod::lemma_fundamental_div_mod_converse(4 * q + 4, 4, q + 1, 0);
            assert(self.quads() == q + 1);
            let newe = self.cmd@.len() as int;
            if q == (olde + 1) * MAX_QUADS {
                assert(newe == olde + 1);
                assert(self.cmd@[newe - 1].end == 6);
                assert(6 * (q + 1 - newe * MAX_QUADS) == 6) by (nonlinear_arith)
                    requires
                        q == newe * MAX_QUADS,
                ;
                assert(newe * MAX_QUADS < q + 1 <= (newe + 1) * MAX_QUADS) by (nonlinear_arith)
                    requires
                        q == newe * MAX_QUADS,
                        MAX_QUADS == 0x4000,
                ;
                if olde > 0 {
                    assert(self.cmd@[olde - 1].end as int == 6 * (q - olde * MAX_QUADS));
                    assert(6 * (q - olde * MAX_QUADS) == MAX_INDEX) by (nonlinear_arith)
                        requires
                            q == (olde + 1) * MAX_QUADS,
                            MAX_QUADS == 0x4000,
                            MAX_INDEX == 6 * MAX_QUADS,
                    ;
                }
                assert(self.wf());
            } else {
                assert(newe == olde);
                if q == 0 {
                    assert(self.cmd_first.end == 6);
                    assert(self.wf());
                } else {
                    assert(olde * MAX_QUADS < q + 1 <= (olde + 1) * MAX_QUADS);
                    if olde == 0 {
                        assert(self.cmd_first.end as int == 6 * (q + 1));
                    } else {
                        assert(self.cmd@[olde - 1].end as int == 6 * (q + 1 - olde * MAX_QUADS));
                    }
                    assert(self.wf());
                }
            }
        }
        Ok(())
    }

    /// Resets vertex and command state to empty; the static index buffer
    /// is kept as it is, never reallocated.
    pub fn clear(&mut self)
        requires
            old(self).wf(),
        ensures
            final(self).wf(),
            final(self).quads() == 0,
            final(self).verts().len() == 0,
            final(self).index_data() == old(self).index_data(),
    {
        self.cmd_first = DrawQuad { end: 0, base: 0 };
        self.cmd.clear();
        self.vtx.clear();
    }

    /// The draw commands covering the current batch, first command
    /// included first: `command_count` many, command `k` with vertex base
    /// `command_base(k)` and index count `command_end(quads, k)`. An empty
    /// batch still reports its single empty first command.
    pub fn commands(&self) -> (r: Vec<DrawQuad>)
        requires
            self.wf(),
        ensures
            self.quads() == 0 ==> r@.len() == 1 && r@[0] == (DrawQuad { end: 0, base: 0 }),
            self.quads() > 0 ==> r@.len() == command_count(self.quads()),
            forall|k: int| 0 <= k < r@.len() ==> r@[k].base as int == command_base(k)
                && r@[k].end as int == command_end(self.quads(), k),
    {
        let ghost q = self.quads();
        let ghost e = self.cmd@.len() as int;
        let mut r: Vec<DrawQuad> = Vec::new();
        r.push(self.cmd_first);
        let mut i: usize = 0;
        while i < self.cmd.len()
            invariant
                self.wf(),
                q == self.quads(),
                e == self.cmd@.len(),
                i <= e,
                r@.len() == i + 1,
                r@[0] == self.cmd_first,
                forall|k: int| 1 <= k <= i ==> r@[k] == self.cmd@[k - 1],
            decreases self.cmd.len() - i,
        {
            let c = self.cmd[i];
            r.push(c);
            i = i + 1;
        }
        proof {
            if q > 0 {
                assert(command_count(q) == e + 1) by (nonlinear_arith)
                    requires
                        e * MAX_QUADS < q <= (e + 1) * MAX_QUADS,
                        e >= 0,
                        MAX_QUADS == 0x4000,
                        command_count(q) == (q + MAX_QUADS - 1) / (MAX_QUADS as int),
                ;
                assert forall|k: int| 0 <= k < r@.len() implies r@[k].base as int == command_base(
                    k,
                ) && r@[k].end as int == command_end(q, k) by {
                    if k == 0 {
                        assert(command_base(0) == 0);
                        if e == 0 {
                            assert(q <= MAX_QUADS);
                        } else {
                            assert(q - 0 * MAX_QUADS >= MAX_QUADS);
                        }
                    } else {
                        assert(r@[k] == self.cmd@[k - 1]);
                        if k < e {
                            assert(self.cmd@[k - 1].end as int == MAX_INDEX);
                            assert(q > e * MAX_QUADS);
                            assert((k + 1) * MAX_QUADS <= e * MAX_QUADS) by (nonlinear_arith)
                                requires
                                    k + 1 <= e,
                                    MAX_QUADS == 0x4000,
                            ;
                        } else {
                            assert(k == e);
                            assert(q - e * MAX_QUADS <= MAX_QUADS);
                        }
                    }
                }
            }
        }
        r
    }

    /// Hands out the accumulated vertex run and the draw commands to
    /// submit for it, then clears. With no vertices nothing is emitted
    /// (and nothing need be submitted); otherwise one command per
    /// `command_count` slice of quads, in submission order.
    pub fn flush(&mut self) -> (r: (Vec<V>, Vec<DrawQuad>))
        requires
            old(self).wf(),
        ensures
            final(self).wf(),
            final(self).quads() == 0,
            final(self).verts().len() == 0,
            final(self).index_data() == old(self).index_data(),
            r.0@ == old(self).verts(),
            r.1@.len() == command_count(old(self).quads()),
            forall|k: int| 0 <= k < r.1@.len() ==> r.1@[k].base as int == command_base(k)
                && r.1@[k].end as int == command_end(old(self).quads(), k),
    {
        if self.vtx.len() == 0 {
            self.clear();
            let verts: Vec<V> = Vec::new();
            let draws: Vec<DrawQuad> = Vec::new();
            assert(command_count(0) == 0);
            return (verts, draws);
        }

        let mut verts: Vec<V> = Vec::new();
        let mut i: usize = 0;
        while i < self.vtx.len()
            invariant
                i <= self.vtx@.len(),
                verts@.len() == i,
                forall|j: int| 0 <= j < i ==> verts@[j] == self.vtx@[j],
            decreases self.vtx.len() - i,
        {
            let v = self.vtx[i];
            verts.push(v);
            i = i + 1;
        }
        assert(verts@ =~= self.vtx@);

        let draws = self.commands();
        self.clear();
        (verts, draws)
    }
}

/// The command layout is the least partition into full commands: for a
/// non-empty batch, `command_count` commands cover all quads, every
/// command except possibly the last being full.
pub proof fn lemma_command_count(q: int)
    requires
        q > 0,
    ensures
        MAX_QUADS * (command_count(q) - 1) < q <= MAX_QUADS * command_count(q),
{
    assert(MAX_QUADS * (command_count(q) - 1) < q <= MAX_QUADS * command_count(q))
        by (nonlinear_arith)
        requires
            q > 0,
            MAX_QUADS == 0x4000,
            command_count(q) == (q + MAX_QUADS - 1) / (MAX_QUADS as int),
    ;
}

/// Round trip at the ceiling: exactly `MAX_QUADS` quads take one command
/// with a full index count; one quad more takes a second command, based at
/// the vertex count where the first command closed, covering one quad.
pub proof fn lemma_round_trip()
    ensures
        command_count(MAX_QUADS as int) == 1,
        command_end(MAX_QUADS as int, 0) == (MAX_QUADS as int) * 6,
        command_count(MAX_QUADS as int + 1) == 2,
        command_base(1) == (MAX_QUADS as int) * 4,
        command_end(MAX_QUADS as int + 1, 1) == 6,
{
    assert(command_count(MAX_QUADS as int) == 1) by {
        vstd::arithmetic::div_mod::lemma_fundamental_div_mod_converse(
            2 * 0x4000int - 1,
            0x4000,
            1,
            0x4000 - 1,
        );
    }
    assert(command_count(MAX_QUADS as int + 1) == 2) by {
        vstd::arithmetic::div_mod::lemma_fundamental_div_mod_converse(2 * 0x4000int, 0x4000, 2, 0);
    }
}

} // verus!
