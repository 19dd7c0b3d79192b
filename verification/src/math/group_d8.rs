use vstd::prelude::*;

verus! {

/// The x-component of the axis direction for rotation `r` of the eight
/// 45-degree steps (east = 0, counting clockwise with y pointing down).
pub open spec fn dir_x(r: int) -> int {
    if r == 0 {
        1
    } else if r == 1 {
        1
    } else if r == 2 {
        0
    } else if r == 3 {
        -1
    } else if r == 4 {
        -1
    } else if r == 5 {
        -1
    } else if r == 6 {
        0
    } else {
        1
    }
}

/// The y-component of the axis direction for rotation `r`.
pub open spec fn dir_y(r: int) -> int {
    if r == 0 {
        0
    } else if r == 1 {
        1
    } else if r == 2 {
        1
    } else if r == 3 {
        1
    } else if r == 4 {
        0
    } else if r == 5 {
        -1
    } else if r == 6 {
        -1
    } else {
        -1
    }
}

/// The composition law of the group: values 0 to 7 are rotations, 8 to 15
/// reflections; composing with a reflection flips between the halves and
/// reverses the sense of rotation.
pub open spec fn compose_val(a: int, b: int) -> int {
    if a < 8 && b < 8 {
        (a + b) % 8
    } else if a < 8 {
        8 + (a + b) % 8
    } else if b < 8 {
        8 + (a - b) % 8
    } else {
        (a - b) % 8
    }
}

/// The opposite symmetry, the group inverse: a reflection is its own
/// opposite, a rotation maps to `(8 - r) % 8`, so the identity is its
/// own opposite.
pub open spec fn inv_val(a: int) -> int {
    if a >= 8 {
        a
    } else {
        (8 - a) % 8
    }
}

/// `inv` is the group inverse: composing an element with its opposite on
/// either side gives the identity, and taking the opposite twice gives
/// the element back.
pub proof fn lemma_inv_is_group_inverse(a: int)
    requires
        0 <= a < 16,
    ensures
        compose_val(a, inv_val(a)) == 0,
        compose_val(inv_val(a), a) == 0,
        inv_val(inv_val(a)) == a,
{
}

/// The element of the dihedral group of degree 8 used to compensate for
/// texture-atlas packing rotations: one of eight rotations (0 to 7, in
/// 45-degree steps clockwise) or eight reflections (8 to 15).
///
/// The axis directions after applying element `a` are `(ux(a), uy(a))`
/// and `(vx(a), vy(a))`.
#[derive(Clone, Copy, Debug, PartialEq, Eq, Structural)]
pub struct GD8(u8);

impl GD8 {
    /// The group element's index, 0 to 15.
    pub closed spec fn value(&self) -> int {
        self.0 as int
    }

    /// A valid element has an index below 16.
    pub open spec fn wf(&self) -> bool {
        0 <= self.value() < 16
    }

    /// The group element with the given index.
    pub fn new(v: u8) -> (r: GD8)
        requires
            v < 16,
        ensures
            r.wf(),
            r.value() == v,
    {
        GD8(v)
    }

    /// East, the identity.
    pub fn e() -> (r: GD8)
        ensures
            r.wf(),
            r.value() == 0,
    {
        GD8(0)
    }

    /// Southeast, 45 degrees clockwise.
    pub fn se() -> (r: GD8)
        ensures
            r.wf(),
            r.value() == 1,
    {
        GD8(1)
    }

    /// South, 90 degrees clockwise.
    pub fn s() -> (r: GD8)
        ensures
            r.wf(),
            r.value() == 2,
    {
        GD8(2)
    }

    /// Southwest, 135 degrees clockwise.
    pub fn sw() -> (r: GD8)
        ensures
            r.wf(),
            r.value() == 3,
    {
        GD8(3)
    }

    /// West, 180 degrees.
    pub fn w() -> (r: GD8)
        ensures
            r.wf(),
            r.value() == 4,
    {
        GD8(4)
    }

    /// Northwest, 135 degrees counterclockwise.
    pub fn nw() -> (r: GD8)
        ensures
            r.wf(),
            r.value() == 5,
    {
        GD8(5)
    }

    /// North, 90 degrees counterclockwise.
    pub fn n() -> (r: GD8)
        ensures
            r.wf(),
            r.value() == 6,
    {
        GD8(6)
    }

    /// Northeast, 45 degrees counterclockwise.
    pub fn ne() -> (r: GD8)
        ensures
            r.wf(),
            r.value() == 7,
    {
        GD8(7)
    }

    /// Reflection about the y-axis.
    pub fn mirror_vertical() -> (r: GD8)
        ensures
            r.wf(),
            r.value() == 8,
    {
        GD8(8)
    }

    /// Reflection about the main diagonal.
    pub fn main_diagonal() -> (r: GD8)
        ensures
            r.wf(),
            r.value() == 10,
    {
        GD8(10)
    }

    /// Reflection about the x-axis.
    pub fn mirror_horizontal() -> (r: GD8)
        ensures
            r.wf(),
            r.value() == 12,
    {
        GD8(12)
    }

    /// Reflection about the reverse diagonal.
    pub fn reverse_diagonal() -> (r: GD8)
        ensures
            r.wf(),
            r.value() == 14,
    {
        GD8(14)
    }

    /// Composes the two group operations, this one applied after `rhs`.
    pub fn compose(self, rhs: GD8) -> (r: GD8)
        requires
            self.wf(),
            rhs.wf(),
        ensures
            r.wf(),
            r.value() == compose_val(self.value(), rhs.value()),
    {
        let a = self.0;
        let b = rhs.0;
        let v: u8 = if a < 8 && b < 8 {
            (a + b) % 8
        } else if a < 8 {
            (a + b) % 8 + 8
        } else if b < 8 {
            (a - b) % 8 + 8
        } else {
            (a + 8 - b) % 8
        };
        GD8(v)
    }

    /// The x-component of the u-axis after applying the element.
    pub fn ux(self) -> (r: i8)
        requires
            self.wf(),
        ensures
            r as int == dir_x(self.value() % 8),
    {
        let r = self.0 % 8;
        if r == 0 || r == 1 || r == 7 {
            1
        } else if r == 2 || r == 6 {
            0
        } else {
            -1
        }
    }

    /// The y-component of the u-axis after applying the element.
    pub fn uy(self) -> (r: i8)
        requires
            self.wf(),
        ensures
            r as int == dir_y(self.value() % 8),
    {
        let r = self.0 % 8;
        if r == 1 || r == 2 || r == 3 {
            1
        } else if r == 0 || r == 4 {
            0
        } else {
            -1
        }
    }

    /// The x-component of the v-axis after applying the element.
    pub fn vx(self) -> (r: i8)
        requires
            self.wf(),
        ensures
            self.value() < 8 ==> r as int == -dir_y(self.value()),
            self.value() >= 8 ==> r as int == dir_y(self.value() - 8),
    {
        let neg = self.0 < 8;
        let r = self.0 % 8;
        let base: i8 = if r == 1 || r == 2 || r == 3 {
            1
        } else if r == 0 || r == 4 {
            0
        } else {
            -1
        };
        if neg {
            -base
        } else {
            base
        }
    }

    /// The y-component of the v-axis after applying the element.
    pub fn vy(self) -> (r: i8)
        requires
            self.wf(),
        ensures
            self.value() < 8 ==> r as int == dir_x(self.value()),
            self.value() >= 8 ==> r as int == -dir_x(self.value() - 8),
    {
        let neg = self.0 >= 8;
        let r = self.0 % 8;
        let base: i8 = if r == 0 || r == 1 || r == 7 {
            1
        } else if r == 2 || r == 6 {
            0
        } else {
            -1
        };
        if neg {
            -base
        } else {
            base
        }
    }

    /// The opposite symmetry of the element, its group inverse.
    pub fn inv(self) -> (r: GD8)
        requires
            self.wf(),
        ensures
            r.wf(),
            r.value() == inv_val(self.value()),
    {
        let a = self.0;
        if a & 8 != 0 {
            assert(a & 8 != 0 ==> a >= 8) by (bit_vector);
            GD8(a % 16)
        } else {
            assert(a & 8 == 0 && a < 16 ==> a < 8) by (bit_vector);
            GD8((8 - a % 8) % 8)
        }
    }

    /// Composes this element with the opposite of `rhs`, undoing `rhs`:
    /// the reverse of `compose`.
    pub fn compose_inv(self, rhs: GD8) -> (r: GD8)
        requires
            self.wf(),
            rhs.wf(),
        ensures
            r.wf(),
            r.value() == compose_val(self.value(), inv_val(rhs.value())),
    {
        self.compose(rhs.inv())
    }

    /// Adds 180 degrees to the rotation; the operation is commutative.
    pub fn rotate180(self) -> (r: GD8)
        requires
            self.wf(),
        ensures
            r.wf(),
            r.value() == if self.value() % 8 < 4 {
                self.value() + 4
            } else {
                self.value() - 4
            },
    {
        let a = self.0;
        let v = a ^ 4;
        assert(a < 16 ==> v == if a % 8 < 4 {
            a + 4
        } else {
            a - 4
        }) by (bit_vector)
            requires
                v == a ^ 4,
        ;
        GD8(v)
    }

    /// Whether the rotation is vertical, south or north. The test is not
    /// meaningful for reflections.
    pub fn is_vertical(self) -> (r: bool)
        requires
            self.wf(),
        ensures
            r == (self.value() % 4 == 2),
    {
        self.0 % 4 == 2
    }

    /// Approximates a direction vector (y pointing down) by one of the
    /// eight rotations: a near-axis vector snaps to the axis, anything
    /// else to the nearest diagonal.
    pub fn by_direction(dx: i64, dy: i64) -> (r: GD8)
        requires
            -0x1000_0000_0000_0000 <= dx <= 0x1000_0000_0000_0000,
            -0x1000_0000_0000_0000 <= dy <= 0x1000_0000_0000_0000,
        ensures
            r.wf(),
            r.value() == by_direction_val(dx as int, dy as int),
    {
        let ax = if dx < 0 {
            -dx
        } else {
            dx
        };
        let ay = if dy < 0 {
            -dy
        } else {
            dy
        };
        if ax * 2 <= ay {
            if dy >= 0 {
                GD8(2)
            } else {
                GD8(6)
            }
        } else if ay * 2 <= ax {
            if dx > 0 {
                GD8(0)
            } else {
                GD8(4)
            }
        } else if dy > 0 {
            if dx > 0 {
                GD8(1)
            } else {
                GD8(3)
            }
        } else if dx > 0 {
            GD8(7)
        } else {
            GD8(5)
        }
    }
}

/// The rotation `by_direction` picks for a vector: south or north when the
/// vector hugs the y-axis, east or west when it hugs the x-axis, otherwise
/// the diagonal of its quadrant.
pub open spec fn by_direction_val(dx: int, dy: int) -> int {
    let ax = if dx < 0 {
        -dx
    } else {
        dx
    };
    let ay = if dy < 0 {
        -dy
    } else {
        dy
    };
    if ax * 2 <= ay {
        if dy >= 0 {
            2
        } else {
            6
        }
    } else if ay * 2 <= ax {
        if dx > 0 {
            0
        } else {
            4
        }
    } else if dy > 0 {
        if dx > 0 {
            1
        } else {
            3
        }
    } else if dx > 0 {
        7
    } else {
        5
    }
}

} // verus!
