//! World-space positions and the world-to-render coordinate flip.

use vstd::prelude::*;

verus! {

/// Largest coordinate magnitude the editor accepts.  Keeping every coordinate
/// within this bound rules out `i64` overflow in the drag arithmetic and keeps
/// each coordinate exactly representable when a path is handed to the
/// double-precision renderer.
pub const MAX_COORD: i64 = 9007199254740992;

/// A coordinate the editor may store.
pub open spec fn coord_in_range(c: int) -> bool {
    -MAX_COORD <= c <= MAX_COORD
}

/// A world-space position or displacement on the editing canvas.
#[derive(Clone, Copy, PartialEq, Eq, Structural, Debug)]
pub struct Vec2 {
    pub x: i64,
    pub y: i64,
}

impl Vec2 {
    /// Both coordinates are within the canvas bound.
    pub open spec fn wf(self) -> bool {
        coord_in_range(self.x as int) && coord_in_range(self.y as int)
    }

    /// The same position in the rendering convention, whose vertical axis
    /// points the other way.
    pub open spec fn flip_spec(self) -> Vec2 {
        Vec2 { x: self.x, y: (-(self.y as int)) as i64 }
    }

    /// This position displaced by `(dx, dy)`, truncated to `i64`.
    pub open spec fn translated(self, dx: int, dy: int) -> Vec2 {
        Vec2 { x: (self.x + dx) as i64, y: (self.y + dy) as i64 }
    }
}

/// The origin of the world coordinate system.
pub fn origin() -> (r: Vec2)
    ensures
        r == (Vec2 { x: 0, y: 0 }),
        r.wf(),
{
    Vec2 { x: 0, y: 0 }
}

/// Map a position between the editing convention and the rendering
/// convention by negating the vertical axis.
pub fn flip(p: Vec2) -> (r: Vec2)
    requires
        p.wf(),
    ensures
        r == p.flip_spec(),
        r.x == p.x,
        r.y as int == -(p.y as int),
        r.wf(),
{
    Vec2 { x: p.x, y: -p.y }
}

/// Law: the coordinate flip is an involution.  Mapping a position to the
/// rendering convention and back returns exactly the position it started
/// from, for every position the editor can hold.
pub proof fn lemma_flip_involution(p: Vec2)
    requires
        p.wf(),
    ensures
        p.flip_spec().flip_spec() == p,
{
}

} // verus!
