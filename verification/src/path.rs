//! Curve geometry engine: a closed composite cubic-Bezier path from a
//! spline's resolved handle and control-point positions.
//!
//! For handles `h_0 .. h_{n-1}` the path is `move_to(h_0)`, one cubic
//! segment per consecutive pair (outgoing tangent of the current handle,
//! incoming tangent of the next), one closing cubic segment from
//! `h_{n-1}` back to `h_0`, and a final close.  Every emitted position is
//! flipped into the rendering convention.

use vstd::prelude::*;

use crate::geom::{flip, Vec2};
use crate::graph::{Graph, Spline};

verus! {

/// One drawing command of a path description, in the rendering convention.
#[derive(Clone, Copy, PartialEq, Eq, Debug)]
pub enum PathCmd {
    MoveTo(Vec2),
    CurveTo(Vec2, Vec2, Vec2),
    Close,
}

/// A handle resolved to world positions: the join position of the handle
/// itself and the positions of its two tangent control points.
#[derive(Clone, Copy, PartialEq, Eq, Debug)]
pub struct ResolvedHandle {
    pub join: Vec2,
    pub c_a: Vec2,
    pub c_b: Vec2,
}

/// Path generation failure: the spline's handle list is empty or too short
/// to close a loop, or references an id with no live handle.  A malformed
/// spline produces no path at all rather than a partial one.
#[derive(Clone, Copy, PartialEq, Eq, Structural, Debug)]
pub enum PathError {
    InvalidTopology,
}

/// The command sequence of the closed path over the resolved handles:
/// a move to the first join, `n - 1` cubic segments between consecutive
/// handles, one closing cubic segment back to the first join, and a close,
/// all in the rendering convention.
pub open spec fn closed_path_cmds(hs: Seq<ResolvedHandle>) -> Seq<PathCmd>
    recommends
        hs.len() >= 2,
{
    let n = hs.len() as int;
    Seq::new(
        (n + 2) as nat,
        |i: int|
            if i == 0 {
                PathCmd::MoveTo(hs[0].join.flip_spec())
            } else if i <= n - 1 {
                PathCmd::CurveTo(
                    hs[i - 1].c_b.flip_spec(),
                    hs[i].c_a.flip_spec(),
                    hs[i].join.flip_spec(),
                )
            } else if i == n {
                PathCmd::CurveTo(
                    hs[n - 1].c_b.flip_spec(),
                    hs[0].c_a.flip_spec(),
                    hs[0].join.flip_spec(),
                )
            } else {
                PathCmd::Close
            },
    )
}

impl Graph {
    /// The world positions a live handle resolves to.
    pub open spec fn resolved_handle(self, id: int) -> ResolvedHandle
        recommends
            self.handle_live(id),
    {
        let h = self.handle_at(id);
        ResolvedHandle {
            join: h.position,
            c_a: self.cp_at(h.control_point_a as int).position,
            c_b: self.cp_at(h.control_point_b as int).position,
        }
    }

    pub open spec fn resolved_handles(self, ids: Seq<usize>) -> Seq<ResolvedHandle> {
        ids.map_values(|id: usize| self.resolved_handle(id as int))
    }

    /// The handle list can be drawn: at least two entries, every one a
    /// live handle.
    pub open spec fn spline_topology_ok(self, ids: Seq<usize>) -> bool {
        &&& ids.len() >= 2
        &&& forall|i: int| 0 <= i < ids.len() ==> self.handle_live(#[trigger] ids[i] as int)
    }
}

/// Build the closed path description of a spline against the graph.
/// Succeeds exactly when the spline's handle list holds at least two live
/// handles; otherwise reports invalid topology and produces nothing.
pub fn build_spline_path(g: &Graph, spline: &Spline) -> (r: Result<Vec<PathCmd>, PathError>)
    requires
        g.wf(),
    ensures
        r is Ok <==> g.spline_topology_ok(spline.handles@),
        r matches Ok(cmds) ==> cmds@ == closed_path_cmds(g.resolved_handles(spline.handles@)),
        r is Err ==> r == Err::<Vec<PathCmd>, PathError>(PathError::InvalidTopology),
{
    let ids = &spline.handles;
    if ids.len() < 2 {
        return Err(PathError::InvalidTopology);
    }
    let n = ids.len();

    // Resolve every handle id to world positions, rejecting dead ids.
    let mut pts: Vec<ResolvedHandle> = Vec::new();
    let mut i: usize = 0;
    while i < n
        invariant
            g.wf(),
            ids@ == spline.handles@,
            n == ids@.len(),
            0 <= i <= n,
            pts@.len() == i,
            forall|j: int| 0 <= j < i ==> g.handle_live(#[trigger] ids@[j] as int),
            forall|j: int| 0 <= j < i ==> pts@[j] == g.resolved_handle(#[trigger] ids@[j] as int),
            forall|j: int|
                0 <= j < i ==> (#[trigger] pts@[j]).join.wf() && pts@[j].c_a.wf()
                    && pts@[j].c_b.wf(),
        decreases n - i,
    {
        let id = ids[i];
        if !(id < g.handles.len()) {
            proof {
                assert(!g.handle_live(ids@[i as int] as int));
            }
            return Err(PathError::InvalidTopology);
        }
        match g.handles[id] {
            Some(h) => {
                proof {
                    assert(g.handle_live(id as int));
                    assert(g.handle_wf_at(id as int));
                    assert(g.cp_live(h.control_point_a as int));
                    assert(g.cp_wf_at(h.control_point_a as int));
                    assert(g.cp_live(h.control_point_b as int));
                    assert(g.cp_wf_at(h.control_point_b as int));
                }
                let ca = g.control_points[h.control_point_a].unwrap();
                let cb = g.control_points[h.control_point_b].unwrap();
                pts.push(ResolvedHandle { join: h.position, c_a: ca.position, c_b: cb.position });
            },
            None => {
                proof {
                    assert(!g.handle_live(ids@[i as int] as int));
                }
                return Err(PathError::InvalidTopology);
            },
        }
        i += 1;
    }
    proof {
        assert(g.spline_topology_ok(ids@));
        assert(pts@ =~= g.resolved_handles(ids@));
    }

    // Emit the commands.
    let mut cmds: Vec<PathCmd> = Vec::new();
    let first = pts[0];
    cmds.push(PathCmd::MoveTo(flip(first.join)));
    let mut i: usize = 1;
    while i < n
        invariant
            n == pts@.len(),
            2 <= n,
            first == pts@[0],
            forall|j: int|
                0 <= j < n ==> (#[trigger] pts@[j]).join.wf() && pts@[j].c_a.wf()
                    && pts@[j].c_b.wf(),
            1 <= i <= n,
            cmds@.len() == i,
            cmds@[0] == PathCmd::MoveTo(pts@[0].join.flip_spec()),
            forall|j: int|
                1 <= j < i ==> #[trigger] cmds@[j] == PathCmd::CurveTo(
                    pts@[j - 1].c_b.flip_spec(),
                    pts@[j].c_a.flip_spec(),
                    pts@[j].join.flip_spec(),
                ),
        decreases n - i,
    {
        let prev = pts[i - 1];
        let cur = pts[i];
        cmds.push(PathCmd::CurveTo(flip(prev.c_b), flip(cur.c_a), flip(cur.join)));
        i += 1;
    }
    let last = pts[n - 1];
    cmds.push(PathCmd::CurveTo(flip(last.c_b), flip(first.c_a), flip(first.join)));
    cmds.push(PathCmd::Close);
    proof {
        assert(cmds@ =~= closed_path_cmds(g.resolved_handles(ids@)));
    }
    Ok(cmds)
}

/// The world-space offset from a control point to its owning handle: the
/// tangent line the renderer draws between the two.
pub fn control_point_tangent_offset(g: &Graph, c: usize) -> (r: Option<Vec2>)
    requires
        g.wf(),
    ensures
        r is Some <==> g.cp_live(c as int),
        r matches Some(v) ==> ({
            let cp = g.cp_at(c as int);
            let h = g.handle_at(cp.handle as int);
            &&& v.x as int == h.position.x - cp.position.x
            &&& v.y as int == h.position.y - cp.position.y
        }),
{
    if !(c < g.control_points.len()) {
        return None;
    }
    match g.control_points[c] {
        Some(cp) => {
            proof {
                assert(g.cp_live(c as int));
                assert(g.cp_wf_at(c as int));
                assert(g.handle_live(cp.handle as int));
                assert(g.handle_wf_at(cp.handle as int));
            }
            let h = g.handles[cp.handle].unwrap();
            Some(Vec2 { x: h.position.x - cp.position.x, y: h.position.y - cp.position.y })
        },
        None => None,
    }
}

/// Law: for every valid spline of `n >= 2` handles the generated path has
/// exactly `n` cubic segments, the `n - 1` joins between consecutive
/// handles plus one closing segment; it starts with a move to the first
/// handle's flipped position, the closing segment ends at that same
/// position, and the final command closes the loop there.
pub proof fn lemma_closed_path_shape(hs: Seq<ResolvedHandle>)
    requires
        hs.len() >= 2,
    ensures
        ({
            let cmds = closed_path_cmds(hs);
            let n = hs.len() as int;
            &&& cmds.len() == n + 2
            &&& cmds[0] == PathCmd::MoveTo(hs[0].join.flip_spec())
            &&& forall|i: int| 0 <= i < cmds.len() ==> ((#[trigger] cmds[i]) is CurveTo <==> 1 <= i
                <= n)
            &&& cmds[n]->CurveTo_2 == hs[0].join.flip_spec()
            &&& cmds[n + 1] is Close
        }),
{
}

} // verus!
