//! Entity/relationship graph of control points, handles and splines.
//!
//! Entities are kept in arenas and refer to each other by stable ids
//! (indices that are never reused), so every cross-reference is a lookup
//! and no entity owns another.  A control point is created together with
//! its owning handle and is destroyed by the handle's cascade delete.

use vstd::prelude::*;

use crate::geom::Vec2;

verus! {

/// Policy governing how a handle's own drag propagates to its two control
/// points.  Only `Vector` (no constraint) is exercised; the other modes are
/// declared so that future constraint logic has to handle them explicitly.
#[derive(Clone, Copy, PartialEq, Eq, Structural, Debug)]
pub enum ControlMode {
    Vector,
    Aligned,
    Free,
    Automatic,
}

impl Default for ControlMode {
    fn default() -> (r: Self)
        ensures
            r == ControlMode::Vector,
    {
        ControlMode::Vector
    }
}

/// A handle either inherits the control mode of its spline or carries one
/// of its own.
#[derive(Clone, Copy, PartialEq, Eq, Structural, Debug)]
pub enum HandleControlMode {
    Inherit,
    Custom(ControlMode),
}

impl Default for HandleControlMode {
    fn default() -> (r: Self)
        ensures
            r == HandleControlMode::Inherit,
    {
        HandleControlMode::Inherit
    }
}

/// A tangent control point, owned by exactly one handle.
///
/// `selected` marks it for the transform applicator; `moving` is the
/// transient drag-start marker captured on the first frame of a drag.
#[derive(Clone, Copy, PartialEq, Eq, Debug)]
pub struct SplineControlPoint {
    pub position: Vec2,
    pub handle: usize,
    pub selected: bool,
    pub moving: Option<Vec2>,
}

/// A control vertex of the closed curve, owning two tangent control points.
#[derive(Clone, Copy, PartialEq, Eq, Debug)]
pub struct SplineHandle {
    pub position: Vec2,
    pub control_point_a: usize,
    pub control_point_b: usize,
    pub control_mode: HandleControlMode,
    pub selected: bool,
    pub moving: Option<Vec2>,
}

/// An ordered, closed loop of handle ids defining one composite
/// cubic-Bezier outline.
#[derive(Clone, PartialEq, Eq, Debug)]
pub struct Spline {
    pub handles: Vec<usize>,
    pub control_mode: ControlMode,
}

/// Rejected graph mutations.
#[derive(Clone, Copy, PartialEq, Eq, Structural, Debug)]
pub enum GraphError {
    /// The id does not name a live entity of the expected kind.
    NotFound,
    /// The entity is still referenced by a live entity and cannot be
    /// deleted on its own.
    StillReferenced,
    /// The handle list is too short, has duplicates, or names a dead handle.
    InvalidSpline,
}

/// The entity graph.  Ids are arena indices; a deleted slot stays `None`
/// forever, so ids are stable and never reused.
///
/// The arenas are public so that specifications can speak about them
/// directly; every operation of the graph requires and preserves `wf`,
/// and a host that mutates only through these operations always holds a
/// well-formed graph.
pub struct Graph {
    pub control_points: Vec<Option<SplineControlPoint>>,
    pub handles: Vec<Option<SplineHandle>>,
    pub splines: Vec<Option<Spline>>,
}

impl Graph {
    /// The control-point arena as a sequence.
    pub open spec fn cps(self) -> Seq<Option<SplineControlPoint>> {
        self.control_points@
    }

    /// The handle arena as a sequence.
    pub open spec fn hs(self) -> Seq<Option<SplineHandle>> {
        self.handles@
    }

    /// The spline arena as a sequence.
    pub open spec fn sps(self) -> Seq<Option<Spline>> {
        self.splines@
    }

    pub open spec fn cp_live(self, i: int) -> bool {
        0 <= i < self.cps().len() && self.cps()[i] is Some
    }

    pub open spec fn cp_at(self, i: int) -> SplineControlPoint
        recommends
            self.cp_live(i),
    {
        self.cps()[i]->Some_0
    }

    pub open spec fn handle_live(self, i: int) -> bool {
        0 <= i < self.hs().len() && self.hs()[i] is Some
    }

    pub open spec fn handle_at(self, i: int) -> SplineHandle
        recommends
            self.handle_live(i),
    {
        self.hs()[i]->Some_0
    }

    pub open spec fn spline_live(self, i: int) -> bool {
        0 <= i < self.sps().len() && self.sps()[i] is Some
    }

    pub open spec fn spline_at(self, i: int) -> Spline
        recommends
            self.spline_live(i),
    {
        self.sps()[i]->Some_0
    }

    /// A live control point references a live owning handle, is one of that
    /// handle's two control points, and its positions are on the canvas.
    pub open spec fn cp_wf_at(self, i: int) -> bool
        recommends
            self.cp_live(i),
    {
        let c = self.cp_at(i);
        &&& c.position.wf()
        &&& (c.moving matches Some(s) ==> s.wf())
        &&& self.handle_live(c.handle as int)
        &&& (self.handle_at(c.handle as int).control_point_a == i
            || self.handle_at(c.handle as int).control_point_b == i)
    }

    /// A live handle references two distinct live control points that both
    /// name it as their owner, and its positions are on the canvas.
    pub open spec fn handle_wf_at(self, i: int) -> bool
        recommends
            self.handle_live(i),
    {
        let h = self.handle_at(i);
        &&& h.position.wf()
        &&& (h.moving matches Some(s) ==> s.wf())
        &&& h.control_point_a != h.control_point_b
        &&& self.cp_live(h.control_point_a as int)
        &&& self.cp_live(h.control_point_b as int)
        &&& self.cp_at(h.control_point_a as int).handle == i
        &&& self.cp_at(h.control_point_b as int).handle == i
    }

    /// A live spline's handle list has at least two entries and no
    /// duplicates.  Liveness of the listed handles is deliberately not
    /// invariant: deleting a handle leaves a referencing spline in place,
    /// and path generation reports it as invalid topology.
    pub open spec fn spline_wf_at(self, i: int) -> bool
        recommends
            self.spline_live(i),
    {
        let s = self.spline_at(i);
        &&& s.handles@.len() >= 2
        &&& forall|a: int, b: int|
            0 <= a < b < s.handles@.len() ==> s.handles@[a] != s.handles@[b]
    }

    /// Well-formedness of the whole graph: every constructor establishes it
    /// and every mutation preserves it.
    pub open spec fn wf(self) -> bool {
        &&& forall|i: int| #[trigger] self.cp_live(i) ==> self.cp_wf_at(i)
        &&& forall|i: int| #[trigger] self.handle_live(i) ==> self.handle_wf_at(i)
        &&& forall|i: int| #[trigger] self.spline_live(i) ==> self.spline_wf_at(i)
    }

    /// An empty graph.
    pub fn new() -> (g: Graph)
        ensures
            g.cps() == Seq::<Option<SplineControlPoint>>::empty(),
            g.hs() == Seq::<Option<SplineHandle>>::empty(),
            g.sps() == Seq::<Option<Spline>>::empty(),
            g.wf(),
    {
        let g = Graph { control_points: Vec::new(), handles: Vec::new(), splines: Vec::new() };
        proof {
            assert(g.cps() =~= Seq::<Option<SplineControlPoint>>::empty());
            assert(g.hs() =~= Seq::<Option<SplineHandle>>::empty());
            assert(g.sps() =~= Seq::<Option<Spline>>::empty());
        }
        g
    }

    /// Create a handle at `pos` together with its two control points at
    /// `pos_a` and `pos_b`, all unselected.  Returns
    /// `(handle id, control point a id, control point b id)`.
    pub fn create_handle(&mut self, pos: Vec2, pos_a: Vec2, pos_b: Vec2) -> (r: (usize, usize, usize))
        requires
            old(self).wf(),
            pos.wf(),
            pos_a.wf(),
            pos_b.wf(),
        ensures
            r.0 == old(self).hs().len(),
            r.1 == old(self).cps().len(),
            r.2 == old(self).cps().len() + 1,
            final(self).cps() == old(self).cps()
                .push(Some(SplineControlPoint {
                    position: pos_a,
                    handle: r.0,
                    selected: false,
                    moving: None,
                }))
                .push(Some(SplineControlPoint {
                    position: pos_b,
                    handle: r.0,
                    selected: false,
                    moving: None,
                })),
            final(self).hs() == old(self).hs().push(Some(SplineHandle {
                position: pos,
                control_point_a: r.1,
                control_point_b: r.2,
                control_mode: HandleControlMode::Inherit,
                selected: false,
                moving: None,
            })),
            final(self).sps() == old(self).sps(),
            final(self).wf(),
    {
        let handle_id = self.handles.len();
        let cp_a = self.control_points.len();
        self.control_points.push(Some(SplineControlPoint {
            position: pos_a,
            handle: handle_id,
            selected: false,
            moving: None,
        }));
        let cp_b = self.control_points.len();
        self.control_points.push(Some(SplineControlPoint {
            position: pos_b,
            handle: handle_id,
            selected: false,
            moving: None,
        }));
        self.handles.push(Some(SplineHandle {
            position: pos,
            control_point_a: cp_a,
            control_point_b: cp_b,
            control_mode: HandleControlMode::Inherit,
            selected: false,
            moving: None,
        }));
        proof {
            let g0 = *old(self);
            let g1 = *self;
            assert forall|i: int| #[trigger] g1.cp_live(i) implies g1.cp_wf_at(i) by {
                if i < g0.cps().len() {
                    assert(g0.cp_live(i));
                    assert(g0.cp_wf_at(i));
                    assert(g1.cp_at(i) == g0.cp_at(i));
                    assert(g1.handle_at(g1.cp_at(i).handle as int)
                        == g0.handle_at(g0.cp_at(i).handle as int));
                }
            }
            assert forall|i: int| #[trigger] g1.handle_live(i) implies g1.handle_wf_at(i) by {
                if i < g0.hs().len() {
                    assert(g0.handle_live(i));
                    assert(g0.handle_wf_at(i));
                    assert(g1.handle_at(i) == g0.handle_at(i));
                    assert(g1.cp_at(g1.handle_at(i).control_point_a as int)
                        == g0.cp_at(g0.handle_at(i).control_point_a as int));
                    assert(g1.cp_at(g1.handle_at(i).control_point_b as int)
                        == g0.cp_at(g0.handle_at(i).control_point_b as int));
                }
            }
            assert forall|i: int| #[trigger] g1.spline_live(i) implies g1.spline_wf_at(i) by {
                assert(g0.spline_live(i));
                assert(g0.spline_wf_at(i));
            }
        }
        (handle_id, cp_a, cp_b)
    }

    /// The handle ids form a valid spline: at least two of them, no
    /// duplicates, all live.
    pub open spec fn valid_spline_ids(self, ids: Seq<usize>) -> bool {
        &&& ids.len() >= 2
        &&& forall|a: int| 0 <= a < ids.len() ==> self.handle_live(#[trigger] ids[a] as int)
        &&& forall|a: int, b: int| 0 <= a < b < ids.len() ==> ids[a] != ids[b]
    }

    /// Create a spline over the given ordered handle ids.  The list must
    /// hold at least two distinct live handles; otherwise the graph is left
    /// unchanged and the mutation is rejected.
    pub fn create_spline(&mut self, handle_ids: Vec<usize>) -> (r: Result<usize, GraphError>)
        requires
            old(self).wf(),
        ensures
            r is Ok <==> old(self).valid_spline_ids(handle_ids@),
            r matches Ok(id) ==> {
                &&& id == old(self).sps().len()
                &&& final(self).sps() == old(self).sps().push(Some(Spline {
                    handles: handle_ids,
                    control_mode: ControlMode::Vector,
                }))
                &&& final(self).cps() == old(self).cps()
                &&& final(self).hs() == old(self).hs()
            },
            r is Err ==> *final(self) == *old(self) && r == Err::<usize, GraphError>(GraphError::InvalidSpline),
            final(self).wf(),
    {
        if handle_ids.len() < 2 {
            return Err(GraphError::InvalidSpline);
        }
        let n = handle_ids.len();
        let mut i: usize = 0;
        while i < n
            invariant
                old(self).wf(),
                *self == *old(self),
                n == handle_ids@.len(),
                0 <= i <= n,
                forall|a: int| 0 <= a < i ==> self.handle_live(#[trigger] handle_ids@[a] as int),
                forall|a: int, b: int| 0 <= a < b < i ==> handle_ids@[a] != handle_ids@[b],
            decreases n - i,
        {
            let id = handle_ids[i];
            if !(id < self.handles.len() && self.handles[id].is_some()) {
                return Err(GraphError::InvalidSpline);
            }
            let mut j: usize = 0;
            while j < i
                invariant
                    old(self).wf(),
                    *self == *old(self),
                    0 <= j <= i < n,
                    n == handle_ids@.len(),
                    id == handle_ids@[i as int],
                    forall|a: int| 0 <= a < j ==> handle_ids@[a] != id,
                decreases i - j,
            {
                if handle_ids[j] == id {
                    return Err(GraphError::InvalidSpline);
                }
                j += 1;
            }
            i += 1;
        }
        let spline_id = self.splines.len();
        let ghost g0 = *old(self);
        self.splines.push(Some(Spline { handles: handle_ids, control_mode: ControlMode::Vector }));
        proof {
            let g1 = *self;
            assert forall|i2: int| #[trigger] g1.cp_live(i2) implies g1.cp_wf_at(i2) by {
                assert(g0.cp_live(i2));
                assert(g0.cp_wf_at(i2));
            }
            assert forall|i2: int| #[trigger] g1.handle_live(i2) implies g1.handle_wf_at(i2) by {
                assert(g0.handle_live(i2));
                assert(g0.handle_wf_at(i2));
            }
            assert forall|i2: int| #[trigger] g1.spline_live(i2) implies g1.spline_wf_at(i2) by {
                if i2 < g0.sps().len() {
                    assert(g0.spline_live(i2));
                    assert(g0.spline_wf_at(i2));
                } else {
                    assert(g1.spline_at(i2).handles@ == handle_ids@);
                }
            }
        }
        Ok(spline_id)
    }

    /// Delete a handle.  The delete cascades to its two control points;
    /// splines that list the handle are left in place and become invalid
    /// topology for the path generator.
    pub fn delete_handle(&mut self, h: usize) -> (r: Result<(), GraphError>)
        requires
            old(self).wf(),
        ensures
            r is Ok <==> old(self).handle_live(h as int),
            r is Ok ==> {
                &&& final(self).hs() == old(self).hs().update(h as int, None)
                &&& final(self).cps() == old(self).cps()
                    .update(old(self).handle_at(h as int).control_point_a as int, None)
                    .update(old(self).handle_at(h as int).control_point_b as int, None)
                &&& final(self).sps() == old(self).sps()
            },
            r is Err ==> *final(self) == *old(self) && r == Err::<(), GraphError>(GraphError::NotFound),
            final(self).wf(),
    {
        if !(h < self.handles.len() && self.handles[h].is_some()) {
            return Err(GraphError::NotFound);
        }
        let hd = self.handles[h].unwrap();
        let ghost g0 = *old(self);
        proof {
            assert(g0.handle_live(h as int));
            assert(g0.handle_wf_at(h as int));
        }
        self.control_points.set(hd.control_point_a, None);
        self.control_points.set(hd.control_point_b, None);
        self.handles.set(h, None);
        proof {
            let g1 = *self;
            assert forall|i: int| #[trigger] g1.cp_live(i) implies g1.cp_wf_at(i) by {
                assert(g0.cp_live(i));
                assert(g0.cp_wf_at(i));
                assert(g1.cp_at(i) == g0.cp_at(i));
                let k = g0.cp_at(i).handle as int;
                // The owner of a surviving control point cannot be `h`:
                // `h`'s control points were both removed.
                assert(k != h as int);
                assert(g1.handle_at(k) == g0.handle_at(k));
            }
            assert forall|i: int| #[trigger] g1.handle_live(i) implies g1.handle_wf_at(i) by {
                assert(g0.handle_live(i));
                assert(g0.handle_wf_at(i));
                assert(i != h as int);
                assert(g1.handle_at(i) == g0.handle_at(i));
                let a = g0.handle_at(i).control_point_a as int;
                let b = g0.handle_at(i).control_point_b as int;
                // Another handle's control points name it as owner, so they
                // are not the two that the cascade removed.
                assert(g0.cp_at(a).handle == i && g0.cp_at(b).handle == i);
                assert(a != g0.handle_at(h as int).control_point_a as int);
                assert(a != g0.handle_at(h as int).control_point_b as int);
                assert(b != g0.handle_at(h as int).control_point_a as int);
                assert(b != g0.handle_at(h as int).control_point_b as int);
                assert(g1.cp_at(a) == g0.cp_at(a) && g1.cp_at(b) == g0.cp_at(b));
            }
            assert forall|i: int| #[trigger] g1.spline_live(i) implies g1.spline_wf_at(i) by {
                assert(g0.spline_live(i));
                assert(g0.spline_wf_at(i));
            }
        }
        Ok(())
    }

    /// Delete a control point on its own.  A control point lives exactly as
    /// long as its owning handle, so this is rejected for every live control
    /// point; it is removed by `delete_handle`'s cascade instead.
    pub fn delete_control_point(&mut self, c: usize) -> (r: Result<(), GraphError>)
        requires
            old(self).wf(),
        ensures
            *final(self) == *old(self),
            r is Err,
            !old(self).cp_live(c as int) ==> r == Err::<(), GraphError>(GraphError::NotFound),
            old(self).cp_live(c as int) ==> r == Err::<(), GraphError>(GraphError::StillReferenced),
    {
        if c < self.control_points.len() && self.control_points[c].is_some() {
            Err(GraphError::StillReferenced)
        } else {
            Err(GraphError::NotFound)
        }
    }

    /// Delete a spline.  Its handles and control points are unaffected.
    pub fn delete_spline(&mut self, s: usize) -> (r: Result<(), GraphError>)
        requires
            old(self).wf(),
        ensures
            r is Ok <==> old(self).spline_live(s as int),
            r is Ok ==> {
                &&& final(self).sps() == old(self).sps().update(s as int, None)
                &&& final(self).cps() == old(self).cps()
                &&& final(self).hs() == old(self).hs()
            },
            r is Err ==> *final(self) == *old(self) && r == Err::<(), GraphError>(GraphError::NotFound),
            final(self).wf(),
    {
        if !(s < self.splines.len() && self.splines[s].is_some()) {
            return Err(GraphError::NotFound);
        }
        let ghost g0 = *old(self);
        self.splines.set(s, None);
        proof {
            let g1 = *self;
            assert forall|i: int| #[trigger] g1.cp_live(i) implies g1.cp_wf_at(i) by {
                assert(g0.cp_live(i));
                assert(g0.cp_wf_at(i));
            }
            assert forall|i: int| #[trigger] g1.handle_live(i) implies g1.handle_wf_at(i) by {
                assert(g0.handle_live(i));
                assert(g0.handle_wf_at(i));
            }
            assert forall|i: int| #[trigger] g1.spline_live(i) implies g1.spline_wf_at(i) by {
                assert(g0.spline_live(i));
                assert(g0.spline_wf_at(i));
            }
        }
        Ok(())
    }

    /// Mark or unmark a control point as selected.
    pub fn set_control_point_selected(&mut self, c: usize, sel: bool) -> (r: Result<(), GraphError>)
        requires
            old(self).wf(),
        ensures
            r is Ok <==> old(self).cp_live(c as int),
            r is Ok ==> {
                &&& final(self).cps() == old(self).cps().update(c as int, Some(SplineControlPoint {
                    selected: sel,
                    ..old(self).cp_at(c as int)
                }))
                &&& final(self).hs() == old(self).hs()
                &&& final(self).sps() == old(self).sps()
            },
            r is Err ==> *final(self) == *old(self) && r == Err::<(), GraphError>(GraphError::NotFound),
            final(self).wf(),
    {
        if !(c < self.control_points.len() && self.control_points[c].is_some()) {
            return Err(GraphError::NotFound);
        }
        let cp = self.control_points[c].unwrap();
        let ghost g0 = *old(self);
        self.control_points.set(c, Some(SplineControlPoint { selected: sel, ..cp }));
        proof {
            let g1 = *self;
            assert forall|i: int| #[trigger] g1.cp_live(i) implies g1.cp_wf_at(i) by {
                assert(g0.cp_live(i));
                assert(g0.cp_wf_at(i));
                assert(g1.cp_at(i).handle == g0.cp_at(i).handle);
                assert(g1.cp_at(i).position == g0.cp_at(i).position);
                assert(g1.cp_at(i).moving == g0.cp_at(i).moving);
            }
            assert forall|i: int| #[trigger] g1.handle_live(i) implies g1.handle_wf_at(i) by {
                assert(g0.handle_live(i));
                assert(g0.handle_wf_at(i));
                let a = g0.handle_at(i).control_point_a as int;
                let b = g0.handle_at(i).control_point_b as int;
                assert(g1.cp_at(a).handle == g0.cp_at(a).handle);
                assert(g1.cp_at(b).handle == g0.cp_at(b).handle);
            }
            assert forall|i: int| #[trigger] g1.spline_live(i) implies g1.spline_wf_at(i) by {
                assert(g0.spline_live(i));
                assert(g0.spline_wf_at(i));
            }
        }
        Ok(())
    }

    /// Mark or unmark a handle as selected.
    pub fn set_handle_selected(&mut self, h: usize, sel: bool) -> (r: Result<(), GraphError>)
        requires
            old(self).wf(),
        ensures
            r is Ok <==> old(self).handle_live(h as int),
            r is Ok ==> {
                &&& final(self).hs() == old(self).hs().update(h as int, Some(SplineHandle {
                    selected: sel,
                    ..old(self).handle_at(h as int)
                }))
                &&& final(self).cps() == old(self).cps()
                &&& final(self).sps() == old(self).sps()
            },
            r is Err ==> *final(self) == *old(self) && r == Err::<(), GraphError>(GraphError::NotFound),
            final(self).wf(),
    {
        if !(h < self.handles.len() && self.handles[h].is_some()) {
            return Err(GraphError::NotFound);
        }
        let hd = self.handles[h].unwrap();
        let ghost g0 = *old(self);
        self.handles.set(h, Some(SplineHandle { selected: sel, ..hd }));
        proof {
            let g1 = *self;
            assert forall|i: int| #[trigger] g1.cp_live(i) implies g1.cp_wf_at(i) by {
                assert(g0.cp_live(i));
                assert(g0.cp_wf_at(i));
                let k = g0.cp_at(i).handle as int;
                assert(g1.handle_at(k).control_point_a == g0.handle_at(k).control_point_a);
                assert(g1.handle_at(k).control_point_b == g0.handle_at(k).control_point_b);
            }
            assert forall|i: int| #[trigger] g1.handle_live(i) implies g1.handle_wf_at(i) by {
                assert(g0.handle_live(i));
                assert(g0.handle_wf_at(i));
                assert(g1.handle_at(i).control_point_a == g0.handle_at(i).control_point_a);
                assert(g1.handle_at(i).control_point_b == g0.handle_at(i).control_point_b);
                assert(g1.handle_at(i).position == g0.handle_at(i).position);
                assert(g1.handle_at(i).moving == g0.handle_at(i).moving);
            }
            assert forall|i: int| #[trigger] g1.spline_live(i) implies g1.spline_wf_at(i) by {
                assert(g0.spline_live(i));
                assert(g0.spline_wf_at(i));
            }
        }
        Ok(())
    }

    /// Number of control-point arena slots ever allocated; every
    /// control-point id is below it.
    pub fn control_point_slots(&self) -> (r: usize)
        ensures
            r == self.cps().len(),
    {
        self.control_points.len()
    }

    /// Number of handle arena slots ever allocated; every handle id is
    /// below it.
    pub fn handle_slots(&self) -> (r: usize)
        ensures
            r == self.hs().len(),
    {
        self.handles.len()
    }

    /// Number of spline arena slots ever allocated; every spline id is
    /// below it.
    pub fn spline_slots(&self) -> (r: usize)
        ensures
            r == self.sps().len(),
    {
        self.splines.len()
    }

    /// Read a control point.
    pub fn control_point(&self, c: usize) -> (r: Option<SplineControlPoint>)
        ensures
            r is Some <==> self.cp_live(c as int),
            r matches Some(cp) ==> cp == self.cp_at(c as int),
    {
        if c < self.control_points.len() { self.control_points[c] } else { None }
    }

    /// Read a handle.
    pub fn handle(&self, h: usize) -> (r: Option<SplineHandle>)
        ensures
            r is Some <==> self.handle_live(h as int),
            r matches Some(hd) ==> hd == self.handle_at(h as int),
    {
        if h < self.handles.len() { self.handles[h] } else { None }
    }

    /// Read a spline.
    pub fn spline(&self, s: usize) -> (r: Option<&Spline>)
        ensures
            r is Some <==> self.spline_live(s as int),
            r matches Some(sp) ==> *sp == self.spline_at(s as int),
    {
        if s < self.splines.len() { self.splines[s].as_ref() } else { None }
    }
}

} // verus!
