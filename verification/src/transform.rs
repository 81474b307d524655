//! Transform applicator: anchor-relative drags of the selected entities.
//!
//! While the interaction mode is Move, every selected entity follows the
//! pointer by `delta = pointer - anchor`.  Each entity's drag-start
//! position is captured once, in its `moving` marker, on the first update
//! that observes it moving; its position is then always
//! `start + delta`, so the drag never drifts however many frames elapse.

use vstd::prelude::*;

use crate::geom::{coord_in_range, Vec2, MAX_COORD};
use crate::graph::{Graph, SplineControlPoint, SplineHandle};

verus! {

/// Rejected transforms.
#[derive(Clone, Copy, PartialEq, Eq, Structural, Debug)]
pub enum TransformError {
    /// Some selected entity would leave the canvas coordinate range; the
    /// whole drag update is rejected and no position changes.
    OutOfCanvas,
}

/// The drag-start position of a control point: its marker if one was
/// captured, its current position otherwise.
pub open spec fn drag_start_cp(c: SplineControlPoint) -> Vec2 {
    match c.moving {
        Some(s) => s,
        None => c.position,
    }
}

/// The drag-start position of a handle.
pub open spec fn drag_start_handle(h: SplineHandle) -> Vec2 {
    match h.moving {
        Some(s) => s,
        None => h.position,
    }
}

/// A dragged control point: selected ones move to `start + delta` and keep
/// their start in the marker; unselected ones are untouched.
pub open spec fn moved_cp(c: SplineControlPoint, dx: int, dy: int) -> SplineControlPoint {
    if c.selected {
        SplineControlPoint {
            position: drag_start_cp(c).translated(dx, dy),
            moving: Some(drag_start_cp(c)),
            ..c
        }
    } else {
        c
    }
}

/// A dragged handle.
pub open spec fn moved_handle(h: SplineHandle, dx: int, dy: int) -> SplineHandle {
    if h.selected {
        SplineHandle {
            position: drag_start_handle(h).translated(dx, dy),
            moving: Some(drag_start_handle(h)),
            ..h
        }
    } else {
        h
    }
}

pub open spec fn moved_cp_opt(oc: Option<SplineControlPoint>, dx: int, dy: int) -> Option<
    SplineControlPoint,
> {
    match oc {
        Some(c) => Some(moved_cp(c, dx, dy)),
        None => None,
    }
}

pub open spec fn moved_handle_opt(oh: Option<SplineHandle>, dx: int, dy: int) -> Option<
    SplineHandle,
> {
    match oh {
        Some(h) => Some(moved_handle(h, dx, dy)),
        None => None,
    }
}

/// The control-point arena after a drag by `(dx, dy)`.
pub open spec fn moved_cps(s: Seq<Option<SplineControlPoint>>, dx: int, dy: int) -> Seq<
    Option<SplineControlPoint>,
> {
    s.map_values(|oc: Option<SplineControlPoint>| moved_cp_opt(oc, dx, dy))
}

/// The handle arena after a drag by `(dx, dy)`.
pub open spec fn moved_handles(s: Seq<Option<SplineHandle>>, dx: int, dy: int) -> Seq<
    Option<SplineHandle>,
> {
    s.map_values(|oh: Option<SplineHandle>| moved_handle_opt(oh, dx, dy))
}

/// The dragged position of this control point stays on the canvas.
pub open spec fn cp_fits(oc: Option<SplineControlPoint>, dx: int, dy: int) -> bool {
    oc matches Some(c) ==> c.selected ==> {
        &&& coord_in_range(drag_start_cp(c).x + dx)
        &&& coord_in_range(drag_start_cp(c).y + dy)
    }
}

/// The dragged position of this handle stays on the canvas.
pub open spec fn handle_fits(oh: Option<SplineHandle>, dx: int, dy: int) -> bool {
    oh matches Some(h) ==> h.selected ==> {
        &&& coord_in_range(drag_start_handle(h).x + dx)
        &&& coord_in_range(drag_start_handle(h).y + dy)
    }
}

/// A control point with its drag marker dropped.
pub open spec fn cleared_cp(c: SplineControlPoint) -> SplineControlPoint {
    SplineControlPoint { moving: None, ..c }
}

/// A handle with its drag marker dropped.
pub open spec fn cleared_handle(h: SplineHandle) -> SplineHandle {
    SplineHandle { moving: None, ..h }
}

/// A control point put back at its drag-start position, marker dropped.
pub open spec fn reverted_cp(c: SplineControlPoint) -> SplineControlPoint {
    match c.moving {
        Some(s) => SplineControlPoint { position: s, moving: None, ..c },
        None => c,
    }
}

/// A handle put back at its drag-start position, marker dropped.
pub open spec fn reverted_handle(h: SplineHandle) -> SplineHandle {
    match h.moving {
        Some(s) => SplineHandle { position: s, moving: None, ..h },
        None => h,
    }
}

/// A control point with its selection tag dropped.
pub open spec fn deselected_cp(c: SplineControlPoint) -> SplineControlPoint {
    SplineControlPoint { selected: false, ..c }
}

/// A handle with its selection tag dropped.
pub open spec fn deselected_handle(h: SplineHandle) -> SplineHandle {
    SplineHandle { selected: false, ..h }
}

pub open spec fn map_cps(
    s: Seq<Option<SplineControlPoint>>,
    f: spec_fn(SplineControlPoint) -> SplineControlPoint,
) -> Seq<Option<SplineControlPoint>> {
    s.map_values(
        |oc: Option<SplineControlPoint>|
            match oc {
                Some(c) => Some(f(c)),
                None => None,
            },
    )
}

pub open spec fn map_handles(
    s: Seq<Option<SplineHandle>>,
    f: spec_fn(SplineHandle) -> SplineHandle,
) -> Seq<Option<SplineHandle>> {
    s.map_values(
        |oh: Option<SplineHandle>|
            match oh {
                Some(h) => Some(f(h)),
                None => None,
            },
    )
}

/// Every control point's dragged position stays on the canvas.
pub open spec fn cps_all_fit(s: Seq<Option<SplineControlPoint>>, dx: int, dy: int) -> bool {
    forall|i: int| 0 <= i < s.len() ==> cp_fits(#[trigger] s[i], dx, dy)
}

/// Every handle's dragged position stays on the canvas.
pub open spec fn handles_all_fit(s: Seq<Option<SplineHandle>>, dx: int, dy: int) -> bool {
    forall|i: int| 0 <= i < s.len() ==> handle_fits(#[trigger] s[i], dx, dy)
}

impl Graph {
    /// Every selected entity's dragged position stays on the canvas.
    pub open spec fn move_fits(self, dx: int, dy: int) -> bool {
        cps_all_fit(self.cps(), dx, dy) && handles_all_fit(self.hs(), dx, dy)
    }

    /// Drag every selected entity to `start + (pointer - anchor)`, capturing
    /// the drag-start marker of any selected entity that has none yet.
    /// If any selected entity would leave the canvas the graph is left
    /// entirely unchanged and the update is rejected.
    pub fn apply_move(&mut self, anchor: Vec2, pointer: Vec2) -> (r: Result<(), TransformError>)
        requires
            old(self).wf(),
            anchor.wf(),
            pointer.wf(),
        ensures
            ({
                let dx = pointer.x - anchor.x;
                let dy = pointer.y - anchor.y;
                &&& (r is Ok <==> old(self).move_fits(dx as int, dy as int))
                &&& r is Ok ==> {
                    &&& final(self).cps() == moved_cps(old(self).cps(), dx as int, dy as int)
                    &&& final(self).hs() == moved_handles(old(self).hs(), dx as int, dy as int)
                    &&& final(self).sps() == old(self).sps()
                }
                &&& r is Err ==> *final(self) == *old(self) && r == Err::<(), TransformError>(
                    TransformError::OutOfCanvas,
                )
                &&& final(self).wf()
            }),
    {
        let dx = pointer.x - anchor.x;
        let dy = pointer.y - anchor.y;

        // First pass: check that every selected entity stays on the canvas.
        let mut i: usize = 0;
        while i < self.control_points.len()
            invariant
                old(self).wf(),
                *self == *old(self),
                dx as int == pointer.x - anchor.x,
                dy as int == pointer.y - anchor.y,
                -2 * MAX_COORD <= dx <= 2 * MAX_COORD,
                -2 * MAX_COORD <= dy <= 2 * MAX_COORD,
                0 <= i <= self.cps().len(),
                forall|j: int| 0 <= j < i ==> cp_fits(#[trigger] self.cps()[j], dx as int, dy as int),
            decreases self.cps().len() - i,
        {
            match self.control_points[i] {
                Some(c) => {
                    if c.selected {
                        proof {
                            assert(self.cp_live(i as int));
                            assert(self.cp_wf_at(i as int));
                        }
                        let s = match c.moving {
                            Some(m) => m,
                            None => c.position,
                        };
                        let nx = s.x + dx;
                        let ny = s.y + dy;
                        if !(-MAX_COORD <= nx && nx <= MAX_COORD && -MAX_COORD <= ny && ny
                            <= MAX_COORD) {
                            proof {
                                assert(!cp_fits(self.cps()[i as int], dx as int, dy as int));
                            }
                            return Err(TransformError::OutOfCanvas);
                        }
                    }
                },
                None => {},
            }
            i += 1;
        }
        let mut i: usize = 0;
        while i < self.handles.len()
            invariant
                old(self).wf(),
                *self == *old(self),
                dx as int == pointer.x - anchor.x,
                dy as int == pointer.y - anchor.y,
                -2 * MAX_COORD <= dx <= 2 * MAX_COORD,
                -2 * MAX_COORD <= dy <= 2 * MAX_COORD,
                0 <= i <= self.hs().len(),
                forall|j: int|
                    0 <= j < i ==> handle_fits(#[trigger] self.hs()[j], dx as int, dy as int),
            decreases self.hs().len() - i,
        {
            match self.handles[i] {
                Some(h) => {
                    if h.selected {
                        proof {
                            assert(self.handle_live(i as int));
                            assert(self.handle_wf_at(i as int));
                        }
                        let s = match h.moving {
                            Some(m) => m,
                            None => h.position,
                        };
                        let nx = s.x + dx;
                        let ny = s.y + dy;
                        if !(-MAX_COORD <= nx && nx <= MAX_COORD && -MAX_COORD <= ny && ny
                            <= MAX_COORD) {
                            proof {
                                assert(!handle_fits(self.hs()[i as int], dx as int, dy as int));
                            }
                            return Err(TransformError::OutOfCanvas);
                        }
                    }
                },
                None => {},
            }
            i += 1;
        }
        proof {
            assert(old(self).move_fits(dx as int, dy as int));
        }

        // Second pass: move the selected entities.
        let ghost g0 = *old(self);
        let mut i: usize = 0;
        while i < self.control_points.len()
            invariant
                g0.wf(),
                g0.move_fits(dx as int, dy as int),
                dx as int == pointer.x - anchor.x,
                dy as int == pointer.y - anchor.y,
                -2 * MAX_COORD <= dx <= 2 * MAX_COORD,
                -2 * MAX_COORD <= dy <= 2 * MAX_COORD,
                self.cps().len() == g0.cps().len(),
                self.hs() == g0.hs(),
                self.sps() == g0.sps(),
                0 <= i <= self.cps().len(),
                forall|j: int|
                    0 <= j < i ==> self.cps()[j] == moved_cp_opt(
                        #[trigger] g0.cps()[j],
                        dx as int,
                        dy as int,
                    ),
                forall|j: int| i <= j < self.cps().len() ==> self.cps()[j] == g0.cps()[j],
            decreases self.cps().len() - i,
        {
            match self.control_points[i] {
                Some(c) => {
                    if c.selected {
                        proof {
                            assert(g0.cp_live(i as int));
                            assert(g0.cp_wf_at(i as int));
                            assert(cp_fits(g0.cps()[i as int], dx as int, dy as int));
                        }
                        let s = match c.moving {
                            Some(m) => m,
                            None => c.position,
                        };
                        self.control_points.set(
                            i,
                            Some(
                                SplineControlPoint {
                                    position: Vec2 { x: s.x + dx, y: s.y + dy },
                                    moving: Some(s),
                                    ..c
                                },
                            ),
                        );
                    }
                },
                None => {},
            }
            i += 1;
        }
        let mut i: usize = 0;
        while i < self.handles.len()
            invariant
                g0.wf(),
                g0.move_fits(dx as int, dy as int),
                dx as int == pointer.x - anchor.x,
                dy as int == pointer.y - anchor.y,
                -2 * MAX_COORD <= dx <= 2 * MAX_COORD,
                -2 * MAX_COORD <= dy <= 2 * MAX_COORD,
                self.cps() == moved_cps(g0.cps(), dx as int, dy as int),
                self.hs().len() == g0.hs().len(),
                self.sps() == g0.sps(),
                0 <= i <= self.hs().len(),
                forall|j: int|
                    0 <= j < i ==> self.hs()[j] == moved_handle_opt(
                        #[trigger] g0.hs()[j],
                        dx as int,
                        dy as int,
                    ),
                forall|j: int| i <= j < self.hs().len() ==> self.hs()[j] == g0.hs()[j],
            decreases self.hs().len() - i,
        {
            match self.handles[i] {
                Some(h) => {
                    if h.selected {
                        proof {
                            assert(g0.handle_live(i as int));
                            assert(g0.handle_wf_at(i as int));
                            assert(handle_fits(g0.hs()[i as int], dx as int, dy as int));
                        }
                        let s = match h.moving {
                            Some(m) => m,
                            None => h.position,
                        };
                        self.handles.set(
                            i,
                            Some(
                                SplineHandle {
                                    position: Vec2 { x: s.x + dx, y: s.y + dy },
                                    moving: Some(s),
                                    ..h
                                },
                            ),
                        );
                    }
                },
                None => {},
            }
            i += 1;
        }
        proof {
            assert(self.cps() =~= moved_cps(g0.cps(), dx as int, dy as int));
            assert(self.hs() =~= moved_handles(g0.hs(), dx as int, dy as int));
            lemma_moved_graph_wf(g0, *self, dx as int, dy as int);
        }
        Ok(())
    }
}

/// A dragged well-formed graph is well-formed again: dragging changes only
/// positions and markers, never the reference structure, and the fit check
/// keeps every new position on the canvas.
proof fn lemma_moved_graph_wf(g0: Graph, g1: Graph, dx: int, dy: int)
    requires
        g0.wf(),
        g0.move_fits(dx, dy),
        g1.cps() == moved_cps(g0.cps(), dx, dy),
        g1.hs() == moved_handles(g0.hs(), dx, dy),
        g1.sps() == g0.sps(),
    ensures
        g1.wf(),
{
    assert forall|i: int| #[trigger] g1.cp_live(i) implies g1.cp_wf_at(i) by {
        assert(g0.cp_live(i));
        assert(g0.cp_wf_at(i));
        assert(cp_fits(g0.cps()[i], dx, dy));
        assert(g1.cp_at(i) == moved_cp(g0.cp_at(i), dx, dy));
        let k = g0.cp_at(i).handle as int;
        assert(g0.handle_live(k));
        assert(g1.handle_at(k) == moved_handle(g0.handle_at(k), dx, dy));
    }
    assert forall|i: int| #[trigger] g1.handle_live(i) implies g1.handle_wf_at(i) by {
        assert(g0.handle_live(i));
        assert(g0.handle_wf_at(i));
        assert(handle_fits(g0.hs()[i], dx, dy));
        assert(g1.handle_at(i) == moved_handle(g0.handle_at(i), dx, dy));
        let a = g0.handle_at(i).control_point_a as int;
        let b = g0.handle_at(i).control_point_b as int;
        assert(g0.cp_live(a) && g0.cp_live(b));
        assert(g1.cp_at(a) == moved_cp(g0.cp_at(a), dx, dy));
        assert(g1.cp_at(b) == moved_cp(g0.cp_at(b), dx, dy));
    }
    assert forall|i: int| #[trigger] g1.spline_live(i) implies g1.spline_wf_at(i) by {
        assert(g0.spline_live(i));
        assert(g0.spline_wf_at(i));
    }
}

impl Graph {
    /// Drop every drag-start marker.  Run when the interaction mode leaves
    /// Move, so that the next Move entry captures fresh start positions.
    pub fn clear_moving(&mut self)
        requires
            old(self).wf(),
        ensures
            final(self).cps() == map_cps(old(self).cps(), |c: SplineControlPoint| cleared_cp(c)),
            final(self).hs() == map_handles(old(self).hs(), |h: SplineHandle| cleared_handle(h)),
            final(self).sps() == old(self).sps(),
            final(self).wf(),
    {
        let ghost g0 = *old(self);
        let mut i: usize = 0;
        while i < self.control_points.len()
            invariant
                self.cps().len() == g0.cps().len(),
                self.hs() == g0.hs(),
                self.sps() == g0.sps(),
                0 <= i <= self.cps().len(),
                forall|j: int|
                    0 <= j < i ==> self.cps()[j] == match #[trigger] g0.cps()[j] {
                        Some(c) => Some(cleared_cp(c)),
                        None => None,
                    },
                forall|j: int| i <= j < self.cps().len() ==> self.cps()[j] == g0.cps()[j],
            decreases self.cps().len() - i,
        {
            match self.control_points[i] {
                Some(c) => {
                    self.control_points.set(i, Some(SplineControlPoint { moving: None, ..c }));
                },
                None => {},
            }
            i += 1;
        }
        let mut i: usize = 0;
        while i < self.handles.len()
            invariant
                self.cps() == map_cps(g0.cps(), |c: SplineControlPoint| cleared_cp(c)),
                self.hs().len() == g0.hs().len(),
                self.sps() == g0.sps(),
                0 <= i <= self.hs().len(),
                forall|j: int|
                    0 <= j < i ==> self.hs()[j] == match #[trigger] g0.hs()[j] {
                        Some(h) => Some(cleared_handle(h)),
                        None => None,
                    },
                forall|j: int| i <= j < self.hs().len() ==> self.hs()[j] == g0.hs()[j],
            decreases self.hs().len() - i,
        {
            match self.handles[i] {
                Some(h) => {
                    self.handles.set(i, Some(SplineHandle { moving: None, ..h }));
                },
                None => {},
            }
            i += 1;
        }
        proof {
            assert(self.cps() =~= map_cps(g0.cps(), |c: SplineControlPoint| cleared_cp(c)));
            assert(self.hs() =~= map_handles(g0.hs(), |h: SplineHandle| cleared_handle(h)));
            lemma_mapped_graph_wf(
                g0,
                *self,
                |c: SplineControlPoint| cleared_cp(c),
                |h: SplineHandle| cleared_handle(h),
            );
        }
    }

    /// Put every entity that carries a drag-start marker back at that
    /// start position and drop the marker, abandoning the drag in progress.
    pub fn restore_moving(&mut self)
        requires
            old(self).wf(),
        ensures
            final(self).cps() == map_cps(old(self).cps(), |c: SplineControlPoint| reverted_cp(c)),
            final(self).hs() == map_handles(old(self).hs(), |h: SplineHandle| reverted_handle(h)),
            final(self).sps() == old(self).sps(),
            final(self).wf(),
    {
        let ghost g0 = *old(self);
        let mut i: usize = 0;
        while i < self.control_points.len()
            invariant
                self.cps().len() == g0.cps().len(),
                self.hs() == g0.hs(),
                self.sps() == g0.sps(),
                0 <= i <= self.cps().len(),
                forall|j: int|
                    0 <= j < i ==> self.cps()[j] == match #[trigger] g0.cps()[j] {
                        Some(c) => Some(reverted_cp(c)),
                        None => None,
                    },
                forall|j: int| i <= j < self.cps().len() ==> self.cps()[j] == g0.cps()[j],
            decreases self.cps().len() - i,
        {
            match self.control_points[i] {
                Some(c) => {
                    match c.moving {
                        Some(start) => {
                            self.control_points.set(
                                i,
                                Some(SplineControlPoint { position: start, moving: None, ..c }),
                            );
                        },
                        None => {},
                    }
                },
                None => {},
            }
            i += 1;
        }
        let mut i: usize = 0;
        while i < self.handles.len()
            invariant
                self.cps() == map_cps(g0.cps(), |c: SplineControlPoint| reverted_cp(c)),
                self.hs().len() == g0.hs().len(),
                self.sps() == g0.sps(),
                0 <= i <= self.hs().len(),
                forall|j: int|
                    0 <= j < i ==> self.hs()[j] == match #[trigger] g0.hs()[j] {
                        Some(h) => Some(reverted_handle(h)),
                        None => None,
                    },
                forall|j: int| i <= j < self.hs().len() ==> self.hs()[j] == g0.hs()[j],
            decreases self.hs().len() - i,
        {
            match self.handles[i] {
                Some(h) => {
                    match h.moving {
                        Some(start) => {
                            self.handles.set(
                                i,
                                Some(SplineHandle { position: start, moving: None, ..h }),
                            );
                        },
                        None => {},
                    }
                },
                None => {},
            }
            i += 1;
        }
        proof {
            assert(self.cps() =~= map_cps(g0.cps(), |c: SplineControlPoint| reverted_cp(c)));
            assert(self.hs() =~= map_handles(g0.hs(), |h: SplineHandle| reverted_handle(h)));
            lemma_mapped_graph_wf(
                g0,
                *self,
                |c: SplineControlPoint| reverted_cp(c),
                |h: SplineHandle| reverted_handle(h),
            );
        }
    }

    /// Empty the selection set: no entity stays marked as selected.
    pub fn clear_selection(&mut self)
        requires
            old(self).wf(),
        ensures
            final(self).cps() == map_cps(old(self).cps(), |c: SplineControlPoint| deselected_cp(c)),
            final(self).hs() == map_handles(
                old(self).hs(),
                |h: SplineHandle| deselected_handle(h),
            ),
            final(self).sps() == old(self).sps(),
            final(self).wf(),
    {
        let ghost g0 = *old(self);
        let mut i: usize = 0;
        while i < self.control_points.len()
            invariant
                self.cps().len() == g0.cps().len(),
                self.hs() == g0.hs(),
                self.sps() == g0.sps(),
                0 <= i <= self.cps().len(),
                forall|j: int|
                    0 <= j < i ==> self.cps()[j] == match #[trigger] g0.cps()[j] {
                        Some(c) => Some(deselected_cp(c)),
                        None => None,
                    },
                forall|j: int| i <= j < self.cps().len() ==> self.cps()[j] == g0.cps()[j],
            decreases self.cps().len() - i,
        {
            match self.control_points[i] {
                Some(c) => {
                    self.control_points.set(i, Some(SplineControlPoint { selected: false, ..c }));
                },
                None => {},
            }
            i += 1;
        }
        let mut i: usize = 0;
        while i < self.handles.len()
            invariant
                self.cps() == map_cps(g0.cps(), |c: SplineControlPoint| deselected_cp(c)),
                self.hs().len() == g0.hs().len(),
                self.sps() == g0.sps(),
                0 <= i <= self.hs().len(),
                forall|j: int|
                    0 <= j < i ==> self.hs()[j] == match #[trigger] g0.hs()[j] {
                        Some(h) => Some(deselected_handle(h)),
                        None => None,
                    },
                forall|j: int| i <= j < self.hs().len() ==> self.hs()[j] == g0.hs()[j],
            decreases self.hs().len() - i,
        {
            match self.handles[i] {
                Some(h) => {
                    self.handles.set(i, Some(SplineHandle { selected: false, ..h }));
                },
                None => {},
            }
            i += 1;
        }
        proof {
            assert(self.cps() =~= map_cps(g0.cps(), |c: SplineControlPoint| deselected_cp(c)));
            assert(self.hs() =~= map_handles(g0.hs(), |h: SplineHandle| deselected_handle(h)));
            lemma_mapped_graph_wf(
                g0,
                *self,
                |c: SplineControlPoint| deselected_cp(c),
                |h: SplineHandle| deselected_handle(h),
            );
        }
    }
}

/// A graph mapped entity-by-entity stays well-formed, provided the maps
/// keep every reference field and keep positions and markers on the canvas.
proof fn lemma_mapped_graph_wf(
    g0: Graph,
    g1: Graph,
    f: spec_fn(SplineControlPoint) -> SplineControlPoint,
    g: spec_fn(SplineHandle) -> SplineHandle,
)
    requires
        g0.wf(),
        g1.cps() == map_cps(g0.cps(), f),
        g1.hs() == map_handles(g0.hs(), g),
        g1.sps() == g0.sps(),
        forall|c: SplineControlPoint|
            c.position.wf() && (c.moving matches Some(s) ==> s.wf()) ==> {
                &&& (#[trigger] f(c)).handle == c.handle
                &&& f(c).position.wf()
                &&& (f(c).moving matches Some(s) ==> s.wf())
            },
        forall|h: SplineHandle|
            h.position.wf() && (h.moving matches Some(s) ==> s.wf()) ==> {
                &&& (#[trigger] g(h)).control_point_a == h.control_point_a
                &&& g(h).control_point_b == h.control_point_b
                &&& g(h).position.wf()
                &&& (g(h).moving matches Some(s) ==> s.wf())
            },
    ensures
        g1.wf(),
{
    assert forall|i: int| #[trigger] g1.cp_live(i) implies g1.cp_wf_at(i) by {
        assert(g0.cp_live(i));
        assert(g0.cp_wf_at(i));
        assert(g1.cp_at(i) == f(g0.cp_at(i)));
        let k = g0.cp_at(i).handle as int;
        assert(g0.handle_live(k));
        assert(g0.handle_wf_at(k));
        assert(g1.handle_at(k) == g(g0.handle_at(k)));
    }
    assert forall|i: int| #[trigger] g1.handle_live(i) implies g1.handle_wf_at(i) by {
        assert(g0.handle_live(i));
        assert(g0.handle_wf_at(i));
        assert(g1.handle_at(i) == g(g0.handle_at(i)));
        let a = g0.handle_at(i).control_point_a as int;
        let b = g0.handle_at(i).control_point_b as int;
        assert(g0.cp_live(a) && g0.cp_live(b));
        assert(g0.cp_wf_at(a) && g0.cp_wf_at(b));
        assert(g1.cp_at(a) == f(g0.cp_at(a)));
        assert(g1.cp_at(b) == f(g0.cp_at(b)));
    }
    assert forall|i: int| #[trigger] g1.spline_live(i) implies g1.spline_wf_at(i) by {
        assert(g0.spline_live(i));
        assert(g0.spline_wf_at(i));
    }
}

/// Law: dragging is anchor-relative, not incremental.  Any number of
/// intermediate drag updates leaves the control points exactly where one
/// drag by the final delta would: the position at each step is
/// `start + (pointer - anchor)` with no accumulated drift.
pub proof fn lemma_drag_anchor_relative_cps(
    s: Seq<Option<SplineControlPoint>>,
    dx1: int,
    dy1: int,
    dx2: int,
    dy2: int,
)
    ensures
        moved_cps(moved_cps(s, dx1, dy1), dx2, dy2) == moved_cps(s, dx2, dy2),
{
    let a = moved_cps(moved_cps(s, dx1, dy1), dx2, dy2);
    let b = moved_cps(s, dx2, dy2);
    assert forall|i: int| 0 <= i < s.len() implies a[i] == b[i] by {
        assert(moved_cps(s, dx1, dy1)[i] == moved_cp_opt(s[i], dx1, dy1));
    }
    assert(a =~= b);
}

/// Law: dragging is anchor-relative, not incremental, for handles.
pub proof fn lemma_drag_anchor_relative_handles(
    s: Seq<Option<SplineHandle>>,
    dx1: int,
    dy1: int,
    dx2: int,
    dy2: int,
)
    ensures
        moved_handles(moved_handles(s, dx1, dy1), dx2, dy2) == moved_handles(s, dx2, dy2),
{
    let a = moved_handles(moved_handles(s, dx1, dy1), dx2, dy2);
    let b = moved_handles(s, dx2, dy2);
    assert forall|i: int| 0 <= i < s.len() implies a[i] == b[i] by {
        assert(moved_handles(s, dx1, dy1)[i] == moved_handle_opt(s[i], dx1, dy1));
    }
    assert(a =~= b);
}

/// Law: a drag that starts after the markers were cleared anchors to the
/// entity's current position; no start position of an earlier drag is
/// reused, whatever marker the entity carried before.
pub proof fn lemma_reentry_fresh_start_cp(c: SplineControlPoint, dx: int, dy: int)
    ensures
        c.selected ==> moved_cp(cleared_cp(c), dx, dy) == (SplineControlPoint {
            position: c.position.translated(dx, dy),
            moving: Some(c.position),
            ..c
        }),
        !c.selected ==> moved_cp(cleared_cp(c), dx, dy) == cleared_cp(c),
{
}

/// Law: fresh anchoring after marker clearing, for handles.
pub proof fn lemma_reentry_fresh_start_handle(h: SplineHandle, dx: int, dy: int)
    ensures
        h.selected ==> moved_handle(cleared_handle(h), dx, dy) == (SplineHandle {
            position: h.position.translated(dx, dy),
            moving: Some(h.position),
            ..h
        }),
        !h.selected ==> moved_handle(cleared_handle(h), dx, dy) == cleared_handle(h),
{
}


} // verus!
