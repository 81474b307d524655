//! The editing session: one cooperative update per rendered frame.
//!
//! Each update runs the stages in a fixed order — pointer recomputation
//! and intent dispatch first, then the transform applicator — so position
//! changes from dragging are visible to the same frame's path rebuild,
//! which the host requests afterwards per spline.
//!
//! Leaving a transform mode is always an explicit choice: Commit keeps the
//! dragged positions, Revert puts every dragged entity back at its
//! drag-start position, and nothing is committed or reverted implicitly.

use vstd::prelude::*;

use crate::cursor::{cursor_after_intent, EditCursor, EditorState, Intent};
use crate::geom::Vec2;
use crate::graph::{Graph, SplineControlPoint, SplineHandle};
use crate::transform::{
    cleared_cp, cleared_handle, cps_all_fit, deselected_cp, deselected_handle, handles_all_fit,
    map_cps, map_handles, moved_cps, moved_handles, reverted_cp, reverted_handle, TransformError,
};

verus! {

/// The control-point arena after an intent is dispatched in `state`:
/// Deselect empties the selection set in Select; Commit drops the drag
/// markers and Revert restores the drag-start positions when a transform
/// mode is left; everything else leaves the entities as they are.
pub open spec fn cps_after_intent(
    s: Seq<Option<SplineControlPoint>>,
    state: EditorState,
    intent: Option<Intent>,
) -> Seq<Option<SplineControlPoint>> {
    match intent {
        Some(Intent::Deselect) => if state is Select {
            map_cps(s, |c: SplineControlPoint| deselected_cp(c))
        } else {
            s
        },
        Some(Intent::Commit) => if !(state is Select) {
            map_cps(s, |c: SplineControlPoint| cleared_cp(c))
        } else {
            s
        },
        Some(Intent::Revert) => if !(state is Select) {
            map_cps(s, |c: SplineControlPoint| reverted_cp(c))
        } else {
            s
        },
        _ => s,
    }
}

/// The handle arena after an intent is dispatched in `state`.
pub open spec fn hs_after_intent(
    s: Seq<Option<SplineHandle>>,
    state: EditorState,
    intent: Option<Intent>,
) -> Seq<Option<SplineHandle>> {
    match intent {
        Some(Intent::Deselect) => if state is Select {
            map_handles(s, |h: SplineHandle| deselected_handle(h))
        } else {
            s
        },
        Some(Intent::Commit) => if !(state is Select) {
            map_handles(s, |h: SplineHandle| cleared_handle(h))
        } else {
            s
        },
        Some(Intent::Revert) => if !(state is Select) {
            map_handles(s, |h: SplineHandle| reverted_handle(h))
        } else {
            s
        },
        _ => s,
    }
}

/// A long-lived editing session: the entity graph together with the
/// cursor and interaction-mode state.  Both parts are public so the host
/// can populate the scene and read entities back; every operation
/// requires and preserves `wf`.
pub struct Editor {
    pub graph: Graph,
    pub cursor: EditCursor,
}

impl Editor {
    pub open spec fn wf(self) -> bool {
        self.graph.wf() && self.cursor.wf()
    }

    /// A fresh session: an empty graph, Select mode, pointer at the origin.
    pub fn new() -> (r: Editor)
        ensures
            r.graph.cps() == Seq::<Option<SplineControlPoint>>::empty(),
            r.graph.hs() == Seq::<Option<SplineHandle>>::empty(),
            r.graph.sps() == Seq::<Option<crate::graph::Spline>>::empty(),
            r.cursor == (EditCursor {
                state: EditorState::Select,
                pointer: Vec2 { x: 0, y: 0 },
                anchor: None,
            }),
            r.wf(),
    {
        Editor { graph: Graph::new(), cursor: EditCursor::new() }
    }

    /// Dispatch one intent against the current mode.
    fn dispatch_intent(&mut self, it: Intent)
        requires
            old(self).wf(),
        ensures
            final(self).cursor == cursor_after_intent(old(self).cursor, it),
            final(self).graph.cps() == cps_after_intent(
                old(self).graph.cps(),
                old(self).cursor.state,
                Some(it),
            ),
            final(self).graph.hs() == hs_after_intent(
                old(self).graph.hs(),
                old(self).cursor.state,
                Some(it),
            ),
            final(self).graph.sps() == old(self).graph.sps(),
            final(self).wf(),
    {
        match self.cursor.state {
            EditorState::Select => {
                match it {
                    Intent::Deselect => {
                        self.graph.clear_selection();
                    },
                    Intent::BeginMove => {
                        self.cursor = EditCursor {
                            state: EditorState::Move,
                            anchor: Some(self.cursor.pointer),
                            pointer: self.cursor.pointer,
                        };
                    },
                    Intent::BeginRotate => {
                        self.cursor = EditCursor {
                            state: EditorState::Rotate,
                            anchor: Some(self.cursor.pointer),
                            pointer: self.cursor.pointer,
                        };
                    },
                    Intent::BeginScale => {
                        self.cursor = EditCursor {
                            state: EditorState::Scale,
                            anchor: Some(self.cursor.pointer),
                            pointer: self.cursor.pointer,
                        };
                    },
                    _ => {},
                }
            },
            _ => {
                match it {
                    Intent::Commit => {
                        self.graph.clear_moving();
                        self.cursor = EditCursor {
                            state: EditorState::Select,
                            anchor: None,
                            pointer: self.cursor.pointer,
                        };
                    },
                    Intent::Revert => {
                        self.graph.restore_moving();
                        self.cursor = EditCursor {
                            state: EditorState::Select,
                            anchor: None,
                            pointer: self.cursor.pointer,
                        };
                    },
                    _ => {},
                }
            },
        }
    }

    /// One frame of the session: recompute the pointer from the sample,
    /// dispatch the intent, and, while the mode is Move, drag every
    /// selected entity to its start position plus `pointer - anchor`.
    /// A drag that would push a selected entity off the canvas leaves all
    /// positions of this frame's dispatch result unchanged and reports it.
    pub fn update(&mut self, sample: Option<Vec2>, intent: Option<Intent>) -> (r: Result<
        (),
        TransformError,
    >)
        requires
            old(self).wf(),
            sample matches Some(p) ==> p.wf(),
        ensures
            ({
                let p1 = old(self).cursor.pointer_after(sample);
                let c0 = EditCursor { pointer: p1, ..old(self).cursor };
                let c1 = match intent {
                    Some(it) => cursor_after_intent(c0, it),
                    None => c0,
                };
                let cps1 = cps_after_intent(old(self).graph.cps(), old(self).cursor.state, intent);
                let hs1 = hs_after_intent(old(self).graph.hs(), old(self).cursor.state, intent);
                &&& final(self).cursor == c1
                &&& final(self).graph.sps() == old(self).graph.sps()
                &&& (c1.state is Move ==> {
                    let dx = p1.x - c1.anchor->Some_0.x;
                    let dy = p1.y - c1.anchor->Some_0.y;
                    &&& (r is Ok <==> cps_all_fit(cps1, dx as int, dy as int) && handles_all_fit(
                        hs1,
                        dx as int,
                        dy as int,
                    ))
                    &&& r is Ok ==> final(self).graph.cps() == moved_cps(cps1, dx as int, dy as int)
                        && final(self).graph.hs() == moved_handles(hs1, dx as int, dy as int)
                    &&& r is Err ==> final(self).graph.cps() == cps1 && final(self).graph.hs()
                        == hs1 && r == Err::<(), TransformError>(TransformError::OutOfCanvas)
                })
                &&& (!(c1.state is Move) ==> r is Ok && final(self).graph.cps() == cps1
                    && final(self).graph.hs() == hs1)
                &&& final(self).wf()
            }),
    {
        self.cursor.set_pointer(sample);
        match intent {
            Some(it) => {
                self.dispatch_intent(it);
            },
            None => {},
        }
        match self.cursor.state {
            EditorState::Move => {
                let anchor = self.cursor.anchor.unwrap();
                let pointer = self.cursor.pointer;
                self.graph.apply_move(anchor, pointer)
            },
            _ => Ok(()),
        }
    }
}

} // verus!
