//! Cursor and interaction-mode state of the editing session.
//!
//! The machine starts in Select.  A begin intent enters Move, Rotate or
//! Scale and captures the anchor snapshot: the current world-space pointer
//! position, or the origin while no pointer sample has ever arrived.
//! Commit and Revert return to Select; the snapshot exists exactly while
//! the mode is not Select.

use vstd::prelude::*;

use crate::geom::Vec2;

verus! {

/// The global interaction mode.  Rotate and Scale are structurally
/// declared states: they can be entered and left, but no transform logic
/// is attached to them yet, and any future implementer is forced to handle
/// them explicitly.
#[derive(Clone, Copy, PartialEq, Eq, Structural, Debug)]
pub enum EditorState {
    Select,
    Move,
    Rotate,
    Scale,
}

/// A discrete interaction intent delivered by the input backend.
#[derive(Clone, Copy, PartialEq, Eq, Structural, Debug)]
pub enum Intent {
    /// Empty the selection set.  Acted on in Select only; it never changes
    /// the interaction mode.
    Deselect,
    /// Enter Move from Select, capturing the anchor snapshot.
    BeginMove,
    /// Enter Rotate from Select (a declared mode with no transform yet).
    BeginRotate,
    /// Enter Scale from Select (a declared mode with no transform yet).
    BeginScale,
    /// Leave the transform mode for Select, keeping the moved positions
    /// and dropping the drag-start markers.
    Commit,
    /// Leave the transform mode for Select, putting every dragged entity
    /// back at its drag-start position.
    Revert,
    /// Reserved: constrain the drag to the horizontal axis.  No effect yet.
    ConstrainToX,
    /// Reserved: constrain the drag to the vertical axis.  No effect yet.
    ConstrainToY,
}

/// Pointer and mode state of the editing session.
#[derive(Clone, Copy, PartialEq, Eq, Debug)]
pub struct EditCursor {
    /// The current interaction mode.
    pub state: EditorState,
    /// The last known world-space pointer position; the origin until the
    /// first sample arrives.
    pub pointer: Vec2,
    /// The anchor snapshot captured on entry into a transform mode;
    /// `None` exactly while the mode is Select.
    pub anchor: Option<Vec2>,
}

/// The cursor after an intent is dispatched.  Begin intents act in Select
/// and capture the anchor; Commit and Revert act in the transform modes
/// and clear it; everything else leaves the cursor as it is.
pub open spec fn cursor_after_intent(c: EditCursor, intent: Intent) -> EditCursor {
    if c.state is Select {
        match intent {
            Intent::BeginMove => EditCursor {
                state: EditorState::Move,
                anchor: Some(c.pointer),
                ..c
            },
            Intent::BeginRotate => EditCursor {
                state: EditorState::Rotate,
                anchor: Some(c.pointer),
                ..c
            },
            Intent::BeginScale => EditCursor {
                state: EditorState::Scale,
                anchor: Some(c.pointer),
                ..c
            },
            _ => c,
        }
    } else {
        match intent {
            Intent::Commit => EditCursor { state: EditorState::Select, anchor: None, ..c },
            Intent::Revert => EditCursor { state: EditorState::Select, anchor: None, ..c },
            _ => c,
        }
    }
}

impl EditCursor {
    /// The pointer position and the anchor are on the canvas, and the
    /// anchor snapshot exists exactly while the mode is not Select.
    pub open spec fn wf(self) -> bool {
        &&& self.pointer.wf()
        &&& (self.anchor matches Some(a) ==> a.wf())
        &&& (self.state is Select <==> self.anchor is None)
    }

    /// The pointer after one update: a fresh sample replaces it; no sample
    /// (no active camera, or the pointer off every tracked surface) leaves
    /// it unchanged — sticky, not reset to the origin.
    pub open spec fn pointer_after(self, sample: Option<Vec2>) -> Vec2 {
        match sample {
            Some(p) => p,
            None => self.pointer,
        }
    }

    /// The initial cursor: Select mode, pointer at the origin, no anchor.
    pub fn new() -> (r: EditCursor)
        ensures
            r == (EditCursor {
                state: EditorState::Select,
                pointer: Vec2 { x: 0, y: 0 },
                anchor: None,
            }),
            r.wf(),
    {
        EditCursor { state: EditorState::Select, pointer: Vec2 { x: 0, y: 0 }, anchor: None }
    }

    /// Recompute the world-space pointer from this update's sample.
    pub fn set_pointer(&mut self, sample: Option<Vec2>)
        requires
            old(self).wf(),
            sample matches Some(p) ==> p.wf(),
        ensures
            final(self).pointer == old(self).pointer_after(sample),
            final(self).state == old(self).state,
            final(self).anchor == old(self).anchor,
            final(self).wf(),
    {
        match sample {
            Some(p) => {
                self.pointer = p;
            },
            None => {},
        }
    }
}

} // verus!
