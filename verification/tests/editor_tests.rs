use splined::cursor::{EditorState, Intent};
use splined::geom::{Vec2, MAX_COORD};
use splined::path::{build_spline_path, PathCmd};
use splined::session::Editor;
use splined::transform::TransformError;

fn v(x: i64, y: i64) -> Vec2 {
    Vec2 { x, y }
}

/// Two handles at (-200,0) and (200,0), control points offset by +-300 in
/// y, one spline over them, everything selected.
fn lens_editor() -> (Editor, usize, usize, usize) {
    let mut ed = Editor::new();
    let (h1, c1a, c1b) = ed.graph.create_handle(v(-200, 0), v(-200, 300), v(-200, -300));
    let (h2, c2a, c2b) = ed.graph.create_handle(v(200, 0), v(200, -300), v(200, 300));
    let sid = ed.graph.create_spline(vec![h1, h2]).unwrap();
    for c in [c1a, c1b, c2a, c2b] {
        ed.graph.set_control_point_selected(c, true).unwrap();
    }
    ed.graph.set_handle_selected(h1, true).unwrap();
    ed.graph.set_handle_selected(h2, true).unwrap();
    (ed, sid, h1, h2)
}

#[test]
fn drag_end_to_end() {
    let (mut ed, sid, h1, h2) = lens_editor();

    // Pointer appears at the origin; a move begins and anchors there.
    ed.update(Some(v(0, 0)), Some(Intent::BeginMove)).unwrap();
    assert_eq!(ed.cursor.state, EditorState::Move);
    assert_eq!(ed.cursor.anchor, Some(v(0, 0)));

    // The pointer moves by (50, -20); every selected entity follows.
    ed.update(Some(v(50, -20)), None).unwrap();
    assert_eq!(ed.graph.handle(h1).unwrap().position, v(-150, -20));
    assert_eq!(ed.graph.handle(h2).unwrap().position, v(250, -20));

    // The rebuilt path starts at the flipped new first-handle position.
    let sp = ed.graph.spline(sid).unwrap();
    let cmds = build_spline_path(&ed.graph, sp).unwrap();
    assert_eq!(cmds[0], PathCmd::MoveTo(v(-150, 20)));
}

#[test]
fn drag_is_anchor_relative_without_drift() {
    let (mut ed, _, h1, _) = lens_editor();
    ed.update(Some(v(0, 0)), Some(Intent::BeginMove)).unwrap();

    // Many intermediate pointer positions...
    ed.update(Some(v(10, 0)), None).unwrap();
    ed.update(Some(v(20, 5)), None).unwrap();
    ed.update(Some(v(-3, 17)), None).unwrap();
    ed.update(Some(v(50, -20)), None).unwrap();

    // ... leave the entity exactly at start + (P_k - A).
    assert_eq!(ed.graph.handle(h1).unwrap().position, v(-150, -20));
    assert_eq!(ed.graph.handle(h1).unwrap().moving, Some(v(-200, 0)));
}

#[test]
fn reentering_move_uses_fresh_start_positions() {
    let (mut ed, _, h1, _) = lens_editor();

    // First drag: by (50, 0); commit keeps the moved positions.
    ed.update(Some(v(0, 0)), Some(Intent::BeginMove)).unwrap();
    ed.update(Some(v(50, 0)), None).unwrap();
    ed.update(None, Some(Intent::Commit)).unwrap();
    assert_eq!(ed.cursor.state, EditorState::Select);
    assert_eq!(ed.cursor.anchor, None);
    assert_eq!(ed.graph.handle(h1).unwrap().position, v(-150, 0));
    // Leaving Move dropped the drag-start marker.
    assert_eq!(ed.graph.handle(h1).unwrap().moving, None);

    // Second drag with a different anchor: relative to the new positions,
    // not to the start of the first drag.
    ed.update(Some(v(1000, 1000)), Some(Intent::BeginMove)).unwrap();
    ed.update(Some(v(1000, 1010)), None).unwrap();
    assert_eq!(ed.graph.handle(h1).unwrap().position, v(-150, 10));
    assert_eq!(ed.graph.handle(h1).unwrap().moving, Some(v(-150, 0)));
}

#[test]
fn revert_restores_drag_start_positions() {
    let (mut ed, _, h1, h2) = lens_editor();
    ed.update(Some(v(0, 0)), Some(Intent::BeginMove)).unwrap();
    ed.update(Some(v(300, 40)), None).unwrap();
    assert_eq!(ed.graph.handle(h1).unwrap().position, v(100, 40));

    ed.update(None, Some(Intent::Revert)).unwrap();
    assert_eq!(ed.cursor.state, EditorState::Select);
    assert_eq!(ed.graph.handle(h1).unwrap().position, v(-200, 0));
    assert_eq!(ed.graph.handle(h2).unwrap().position, v(200, 0));
    assert_eq!(ed.graph.handle(h1).unwrap().moving, None);
}

#[test]
fn deselect_empties_selection_without_changing_mode() {
    let (mut ed, _, h1, h2) = lens_editor();
    ed.update(Some(v(5, 5)), Some(Intent::Deselect)).unwrap();
    assert_eq!(ed.cursor.state, EditorState::Select);
    assert!(!ed.graph.handle(h1).unwrap().selected);
    assert!(!ed.graph.handle(h2).unwrap().selected);

    // With nothing selected a move drags nothing.
    ed.update(None, Some(Intent::BeginMove)).unwrap();
    ed.update(Some(v(70, 70)), None).unwrap();
    assert_eq!(ed.graph.handle(h1).unwrap().position, v(-200, 0));
}

#[test]
fn pointer_is_sticky_when_no_sample_arrives() {
    let (mut ed, _, _, _) = lens_editor();
    assert_eq!(ed.cursor.pointer, v(0, 0));
    ed.update(Some(v(12, 34)), None).unwrap();
    ed.update(None, None).unwrap();
    assert_eq!(ed.cursor.pointer, v(12, 34));
}

#[test]
fn anchor_defaults_to_origin_without_any_sample() {
    let (mut ed, _, h1, _) = lens_editor();
    // No pointer sample has ever arrived: the snapshot is the origin.
    ed.update(None, Some(Intent::BeginMove)).unwrap();
    assert_eq!(ed.cursor.anchor, Some(v(0, 0)));
    ed.update(Some(v(50, -20)), None).unwrap();
    assert_eq!(ed.graph.handle(h1).unwrap().position, v(-150, -20));
}

#[test]
fn rotate_and_scale_are_declared_but_transform_nothing() {
    let (mut ed, _, h1, _) = lens_editor();
    ed.update(Some(v(0, 0)), Some(Intent::BeginRotate)).unwrap();
    assert_eq!(ed.cursor.state, EditorState::Rotate);
    assert_eq!(ed.cursor.anchor, Some(v(0, 0)));
    ed.update(Some(v(500, 500)), None).unwrap();
    assert_eq!(ed.graph.handle(h1).unwrap().position, v(-200, 0));
    ed.update(None, Some(Intent::Commit)).unwrap();
    assert_eq!(ed.cursor.state, EditorState::Select);

    ed.update(None, Some(Intent::BeginScale)).unwrap();
    assert_eq!(ed.cursor.state, EditorState::Scale);
    ed.update(None, Some(Intent::Revert)).unwrap();
    assert_eq!(ed.cursor.state, EditorState::Select);
}

#[test]
fn drag_off_canvas_is_rejected_atomically() {
    let mut ed = Editor::new();
    let (h, _, _) = ed.graph.create_handle(
        v(MAX_COORD, 0),
        v(MAX_COORD, 300),
        v(MAX_COORD, -300),
    );
    ed.graph.set_handle_selected(h, true).unwrap();

    ed.update(Some(v(0, 0)), Some(Intent::BeginMove)).unwrap();
    // Entering Move applied a zero-delta drag and captured the marker.
    assert_eq!(ed.graph.handle(h).unwrap().moving, Some(v(MAX_COORD, 0)));
    let r = ed.update(Some(v(10, 0)), None);
    assert_eq!(r, Err(TransformError::OutOfCanvas));
    // The rejected drag moved nothing.
    assert_eq!(ed.graph.handle(h).unwrap().position, v(MAX_COORD, 0));
}

#[test]
fn begin_move_only_acts_in_select() {
    let (mut ed, _, _, _) = lens_editor();
    ed.update(Some(v(0, 0)), Some(Intent::BeginMove)).unwrap();
    // A second begin-move while already moving changes nothing.
    ed.update(Some(v(10, 10)), Some(Intent::BeginMove)).unwrap();
    assert_eq!(ed.cursor.state, EditorState::Move);
    assert_eq!(ed.cursor.anchor, Some(v(0, 0)));
    // Commit and Revert do nothing in Select.
    ed.update(None, Some(Intent::Commit)).unwrap();
    ed.update(None, Some(Intent::Commit)).unwrap();
    ed.update(None, Some(Intent::Revert)).unwrap();
    assert_eq!(ed.cursor.state, EditorState::Select);
}

#[test]
fn constrain_intents_are_reserved_no_ops() {
    let (mut ed, _, h1, _) = lens_editor();
    ed.update(Some(v(0, 0)), Some(Intent::BeginMove)).unwrap();
    // The constraint intents are declared but have no effect yet; the
    // drag itself still applies on the same update.
    ed.update(Some(v(30, 7)), Some(Intent::ConstrainToX)).unwrap();
    assert_eq!(ed.graph.handle(h1).unwrap().position, v(-170, 7));
}
