use splined::geom::Vec2;
use splined::graph::{ControlMode, Graph, Spline};
use splined::path::{build_spline_path, control_point_tangent_offset, PathCmd, PathError};

fn v(x: i64, y: i64) -> Vec2 {
    Vec2 { x, y }
}

fn lens_graph() -> (Graph, usize, usize, usize) {
    let mut g = Graph::new();
    let (h1, _, _) = g.create_handle(v(-200, 0), v(-200, 300), v(-200, -300));
    let (h2, _, _) = g.create_handle(v(200, 0), v(200, -300), v(200, 300));
    let sid = g.create_spline(vec![h1, h2]).unwrap();
    (g, sid, h1, h2)
}

#[test]
fn two_handle_spline_path_commands() {
    let (g, sid, _, _) = lens_graph();
    let sp = g.spline(sid).unwrap();
    let cmds = build_spline_path(&g, sp).unwrap();
    // All positions are flipped into the rendering convention.
    assert_eq!(
        cmds,
        vec![
            PathCmd::MoveTo(v(-200, 0)),
            PathCmd::CurveTo(v(-200, 300), v(200, 300), v(200, 0)),
            PathCmd::CurveTo(v(200, -300), v(-200, -300), v(-200, 0)),
            PathCmd::Close,
        ]
    );
}

#[test]
fn path_has_one_cubic_per_handle() {
    // n handles yield n cubic segments: n - 1 joins plus one closing
    // segment, framed by the initial move and the final close.
    let mut g = Graph::new();
    let (h1, _, _) = g.create_handle(v(0, 0), v(0, 100), v(0, -100));
    let (h2, _, _) = g.create_handle(v(300, 0), v(300, -100), v(300, 100));
    let (h3, _, _) = g.create_handle(v(150, 400), v(100, 400), v(200, 400));
    let sid = g.create_spline(vec![h1, h2, h3]).unwrap();
    let cmds = build_spline_path(&g, g.spline(sid).unwrap()).unwrap();

    assert_eq!(cmds.len(), 3 + 2);
    let cubics = cmds
        .iter()
        .filter(|c| matches!(c, PathCmd::CurveTo(_, _, _)))
        .count();
    assert_eq!(cubics, 3);
    assert!(matches!(cmds[0], PathCmd::MoveTo(p) if p == v(0, 0)));
    // The closing segment ends where the path started.
    assert!(matches!(cmds[3], PathCmd::CurveTo(_, _, p) if p == v(0, 0)));
    assert!(matches!(cmds[4], PathCmd::Close));
}

#[test]
fn empty_spline_is_invalid_topology() {
    let g = Graph::new();
    let sp = Spline { handles: vec![], control_mode: ControlMode::Vector };
    assert_eq!(build_spline_path(&g, &sp), Err(PathError::InvalidTopology));
}

#[test]
fn single_handle_spline_is_invalid_topology() {
    let mut g = Graph::new();
    let (h1, _, _) = g.create_handle(v(0, 0), v(0, 100), v(0, -100));
    let sp = Spline { handles: vec![h1], control_mode: ControlMode::Vector };
    assert_eq!(build_spline_path(&g, &sp), Err(PathError::InvalidTopology));
}

#[test]
fn deleted_handle_is_invalid_topology() {
    let (mut g, sid, _, h2) = lens_graph();
    g.delete_handle(h2).unwrap();
    let sp = g.spline(sid).unwrap().clone();
    assert_eq!(build_spline_path(&g, &sp), Err(PathError::InvalidTopology));
}

#[test]
fn unknown_handle_id_is_invalid_topology() {
    let (g, _, h1, _) = lens_graph();
    let sp = Spline { handles: vec![h1, 444], control_mode: ControlMode::Vector };
    assert_eq!(build_spline_path(&g, &sp), Err(PathError::InvalidTopology));
}

#[test]
fn tangent_offset_points_from_control_point_to_handle() {
    let mut g = Graph::new();
    let (_, ca, cb) = g.create_handle(v(-200, 0), v(-200, 300), v(-200, -300));
    assert_eq!(control_point_tangent_offset(&g, ca), Some(v(0, -300)));
    assert_eq!(control_point_tangent_offset(&g, cb), Some(v(0, 300)));
    assert_eq!(control_point_tangent_offset(&g, 99), None);
}
