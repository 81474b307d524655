use splined::geom::Vec2;
use splined::graph::{ControlMode, Graph, GraphError, HandleControlMode};

fn v(x: i64, y: i64) -> Vec2 {
    Vec2 { x, y }
}

#[test]
fn create_handle_wires_ownership() {
    let mut g = Graph::new();
    let (h, ca, cb) = g.create_handle(v(-200, 0), v(-200, 300), v(-200, -300));
    assert_eq!((h, ca, cb), (0, 0, 1));

    let hd = g.handle(h).unwrap();
    assert_eq!(hd.position, v(-200, 0));
    assert_eq!(hd.control_point_a, ca);
    assert_eq!(hd.control_point_b, cb);
    assert_eq!(hd.control_mode, HandleControlMode::Inherit);
    assert!(!hd.selected);
    assert_eq!(hd.moving, None);

    let a = g.control_point(ca).unwrap();
    assert_eq!(a.position, v(-200, 300));
    assert_eq!(a.handle, h);
    let b = g.control_point(cb).unwrap();
    assert_eq!(b.position, v(-200, -300));
    assert_eq!(b.handle, h);
}

#[test]
fn create_spline_validates_handle_list() {
    let mut g = Graph::new();
    let (h1, _, _) = g.create_handle(v(-200, 0), v(-200, 300), v(-200, -300));
    let (h2, _, _) = g.create_handle(v(200, 0), v(200, -300), v(200, 300));

    assert_eq!(g.create_spline(vec![]), Err(GraphError::InvalidSpline));
    assert_eq!(g.create_spline(vec![h1]), Err(GraphError::InvalidSpline));
    assert_eq!(g.create_spline(vec![h1, h1]), Err(GraphError::InvalidSpline));
    assert_eq!(g.create_spline(vec![h1, 77]), Err(GraphError::InvalidSpline));

    let sid = g.create_spline(vec![h1, h2]).unwrap();
    let sp = g.spline(sid).unwrap();
    assert_eq!(sp.handles, vec![h1, h2]);
    assert_eq!(sp.control_mode, ControlMode::Vector);
}

#[test]
fn delete_handle_cascades_to_control_points() {
    let mut g = Graph::new();
    let (h1, c1a, c1b) = g.create_handle(v(-200, 0), v(-200, 300), v(-200, -300));
    let (h2, c2a, _) = g.create_handle(v(200, 0), v(200, -300), v(200, 300));

    assert_eq!(g.delete_handle(h1), Ok(()));
    assert!(g.handle(h1).is_none());
    assert!(g.control_point(c1a).is_none());
    assert!(g.control_point(c1b).is_none());

    // The other handle and its control points are untouched.
    assert!(g.handle(h2).is_some());
    assert!(g.control_point(c2a).is_some());

    // A dead id cannot be deleted again.
    assert_eq!(g.delete_handle(h1), Err(GraphError::NotFound));
}

#[test]
fn delete_control_point_alone_is_rejected() {
    let mut g = Graph::new();
    let (_, ca, _) = g.create_handle(v(0, 0), v(0, 300), v(0, -300));
    assert_eq!(g.delete_control_point(ca), Err(GraphError::StillReferenced));
    assert_eq!(g.delete_control_point(999), Err(GraphError::NotFound));
    // The rejected mutation changed nothing.
    assert!(g.control_point(ca).is_some());
}

#[test]
fn delete_spline_leaves_handles() {
    let mut g = Graph::new();
    let (h1, _, _) = g.create_handle(v(-200, 0), v(-200, 300), v(-200, -300));
    let (h2, _, _) = g.create_handle(v(200, 0), v(200, -300), v(200, 300));
    let sid = g.create_spline(vec![h1, h2]).unwrap();

    assert_eq!(g.delete_spline(sid), Ok(()));
    assert!(g.spline(sid).is_none());
    assert!(g.handle(h1).is_some());
    assert!(g.handle(h2).is_some());
    assert_eq!(g.delete_spline(sid), Err(GraphError::NotFound));
}

#[test]
fn selection_marks_entities() {
    let mut g = Graph::new();
    let (h, ca, _) = g.create_handle(v(0, 0), v(0, 300), v(0, -300));

    assert_eq!(g.set_handle_selected(h, true), Ok(()));
    assert!(g.handle(h).unwrap().selected);
    assert_eq!(g.set_control_point_selected(ca, true), Ok(()));
    assert!(g.control_point(ca).unwrap().selected);

    assert_eq!(g.set_handle_selected(9, true), Err(GraphError::NotFound));
    assert_eq!(g.set_control_point_selected(9, true), Err(GraphError::NotFound));

    g.clear_selection();
    assert!(!g.handle(h).unwrap().selected);
    assert!(!g.control_point(ca).unwrap().selected);
}

#[test]
fn default_modes() {
    assert_eq!(ControlMode::default(), ControlMode::Vector);
    assert_eq!(HandleControlMode::default(), HandleControlMode::Inherit);
}
