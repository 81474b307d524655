use splined::geom::{flip, origin, Vec2, MAX_COORD};

#[test]
fn flip_negates_y_exactly() {
    let p = Vec2 { x: 3, y: 4 };
    assert_eq!(flip(p), Vec2 { x: 3, y: -4 });
    let q = Vec2 { x: -17, y: -250 };
    assert_eq!(flip(q), Vec2 { x: -17, y: 250 });
}

#[test]
fn flip_is_involution_on_samples() {
    let samples = vec![
        Vec2 { x: 0, y: 0 },
        Vec2 { x: 1, y: -1 },
        Vec2 { x: -200, y: 300 },
        Vec2 { x: MAX_COORD, y: -MAX_COORD },
        Vec2 { x: 123456789, y: -987654321 },
    ];
    for p in samples {
        assert_eq!(flip(flip(p)), p);
    }
}

#[test]
fn origin_is_zero() {
    assert_eq!(origin(), Vec2 { x: 0, y: 0 });
}
