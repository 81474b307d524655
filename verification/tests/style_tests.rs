use splined::style::{
    control_point_color, handle_fill_color, handle_stroke_color, spline_fill_color,
    spline_fill_rule, spline_stroke_color, FillRule, Rgba,
};

const DARK_GRAY: Rgba = Rgba { r: 169, g: 169, b: 169, a: 255 };
const DARK_RED: Rgba = Rgba { r: 139, g: 0, b: 0, a: 255 };
const RED: Rgba = Rgba { r: 255, g: 0, b: 0, a: 255 };
const WHITE: Rgba = Rgba { r: 255, g: 255, b: 255, a: 255 };

#[test]
fn spline_styling_is_fixed() {
    assert_eq!(spline_fill_rule(), FillRule::EvenOdd);
    assert_eq!(spline_fill_color(), DARK_GRAY);
    assert_eq!(spline_stroke_color(), WHITE);
}

#[test]
fn handle_styling_depends_only_on_selection() {
    assert_eq!(handle_fill_color(false), DARK_GRAY);
    assert_eq!(handle_fill_color(true), DARK_RED);
    assert_eq!(handle_stroke_color(false), WHITE);
    assert_eq!(handle_stroke_color(true), RED);
}

#[test]
fn control_point_styling_depends_only_on_selection() {
    assert_eq!(control_point_color(false), WHITE);
    assert_eq!(control_point_color(true), RED);
}
