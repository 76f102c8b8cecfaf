use svgmark::element::path::{LargeArcFlag, Path, PathData, SweepFlag};
use svgmark::element::TryToString;
use svgmark::{Number, Point, ValueList};

fn num(v: f32) -> Number {
    Number::new(v.to_string())
}

fn point(x: f32, y: f32) -> Point {
    Point(num(x), num(y))
}

#[test]
fn point_formats_as_comma_pair() {
    assert_eq!(point(0.0, 0.0).to_string(), "0,0");
    assert_eq!(point(-1.5, 2.25).to_string(), "-1.5,2.25");
}

#[test]
fn point_equality_is_coordinatewise() {
    assert!(point(1.5, 2.0) == point(1.5, 2.0));
    assert!(point(1.5, 2.0) != point(2.0, 1.5));
}

#[test]
fn encoder_example_square_outline() {
    let mut d = PathData::new();
    d.move_to(point(0.0, 0.0));
    d.draw_line(point(10.0, 0.0));
    d.draw_line(point(10.0, 10.0));
    d.close();
    assert_eq!(d.to_string(), "M 0,0 L 10,0 L 10,10 Z");
}

#[test]
fn encoder_example_elliptical_arc_flags() {
    let mut d = PathData::new();
    d.draw_elliptical_arc(
        num(5.0),
        num(5.0),
        num(0.0),
        LargeArcFlag::Large,
        SweepFlag::Clockwise,
        point(10.0, 0.0),
    );
    assert_eq!(d.to_string(), "A 5 5 0 1 1 10,0");
}

#[test]
fn encoder_arc_small_counter_clockwise_flags() {
    let mut d = PathData::new();
    d.draw_elliptical_arc_rel(
        num(2.5),
        num(3.5),
        num(45.0),
        LargeArcFlag::Small,
        SweepFlag::CounterClockwise,
        point(-1.0, -2.0),
    );
    assert_eq!(d.to_string(), "a 2.5 3.5 45 0 0 -1,-2");
}

#[test]
fn encoding_is_deterministic() {
    let mut d = PathData::new();
    d.move_to(point(1.0, 2.0));
    d.draw_cubic_bezier(point(3.0, 4.0), point(5.0, 6.0), point(7.0, 8.0));
    d.close();
    assert_eq!(d.to_string(), d.to_string());

    let mut e = PathData::new();
    e.move_to(point(1.0, 2.0));
    e.draw_cubic_bezier(point(3.0, 4.0), point(5.0, 6.0), point(7.0, 8.0));
    e.close();
    assert_eq!(d.to_string(), e.to_string());
}

#[test]
fn every_command_mnemonic() {
    let mut d = PathData::new();
    d.move_to(point(1.0, 1.0));
    d.move_to_rel(point(1.0, 1.0));
    d.draw_line(point(2.0, 2.0));
    d.draw_line_rel(point(2.0, 2.0));
    d.draw_horizonal_line(num(3.0));
    d.draw_horizontal_line_rel(num(3.0));
    d.draw_vertical_line(num(4.0));
    d.draw_vertical_line_rel(num(4.0));
    assert_eq!(
        d.to_string(),
        "M 1,1 m 1,1 L 2,2 l 2,2 H 3 h 3 V 4 v 4"
    );
}

#[test]
fn bezier_command_arguments_in_order() {
    let mut d = PathData::new();
    d.draw_cubic_bezier(point(1.0, 2.0), point(3.0, 4.0), point(5.0, 6.0));
    d.draw_cubic_bezier_rel(point(1.0, 2.0), point(3.0, 4.0), point(5.0, 6.0));
    d.draw_smooth_cubic_bezier(point(7.0, 8.0), point(9.0, 10.0));
    d.draw_smooth_cubic_bezier_rel(point(7.0, 8.0), point(9.0, 10.0));
    d.draw_quadratic_bezier(point(1.0, 1.0), point(2.0, 2.0));
    d.draw_quadratic_bezier_rel(point(1.0, 1.0), point(2.0, 2.0));
    d.draw_smooth_quadratic_bezier(point(3.0, 3.0));
    d.draw_smooth_quadratic_bezier_rel(point(3.0, 3.0));
    assert_eq!(
        d.to_string(),
        "C 1,2 3,4 5,6 c 1,2 3,4 5,6 S 7,8 9,10 s 7,8 9,10 Q 1,1 2,2 q 1,1 2,2 T 3,3 t 3,3"
    );
}

#[test]
fn close_emits_bare_mnemonic() {
    let mut d = PathData::new();
    d.close();
    assert_eq!(d.to_string(), "Z");
}

#[test]
fn empty_path_data_encodes_to_empty_string() {
    assert_eq!(PathData::new().to_string(), "");
}

#[test]
fn path_from_data_sets_d() {
    let mut d = PathData::new();
    d.move_to(point(0.0, 0.0));
    d.draw_line(point(1.0, 1.0));
    let p = Path::from_data(&d);
    assert_eq!(p.data(), Some("M 0,0 L 1,1"));
    assert_eq!(p.try_to_string().unwrap(), r#"<path d="M 0,0 L 1,1"/>"#);
}

#[test]
fn value_list_joins_with_spaces() {
    let mut list = ValueList::new();
    list.push("a".to_string());
    list.push("b".to_string());
    list.push("c".to_string());
    assert_eq!(list.into_string(), "a b c");
}

#[test]
fn value_list_joins_with_custom_delimiter() {
    let mut list = ValueList::new();
    list.push("1".to_string());
    list.push("2".to_string());
    assert_eq!(list.into_string_with_delim(","), "1,2");
}

#[test]
fn empty_value_list_joins_to_empty_string() {
    assert_eq!(ValueList::new().into_string(), "");
}

#[test]
fn number_keeps_its_token() {
    let n = Number::new("12.5".to_string());
    assert_eq!(n.as_str(), "12.5");
    assert_eq!(n.to_string(), "12.5");
}
