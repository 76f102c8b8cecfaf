use svgmark::element::anchor::Anchor;
use svgmark::element::circle::Circle;
use svgmark::element::group::Group;
use svgmark::element::polygon::Polygon;
use svgmark::element::text::Text;
use svgmark::element::{ChildKind, Children, ElementKind, Path, Rect, Svg, TryToString};
use svgmark::attr::referrer_policy::ReferrerPolicy;
use svgmark::attr::{AccessAttr, Attr};
use svgmark::error::Error;

#[test]
fn basic_svg_element() {
    assert_eq!(
        Svg::new().try_to_string().unwrap(),
        r#"<svg xmlns="http://www.w3.org/2000/svg"/>"#
    );
}

#[test]
fn svg_with_view_box() {
    let svg = Svg::with_view_box("0 0 10 10");
    assert_eq!(
        svg.try_to_string().unwrap(),
        r#"<svg viewBox="0 0 10 10" xmlns="http://www.w3.org/2000/svg"/>"#
    );
}

#[test]
fn svg_named_fields_in_declared_order() {
    let mut svg = Svg::new();
    svg.set_width(Some("20"));
    svg.set_x(Some("1"));
    svg.set_y(Some("2"));
    assert_eq!(
        svg.try_to_string().unwrap(),
        r#"<svg x="1" y="2" width="20" xmlns="http://www.w3.org/2000/svg"/>"#
    );
}

#[test]
fn group_without_children_self_closes() {
    let g = Group::new();
    assert_eq!(g.try_to_string().unwrap(), "<g/>");
}

#[test]
fn group_with_materialized_empty_children_has_end_tag() {
    let mut g = Group::new();
    g.children_mut().unwrap();
    assert_eq!(g.try_to_string().unwrap(), "<g></g>");
}

#[test]
fn path_leaf_self_closes() {
    let mut p = Path::new();
    p.set_data(Some("M 0,0"));
    assert_eq!(p.try_to_string().unwrap(), r#"<path d="M 0,0"/>"#);
}

#[test]
fn path_without_fields_has_no_attributes() {
    assert_eq!(Path::new().try_to_string().unwrap(), "<path/>");
}

#[test]
fn path_refuses_children() {
    let mut p = Path::new();
    assert!(matches!(p.children_mut(), Err(Error::NoChildrenExpected)));
    assert!(matches!(
        p.push_child(ChildKind::String("x".to_string())),
        Err(Error::NoChildrenExpected)
    ));
    assert!(p.children().is_none());
}

#[test]
fn text_children_are_escaped() {
    let mut g = Group::new();
    g.push_child(ChildKind::String("x < y & z".to_string())).unwrap();
    assert_eq!(g.try_to_string().unwrap(), "<g>x &lt; y &amp; z</g>");
}

#[test]
fn nested_path_inside_svg() {
    let mut svg = Svg::new();
    let mut p = Path::new();
    p.set_data(Some("M 0,0 Z"));
    svg.push_child(ChildKind::Element(ElementKind::Path(p))).unwrap();
    assert_eq!(
        svg.try_to_string().unwrap(),
        r#"<svg xmlns="http://www.w3.org/2000/svg"><path d="M 0,0 Z"/></svg>"#
    );
}

#[test]
fn serialization_is_idempotent() {
    let mut g = Group::new();
    g.set_attr(Attr::Fill, "red");
    g.push_child(ChildKind::String("body".to_string())).unwrap();
    let first = g.try_to_string().unwrap();
    let second = g.try_to_string().unwrap();
    assert_eq!(first, second);
    assert_eq!(first, r#"<g fill="red">body</g>"#);
}

#[test]
fn attribute_values_are_escaped() {
    let mut g = Group::new();
    g.set_attr(Attr::Id, "a<b&c\"d");
    assert_eq!(
        g.try_to_string().unwrap(),
        r#"<g id="a&lt;b&amp;c&quot;d"/>"#
    );
}

#[test]
fn set_then_pop_leaves_no_attribute() {
    let mut g = Group::new();
    g.set_attr(Attr::Fill, "red");
    let taken = g.pop_attr(&Attr::Fill);
    assert_eq!(taken.as_deref(), Some("red"));
    assert_eq!(g.attr(&Attr::Fill), None);
    assert_eq!(g.try_to_string().unwrap(), "<g/>");
}

#[test]
fn circle_serializes_center_and_radius() {
    let c = Circle::new(("5", "6"), "7");
    assert_eq!(c.try_to_string().unwrap(), r#"<circle cx="5" cy="6" r="7"/>"#);
}

#[test]
fn rect_serializes_in_declared_order() {
    let r = Rect::new("1", "2", "3", "4");
    assert_eq!(
        r.try_to_string().unwrap(),
        r#"<rect x="1" y="2" width="3" height="4"/>"#
    );
}

#[test]
fn polygon_serializes_points() {
    let p = Polygon::new("0,0 10,0 10,10");
    assert_eq!(
        p.try_to_string().unwrap(),
        r#"<polygon points="0,0 10,0 10,10"/>"#
    );
}

#[test]
fn text_element_with_content() {
    let mut t = Text::new("5", "10");
    t.push_child(ChildKind::String("Hi".to_string())).unwrap();
    assert_eq!(t.try_to_string().unwrap(), r#"<text x="5" y="10">Hi</text>"#);
}

#[test]
fn anchor_serializes_link_attributes() {
    let mut a = Anchor::new();
    a.set_download(Some("file.svg"));
    a.set_href(Some("https://example.org/"));
    a.set_href_lang(Some("en"));
    a.set_referrer_policy(Some(ReferrerPolicy::NoReferrer));
    assert_eq!(
        a.try_to_string().unwrap(),
        r#"<a download="file.svg" href="https://example.org/" hreflang="en" referrerpolicy="no-referrer"/>"#
    );
}

#[test]
fn element_kind_delegates_to_path() {
    let mut p = Path::new();
    p.set_data(Some("M 1,1"));
    let mut kind = ElementKind::Path(p);
    assert_eq!(kind.try_to_string().unwrap(), r#"<path d="M 1,1"/>"#);
    assert!(matches!(kind.children_mut(), Err(Error::NoChildrenExpected)));
}

#[test]
fn getters_reflect_setters() {
    let mut svg = Svg::new();
    assert_eq!(svg.view_box(), None);
    svg.set_view_box(Some("0 0 1 1"));
    assert_eq!(svg.view_box(), Some("0 0 1 1"));
    svg.set_view_box(None);
    assert_eq!(svg.view_box(), None);
    svg.set_height(Some("8"));
    assert_eq!(svg.height(), Some("8"));
    assert_eq!(svg.width(), None);
    assert_eq!(svg.x(), None);
    assert_eq!(svg.y(), None);
    assert_eq!(svg.preserve_aspect_ratio(), None);
}
