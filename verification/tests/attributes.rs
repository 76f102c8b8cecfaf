use svgmark::attr::length_adjust::LengthAdjust;
use svgmark::attr::referrer_policy::ReferrerPolicy;
use svgmark::attr::{AccessAttr, Attr, AttrKey};
use svgmark::element::group::Group;
use svgmark::element::text::Text;
use svgmark::element::TryToString;
use svgmark::error::Error;
use svgmark::Number;

#[test]
fn attr_keys_map_to_canonical_names() {
    assert_eq!(Attr::Id.attr_key(), "id");
    assert_eq!(Attr::ClassName.attr_key(), "class");
    assert_eq!(Attr::ReqExt.attr_key(), "requiredExtensions");
    assert_eq!(Attr::StrokeWidth.attr_key(), "stroke-width");
    assert_eq!(Attr::ColorInterpolationFilters.attr_key(), "color-interpolation-filters");
    assert_eq!(Attr::OnDoubleClick.attr_key(), "ondblclick");
    assert_eq!(Attr::OnSought.attr_key(), "onseeked");
    assert_eq!(Attr::to_string(&Attr::Fill), "fill");
}

#[test]
fn sparse_store_get_set_pop() {
    let mut g = Group::new();
    assert_eq!(g.attr(&Attr::Fill), None);
    g.set_attr(Attr::Fill, "red");
    assert_eq!(g.attr(&Attr::Fill), Some("red"));
    g.set_attr(Attr::Fill, "blue");
    assert_eq!(g.attr(&Attr::Fill), Some("blue"));
    assert_eq!(g.pop_attr(&Attr::Fill).as_deref(), Some("blue"));
    assert_eq!(g.attr(&Attr::Fill), None);
    assert_eq!(g.pop_attr(&Attr::Fill), None);
}

#[test]
fn sparse_store_serializes_in_first_insertion_order() {
    let mut g = Group::new();
    g.set_attr(Attr::Fill, "red");
    g.set_attr(Attr::Stroke, "black");
    g.set_attr(Attr::Fill, "green");
    assert_eq!(
        g.try_to_string().unwrap(),
        r#"<g fill="green" stroke="black"/>"#
    );
}

#[test]
fn length_adjust_parses_canonical_values() {
    assert!(matches!(
        LengthAdjust::from_str("spacing"),
        Ok(LengthAdjust::Spacing)
    ));
    assert!(matches!(
        LengthAdjust::from_str("spacingAndGlyphs"),
        Ok(LengthAdjust::SpacingAndGlyphs)
    ));
    assert!(matches!(
        LengthAdjust::from_str("stretch"),
        Err(Error::NoOptionFound)
    ));
    assert_eq!(LengthAdjust::Spacing.as_value(), "spacing");
    assert_eq!(LengthAdjust::SpacingAndGlyphs.to_string(), "spacingAndGlyphs");
}

#[test]
fn referrer_policy_parses_canonical_values() {
    assert!(matches!(
        ReferrerPolicy::from_str("no-referrer"),
        Ok(ReferrerPolicy::NoReferrer)
    ));
    assert!(matches!(
        ReferrerPolicy::from_str("no-referrer-when-downgrade"),
        Ok(ReferrerPolicy::NoReferrerWhenDowngrade)
    ));
    assert!(matches!(
        ReferrerPolicy::from_str("origin"),
        Ok(ReferrerPolicy::Origin)
    ));
    assert!(matches!(
        ReferrerPolicy::from_str("origin-when-cross-origin"),
        Ok(ReferrerPolicy::OriginWhenCrossOrigin)
    ));
    assert!(matches!(
        ReferrerPolicy::from_str("same-origin"),
        Ok(ReferrerPolicy::SameOrigin)
    ));
    assert!(matches!(
        ReferrerPolicy::from_str("strict-origin"),
        Ok(ReferrerPolicy::StrictOrigin)
    ));
    assert!(matches!(
        ReferrerPolicy::from_str("strict-origin-when-cross-origin"),
        Ok(ReferrerPolicy::StrictOriginWhenCrossOrigin)
    ));
    assert!(matches!(
        ReferrerPolicy::from_str("unsafe-url"),
        Ok(ReferrerPolicy::UnsafeUrl)
    ));
    assert!(matches!(
        ReferrerPolicy::from_str("never"),
        Err(Error::NoOptionFound)
    ));
    assert_eq!(ReferrerPolicy::UnsafeUrl.to_string(), "unsafe-url");
    assert_eq!(ReferrerPolicy::StrictOrigin.as_value(), "strict-origin");
}

#[test]
fn text_rotate_joins_numbers_with_spaces() {
    let mut t = Text::new("0", "0");
    t.set_rotate(Some(vec![
        Number::new((10.0f32).to_string()),
        Number::new((20.5f32).to_string()),
        Number::new((30.0f32).to_string()),
    ]));
    assert_eq!(
        t.try_to_string().unwrap(),
        r#"<text x="0" y="0" rotate="10 20.5 30"/>"#
    );
}

#[test]
fn text_length_adjust_attribute() {
    let mut t = Text::new("0", "0");
    t.set_length_adjust(Some(LengthAdjust::SpacingAndGlyphs));
    t.set_text_length(Some("100"));
    assert_eq!(
        t.try_to_string().unwrap(),
        r#"<text x="0" y="0" lengthAdjust="spacingAndGlyphs" textLength="100"/>"#
    );
}

#[test]
fn free_form_attributes_follow_named_fields() {
    let mut t = Text::new("1", "2");
    t.set_attr(Attr::FontFamily, "serif");
    assert_eq!(
        t.try_to_string().unwrap(),
        r#"<text x="1" y="2" font-family="serif"/>"#
    );
}
