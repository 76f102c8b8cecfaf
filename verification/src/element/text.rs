//! Text element (`<text>`).
use vstd::prelude::*;

use crate::attr::length_adjust::LengthAdjust;
use crate::attr::{lazy_attr_get, lazy_attr_pop, lazy_attr_set, AccessAttr, Attr, AttrMap};
use crate::element::{
    convert_into_xml, element_to_string, lazy_children_view, lazy_map_attrs, lazy_xml, opt_attr,
    opt_str_get, opt_str_owned, push_map_attrs, push_opt_attr, ChildKind, Children, ElementNode,
    TagName, TryToString, WriteXml,
};
use crate::error::Error;
use crate::xml::{
    attr_escaped, bs_attrs, bs_name, bytes_start_new, push_str_attribute,
};
use crate::{join_texts, join_with, Number};

verus! {

/// Text element (`<text>`)
pub struct Text {
    /// The `x` attribute.
    pub x: Option<String>,
    /// The `y` attribute.
    pub y: Option<String>,
    /// The `dx` attribute.
    pub dx: Option<String>,
    /// The `dy` attribute.
    pub dy: Option<String>,
    /// The `rotate` attribute: one rotation per glyph, space-separated.
    pub rotate: Option<Vec<Number>>,
    /// The `lengthAdjust` attribute.
    pub length_adjust: Option<LengthAdjust>,
    /// The `textLength` attribute.
    pub text_length: Option<String>,
    /// Free-form attributes.
    pub attr: Option<AttrMap>,
    /// The child list; absent until first requested.
    pub children: Option<Vec<ChildKind>>,
}

/// The attribute a rotation list contributes: the rotations joined by
/// single spaces.
pub open spec fn rotate_attr(v: Option<Vec<Number>>) -> Seq<(Seq<char>, Seq<char>)> {
    match v {
        None => Seq::empty(),
        Some(ns) => seq![
            ("rotate"@, attr_escaped(join_texts(ns@.map_values(|n: Number| n@), " "@))),
        ],
    }
}

/// The attribute a `lengthAdjust` field contributes.
pub open spec fn length_adjust_attr(v: Option<LengthAdjust>) -> Seq<(Seq<char>, Seq<char>)> {
    match v {
        None => Seq::empty(),
        Some(la) => seq![("lengthAdjust"@, attr_escaped(la.spec_value()))],
    }
}

/// The textual value of the `rotate` attribute.
fn rotate_value(ns: &Vec<Number>) -> (r: String)
    ensures
        r@ == join_texts(ns@.map_values(|n: Number| n@), " "@),
{
    let mut parts: Vec<String> = Vec::new();
    let n = ns.len();
    let mut i: usize = 0;
    proof {
        assert(parts@.map_values(|s: String| s@) =~= ns@.take(0).map_values(|x: Number| x@));
    }
    while i < n
        invariant
            n == ns.len(),
            i <= n,
            parts@.map_values(|s: String| s@) == ns@.take(i as int).map_values(|x: Number| x@),
        decreases n - i,
    {
        parts.push(ns[i].to_string());
        proof {
            assert(parts@.map_values(|s: String| s@) =~= ns@.take(i as int).map_values(
                |x: Number| x@,
            ).push(ns@[i as int]@));
            assert(ns@.take(i + 1 as int).map_values(|x: Number| x@) =~= ns@.take(
                i as int,
            ).map_values(|x: Number| x@).push(ns@[i as int]@));
        }
        i += 1;
    }
    proof {
        assert(ns@.take(n as int) =~= ns@);
    }
    join_with(&parts, " ")
}

/// Append the `rotate` attribute of an optional rotation list.
fn push_rotate_attr(bs: &mut quick_xml::events::BytesStart<'static>, v: &Option<Vec<Number>>)
    ensures
        bs_name(*final(bs)) == bs_name(*old(bs)),
        bs_attrs(*final(bs)) == bs_attrs(*old(bs)) + rotate_attr(*v),
{
    match v {
        Some(ns) => {
            let value = rotate_value(ns);
            push_str_attribute(bs, "rotate", value.as_str());
            proof {
                assert(bs_attrs(*bs) =~= bs_attrs(*old(bs)) + rotate_attr(*v));
            }
        },
        None => {
            proof {
                assert(bs_attrs(*bs) =~= bs_attrs(*old(bs)) + rotate_attr(*v));
            }
        },
    }
}

/// Append the `lengthAdjust` attribute of an optional field.
fn push_length_adjust_attr(
    bs: &mut quick_xml::events::BytesStart<'static>,
    v: &Option<LengthAdjust>,
)
    ensures
        bs_name(*final(bs)) == bs_name(*old(bs)),
        bs_attrs(*final(bs)) == bs_attrs(*old(bs)) + length_adjust_attr(*v),
{
    match v {
        Some(la) => {
            push_str_attribute(bs, "lengthAdjust", la.as_value());
            proof {
                assert(bs_attrs(*bs) =~= bs_attrs(*old(bs)) + length_adjust_attr(*v));
            }
        },
        None => {
            proof {
                assert(bs_attrs(*bs) =~= bs_attrs(*old(bs)) + length_adjust_attr(*v));
            }
        },
    }
}

impl Default for Text {
    fn default() -> (r: Self)
        ensures
            r.x is None,
            r.y is None,
            r.dx is None,
            r.dy is None,
            r.rotate is None,
            r.length_adjust is None,
            r.text_length is None,
            r.attr is None,
            r.children is None,
    {
        Self {
            x: None,
            y: None,
            dx: None,
            dy: None,
            rotate: None,
            length_adjust: None,
            text_length: None,
            attr: None,
            children: None,
        }
    }
}

impl Text {
    /// Create a text element anchored at `x`, `y`.
    pub fn new(x: &str, y: &str) -> (r: Self)
        ensures
            r.x matches Some(s) && s@ == x@,
            r.y matches Some(s) && s@ == y@,
            r.dx is None,
            r.dy is None,
            r.rotate is None,
            r.length_adjust is None,
            r.text_length is None,
            r.attr is None,
            r.children is None,
    {
        let mut t = Self::default();
        t.set_x(Some(x));
        t.set_y(Some(y));
        t
    }

    /// Get `x`.
    pub fn x(&self) -> (r: Option<&str>)
        ensures
            match r {
                Some(s) => self.x matches Some(x) && s@ == x@,
                None => self.x is None,
            },
    {
        opt_str_get(&self.x)
    }

    /// Set `x`.
    pub fn set_x(&mut self, value: Option<&str>)
        ensures
            *final(self) == (Text { x: final(self).x, ..*old(self) }),
            match value {
                Some(v) => final(self).x matches Some(s) && s@ == v@,
                None => final(self).x is None,
            },
    {
        self.x = opt_str_owned(value);
    }

    /// Get `y`.
    pub fn y(&self) -> (r: Option<&str>)
        ensures
            match r {
                Some(s) => self.y matches Some(x) && s@ == x@,
                None => self.y is None,
            },
    {
        opt_str_get(&self.y)
    }

    /// Set `y`.
    pub fn set_y(&mut self, value: Option<&str>)
        ensures
            *final(self) == (Text { y: final(self).y, ..*old(self) }),
            match value {
                Some(v) => final(self).y matches Some(s) && s@ == v@,
                None => final(self).y is None,
            },
    {
        self.y = opt_str_owned(value);
    }

    /// Get `dx`.
    pub fn dx(&self) -> (r: Option<&str>)
        ensures
            match r {
                Some(s) => self.dx matches Some(x) && s@ == x@,
                None => self.dx is None,
            },
    {
        opt_str_get(&self.dx)
    }

    /// Set `dx`.
    pub fn set_dx(&mut self, value: Option<&str>)
        ensures
            *final(self) == (Text { dx: final(self).dx, ..*old(self) }),
            match value {
                Some(v) => final(self).dx matches Some(s) && s@ == v@,
                None => final(self).dx is None,
            },
    {
        self.dx = opt_str_owned(value);
    }

    /// Get `dy`.
    pub fn dy(&self) -> (r: Option<&str>)
        ensures
            match r {
                Some(s) => self.dy matches Some(x) && s@ == x@,
                None => self.dy is None,
            },
    {
        opt_str_get(&self.dy)
    }

    /// Set `dy`.
    pub fn set_dy(&mut self, value: Option<&str>)
        ensures
            *final(self) == (Text { dy: final(self).dy, ..*old(self) }),
            match value {
                Some(v) => final(self).dy matches Some(s) && s@ == v@,
                None => final(self).dy is None,
            },
    {
        self.dy = opt_str_owned(value);
    }

    /// Get `rotate`.
    pub fn rotate(&self) -> (r: &Option<Vec<Number>>)
        ensures
            r == &self.rotate,
    {
        &self.rotate
    }

    /// Set `rotate`.
    pub fn set_rotate(&mut self, value: Option<Vec<Number>>)
        ensures
            *final(self) == (Text { rotate: final(self).rotate, ..*old(self) }),
            final(self).rotate == value,
    {
        self.rotate = value;
    }

    /// Get `lengthAdjust`.
    pub fn length_adjust(&self) -> (r: &Option<LengthAdjust>)
        ensures
            r == &self.length_adjust,
    {
        &self.length_adjust
    }

    /// Set `lengthAdjust`.
    pub fn set_length_adjust(&mut self, value: Option<LengthAdjust>)
        ensures
            *final(self) == (Text { length_adjust: final(self).length_adjust, ..*old(self) }),
            final(self).length_adjust == value,
    {
        self.length_adjust = value;
    }

    /// Get `textLength`.
    pub fn text_length(&self) -> (r: Option<&str>)
        ensures
            match r {
                Some(s) => self.text_length matches Some(x) && s@ == x@,
                None => self.text_length is None,
            },
    {
        opt_str_get(&self.text_length)
    }

    /// Set `textLength`.
    pub fn set_text_length(&mut self, value: Option<&str>)
        ensures
            *final(self) == (Text { text_length: final(self).text_length, ..*old(self) }),
            match value {
                Some(v) => final(self).text_length matches Some(s) && s@ == v@,
                None => final(self).text_length is None,
            },
    {
        self.text_length = opt_str_owned(value);
    }

    /// The attribute list of the start tag, in emission order.
    pub open spec fn spec_attrs(&self) -> Seq<(Seq<char>, Seq<char>)> {
        opt_attr("x"@, self.x) + opt_attr("y"@, self.y) + opt_attr("dx"@, self.dx) + opt_attr(
            "dy"@,
            self.dy,
        ) + rotate_attr(self.rotate) + length_adjust_attr(self.length_adjust) + opt_attr(
            "textLength"@,
            self.text_length,
        ) + lazy_map_attrs(self.attr)
    }
}

impl TagName for Text {
    open spec fn spec_tag_name(&self) -> Seq<char> {
        "text"@
    }

    fn tag_name(&self) -> (r: &str) {
        "text"
    }
}

impl WriteXml for Text {
    open spec fn spec_xml(&self) -> Seq<char> {
        lazy_xml("text"@, self.spec_attrs(), lazy_children_view(self.children))
    }

    fn write_xml(&self, writer: &mut quick_xml::Writer<std::io::Cursor<Vec<u8>>>) -> (r: Result<
        (),
        Error,
    >) {
        let tag = self.tag_name();
        let mut bs = bytes_start_new(tag);
        push_opt_attr(&mut bs, "x", &self.x);
        push_opt_attr(&mut bs, "y", &self.y);
        push_opt_attr(&mut bs, "dx", &self.dx);
        push_opt_attr(&mut bs, "dy", &self.dy);
        push_rotate_attr(&mut bs, &self.rotate);
        push_length_adjust_attr(&mut bs, &self.length_adjust);
        push_opt_attr(&mut bs, "textLength", &self.text_length);
        match push_map_attrs(&mut bs, &self.attr) {
            Ok(()) => {},
            Err(e) => {
                return Err(e);
            },
        }
        proof {
            assert(bs_attrs(bs) =~= self.spec_attrs());
        }
        convert_into_xml(writer, bs, self.children.as_ref(), tag)
    }
}

impl TryToString for Text {
    fn try_to_string(&self) -> (r: Result<String, Error>) {
        element_to_string(self)
    }
}

impl Children for Text {
    open spec fn children_field(&self) -> Option<Vec<ChildKind>> {
        self.children
    }

    open spec fn spec_supports_children(&self) -> bool {
        true
    }

    open spec fn with_children_list(&self, c: Option<Vec<ChildKind>>) -> Text {
        Text { children: c, ..*self }
    }

    fn children(&self) -> (r: Option<&Vec<ChildKind>>) {
        self.children.as_ref()
    }

    fn children_mut(&mut self) -> (r: Result<(), Error>) {
        if self.children.is_none() {
            self.children = Some(Vec::new());
        }
        Ok(())
    }

    fn push_child(&mut self, child: ChildKind) -> (r: Result<(), Error>) {
        match &mut self.children {
            Some(list) => {
                list.push(child);
            },
            None => {
                let mut list: Vec<ChildKind> = Vec::new();
                list.push(child);
                self.children = Some(list);
            },
        }
        Ok(())
    }
}

impl ElementNode for Text {

}

impl AccessAttr for Text {
    open spec fn attr_map_field(&self) -> Option<AttrMap> {
        self.attr
    }

    open spec fn with_attr_map(&self, m: Option<AttrMap>) -> Text {
        Text { attr: m, ..*self }
    }

    fn attr(&self, attr: &Attr) -> (r: Option<&str>) {
        lazy_attr_get(&self.attr, attr)
    }

    fn set_attr(&mut self, attr: Attr, value: &str) {
        lazy_attr_set(&mut self.attr, attr, value);
    }

    fn pop_attr(&mut self, attr: &Attr) -> (r: Option<String>) {
        lazy_attr_pop(&mut self.attr, attr)
    }
}

} // verus!
