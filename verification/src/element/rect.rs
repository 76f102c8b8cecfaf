//! Rectangle element (`<rect>`).
use vstd::prelude::*;

use crate::attr::{lazy_attr_get, lazy_attr_pop, lazy_attr_set, AccessAttr, Attr, AttrMap};
use crate::element::{
    convert_into_xml, element_to_string, lazy_children_view, lazy_map_attrs, lazy_xml, opt_attr,
    opt_number_attr, opt_str_get, opt_str_owned, push_map_attrs, push_opt_attr,
    push_opt_number_attr, ChildKind, Children, ElementNode, TagName, TryToString, WriteXml,
};
use crate::error::Error;
use crate::xml::{bs_attrs, bytes_start_new};
use crate::Number;

verus! {

/// Rectangle element (`<rect>`)
pub struct Rect {
    /// The `x` attribute.
    pub x: Option<String>,
    /// The `y` attribute.
    pub y: Option<String>,
    /// The `width` attribute.
    pub width: Option<String>,
    /// The `height` attribute.
    pub height: Option<String>,
    /// The `rx` attribute.
    pub rx: Option<String>,
    /// The `ry` attribute.
    pub ry: Option<String>,
    /// The `pathLength` attribute.
    pub path_length: Option<Number>,
    /// Free-form attributes.
    pub attr: Option<AttrMap>,
    /// The child list; absent until first requested.
    pub children: Option<Vec<ChildKind>>,
}

impl Default for Rect {
    fn default() -> (r: Self)
        ensures
            r.x is None,
            r.y is None,
            r.width is None,
            r.height is None,
            r.rx is None,
            r.ry is None,
            r.path_length is None,
            r.attr is None,
            r.children is None,
    {
        Self {
            x: None,
            y: None,
            width: None,
            height: None,
            rx: None,
            ry: None,
            path_length: None,
            attr: None,
            children: None,
        }
    }
}

impl Rect {
    /// Create an SVG rectangle with `x`, `y`, `width`, and `height`.
    pub fn new(x: &str, y: &str, width: &str, height: &str) -> (r: Self)
        ensures
            r.x matches Some(s) && s@ == x@,
            r.y matches Some(s) && s@ == y@,
            r.width matches Some(s) && s@ == width@,
            r.height matches Some(s) && s@ == height@,
            r.rx is None,
            r.ry is None,
            r.path_length is None,
            r.attr is None,
            r.children is None,
    {
        let mut rect = Self::default();
        rect.set_x(Some(x));
        rect.set_y(Some(y));
        rect.set_width(Some(width));
        rect.set_height(Some(height));
        rect
    }

    /// Get `x`.
    pub fn x(&self) -> (r: Option<&str>)
        ensures
            match r {
                Some(s) => self.x matches Some(x) && s@ == x@,
                None => self.x is None,
            },
    {
        opt_str_get(&self.x)
    }

    /// Set `x`.
    pub fn set_x(&mut self, value: Option<&str>)
        ensures
            *final(self) == (Rect { x: final(self).x, ..*old(self) }),
            match value {
                Some(v) => final(self).x matches Some(s) && s@ == v@,
                None => final(self).x is None,
            },
    {
        self.x = opt_str_owned(value);
    }

    /// Get `y`.
    pub fn y(&self) -> (r: Option<&str>)
        ensures
            match r {
                Some(s) => self.y matches Some(x) && s@ == x@,
                None => self.y is None,
            },
    {
        opt_str_get(&self.y)
    }

    /// Set `y`.
    pub fn set_y(&mut self, value: Option<&str>)
        ensures
            *final(self) == (Rect { y: final(self).y, ..*old(self) }),
            match value {
                Some(v) => final(self).y matches Some(s) && s@ == v@,
                None => final(self).y is None,
            },
    {
        self.y = opt_str_owned(value);
    }

    /// Get `width`.
    pub fn width(&self) -> (r: Option<&str>)
        ensures
            match r {
                Some(s) => self.width matches Some(x) && s@ == x@,
                None => self.width is None,
            },
    {
        opt_str_get(&self.width)
    }

    /// Set `width`.
    pub fn set_width(&mut self, value: Option<&str>)
        ensures
            *final(self) == (Rect { width: final(self).width, ..*old(self) }),
            match value {
                Some(v) => final(self).width matches Some(s) && s@ == v@,
                None => final(self).width is None,
            },
    {
        self.width = opt_str_owned(value);
    }

    /// Get `height`.
    pub fn height(&self) -> (r: Option<&str>)
        ensures
            match r {
                Some(s) => self.height matches Some(x) && s@ == x@,
                None => self.height is None,
            },
    {
        opt_str_get(&self.height)
    }

    /// Set `height`.
    pub fn set_height(&mut self, value: Option<&str>)
        ensures
            *final(self) == (Rect { height: final(self).height, ..*old(self) }),
            match value {
                Some(v) => final(self).height matches Some(s) && s@ == v@,
                None => final(self).height is None,
            },
    {
        self.height = opt_str_owned(value);
    }

    /// Get `rx`.
    pub fn rx(&self) -> (r: Option<&str>)
        ensures
            match r {
                Some(s) => self.rx matches Some(x) && s@ == x@,
                None => self.rx is None,
            },
    {
        opt_str_get(&self.rx)
    }

    /// Set `rx`.
    pub fn set_rx(&mut self, value: Option<&str>)
        ensures
            *final(self) == (Rect { rx: final(self).rx, ..*old(self) }),
            match value {
                Some(v) => final(self).rx matches Some(s) && s@ == v@,
                None => final(self).rx is None,
            },
    {
        self.rx = opt_str_owned(value);
    }

    /// Get `ry`.
    pub fn ry(&self) -> (r: Option<&str>)
        ensures
            match r {
                Some(s) => self.ry matches Some(x) && s@ == x@,
                None => self.ry is None,
            },
    {
        opt_str_get(&self.ry)
    }

    /// Set `ry`.
    pub fn set_ry(&mut self, value: Option<&str>)
        ensures
            *final(self) == (Rect { ry: final(self).ry, ..*old(self) }),
            match value {
                Some(v) => final(self).ry matches Some(s) && s@ == v@,
                None => final(self).ry is None,
            },
    {
        self.ry = opt_str_owned(value);
    }

    /// Get `pathLength`.
    pub fn path_length(&self) -> (r: &Option<Number>)
        ensures
            r == &self.path_length,
    {
        &self.path_length
    }

    /// Set `pathLength`.
    pub fn set_path_length(&mut self, value: Option<Number>)
        ensures
            *final(self) == (Rect { path_length: final(self).path_length, ..*old(self) }),
            final(self).path_length == value,
    {
        self.path_length = value;
    }

    /// The attribute list of the start tag, in emission order.
    pub open spec fn spec_attrs(&self) -> Seq<(Seq<char>, Seq<char>)> {
        opt_attr("x"@, self.x) + opt_attr("y"@, self.y) + opt_attr("width"@, self.width)
            + opt_attr("height"@, self.height) + opt_attr("rx"@, self.rx) + opt_attr(
            "ry"@,
            self.ry,
        ) + opt_number_attr("pathLength"@, self.path_length) + lazy_map_attrs(self.attr)
    }
}

impl TagName for Rect {
    open spec fn spec_tag_name(&self) -> Seq<char> {
        "rect"@
    }

    fn tag_name(&self) -> (r: &str) {
        "rect"
    }
}

impl WriteXml for Rect {
    open spec fn spec_xml(&self) -> Seq<char> {
        lazy_xml("rect"@, self.spec_attrs(), lazy_children_view(self.children))
    }

    fn write_xml(&self, writer: &mut quick_xml::Writer<std::io::Cursor<Vec<u8>>>) -> (r: Result<
        (),
        Error,
    >) {
        let tag = self.tag_name();
        let mut bs = bytes_start_new(tag);
        push_opt_attr(&mut bs, "x", &self.x);
        push_opt_attr(&mut bs, "y", &self.y);
        push_opt_attr(&mut bs, "width", &self.width);
        push_opt_attr(&mut bs, "height", &self.height);
        push_opt_attr(&mut bs, "rx", &self.rx);
        push_opt_attr(&mut bs, "ry", &self.ry);
        push_opt_number_attr(&mut bs, "pathLength", &self.path_length);
        match push_map_attrs(&mut bs, &self.attr) {
            Ok(()) => {},
            Err(e) => {
                return Err(e);
            },
        }
        proof {
            assert(bs_attrs(bs) =~= self.spec_attrs());
        }
        convert_into_xml(writer, bs, self.children.as_ref(), tag)
    }
}

impl TryToString for Rect {
    fn try_to_string(&self) -> (r: Result<String, Error>) {
        element_to_string(self)
    }
}

impl Children for Rect {
    open spec fn children_field(&self) -> Option<Vec<ChildKind>> {
        self.children
    }

    open spec fn spec_supports_children(&self) -> bool {
        true
    }

    open spec fn with_children_list(&self, c: Option<Vec<ChildKind>>) -> Rect {
        Rect { children: c, ..*self }
    }

    fn children(&self) -> (r: Option<&Vec<ChildKind>>) {
        self.children.as_ref()
    }

    fn children_mut(&mut self) -> (r: Result<(), Error>) {
        if self.children.is_none() {
            self.children = Some(Vec::new());
        }
        Ok(())
    }

    fn push_child(&mut self, child: ChildKind) -> (r: Result<(), Error>) {
        match &mut self.children {
            Some(list) => {
                list.push(child);
            },
            None => {
                let mut list: Vec<ChildKind> = Vec::new();
                list.push(child);
                self.children = Some(list);
            },
        }
        Ok(())
    }
}

impl ElementNode for Rect {

}

impl AccessAttr for Rect {
    open spec fn attr_map_field(&self) -> Option<AttrMap> {
        self.attr
    }

    open spec fn with_attr_map(&self, m: Option<AttrMap>) -> Rect {
        Rect { attr: m, ..*self }
    }

    fn attr(&self, attr: &Attr) -> (r: Option<&str>) {
        lazy_attr_get(&self.attr, attr)
    }

    fn set_attr(&mut self, attr: Attr, value: &str) {
        lazy_attr_set(&mut self.attr, attr, value);
    }

    fn pop_attr(&mut self, attr: &Attr) -> (r: Option<String>) {
        lazy_attr_pop(&mut self.attr, attr)
    }
}

} // verus!
