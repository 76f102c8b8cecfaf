//! SVG container element (`<svg>`).
use vstd::prelude::*;

use crate::attr::{lazy_attr_get, lazy_attr_pop, lazy_attr_set, AccessAttr, Attr, AttrMap};
use crate::element::{
    convert_into_xml, element_to_string, lazy_children_view, lazy_map_attrs, lazy_xml,
    opt_attr, opt_str_get, opt_str_owned, push_map_attrs, push_opt_attr,
    ChildKind, Children, ElementNode, TagName, TryToString, WriteXml,
};
use crate::error::Error;
use crate::xml::{attr_escaped, bs_attrs, bytes_start_new, push_str_attribute};

verus! {

/// SVG container element (`<svg>`)
pub struct Svg {
    /// The `viewBox` attribute.
    pub view_box: Option<String>,
    /// The `width` attribute.
    pub width: Option<String>,
    /// The `height` attribute.
    pub height: Option<String>,
    /// The `x` attribute.
    pub x: Option<String>,
    /// The `y` attribute.
    pub y: Option<String>,
    /// The `preserveAspectRatio` attribute.
    pub preserve_aspect_ratio: Option<String>,
    /// Free-form attributes.
    pub attr: Option<AttrMap>,
    /// The child list; absent until first requested.
    pub children: Option<Vec<ChildKind>>,
}

impl Default for Svg {
    fn default() -> (r: Self)
        ensures
            r.view_box is None,
            r.width is None,
            r.height is None,
            r.x is None,
            r.y is None,
            r.preserve_aspect_ratio is None,
            r.attr is None,
            r.children is None,
    {
        Self {
            view_box: None,
            width: None,
            height: None,
            x: None,
            y: None,
            preserve_aspect_ratio: None,
            attr: None,
            children: None,
        }
    }
}

impl Svg {
    /// Create an SVG root element with nothing set.
    pub fn new() -> (r: Self)
        ensures
            r.view_box is None,
            r.width is None,
            r.height is None,
            r.x is None,
            r.y is None,
            r.preserve_aspect_ratio is None,
            r.attr is None,
            r.children is None,
    {
        Self::default()
    }

    /// Initialize SVG element with `viewBox` attribute.
    pub fn with_view_box(view_box: &str) -> (r: Self)
        ensures
            r.view_box matches Some(s) && s@ == view_box@,
            r.width is None,
            r.height is None,
            r.x is None,
            r.y is None,
            r.preserve_aspect_ratio is None,
            r.attr is None,
            r.children is None,
    {
        let mut svg = Self::new();
        svg.set_view_box(Some(view_box));
        svg
    }

    /// Get `viewBox`.
    pub fn view_box(&self) -> (r: Option<&str>)
        ensures
            match r {
                Some(s) => self.view_box matches Some(x) && s@ == x@,
                None => self.view_box is None,
            },
    {
        opt_str_get(&self.view_box)
    }

    /// Set `viewBox`.
    pub fn set_view_box(&mut self, value: Option<&str>)
        ensures
            *final(self) == (Svg { view_box: final(self).view_box, ..*old(self) }),
            match value {
                Some(v) => final(self).view_box matches Some(s) && s@ == v@,
                None => final(self).view_box is None,
            },
    {
        self.view_box = opt_str_owned(value);
    }

    /// Get `x`.
    pub fn x(&self) -> (r: Option<&str>)
        ensures
            match r {
                Some(s) => self.x matches Some(x) && s@ == x@,
                None => self.x is None,
            },
    {
        opt_str_get(&self.x)
    }

    /// Set `x`.
    pub fn set_x(&mut self, value: Option<&str>)
        ensures
            *final(self) == (Svg { x: final(self).x, ..*old(self) }),
            match value {
                Some(v) => final(self).x matches Some(s) && s@ == v@,
                None => final(self).x is None,
            },
    {
        self.x = opt_str_owned(value);
    }

    /// Get `y`.
    pub fn y(&self) -> (r: Option<&str>)
        ensures
            match r {
                Some(s) => self.y matches Some(x) && s@ == x@,
                None => self.y is None,
            },
    {
        opt_str_get(&self.y)
    }

    /// Set `y`.
    pub fn set_y(&mut self, value: Option<&str>)
        ensures
            *final(self) == (Svg { y: final(self).y, ..*old(self) }),
            match value {
                Some(v) => final(self).y matches Some(s) && s@ == v@,
                None => final(self).y is None,
            },
    {
        self.y = opt_str_owned(value);
    }

    /// Get `width`.
    pub fn width(&self) -> (r: Option<&str>)
        ensures
            match r {
                Some(s) => self.width matches Some(x) && s@ == x@,
                None => self.width is None,
            },
    {
        opt_str_get(&self.width)
    }

    /// Set `width`.
    pub fn set_width(&mut self, value: Option<&str>)
        ensures
            *final(self) == (Svg { width: final(self).width, ..*old(self) }),
            match value {
                Some(v) => final(self).width matches Some(s) && s@ == v@,
                None => final(self).width is None,
            },
    {
        self.width = opt_str_owned(value);
    }

    /// Get `height`.
    pub fn height(&self) -> (r: Option<&str>)
        ensures
            match r {
                Some(s) => self.height matches Some(x) && s@ == x@,
                None => self.height is None,
            },
    {
        opt_str_get(&self.height)
    }

    /// Set `height`.
    pub fn set_height(&mut self, value: Option<&str>)
        ensures
            *final(self) == (Svg { height: final(self).height, ..*old(self) }),
            match value {
                Some(v) => final(self).height matches Some(s) && s@ == v@,
                None => final(self).height is None,
            },
    {
        self.height = opt_str_owned(value);
    }

    /// Get `preserveAspectRatio`.
    pub fn preserve_aspect_ratio(&self) -> (r: Option<&str>)
        ensures
            match r {
                Some(s) => self.preserve_aspect_ratio matches Some(x) && s@ == x@,
                None => self.preserve_aspect_ratio is None,
            },
    {
        opt_str_get(&self.preserve_aspect_ratio)
    }

    /// Set `preserveAspectRatio`.
    pub fn set_preserve_aspect_ratio(&mut self, value: Option<&str>)
        ensures
            *final(self) == (Svg {
                preserve_aspect_ratio: final(self).preserve_aspect_ratio,
                ..*old(self)
            }),
            match value {
                Some(v) => final(self).preserve_aspect_ratio matches Some(s) && s@ == v@,
                None => final(self).preserve_aspect_ratio is None,
            },
    {
        self.preserve_aspect_ratio = opt_str_owned(value);
    }

    /// The attribute list of the start tag, in emission order: the named
    /// fields in declared order, the sparse store, and last the fixed SVG
    /// namespace declaration.
    pub open spec fn spec_attrs(&self) -> Seq<(Seq<char>, Seq<char>)> {
        opt_attr("viewBox"@, self.view_box) + opt_attr("x"@, self.x) + opt_attr("y"@, self.y)
            + opt_attr("width"@, self.width) + opt_attr("height"@, self.height) + opt_attr(
            "preserveAspectRatio"@,
            self.preserve_aspect_ratio,
        ) + lazy_map_attrs(self.attr) + seq![
            ("xmlns"@, attr_escaped("http://www.w3.org/2000/svg"@)),
        ]
    }
}

impl TagName for Svg {
    open spec fn spec_tag_name(&self) -> Seq<char> {
        "svg"@
    }

    fn tag_name(&self) -> (r: &str) {
        "svg"
    }
}

impl WriteXml for Svg {
    open spec fn spec_xml(&self) -> Seq<char> {
        lazy_xml("svg"@, self.spec_attrs(), lazy_children_view(self.children))
    }

    fn write_xml(&self, writer: &mut quick_xml::Writer<std::io::Cursor<Vec<u8>>>) -> (r: Result<
        (),
        Error,
    >) {
        let tag = self.tag_name();
        let mut bs = bytes_start_new(tag);
        push_opt_attr(&mut bs, "viewBox", &self.view_box);
        push_opt_attr(&mut bs, "x", &self.x);
        push_opt_attr(&mut bs, "y", &self.y);
        push_opt_attr(&mut bs, "width", &self.width);
        push_opt_attr(&mut bs, "height", &self.height);
        push_opt_attr(&mut bs, "preserveAspectRatio", &self.preserve_aspect_ratio);
        match push_map_attrs(&mut bs, &self.attr) {
            Ok(()) => {},
            Err(e) => {
                return Err(e);
            },
        }
        // Add XML namespace for SVG
        push_str_attribute(&mut bs, "xmlns", "http://www.w3.org/2000/svg");
        proof {
            assert(bs_attrs(bs) =~= self.spec_attrs());
        }
        convert_into_xml(writer, bs, self.children.as_ref(), tag)
    }
}

impl TryToString for Svg {
    fn try_to_string(&self) -> (r: Result<String, Error>) {
        element_to_string(self)
    }
}

impl Children for Svg {
    open spec fn children_field(&self) -> Option<Vec<ChildKind>> {
        self.children
    }

    open spec fn spec_supports_children(&self) -> bool {
        true
    }

    open spec fn with_children_list(&self, c: Option<Vec<ChildKind>>) -> Svg {
        Svg { children: c, ..*self }
    }

    fn children(&self) -> (r: Option<&Vec<ChildKind>>) {
        self.children.as_ref()
    }

    fn children_mut(&mut self) -> (r: Result<(), Error>) {
        if self.children.is_none() {
            self.children = Some(Vec::new());
        }
        Ok(())
    }

    fn push_child(&mut self, child: ChildKind) -> (r: Result<(), Error>) {
        match &mut self.children {
            Some(list) => {
                list.push(child);
            },
            None => {
                let mut list: Vec<ChildKind> = Vec::new();
                list.push(child);
                self.children = Some(list);
            },
        }
        Ok(())
    }
}

impl ElementNode for Svg {

}

impl AccessAttr for Svg {
    open spec fn attr_map_field(&self) -> Option<AttrMap> {
        self.attr
    }

    open spec fn with_attr_map(&self, m: Option<AttrMap>) -> Svg {
        Svg { attr: m, ..*self }
    }

    fn attr(&self, attr: &Attr) -> (r: Option<&str>) {
        lazy_attr_get(&self.attr, attr)
    }

    fn set_attr(&mut self, attr: Attr, value: &str) {
        lazy_attr_set(&mut self.attr, attr, value);
    }

    fn pop_attr(&mut self, attr: &Attr) -> (r: Option<String>) {
        lazy_attr_pop(&mut self.attr, attr)
    }
}

} // verus!
