//! Circle element (`<circle>`).
use vstd::prelude::*;

use crate::attr::{lazy_attr_get, lazy_attr_pop, lazy_attr_set, AccessAttr, Attr, AttrMap};
use crate::element::{
    convert_into_xml, element_to_string, lazy_children_view, lazy_map_attrs, lazy_xml, opt_attr,
    opt_str_get, opt_str_owned, push_map_attrs, push_opt_attr, ChildKind, Children, ElementNode,
    TagName, TryToString, WriteXml,
};
use crate::error::Error;
use crate::xml::{bs_attrs, bytes_start_new};

verus! {

/// Circle element (`<circle>`)
pub struct Circle {
    /// The `cx` attribute.
    pub cx: Option<String>,
    /// The `cy` attribute.
    pub cy: Option<String>,
    /// The `r` attribute.
    pub radius: Option<String>,
    /// Free-form attributes.
    pub attr: Option<AttrMap>,
    /// The child list; absent until first requested.
    pub children: Option<Vec<ChildKind>>,
}

impl Default for Circle {
    fn default() -> (r: Self)
        ensures
            r.cx is None,
            r.cy is None,
            r.radius is None,
            r.attr is None,
            r.children is None,
    {
        Self { cx: None, cy: None, radius: None, attr: None, children: None }
    }
}

impl Circle {
    /// Create a new circle
    ///
    /// ## Parameters
    ///
    /// - center: For `cx` and `cy` attributes
    /// - radius: For `r` attributes
    pub fn new(center: (&str, &str), radius: &str) -> (r: Self)
        ensures
            r.cx matches Some(s) && s@ == center.0@,
            r.cy matches Some(s) && s@ == center.1@,
            r.radius matches Some(s) && s@ == radius@,
            r.attr is None,
            r.children is None,
    {
        let mut c = Circle::default();
        c.set_cx(Some(center.0));
        c.set_cy(Some(center.1));
        c.set_radius(Some(radius));
        c
    }

    /// Get `cx`.
    pub fn cx(&self) -> (r: Option<&str>)
        ensures
            match r {
                Some(s) => self.cx matches Some(x) && s@ == x@,
                None => self.cx is None,
            },
    {
        opt_str_get(&self.cx)
    }

    /// Set `cx`.
    pub fn set_cx(&mut self, value: Option<&str>)
        ensures
            *final(self) == (Circle { cx: final(self).cx, ..*old(self) }),
            match value {
                Some(v) => final(self).cx matches Some(s) && s@ == v@,
                None => final(self).cx is None,
            },
    {
        self.cx = opt_str_owned(value);
    }

    /// Get `cy`.
    pub fn cy(&self) -> (r: Option<&str>)
        ensures
            match r {
                Some(s) => self.cy matches Some(x) && s@ == x@,
                None => self.cy is None,
            },
    {
        opt_str_get(&self.cy)
    }

    /// Set `cy`.
    pub fn set_cy(&mut self, value: Option<&str>)
        ensures
            *final(self) == (Circle { cy: final(self).cy, ..*old(self) }),
            match value {
                Some(v) => final(self).cy matches Some(s) && s@ == v@,
                None => final(self).cy is None,
            },
    {
        self.cy = opt_str_owned(value);
    }

    /// Get `r`.
    pub fn radius(&self) -> (r: Option<&str>)
        ensures
            match r {
                Some(s) => self.radius matches Some(x) && s@ == x@,
                None => self.radius is None,
            },
    {
        opt_str_get(&self.radius)
    }

    /// Set `r`.
    pub fn set_radius(&mut self, value: Option<&str>)
        ensures
            *final(self) == (Circle { radius: final(self).radius, ..*old(self) }),
            match value {
                Some(v) => final(self).radius matches Some(s) && s@ == v@,
                None => final(self).radius is None,
            },
    {
        self.radius = opt_str_owned(value);
    }

    /// The attribute list of the start tag, in emission order.
    pub open spec fn spec_attrs(&self) -> Seq<(Seq<char>, Seq<char>)> {
        opt_attr("cx"@, self.cx) + opt_attr("cy"@, self.cy) + opt_attr("r"@, self.radius)
            + lazy_map_attrs(self.attr)
    }
}

impl TagName for Circle {
    open spec fn spec_tag_name(&self) -> Seq<char> {
        "circle"@
    }

    fn tag_name(&self) -> (r: &str) {
        "circle"
    }
}

impl WriteXml for Circle {
    open spec fn spec_xml(&self) -> Seq<char> {
        lazy_xml("circle"@, self.spec_attrs(), lazy_children_view(self.children))
    }

    fn write_xml(&self, writer: &mut quick_xml::Writer<std::io::Cursor<Vec<u8>>>) -> (r: Result<
        (),
        Error,
    >) {
        let tag = self.tag_name();
        let mut bs = bytes_start_new(tag);
        push_opt_attr(&mut bs, "cx", &self.cx);
        push_opt_attr(&mut bs, "cy", &self.cy);
        push_opt_attr(&mut bs, "r", &self.radius);
        match push_map_attrs(&mut bs, &self.attr) {
            Ok(()) => {},
            Err(e) => {
                return Err(e);
            },
        }
        proof {
            assert(bs_attrs(bs) =~= self.spec_attrs());
        }
        convert_into_xml(writer, bs, self.children.as_ref(), tag)
    }
}

impl TryToString for Circle {
    fn try_to_string(&self) -> (r: Result<String, Error>) {
        element_to_string(self)
    }
}

impl Children for Circle {
    open spec fn children_field(&self) -> Option<Vec<ChildKind>> {
        self.children
    }

    open spec fn spec_supports_children(&self) -> bool {
        true
    }

    open spec fn with_children_list(&self, c: Option<Vec<ChildKind>>) -> Circle {
        Circle { children: c, ..*self }
    }

    fn children(&self) -> (r: Option<&Vec<ChildKind>>) {
        self.children.as_ref()
    }

    fn children_mut(&mut self) -> (r: Result<(), Error>) {
        if self.children.is_none() {
            self.children = Some(Vec::new());
        }
        Ok(())
    }

    fn push_child(&mut self, child: ChildKind) -> (r: Result<(), Error>) {
        match &mut self.children {
            Some(list) => {
                list.push(child);
            },
            None => {
                let mut list: Vec<ChildKind> = Vec::new();
                list.push(child);
                self.children = Some(list);
            },
        }
        Ok(())
    }
}

impl ElementNode for Circle {

}

impl AccessAttr for Circle {
    open spec fn attr_map_field(&self) -> Option<AttrMap> {
        self.attr
    }

    open spec fn with_attr_map(&self, m: Option<AttrMap>) -> Circle {
        Circle { attr: m, ..*self }
    }

    fn attr(&self, attr: &Attr) -> (r: Option<&str>) {
        lazy_attr_get(&self.attr, attr)
    }

    fn set_attr(&mut self, attr: Attr, value: &str) {
        lazy_attr_set(&mut self.attr, attr, value);
    }

    fn pop_attr(&mut self, attr: &Attr) -> (r: Option<String>) {
        lazy_attr_pop(&mut self.attr, attr)
    }
}

} // verus!
