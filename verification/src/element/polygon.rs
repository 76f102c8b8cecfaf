//! Polygon element (`<polygon>`).
use vstd::prelude::*;

use crate::attr::{lazy_attr_get, lazy_attr_pop, lazy_attr_set, AccessAttr, Attr, AttrMap};
use crate::element::{
    convert_into_xml, element_to_string, lazy_children_view, lazy_map_attrs, lazy_xml, opt_attr,
    opt_number_attr, opt_str_get, opt_str_owned, push_map_attrs, push_opt_attr,
    push_opt_number_attr, ChildKind, Children, ElementNode, TagName, TryToString, WriteXml,
};
use crate::error::Error;
use crate::xml::{bs_attrs, bytes_start_new};
use crate::Number;

verus! {

/// Polygon element (`<polygon>`)
pub struct Polygon {
    /// The `points` attribute.
    pub points: Option<String>,
    /// The `pathLength` attribute.
    pub path_length: Option<Number>,
    /// Free-form attributes.
    pub attr: Option<AttrMap>,
    /// The child list; absent until first requested.
    pub children: Option<Vec<ChildKind>>,
}

impl Default for Polygon {
    fn default() -> (r: Self)
        ensures
            r.points is None,
            r.path_length is None,
            r.attr is None,
            r.children is None,
    {
        Self { points: None, path_length: None, attr: None, children: None }
    }
}

impl Polygon {
    /// Create a polygon from its `points` attribute value.
    pub fn new(points: &str) -> (r: Self)
        ensures
            r.points matches Some(s) && s@ == points@,
            r.path_length is None,
            r.attr is None,
            r.children is None,
    {
        let mut p = Self::default();
        p.set_points(Some(points));
        p
    }

    /// Get `points`.
    pub fn points(&self) -> (r: Option<&str>)
        ensures
            match r {
                Some(s) => self.points matches Some(x) && s@ == x@,
                None => self.points is None,
            },
    {
        opt_str_get(&self.points)
    }

    /// Set `points`.
    pub fn set_points(&mut self, value: Option<&str>)
        ensures
            *final(self) == (Polygon { points: final(self).points, ..*old(self) }),
            match value {
                Some(v) => final(self).points matches Some(s) && s@ == v@,
                None => final(self).points is None,
            },
    {
        self.points = opt_str_owned(value);
    }

    /// Get `pathLength`.
    pub fn path_length(&self) -> (r: &Option<Number>)
        ensures
            r == &self.path_length,
    {
        &self.path_length
    }

    /// Set `pathLength`.
    pub fn set_path_length(&mut self, value: Option<Number>)
        ensures
            *final(self) == (Polygon { path_length: final(self).path_length, ..*old(self) }),
            final(self).path_length == value,
    {
        self.path_length = value;
    }

    /// The attribute list of the start tag, in emission order.
    pub open spec fn spec_attrs(&self) -> Seq<(Seq<char>, Seq<char>)> {
        opt_attr("points"@, self.points) + opt_number_attr("pathLength"@, self.path_length)
            + lazy_map_attrs(self.attr)
    }
}

impl TagName for Polygon {
    open spec fn spec_tag_name(&self) -> Seq<char> {
        "polygon"@
    }

    fn tag_name(&self) -> (r: &str) {
        "polygon"
    }
}

impl WriteXml for Polygon {
    open spec fn spec_xml(&self) -> Seq<char> {
        lazy_xml("polygon"@, self.spec_attrs(), lazy_children_view(self.children))
    }

    fn write_xml(&self, writer: &mut quick_xml::Writer<std::io::Cursor<Vec<u8>>>) -> (r: Result<
        (),
        Error,
    >) {
        let tag = self.tag_name();
        let mut bs = bytes_start_new(tag);
        push_opt_attr(&mut bs, "points", &self.points);
        push_opt_number_attr(&mut bs, "pathLength", &self.path_length);
        match push_map_attrs(&mut bs, &self.attr) {
            Ok(()) => {},
            Err(e) => {
                return Err(e);
            },
        }
        proof {
            assert(bs_attrs(bs) =~= self.spec_attrs());
        }
        convert_into_xml(writer, bs, self.children.as_ref(), tag)
    }
}

impl TryToString for Polygon {
    fn try_to_string(&self) -> (r: Result<String, Error>) {
        element_to_string(self)
    }
}

impl Children for Polygon {
    open spec fn children_field(&self) -> Option<Vec<ChildKind>> {
        self.children
    }

    open spec fn spec_supports_children(&self) -> bool {
        true
    }

    open spec fn with_children_list(&self, c: Option<Vec<ChildKind>>) -> Polygon {
        Polygon { children: c, ..*self }
    }

    fn children(&self) -> (r: Option<&Vec<ChildKind>>) {
        self.children.as_ref()
    }

    fn children_mut(&mut self) -> (r: Result<(), Error>) {
        if self.children.is_none() {
            self.children = Some(Vec::new());
        }
        Ok(())
    }

    fn push_child(&mut self, child: ChildKind) -> (r: Result<(), Error>) {
        match &mut self.children {
            Some(list) => {
                list.push(child);
            },
            None => {
                let mut list: Vec<ChildKind> = Vec::new();
                list.push(child);
                self.children = Some(list);
            },
        }
        Ok(())
    }
}

impl ElementNode for Polygon {

}

impl AccessAttr for Polygon {
    open spec fn attr_map_field(&self) -> Option<AttrMap> {
        self.attr
    }

    open spec fn with_attr_map(&self, m: Option<AttrMap>) -> Polygon {
        Polygon { attr: m, ..*self }
    }

    fn attr(&self, attr: &Attr) -> (r: Option<&str>) {
        lazy_attr_get(&self.attr, attr)
    }

    fn set_attr(&mut self, attr: Attr, value: &str) {
        lazy_attr_set(&mut self.attr, attr, value);
    }

    fn pop_attr(&mut self, attr: &Attr) -> (r: Option<String>) {
        lazy_attr_pop(&mut self.attr, attr)
    }
}

} // verus!
