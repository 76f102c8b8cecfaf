//! SVG group element (`<g>`).
use vstd::prelude::*;

use crate::attr::{lazy_attr_get, lazy_attr_pop, lazy_attr_set, AccessAttr, Attr, AttrMap};
use crate::element::{
    convert_into_xml, element_to_string, lazy_children_view, lazy_map_attrs, lazy_xml,
    push_map_attrs, ChildKind, Children, ElementNode, TagName, TryToString, WriteXml,
};
use crate::error::Error;
use crate::xml::{bs_attrs, bytes_start_new};

verus! {

/// SVG group element (`<g>`)
pub struct Group {
    /// Free-form attributes.
    pub attr: Option<AttrMap>,
    /// The child list; absent until first requested.
    pub children: Option<Vec<ChildKind>>,
}

impl Default for Group {
    fn default() -> (r: Self)
        ensures
            r.attr is None,
            r.children is None,
    {
        Self { attr: None, children: None }
    }
}

impl Group {
    /// Create a group with nothing set.
    pub fn new() -> (r: Self)
        ensures
            r.attr is None,
            r.children is None,
    {
        Self::default()
    }

    /// Create a group that owns the given children.
    pub fn with_children(children: Vec<ChildKind>) -> (r: Self)
        ensures
            r.attr is None,
            r.children == Some(children),
    {
        Group { attr: None, children: Some(children) }
    }

    /// The attribute list of the start tag: only the sparse store.
    pub open spec fn spec_attrs(&self) -> Seq<(Seq<char>, Seq<char>)> {
        lazy_map_attrs(self.attr)
    }
}

impl TagName for Group {
    open spec fn spec_tag_name(&self) -> Seq<char> {
        "g"@
    }

    fn tag_name(&self) -> (r: &str) {
        "g"
    }
}

impl WriteXml for Group {
    open spec fn spec_xml(&self) -> Seq<char> {
        lazy_xml("g"@, self.spec_attrs(), lazy_children_view(self.children))
    }

    fn write_xml(&self, writer: &mut quick_xml::Writer<std::io::Cursor<Vec<u8>>>) -> (r: Result<
        (),
        Error,
    >) {
        let tag = self.tag_name();
        let mut bs = bytes_start_new(tag);
        match push_map_attrs(&mut bs, &self.attr) {
            Ok(()) => {},
            Err(e) => {
                return Err(e);
            },
        }
        proof {
            assert(bs_attrs(bs) =~= self.spec_attrs());
        }
        convert_into_xml(writer, bs, self.children.as_ref(), tag)
    }
}

impl TryToString for Group {
    fn try_to_string(&self) -> (r: Result<String, Error>) {
        element_to_string(self)
    }
}

impl Children for Group {
    open spec fn children_field(&self) -> Option<Vec<ChildKind>> {
        self.children
    }

    open spec fn spec_supports_children(&self) -> bool {
        true
    }

    open spec fn with_children_list(&self, c: Option<Vec<ChildKind>>) -> Group {
        Group { children: c, ..*self }
    }

    fn children(&self) -> (r: Option<&Vec<ChildKind>>) {
        self.children.as_ref()
    }

    fn children_mut(&mut self) -> (r: Result<(), Error>) {
        if self.children.is_none() {
            self.children = Some(Vec::new());
        }
        Ok(())
    }

    fn push_child(&mut self, child: ChildKind) -> (r: Result<(), Error>) {
        match &mut self.children {
            Some(list) => {
                list.push(child);
            },
            None => {
                let mut list: Vec<ChildKind> = Vec::new();
                list.push(child);
                self.children = Some(list);
            },
        }
        Ok(())
    }
}

impl ElementNode for Group {

}

impl AccessAttr for Group {
    open spec fn attr_map_field(&self) -> Option<AttrMap> {
        self.attr
    }

    open spec fn with_attr_map(&self, m: Option<AttrMap>) -> Group {
        Group { attr: m, ..*self }
    }

    fn attr(&self, attr: &Attr) -> (r: Option<&str>) {
        lazy_attr_get(&self.attr, attr)
    }

    fn set_attr(&mut self, attr: Attr, value: &str) {
        lazy_attr_set(&mut self.attr, attr, value);
    }

    fn pop_attr(&mut self, attr: &Attr) -> (r: Option<String>) {
        lazy_attr_pop(&mut self.attr, attr)
    }
}

} // verus!
