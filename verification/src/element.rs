//! The element-tree model and the serialization algorithm.
//!
//! Each element owns named optional fields, an optional sparse attribute
//! store, and — for container elements — an optional ordered child list.
//! One algorithm renders every element: write the named fields first, then
//! the sparse store, then either a self-closing tag (child list absent) or
//! a paired start/end tag around the children (child list present, even
//! when empty). That presence-versus-absence fork, not the list's length,
//! is the single behavioral branch of the serializer.
use vstd::prelude::*;
use vstd::string::StringExecFns;

use crate::attr::{attrs_of_entries, AttrMap};
use crate::error::Error;
use crate::xml::{
    attr_escaped, attrs_text, bs_attrs, bs_name, empty_tag_text, end_tag_text, new_writer,
    push_str_attribute, start_tag_text, text_escaped, write_event_empty, write_event_end,
    write_event_start, write_event_text, writer_out, writer_to_string, writer_wf,
};
use crate::Number;

pub use self::path::Path;
pub use self::rect::Rect;
pub use self::svg::Svg;

pub mod anchor;
pub mod circle;
pub mod group;
pub mod path;
pub mod polygon;
pub mod rect;
pub mod svg;
pub mod text;

verus! {

/// Instance having a tag name.
pub trait TagName {
    /// The tag name as a sequence of characters.
    spec fn spec_tag_name(&self) -> Seq<char>;

    /// Access the tag name of current instance.
    fn tag_name(&self) -> (r: &str)
        ensures
            r@ == self.spec_tag_name(),
    ;
}

/// Child kind enumeration
pub enum ChildKind {
    /// Raw string
    String(String),
    /// Other elements
    Element(ElementKind),
}

/// Element kind enumeration: the elements a child list can nest.
pub enum ElementKind {
    Path(Path),
}

/// The markup fragment a nested element denotes. The elements a child list
/// can nest are pure leaves, so their fragment is a single self-closing tag.
pub open spec fn element_xml(e: ElementKind) -> Seq<char> {
    match e {
        ElementKind::Path(p) => empty_tag_text("path"@, p.spec_attrs()),
    }
}

/// The markup fragment a single child denotes: text children are escaped by
/// the writer, element children serialize recursively.
pub open spec fn child_xml(c: ChildKind) -> Seq<char> {
    match c {
        ChildKind::String(s) => text_escaped(s@),
        ChildKind::Element(e) => element_xml(e),
    }
}

/// The markup fragment of a child list, in document order.
pub open spec fn children_xml(cs: Seq<ChildKind>) -> Seq<char>
    decreases cs.len(),
{
    if cs.len() == 0 {
        Seq::empty()
    } else {
        children_xml(cs.drop_last()) + child_xml(cs.last())
    }
}

/// The model of a lazily-allocated child list: absent means "never
/// requested", which is what makes an element self-close.
pub open spec fn lazy_children_view(c: Option<Vec<ChildKind>>) -> Option<Seq<ChildKind>> {
    match c {
        None => None,
        Some(v) => Some(v@),
    }
}

/// The children a list holds once materialized; an absent list holds none.
pub open spec fn materialized_children(c: Option<Vec<ChildKind>>) -> Seq<ChildKind> {
    match c {
        None => Seq::empty(),
        Some(v) => v@,
    }
}

/// The markup fragment of one element: a self-closing tag while the child
/// list is absent, a paired start/end tag around the children once the list
/// exists — even while it is empty.
pub open spec fn lazy_xml(
    tag: Seq<char>,
    attrs: Seq<(Seq<char>, Seq<char>)>,
    children: Option<Seq<ChildKind>>,
) -> Seq<char> {
    match children {
        None => empty_tag_text(tag, attrs),
        Some(cs) => start_tag_text(tag, attrs) + children_xml(cs) + end_tag_text(tag),
    }
}

/// Law: materializing a child list is visible in the output. For any tag and
/// attribute list, the self-closing form (list absent) and the open/close
/// form around an empty list are different fragments.
pub proof fn lemma_child_list_presence_visible(tag: Seq<char>, attrs: Seq<(Seq<char>, Seq<char>)>)
    ensures
        lazy_xml(tag, attrs, None) != lazy_xml(tag, attrs, Some(Seq::empty())),
{
    let closed_form = lazy_xml(tag, attrs, None);
    let open_form = lazy_xml(tag, attrs, Some(Seq::empty()));
    reveal_strlit("<");
    reveal_strlit(">");
    reveal_strlit("</");
    reveal_strlit("/>");
    assert(children_xml(Seq::empty()) == Seq::<char>::empty());
    assert(closed_form.len() == 1 + tag.len() + attrs_text(attrs).len() + 2);
    assert(open_form.len() == 1 + tag.len() + attrs_text(attrs).len() + 1 + 2 + tag.len() + 1);
}

/// The attribute a named optional string field contributes: nothing while
/// the field is absent, one (name, escaped value) pair while it is set.
pub open spec fn opt_attr(name: Seq<char>, v: Option<String>) -> Seq<(Seq<char>, Seq<char>)> {
    match v {
        None => Seq::empty(),
        Some(s) => seq![(name, attr_escaped(s@))],
    }
}

/// The attribute a named optional numeric field contributes.
pub open spec fn opt_number_attr(name: Seq<char>, v: Option<Number>) -> Seq<
    (Seq<char>, Seq<char>),
> {
    match v {
        None => Seq::empty(),
        Some(n) => seq![(name, attr_escaped(n@))],
    }
}

/// The attributes a lazily-allocated sparse store contributes, in stored
/// order; an untouched store contributes nothing.
pub open spec fn lazy_map_attrs(m: Option<AttrMap>) -> Seq<(Seq<char>, Seq<char>)> {
    match m {
        None => Seq::empty(),
        Some(x) => attrs_of_entries(x@),
    }
}

/// Append the attribute of a named optional string field to a start tag.
pub(crate) fn push_opt_attr(
    bs: &mut quick_xml::events::BytesStart<'static>,
    name: &str,
    v: &Option<String>,
)
    ensures
        bs_name(*final(bs)) == bs_name(*old(bs)),
        bs_attrs(*final(bs)) == bs_attrs(*old(bs)) + opt_attr(name@, *v),
{
    match v {
        Some(s) => {
            push_str_attribute(bs, name, s.as_str());
            proof {
                assert(bs_attrs(*bs) =~= bs_attrs(*old(bs)) + opt_attr(name@, *v));
            }
        },
        None => {
            proof {
                assert(bs_attrs(*bs) =~= bs_attrs(*old(bs)) + opt_attr(name@, *v));
            }
        },
    }
}

/// Append the attribute of a named optional numeric field to a start tag.
pub(crate) fn push_opt_number_attr(
    bs: &mut quick_xml::events::BytesStart<'static>,
    name: &str,
    v: &Option<Number>,
)
    ensures
        bs_name(*final(bs)) == bs_name(*old(bs)),
        bs_attrs(*final(bs)) == bs_attrs(*old(bs)) + opt_number_attr(name@, *v),
{
    match v {
        Some(n) => {
            push_str_attribute(bs, name, n.as_str());
            proof {
                assert(bs_attrs(*bs) =~= bs_attrs(*old(bs)) + opt_number_attr(name@, *v));
            }
        },
        None => {
            proof {
                assert(bs_attrs(*bs) =~= bs_attrs(*old(bs)) + opt_number_attr(name@, *v));
            }
        },
    }
}

/// Append every attribute of a lazily-allocated sparse store to a start tag.
pub(crate) fn push_map_attrs(
    bs: &mut quick_xml::events::BytesStart<'static>,
    m: &Option<AttrMap>,
) -> (r: Result<(), Error>)
    ensures
        r is Ok,
        bs_name(*final(bs)) == bs_name(*old(bs)),
        bs_attrs(*final(bs)) == bs_attrs(*old(bs)) + lazy_map_attrs(*m),
{
    match m {
        Some(map) => {
            let r = crate::attr::WriteInAttr::write_in(map, bs);
            proof {
                assert(bs_attrs(*bs) =~= bs_attrs(*old(bs)) + lazy_map_attrs(*m));
            }
            r
        },
        None => {
            proof {
                assert(bs_attrs(*bs) =~= bs_attrs(*old(bs)) + lazy_map_attrs(*m));
            }
            Ok(())
        },
    }
}

/// Law: markup minimality for named fields. An absent named field — and an
/// untouched sparse store — contribute no attribute at all to the start tag.
pub proof fn lemma_absent_field_no_attribute(name: Seq<char>)
    ensures
        opt_attr(name, None) == Seq::<(Seq<char>, Seq<char>)>::empty(),
        opt_number_attr(name, None) == Seq::<(Seq<char>, Seq<char>)>::empty(),
        lazy_map_attrs(None) == Seq::<(Seq<char>, Seq<char>)>::empty(),
{
}

/// Read a named optional string field back as a string slice.
pub(crate) fn opt_str_get<'a>(v: &'a Option<String>) -> (r: Option<&'a str>)
    ensures
        match r {
            Some(s) => v matches Some(x) && s@ == x@,
            None => v is None,
        },
{
    match v {
        Some(x) => Some(x.as_str()),
        None => None,
    }
}

/// Turn an optional string slice into the owned field value.
pub(crate) fn opt_str_owned(value: Option<&str>) -> (r: Option<String>)
    ensures
        match value {
            Some(s) => r matches Some(x) && x@ == s@,
            None => r is None,
        },
{
    match value {
        Some(s) => Some(String::from_str(s)),
        None => None,
    }
}

/// Instance having child nodes.
pub trait Children: Sized {
    /// The child-list field itself.
    spec fn children_field(&self) -> Option<Vec<ChildKind>>;

    /// Whether the element supports children at all.
    spec fn spec_supports_children(&self) -> bool;

    /// The same element with its child list replaced; everything else equal.
    spec fn with_children_list(&self, c: Option<Vec<ChildKind>>) -> Self;

    /// Access read-only reference child list.
    fn children(&self) -> (r: Option<&Vec<ChildKind>>)
        ensures
            match r {
                Some(v) => self.children_field() == Some(*v),
                None => self.children_field() is None,
            },
    ;

    /// Materialize the child list. After a successful call the element owns
    /// a list — empty on first materialization — and from then on it
    /// serializes with a paired start/end tag. Pure-leaf elements refuse.
    fn children_mut(&mut self) -> (r: Result<(), Error>)
        ensures
            r is Ok <==> old(self).spec_supports_children(),
            *final(self) == old(self).with_children_list(final(self).children_field()),
            r is Ok ==> lazy_children_view(final(self).children_field()) == Some(
                materialized_children(old(self).children_field()),
            ),
            r matches Err(e) ==> e is NoChildrenExpected && *final(self) == *old(self),
    ;

    /// Append one child, materializing the list first. Pure-leaf elements
    /// refuse.
    fn push_child(&mut self, child: ChildKind) -> (r: Result<(), Error>)
        ensures
            r is Ok <==> old(self).spec_supports_children(),
            *final(self) == old(self).with_children_list(final(self).children_field()),
            r is Ok ==> lazy_children_view(final(self).children_field()) == Some(
                materialized_children(old(self).children_field()).push(child),
            ),
            r matches Err(e) ==> e is NoChildrenExpected && *final(self) == *old(self),
    ;
}

/// Instance can be written as XML through the external writer.
pub trait WriteXml {
    /// The markup fragment the instance denotes.
    spec fn spec_xml(&self) -> Seq<char>;

    /// Convert current instance into XML through the external writer. The
    /// writer must be plainly configured (as [`new_writer`] makes it); the
    /// call then succeeds and appends exactly the instance's fragment to
    /// the output.
    fn write_xml(&self, writer: &mut quick_xml::Writer<std::io::Cursor<Vec<u8>>>) -> (r: Result<
        (),
        Error,
    >)
        requires
            writer_wf(*old(writer)),
        ensures
            r is Ok,
            writer_wf(*final(writer)),
            writer_out(*final(writer)) == writer_out(*old(writer)) + self.spec_xml(),
    ;
}

/// Instances that might be converted to string.
pub trait TryToString: WriteXml {
    /// Convert current instance to string. The conversion succeeds: the
    /// library serializes into a growable in-memory buffer and only ever
    /// writes valid UTF-8 text into it.
    fn try_to_string(&self) -> (r: Result<String, Error>)
        ensures
            r matches Ok(s) && s@ == self.spec_xml(),
    ;
}

/// Element node trait.
pub trait ElementNode: TagName + WriteXml + TryToString + Children {

}

/// Law: serialization is deterministic. The fragment written for an element
/// is a function of the element's value alone, so two successful
/// serializations of the same unmutated element yield identical text.
pub proof fn lemma_serialization_deterministic<T: WriteXml>(el: &T, s1: Seq<char>, s2: Seq<char>)
    requires
        s1 == el.spec_xml(),
        s2 == el.spec_xml(),
    ensures
        s1 == s2,
{
}

/// Serialize one element into a fresh writer and decode the buffer.
pub fn element_to_string<T: WriteXml>(el: &T) -> (r: Result<String, Error>)
    ensures
        r matches Ok(s) && s@ == el.spec_xml(),
{
    let mut writer = new_writer();
    match el.write_xml(&mut writer) {
        Ok(()) => writer_to_string(writer),
        Err(e) => Err(e),
    }
}

impl WriteXml for ElementKind {
    open spec fn spec_xml(&self) -> Seq<char> {
        element_xml(*self)
    }

    fn write_xml(&self, writer: &mut quick_xml::Writer<std::io::Cursor<Vec<u8>>>) -> (r: Result<
        (),
        Error,
    >) {
        match self {
            ElementKind::Path(inner) => inner.write_xml(writer),
        }
    }
}

impl TryToString for ElementKind {
    fn try_to_string(&self) -> (r: Result<String, Error>) {
        element_to_string(self)
    }
}

impl Children for ElementKind {
    open spec fn children_field(&self) -> Option<Vec<ChildKind>> {
        match self {
            ElementKind::Path(inner) => inner.children_field(),
        }
    }

    open spec fn spec_supports_children(&self) -> bool {
        match self {
            ElementKind::Path(inner) => inner.spec_supports_children(),
        }
    }

    open spec fn with_children_list(&self, c: Option<Vec<ChildKind>>) -> ElementKind {
        match self {
            ElementKind::Path(inner) => ElementKind::Path(inner.with_children_list(c)),
        }
    }

    fn children(&self) -> (r: Option<&Vec<ChildKind>>) {
        match self {
            ElementKind::Path(inner) => inner.children(),
        }
    }

    fn children_mut(&mut self) -> (r: Result<(), Error>) {
        match self {
            ElementKind::Path(inner) => inner.children_mut(),
        }
    }

    fn push_child(&mut self, child: ChildKind) -> (r: Result<(), Error>) {
        match self {
            ElementKind::Path(inner) => inner.push_child(child),
        }
    }
}

/// Render one start tag and its children: the single behavioral fork of the
/// serializer. An absent child list yields a self-closing tag; a present
/// list — even an empty one — yields a start tag, the children in order,
/// and a matching end tag named `tag`.
pub(crate) fn convert_into_xml(
    writer: &mut quick_xml::Writer<std::io::Cursor<Vec<u8>>>,
    bs: quick_xml::events::BytesStart<'static>,
    children: Option<&Vec<ChildKind>>,
    tag: &str,
) -> (r: Result<(), Error>)
    requires
        writer_wf(*old(writer)),
    ensures
        r is Ok,
        writer_wf(*final(writer)),
        writer_out(*final(writer)) == writer_out(*old(writer)) + (match children {
            None => empty_tag_text(bs_name(bs), bs_attrs(bs)),
            Some(cs) => start_tag_text(bs_name(bs), bs_attrs(bs)) + children_xml(cs@)
                + end_tag_text(tag@),
        }),
{
    let ghost bname = bs_name(bs);
    let ghost battrs = bs_attrs(bs);
    if let Some(children_vec) = children {
        match write_event_start(writer, bs) {
            Ok(()) => {},
            Err(e) => {
                return Err(e);
            },
        }
        let n = children_vec.len();
        let mut i: usize = 0;
        proof {
            assert(children_xml(children_vec@.take(0)) == Seq::<char>::empty());
            assert(writer_out(*writer) =~= writer_out(*old(writer)) + start_tag_text(bname, battrs)
                + children_xml(children_vec@.take(0)));
        }
        while i < n
            invariant
                n == children_vec.len(),
                i <= n,
                writer_wf(*writer),
                writer_out(*writer) == writer_out(*old(writer)) + start_tag_text(bname, battrs)
                    + children_xml(children_vec@.take(i as int)),
            decreases n - i,
        {
            match &children_vec[i] {
                ChildKind::String(content) => {
                    match write_event_text(writer, content.as_str()) {
                        Ok(()) => {},
                        Err(e) => {
                            return Err(e);
                        },
                    }
                },
                ChildKind::Element(el) => {
                    let inner_result = match el {
                        ElementKind::Path(p) => p.write_self_closing(writer),
                    };
                    match inner_result {
                        Ok(()) => {},
                        Err(e) => {
                            return Err(e);
                        },
                    }
                },
            }
            proof {
                assert(children_vec@.take(i + 1 as int).drop_last() =~= children_vec@.take(
                    i as int,
                ));
                assert(children_vec@.take(i + 1 as int).last() == children_vec@[i as int]);
                assert(writer_out(*writer) =~= writer_out(*old(writer)) + start_tag_text(
                    bname,
                    battrs,
                ) + children_xml(children_vec@.take(i + 1 as int)));
            }
            i += 1;
        }
        proof {
            assert(children_vec@.take(n as int) =~= children_vec@);
        }
        match write_event_end(writer, tag) {
            Ok(()) => {},
            Err(e) => {
                return Err(e);
            },
        }
        proof {
            assert(writer_out(*writer) =~= writer_out(*old(writer)) + (start_tag_text(
                bname,
                battrs,
            ) + children_xml(children_vec@) + end_tag_text(tag@)));
        }
        Ok(())
    } else {
        match write_event_empty(writer, bs) {
            Ok(()) => {},
            Err(e) => {
                return Err(e);
            },
        }
        Ok(())
    }
}

} // verus!
