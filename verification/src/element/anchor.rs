//! Anchor element (`<a>`).
use vstd::prelude::*;

use crate::attr::referrer_policy::ReferrerPolicy;
use crate::element::{
    convert_into_xml, element_to_string, lazy_children_view, lazy_xml, opt_attr, opt_str_get,
    opt_str_owned, push_opt_attr, ChildKind, Children, ElementNode, TagName, TryToString,
    WriteXml,
};
use crate::error::Error;
use crate::xml::{
    attr_escaped, bs_attrs, bs_name, bytes_start_new, push_str_attribute,
};

verus! {

/// Anchor element (`<a>`)
pub struct Anchor {
    /// The `download` attribute.
    pub download: Option<String>,
    /// The `href` attribute.
    pub href: Option<String>,
    /// The `hreflang` attribute.
    pub href_lang: Option<String>,
    /// The `referrerpolicy` attribute.
    pub referrer_policy: Option<ReferrerPolicy>,
    /// The child list; absent until first requested.
    pub children: Option<Vec<ChildKind>>,
}

/// The attribute a `referrerpolicy` field contributes.
pub open spec fn referrer_policy_attr(v: Option<ReferrerPolicy>) -> Seq<(Seq<char>, Seq<char>)> {
    match v {
        None => Seq::empty(),
        Some(rp) => seq![("referrerpolicy"@, attr_escaped(rp.spec_value()))],
    }
}

/// Append the `referrerpolicy` attribute of an optional field.
fn push_referrer_policy_attr(
    bs: &mut quick_xml::events::BytesStart<'static>,
    v: &Option<ReferrerPolicy>,
)
    ensures
        bs_name(*final(bs)) == bs_name(*old(bs)),
        bs_attrs(*final(bs)) == bs_attrs(*old(bs)) + referrer_policy_attr(*v),
{
    match v {
        Some(rp) => {
            push_str_attribute(bs, "referrerpolicy", rp.as_value());
            proof {
                assert(bs_attrs(*bs) =~= bs_attrs(*old(bs)) + referrer_policy_attr(*v));
            }
        },
        None => {
            proof {
                assert(bs_attrs(*bs) =~= bs_attrs(*old(bs)) + referrer_policy_attr(*v));
            }
        },
    }
}

impl Default for Anchor {
    fn default() -> (r: Self)
        ensures
            r.download is None,
            r.href is None,
            r.href_lang is None,
            r.referrer_policy is None,
            r.children is None,
    {
        Self {
            download: None,
            href: None,
            href_lang: None,
            referrer_policy: None,
            children: None,
        }
    }
}

impl Anchor {
    /// Create an anchor with nothing set.
    pub fn new() -> (r: Self)
        ensures
            r.download is None,
            r.href is None,
            r.href_lang is None,
            r.referrer_policy is None,
            r.children is None,
    {
        Self::default()
    }

    /// Get `download`.
    pub fn download(&self) -> (r: Option<&str>)
        ensures
            match r {
                Some(s) => self.download matches Some(x) && s@ == x@,
                None => self.download is None,
            },
    {
        opt_str_get(&self.download)
    }

    /// Set `download`.
    pub fn set_download(&mut self, value: Option<&str>)
        ensures
            *final(self) == (Anchor { download: final(self).download, ..*old(self) }),
            match value {
                Some(v) => final(self).download matches Some(s) && s@ == v@,
                None => final(self).download is None,
            },
    {
        self.download = opt_str_owned(value);
    }

    /// Get `href`.
    pub fn href(&self) -> (r: Option<&str>)
        ensures
            match r {
                Some(s) => self.href matches Some(x) && s@ == x@,
                None => self.href is None,
            },
    {
        opt_str_get(&self.href)
    }

    /// Set `href`.
    pub fn set_href(&mut self, value: Option<&str>)
        ensures
            *final(self) == (Anchor { href: final(self).href, ..*old(self) }),
            match value {
                Some(v) => final(self).href matches Some(s) && s@ == v@,
                None => final(self).href is None,
            },
    {
        self.href = opt_str_owned(value);
    }

    /// Get `hreflang`.
    pub fn href_lang(&self) -> (r: Option<&str>)
        ensures
            match r {
                Some(s) => self.href_lang matches Some(x) && s@ == x@,
                None => self.href_lang is None,
            },
    {
        opt_str_get(&self.href_lang)
    }

    /// Set `hreflang`.
    pub fn set_href_lang(&mut self, value: Option<&str>)
        ensures
            *final(self) == (Anchor { href_lang: final(self).href_lang, ..*old(self) }),
            match value {
                Some(v) => final(self).href_lang matches Some(s) && s@ == v@,
                None => final(self).href_lang is None,
            },
    {
        self.href_lang = opt_str_owned(value);
    }

    /// Get `referrerpolicy`.
    pub fn referrer_policy(&self) -> (r: &Option<ReferrerPolicy>)
        ensures
            r == &self.referrer_policy,
    {
        &self.referrer_policy
    }

    /// Set `referrerpolicy`.
    pub fn set_referrer_policy(&mut self, value: Option<ReferrerPolicy>)
        ensures
            *final(self) == (Anchor { referrer_policy: final(self).referrer_policy, ..*old(self) }),
            final(self).referrer_policy == value,
    {
        self.referrer_policy = value;
    }

    /// The attribute list of the start tag, in emission order.
    pub open spec fn spec_attrs(&self) -> Seq<(Seq<char>, Seq<char>)> {
        opt_attr("download"@, self.download) + opt_attr("href"@, self.href) + opt_attr(
            "hreflang"@,
            self.href_lang,
        ) + referrer_policy_attr(self.referrer_policy)
    }
}

impl TagName for Anchor {
    open spec fn spec_tag_name(&self) -> Seq<char> {
        "a"@
    }

    fn tag_name(&self) -> (r: &str) {
        "a"
    }
}

impl WriteXml for Anchor {
    open spec fn spec_xml(&self) -> Seq<char> {
        lazy_xml("a"@, self.spec_attrs(), lazy_children_view(self.children))
    }

    fn write_xml(&self, writer: &mut quick_xml::Writer<std::io::Cursor<Vec<u8>>>) -> (r: Result<
        (),
        Error,
    >) {
        let tag = self.tag_name();
        let mut bs = bytes_start_new(tag);
        push_opt_attr(&mut bs, "download", &self.download);
        push_opt_attr(&mut bs, "href", &self.href);
        push_opt_attr(&mut bs, "hreflang", &self.href_lang);
        push_referrer_policy_attr(&mut bs, &self.referrer_policy);
        proof {
            assert(bs_attrs(bs) =~= self.spec_attrs());
        }
        convert_into_xml(writer, bs, self.children.as_ref(), tag)
    }
}

impl TryToString for Anchor {
    fn try_to_string(&self) -> (r: Result<String, Error>) {
        element_to_string(self)
    }
}

impl Children for Anchor {
    open spec fn children_field(&self) -> Option<Vec<ChildKind>> {
        self.children
    }

    open spec fn spec_supports_children(&self) -> bool {
        true
    }

    open spec fn with_children_list(&self, c: Option<Vec<ChildKind>>) -> Anchor {
        Anchor { children: c, ..*self }
    }

    fn children(&self) -> (r: Option<&Vec<ChildKind>>) {
        self.children.as_ref()
    }

    fn children_mut(&mut self) -> (r: Result<(), Error>) {
        if self.children.is_none() {
            self.children = Some(Vec::new());
        }
        Ok(())
    }

    fn push_child(&mut self, child: ChildKind) -> (r: Result<(), Error>) {
        match &mut self.children {
            Some(list) => {
                list.push(child);
            },
            None => {
                let mut list: Vec<ChildKind> = Vec::new();
                list.push(child);
                self.children = Some(list);
            },
        }
        Ok(())
    }
}

impl ElementNode for Anchor {

}

} // verus!
