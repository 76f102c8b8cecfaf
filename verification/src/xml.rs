//! Bindings to the external XML token writer (`quick_xml`).
//!
//! The library delegates all character-level XML encoding to `quick_xml`:
//! start/end/empty tag emission, text events, and attribute-value escaping.
//! Each operation used by the serializer stands behind one trusted wrapper
//! whose contract states, over the models below, exactly what the writer's
//! source shows it appends to the output buffer.
//!
//! The exact-append contracts hold of plainly configured writers: built by
//! `quick_xml::Writer::new` over a fresh in-memory cursor, so without
//! indentation and without a space before the `/>` of empty tags. The
//! predicate [`writer_wf`] names that state; [`new_writer`] establishes it
//! and every wrapper preserves it. Writing into such a writer appends to a
//! growable in-memory vector and does not fail, so the wrappers also
//! promise success.
use vstd::prelude::*;

use crate::error::Error;

verus! {

/// `quick_xml::Writer`, the XML token writer the serializer drives.
#[verifier::external_type_specification]
#[verifier::external_body]
#[verifier::reject_recursive_types(W)]
pub struct ExWriter<W>(quick_xml::Writer<W>);

/// `std::io::Cursor`, the in-memory byte buffer the writer writes into.
#[verifier::external_type_specification]
#[verifier::external_body]
#[verifier::reject_recursive_types(T)]
pub struct ExCursor<T>(std::io::Cursor<T>);

/// `quick_xml::events::BytesStart`, an under-construction start tag: a tag
/// name followed by zero or more already-escaped attributes.
#[verifier::external_type_specification]
#[verifier::external_body]
pub struct ExBytesStart<'a>(quick_xml::events::BytesStart<'a>);

/// The text written so far into the writer's byte buffer (the UTF-8 decoding
/// of the buffer contents).
pub uninterp spec fn writer_out(w: quick_xml::Writer<std::io::Cursor<Vec<u8>>>) -> Seq<char>;

/// A plainly configured writer: built by `quick_xml::Writer::new` over a
/// fresh in-memory cursor. Such a writer has no indentation and no space
/// before the `/>` of empty tags, its cursor stands at the end of the
/// buffer, and the buffer holds valid UTF-8 text. [`new_writer`] creates
/// writers in this state and every wrapper below keeps them in it; the
/// exact-append clauses of the event wrappers are claims about writers in
/// this state only.
pub uninterp spec fn writer_wf(w: quick_xml::Writer<std::io::Cursor<Vec<u8>>>) -> bool;

/// The tag name a `BytesStart` was created with.
pub uninterp spec fn bs_name(bs: quick_xml::events::BytesStart<'static>) -> Seq<char>;

/// The attributes pushed into a `BytesStart` so far, in order, each as a
/// (name, escaped value) pair. The model tracks the pairs as they were
/// pushed; it is not a re-parse of the tag's buffer.
pub uninterp spec fn bs_attrs(bs: quick_xml::events::BytesStart<'static>) -> Seq<
    (Seq<char>, Seq<char>),
>;

/// The replacement `quick_xml` makes for one character of an attribute
/// value: the five XML special characters and the three ASCII control
/// whitespace characters become character references, every other
/// character stays itself.
pub open spec fn attr_escaped_char(c: char) -> Seq<char> {
    if c == '<' {
        "&lt;"@
    } else if c == '>' {
        "&gt;"@
    } else if c == '&' {
        "&amp;"@
    } else if c == '\'' {
        "&apos;"@
    } else if c == '"' {
        "&quot;"@
    } else if c == '\r' {
        "&#13;"@
    } else if c == '\n' {
        "&#10;"@
    } else if c == '\t' {
        "&#9;"@
    } else {
        seq![c]
    }
}

/// `quick_xml`'s attribute-value escaping: each character replaced
/// independently by [`attr_escaped_char`].
pub open spec fn attr_escaped(s: Seq<char>) -> Seq<char>
    decreases s.len(),
{
    if s.len() == 0 {
        Seq::empty()
    } else {
        attr_escaped_char(s[0]) + attr_escaped(s.drop_first())
    }
}

/// The replacement `quick_xml` makes for one character of text content:
/// the five XML special characters and the carriage return become
/// character references, every other character stays itself.
pub open spec fn text_escaped_char(c: char) -> Seq<char> {
    if c == '<' {
        "&lt;"@
    } else if c == '>' {
        "&gt;"@
    } else if c == '&' {
        "&amp;"@
    } else if c == '\'' {
        "&apos;"@
    } else if c == '"' {
        "&quot;"@
    } else if c == '\r' {
        "&#13;"@
    } else {
        seq![c]
    }
}

/// `quick_xml`'s text-content escaping (`quick_xml::escape::escape`): each
/// character replaced independently by [`text_escaped_char`].
pub open spec fn text_escaped(s: Seq<char>) -> Seq<char>
    decreases s.len(),
{
    if s.len() == 0 {
        Seq::empty()
    } else {
        text_escaped_char(s[0]) + text_escaped(s.drop_first())
    }
}

/// The textual form of an attribute list inside a tag: one leading space
/// before each attribute, the name, `="`, the escaped value, `"`.
pub open spec fn attrs_text(attrs: Seq<(Seq<char>, Seq<char>)>) -> Seq<char>
    decreases attrs.len(),
{
    if attrs.len() == 0 {
        Seq::empty()
    } else {
        attrs_text(attrs.drop_last()) + " "@ + attrs.last().0 + "=\""@ + attrs.last().1 + "\""@
    }
}

/// The text of a start tag: `<name attrs>`.
pub open spec fn start_tag_text(name: Seq<char>, attrs: Seq<(Seq<char>, Seq<char>)>) -> Seq<
    char,
> {
    "<"@ + name + attrs_text(attrs) + ">"@
}

/// The text of a self-closing tag: `<name attrs/>`.
pub open spec fn empty_tag_text(name: Seq<char>, attrs: Seq<(Seq<char>, Seq<char>)>) -> Seq<
    char,
> {
    "<"@ + name + attrs_text(attrs) + "/>"@
}

/// The text of an end tag: `</name>`.
pub open spec fn end_tag_text(name: Seq<char>) -> Seq<char> {
    "</"@ + name + ">"@
}

/// Relies on `quick_xml::Writer::new`: a fresh writer over an empty buffer,
/// configured without indentation and without a space before `/>`.
#[verifier::external_body]
pub(crate) fn new_writer() -> (w: quick_xml::Writer<std::io::Cursor<Vec<u8>>>)
    ensures
        writer_wf(w),
        writer_out(w) == Seq::<char>::empty(),
{
    quick_xml::Writer::new(std::io::Cursor::new(Vec::new()))
}

/// Relies on `quick_xml::events::BytesStart::new`: a start tag holding the
/// given name and no attributes yet.
#[verifier::external_body]
pub(crate) fn bytes_start_new(tag: &str) -> (bs: quick_xml::events::BytesStart<'static>)
    ensures
        bs_name(bs) == tag@,
        bs_attrs(bs) == Seq::<(Seq<char>, Seq<char>)>::empty(),
{
    quick_xml::events::BytesStart::new(tag.to_string())
}

/// Relies on `quick_xml::events::BytesStart::push_attribute` with a
/// `(&str, &str)` pair: the key is stored as-is and the value is escaped,
/// and the pair is appended after the attributes already present.
#[verifier::external_body]
pub(crate) fn push_str_attribute(
    bs: &mut quick_xml::events::BytesStart<'static>,
    key: &str,
    value: &str,
)
    ensures
        bs_name(*final(bs)) == bs_name(*old(bs)),
        bs_attrs(*final(bs)) == bs_attrs(*old(bs)).push((key@, attr_escaped(value@))),
{
    bs.push_attribute((key, value));
}

/// Relies on `quick_xml::Writer::write_event` with `Event::Start`: a plainly
/// configured writer appends `<`, the tag's buffer (name then attributes),
/// and `>`, nothing else; writing appends to the in-memory vector and does
/// not fail.
#[verifier::external_body]
pub(crate) fn write_event_start(
    writer: &mut quick_xml::Writer<std::io::Cursor<Vec<u8>>>,
    bs: quick_xml::events::BytesStart<'static>,
) -> (r: Result<(), Error>)
    requires
        writer_wf(*old(writer)),
    ensures
        r is Ok,
        writer_wf(*final(writer)),
        writer_out(*final(writer)) == writer_out(*old(writer)) + start_tag_text(
            bs_name(bs),
            bs_attrs(bs),
        ),
{
    match writer.write_event(quick_xml::events::Event::Start(bs)) {
        Ok(()) => Ok(()),
        Err(e) => Err(Error::XmlWriterError(e)),
    }
}

/// Relies on `quick_xml::Writer::write_event` with `Event::Empty`: a plainly
/// configured writer appends `<`, the tag's buffer (name then attributes),
/// and `/>`, nothing else; writing appends to the in-memory vector and does
/// not fail.
#[verifier::external_body]
pub(crate) fn write_event_empty(
    writer: &mut quick_xml::Writer<std::io::Cursor<Vec<u8>>>,
    bs: quick_xml::events::BytesStart<'static>,
) -> (r: Result<(), Error>)
    requires
        writer_wf(*old(writer)),
    ensures
        r is Ok,
        writer_wf(*final(writer)),
        writer_out(*final(writer)) == writer_out(*old(writer)) + empty_tag_text(
            bs_name(bs),
            bs_attrs(bs),
        ),
{
    match writer.write_event(quick_xml::events::Event::Empty(bs)) {
        Ok(()) => Ok(()),
        Err(e) => Err(Error::XmlWriterError(e)),
    }
}

/// Relies on `quick_xml::Writer::write_event` with `Event::End` on a
/// `BytesEnd` made from the tag name: a plainly configured writer appends
/// `</`, the name, and `>`, nothing else; writing appends to the in-memory
/// vector and does not fail.
#[verifier::external_body]
pub(crate) fn write_event_end(
    writer: &mut quick_xml::Writer<std::io::Cursor<Vec<u8>>>,
    tag: &str,
) -> (r: Result<(), Error>)
    requires
        writer_wf(*old(writer)),
    ensures
        r is Ok,
        writer_wf(*final(writer)),
        writer_out(*final(writer)) == writer_out(*old(writer)) + end_tag_text(tag@),
{
    match writer.write_event(
        quick_xml::events::Event::End(quick_xml::events::BytesEnd::new(tag.to_string())),
    ) {
        Ok(()) => Ok(()),
        Err(e) => Err(Error::XmlWriterError(e)),
    }
}

/// Relies on `quick_xml::Writer::write_event` with `Event::Text` on a
/// `BytesText` made from the content: `BytesText::new` escapes the content,
/// the writer appends exactly that escaped text (text events are never
/// indented), and writing into the in-memory vector does not fail.
#[verifier::external_body]
pub(crate) fn write_event_text(
    writer: &mut quick_xml::Writer<std::io::Cursor<Vec<u8>>>,
    content: &str,
) -> (r: Result<(), Error>)
    requires
        writer_wf(*old(writer)),
    ensures
        r is Ok,
        writer_wf(*final(writer)),
        writer_out(*final(writer)) == writer_out(*old(writer)) + text_escaped(content@),
{
    match writer.write_event(
        quick_xml::events::Event::Text(quick_xml::events::BytesText::new(content)),
    ) {
        Ok(()) => Ok(()),
        Err(e) => Err(Error::XmlWriterError(e)),
    }
}

/// Relies on `quick_xml::Writer::into_inner`, `std::io::Cursor::into_inner`
/// and `std::str::from_utf8`: the writer's buffer, decoded as UTF-8 text, is
/// exactly the text written so far. A plainly configured writer's buffer is
/// valid UTF-8 (every wrapper above appends only UTF-8 text), so the
/// decoding succeeds.
#[verifier::external_body]
pub(crate) fn writer_to_string(w: quick_xml::Writer<std::io::Cursor<Vec<u8>>>) -> (r: Result<
    String,
    Error,
>)
    requires
        writer_wf(w),
    ensures
        r is Ok,
        r matches Ok(s) ==> s@ == writer_out(w),
{
    let out = w.into_inner().into_inner();
    match std::str::from_utf8(&out) {
        Ok(s) => Ok(s.to_string()),
        Err(e) => Err(Error::Utf8ParseError(e)),
    }
}

} // verus!
