//! A small document-construction and serialization library for a subset of
//! the SVG vector-graphics markup format: an in-memory object model for SVG
//! elements, a sparse attribute store, and an encoder for the path-data
//! mini-language, all converging on a single XML serialization algorithm.
//!
//! Numeric coordinate values enter the library as already-formatted decimal
//! text (see [`Number`]); the library itself never inspects them, it only
//! places them verbatim in the markup it produces.
use vstd::prelude::*;
use vstd::string::StringExecFns;

pub mod attr;
pub mod element;
pub mod error;
pub mod xml;

verus! {

/// A well-formed numeric token: non-empty text that holds neither a space
/// nor a comma, the two separator characters of the path mini-language.
/// Every textual form of a finite or non-finite float has this shape.
pub open spec fn numeric_token(s: Seq<char>) -> bool {
    s.len() > 0 && forall|i: int| 0 <= i < s.len() ==> s[i] != ' ' && s[i] != ','
}

/// One numeric token: the canonical textual form of a coordinate or scalar.
///
/// The serialization grammar treats numbers as opaque tokens, so the library
/// stores them as text. Callers format their numeric values once, up front,
/// and the encoder reproduces the token exactly. Every token is a
/// [`numeric_token`]: it never holds a space or a comma, so tokens cannot
/// smuggle the grammar's separators into an encoded path, and distinct
/// command sequences never encode to the same string.
pub struct Number {
    text: String,
}

impl View for Number {
    type V = Seq<char>;

    closed spec fn view(&self) -> Seq<char> {
        self.text@
    }
}

impl Number {
    #[verifier::type_invariant]
    spec fn wf(self) -> bool {
        numeric_token(self.text@)
    }

    /// Wrap an already-formatted numeric token.
    pub fn new(text: String) -> (r: Number)
        requires
            numeric_token(text@),
        ensures
            r@ == text@,
    {
        Number { text }
    }

    /// Read the token back as a string slice.
    pub fn as_str(&self) -> (r: &str)
        ensures
            r@ == self@,
    {
        self.text.as_str()
    }

    /// The token as an owned string.
    pub fn to_string(&self) -> (r: String)
        ensures
            r@ == self@,
    {
        self.text.clone()
    }
}

/// Point in a 2D space
pub struct Point(pub Number, pub Number);

/// The canonical textual form of a point: both coordinates joined by a comma,
/// with no surrounding whitespace.
pub open spec fn point_text(p: Point) -> Seq<char> {
    p.0@ + ","@ + p.1@
}

impl Point {
    /// Format the point as `"<x>,<y>"`.
    pub fn to_string(&self) -> (r: String)
        ensures
            r@ == point_text(*self),
    {
        let mut s = self.0.to_string();
        s.append(",");
        s.append(self.1.as_str());
        s
    }
}

impl PartialEq for Point {
    fn eq(&self, other: &Self) -> (r: bool) {
        self.0.text == other.0.text && self.1.text == other.1.text
    }
}

impl Eq for Point {}

impl vstd::std_specs::cmp::PartialEqSpecImpl for Point {
    open spec fn obeys_eq_spec() -> bool {
        true
    }

    open spec fn eq_spec(&self, other: &Self) -> bool {
        self.0@ == other.0@ && self.1@ == other.1@
    }
}

/// The text obtained by joining `parts` with `delim` between neighbours.
pub open spec fn join_texts(parts: Seq<Seq<char>>, delim: Seq<char>) -> Seq<char>
    decreases parts.len(),
{
    if parts.len() == 0 {
        Seq::empty()
    } else if parts.len() == 1 {
        parts[0]
    } else {
        join_texts(parts.drop_last(), delim) + delim + parts.last()
    }
}

/// Join a list of strings with a delimiter between neighbours.
pub fn join_with(parts: &Vec<String>, delim: &str) -> (r: String)
    ensures
        r@ == join_texts(parts@.map_values(|s: String| s@), delim@),
{
    let ghost m = parts@.map_values(|s: String| s@);
    let mut r = String::new();
    let mut i: usize = 0;
    while i < parts.len()
        invariant
            i <= parts.len(),
            m == parts@.map_values(|s: String| s@),
            r@ == join_texts(m.take(i as int), delim@),
        decreases parts.len() - i,
    {
        if i > 0 {
            r.append(delim);
        }
        r.append(parts[i].as_str());
        proof {
            assert(m.take(i + 1 as int).drop_last() =~= m.take(i as int));
            assert(m.take(i + 1 as int).last() == m[i as int]);
        }
        i += 1;
    }
    proof {
        assert(m.take(parts@.len() as int) =~= m);
    }
    r
}

/// A mutable list of values
pub struct ValueList {
    inner: Vec<String>,
}

impl View for ValueList {
    type V = Seq<Seq<char>>;

    closed spec fn view(&self) -> Seq<Seq<char>> {
        self.inner@.map_values(|s: String| s@)
    }
}

impl ValueList {
    /// Instantiate a new value list
    pub fn new() -> (r: Self)
        ensures
            r@ == Seq::<Seq<char>>::empty(),
    {
        let r = ValueList { inner: Vec::new() };
        proof {
            assert(r@ =~= Seq::<Seq<char>>::empty());
        }
        r
    }

    /// Append and move an additional value into the value list
    pub fn push(&mut self, value: String)
        ensures
            final(self)@ == old(self)@.push(value@),
    {
        let ghost v = value@;
        let ghost before = self.inner@;
        self.inner.push(value);
        proof {
            assert(self.inner@.map_values(|s: String| s@) =~= before.map_values(
                |s: String| s@,
            ).push(v));
        }
    }

    /// Convert the value list into a string with item separated by
    /// a customized delimiter.
    pub fn into_string_with_delim(self, delim: &str) -> (r: String)
        ensures
            r@ == join_texts(self@, delim@),
    {
        join_with(&self.inner, delim)
    }

    /// Convert the value list into a string with item separated by spaces.
    ///
    /// Same as `ValueList::into_string_with_delim(self, " ")`.
    pub fn into_string(self) -> (r: String)
        ensures
            r@ == join_texts(self@, " "@),
    {
        self.into_string_with_delim(" ")
    }
}

} // verus!
