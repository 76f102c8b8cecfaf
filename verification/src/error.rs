//! The error taxonomy of the library.
//!
//! Every fallible operation returns one of these variants; nothing is caught
//! or retried internally — the caller decides how to react.
use vstd::prelude::*;

verus! {

/// `std::io::Error` carried by the writer error variant.
#[verifier::external_type_specification]
#[verifier::external_body]
pub struct ExIoError(std::io::Error);

/// `std::str::Utf8Error` carried by the text-decoding error variant.
#[verifier::external_type_specification]
#[verifier::external_body]
pub struct ExUtf8Error(std::str::Utf8Error);

/// A terminal serialization or construction failure.
#[derive(Debug)]
pub enum Error {
    /// A child-list operation was requested on an element that does not
    /// support children.
    NoChildrenExpected,
    /// A textual value did not match any variant of a closed attribute
    /// enumeration.
    NoOptionFound,
    /// The underlying XML token writer failed.
    XmlWriterError(std::io::Error),
    /// The serialized byte buffer was not valid UTF-8 text.
    Utf8ParseError(std::str::Utf8Error),
}

} // verus!
