//! The `referrerpolicy` attribute enumeration.
use vstd::prelude::*;
use vstd::string::StringExecFns;

use crate::error::Error;

verus! {

/// The closed set of referrer-policy attribute values.
pub enum ReferrerPolicy {
    NoReferrer,
    NoReferrerWhenDowngrade,
    Origin,
    OriginWhenCrossOrigin,
    SameOrigin,
    StrictOrigin,
    StrictOriginWhenCrossOrigin,
    UnsafeUrl,
}

impl ReferrerPolicy {
    /// The canonical attribute value of this variant.
    pub open spec fn spec_value(&self) -> Seq<char> {
        match self {
            ReferrerPolicy::NoReferrer => "no-referrer"@,
            ReferrerPolicy::NoReferrerWhenDowngrade => "no-referrer-when-downgrade"@,
            ReferrerPolicy::Origin => "origin"@,
            ReferrerPolicy::OriginWhenCrossOrigin => "origin-when-cross-origin"@,
            ReferrerPolicy::SameOrigin => "same-origin"@,
            ReferrerPolicy::StrictOrigin => "strict-origin"@,
            ReferrerPolicy::StrictOriginWhenCrossOrigin => "strict-origin-when-cross-origin"@,
            ReferrerPolicy::UnsafeUrl => "unsafe-url"@,
        }
    }

    /// Whether a textual value names one of the policies.
    pub open spec fn spec_is_value(s: Seq<char>) -> bool {
        ||| s == "no-referrer"@
        ||| s == "no-referrer-when-downgrade"@
        ||| s == "origin"@
        ||| s == "origin-when-cross-origin"@
        ||| s == "same-origin"@
        ||| s == "strict-origin"@
        ||| s == "strict-origin-when-cross-origin"@
        ||| s == "unsafe-url"@
    }

    /// Parse an attribute value; exactly the eight canonical values are
    /// accepted, anything else is rejected.
    pub fn from_str(s: &str) -> (r: Result<ReferrerPolicy, Error>)
        ensures
            r is Ok <==> Self::spec_is_value(s@),
            match r {
                Ok(v) => s@ == v.spec_value(),
                Err(e) => e is NoOptionFound,
            },
    {
        let owned = String::from_str(s);
        if owned == String::from_str("no-referrer") {
            Ok(ReferrerPolicy::NoReferrer)
        } else if owned == String::from_str("no-referrer-when-downgrade") {
            Ok(ReferrerPolicy::NoReferrerWhenDowngrade)
        } else if owned == String::from_str("origin") {
            Ok(ReferrerPolicy::Origin)
        } else if owned == String::from_str("origin-when-cross-origin") {
            Ok(ReferrerPolicy::OriginWhenCrossOrigin)
        } else if owned == String::from_str("same-origin") {
            Ok(ReferrerPolicy::SameOrigin)
        } else if owned == String::from_str("strict-origin") {
            Ok(ReferrerPolicy::StrictOrigin)
        } else if owned == String::from_str("strict-origin-when-cross-origin") {
            Ok(ReferrerPolicy::StrictOriginWhenCrossOrigin)
        } else if owned == String::from_str("unsafe-url") {
            Ok(ReferrerPolicy::UnsafeUrl)
        } else {
            Err(Error::NoOptionFound)
        }
    }

    /// The canonical attribute value as a string slice.
    pub fn as_value(&self) -> (r: &str)
        ensures
            r@ == self.spec_value(),
    {
        match self {
            ReferrerPolicy::NoReferrer => "no-referrer",
            ReferrerPolicy::NoReferrerWhenDowngrade => "no-referrer-when-downgrade",
            ReferrerPolicy::Origin => "origin",
            ReferrerPolicy::OriginWhenCrossOrigin => "origin-when-cross-origin",
            ReferrerPolicy::SameOrigin => "same-origin",
            ReferrerPolicy::StrictOrigin => "strict-origin",
            ReferrerPolicy::StrictOriginWhenCrossOrigin => "strict-origin-when-cross-origin",
            ReferrerPolicy::UnsafeUrl => "unsafe-url",
        }
    }

    /// The canonical attribute value as an owned string.
    pub fn to_string(&self) -> (r: String)
        ensures
            r@ == self.spec_value(),
    {
        String::from_str(self.as_value())
    }
}

} // verus!
