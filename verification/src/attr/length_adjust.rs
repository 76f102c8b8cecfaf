//! The `lengthAdjust` attribute enumeration.
use vstd::prelude::*;
use vstd::string::StringExecFns;

use crate::error::Error;

verus! {

/// `lengthAdjust` attribute enumeration
pub enum LengthAdjust {
    /// Spacing
    Spacing,
    /// Spacing and glyphs
    SpacingAndGlyphs,
}

impl LengthAdjust {
    /// The canonical attribute value of this variant.
    pub open spec fn spec_value(&self) -> Seq<char> {
        match self {
            LengthAdjust::Spacing => "spacing"@,
            LengthAdjust::SpacingAndGlyphs => "spacingAndGlyphs"@,
        }
    }

    /// Parse an attribute value; exactly the two canonical values are
    /// accepted, anything else is rejected.
    pub fn from_str(s: &str) -> (r: Result<LengthAdjust, Error>)
        ensures
            r is Ok <==> (s@ == "spacing"@ || s@ == "spacingAndGlyphs"@),
            match r {
                Ok(v) => s@ == v.spec_value(),
                Err(e) => e is NoOptionFound,
            },
    {
        let owned = String::from_str(s);
        if owned == String::from_str("spacing") {
            Ok(LengthAdjust::Spacing)
        } else if owned == String::from_str("spacingAndGlyphs") {
            Ok(LengthAdjust::SpacingAndGlyphs)
        } else {
            Err(Error::NoOptionFound)
        }
    }

    /// The canonical attribute value as a string slice.
    pub fn as_value(&self) -> (r: &str)
        ensures
            r@ == self.spec_value(),
    {
        match self {
            LengthAdjust::Spacing => "spacing",
            LengthAdjust::SpacingAndGlyphs => "spacingAndGlyphs",
        }
    }

    /// The canonical attribute value as an owned string.
    pub fn to_string(&self) -> (r: String)
        ensures
            r@ == self.spec_value(),
    {
        String::from_str(self.as_value())
    }
}

} // verus!
