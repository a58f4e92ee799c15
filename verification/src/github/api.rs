//! How much of a resource a fetch asks GitHub for.
use vstd::prelude::*;

use crate::text::{folded, lower_seq, trim};

verus! {

/// Partial depth keeps the request quota low; full depth follows every
/// supported page.
#[derive(Debug, Clone, Copy, PartialEq, Eq, Hash, Structural)]
pub enum ApiDepth {
    Partial,
    Full,
}

/// The depth a written name selects, ignoring case and surrounding whitespace.
pub open spec fn api_depth_from_name(input: Seq<char>) -> Option<ApiDepth> {
    let t = lower_seq(trim(input));
    if t == "partial"@ {
        Some(ApiDepth::Partial)
    } else if t == "full"@ {
        Some(ApiDepth::Full)
    } else {
        None
    }
}

impl ApiDepth {
    /// The name the depth is written with.
    pub fn name(self) -> (s: &'static str)
        ensures
            s@ == match self {
                ApiDepth::Partial => "partial"@,
                ApiDepth::Full => "full"@,
            },
    {
        match self {
            ApiDepth::Partial => "partial",
            ApiDepth::Full => "full",
        }
    }

    /// Reads a written depth (see `api_depth_from_name`).
    pub fn from_name(input: &str) -> (r: Result<ApiDepth, String>)
        ensures
            match api_depth_from_name(input@) {
                Some(d) => r == Ok::<ApiDepth, String>(d),
                None => r is Err && r->Err_0@ == "expected one of partial, full"@,
            },
    {
        let f = folded(input);
        if crate::text::str_eq(f.as_str(), "partial") {
            Ok(ApiDepth::Partial)
        } else if crate::text::str_eq(f.as_str(), "full") {
            Ok(ApiDepth::Full)
        } else {
            Err(crate::text::owned("expected one of partial, full"))
        }
    }
}

impl std::str::FromStr for ApiDepth {
    type Err = String;

    fn from_str(input: &str) -> Result<Self, Self::Err> {
        ApiDepth::from_name(input)
    }
}

} // verus!
