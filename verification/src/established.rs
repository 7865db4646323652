//! How an identity came to be claimed: the first gate's own answer.
//!
//! Independent of how the Stream arrived. A pushed Stream can yield a detected
//! identity; a scheduled pickup can only yield an inferred one, because there
//! was nobody there to pass anything.

use vstd::prelude::*;

verus! {

/// How an identity came to be claimed.
///
/// ```text
/// Passed     the sender presented it
/// Inferred   the configuration says so
/// Detected   it was read out of what is there
/// ```
///
/// This is provenance, not strength: strength is `IdentityClass` and
/// `Assurance`.
#[derive(Clone, Copy, Debug, PartialEq, Eq, Structural, Hash, PartialOrd, Ord)]
pub enum Established {
    /// The sender presented it.
    Passed,
    /// The configuration is the identity.
    Inferred,
    /// Read out of what arrived.
    Detected,
}

/// The text a provenance is shown as.
pub open spec fn established_text(e: Established) -> Seq<char> {
    match e {
        Established::Passed => "passed"@,
        Established::Inferred => "inferred"@,
        Established::Detected => "detected"@,
    }
}

impl Established {
    /// The text this provenance is shown as.
    pub fn to_string(&self) -> (r: String)
        ensures
            r@ == established_text(*self),
    {
        match self {
            Established::Passed => String::from_str("passed"),
            Established::Inferred => String::from_str("inferred"),
            Established::Detected => String::from_str("detected"),
        }
    }
}

} // verus!
