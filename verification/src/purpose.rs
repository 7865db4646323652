//! What an identity is configured for.
//!
//! A Party's identities are per purpose because they differ in kind, not only
//! in value: two of the four match something arriving and need no secret, two
//! produce proof and name where the material is kept.

use vstd::prelude::*;

verus! {

/// What an identity is configured for.
///
/// ```text
/// Receive    a partner arrives          matcher
/// Operate    a person drives Xmip       matcher
/// Process    Xmip runs as somebody      credential
/// Send       Xmip is the client         credential
/// ```
#[derive(Clone, Copy, Debug, PartialEq, Eq, Structural, Hash, PartialOrd, Ord)]
pub enum Purpose {
    /// Verified when it arrives, against a stored matcher.
    Receive,
    /// What a Process runs as; it decides which host process the Process can
    /// be placed in.
    Process,
    /// Offered when Xmip is the client.
    Send,
    /// Who is driving Xmip itself. Matched, not presented.
    Operate,
}

/// Whether a purpose produces proof, and so names where credential material
/// is kept, rather than comparing against a stored matcher.
pub open spec fn purpose_needs_credential(p: Purpose) -> bool {
    p == Purpose::Process || p == Purpose::Send
}

/// The text a purpose is shown as.
pub open spec fn purpose_text(p: Purpose) -> Seq<char> {
    match p {
        Purpose::Receive => "receive"@,
        Purpose::Process => "process"@,
        Purpose::Send => "send"@,
        Purpose::Operate => "operate"@,
    }
}

impl Purpose {
    /// Whether this purpose requires credential material rather than a
    /// matcher: processing and sending produce proof; receiving and operating
    /// compare an arriving credential against a stored name.
    pub fn needs_credential(self) -> (r: bool)
        ensures
            r == purpose_needs_credential(self),
    {
        match self {
            Purpose::Process | Purpose::Send => true,
            Purpose::Receive | Purpose::Operate => false,
        }
    }

    /// The text this purpose is shown as.
    pub fn to_string(&self) -> (r: String)
        ensures
            r@ == purpose_text(*self),
    {
        match self {
            Purpose::Receive => String::from_str("receive"),
            Purpose::Process => String::from_str("process"),
            Purpose::Send => String::from_str("send"),
            Purpose::Operate => String::from_str("operate"),
        }
    }
}

} // verus!
