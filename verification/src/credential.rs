//! The material a presented identity is proven with: a reference, never the
//! secret.

use vstd::prelude::*;

verus! {

/// The material a presented identity is proven with.
///
/// A reference, never the secret: the secret lives in whatever the
/// deployment uses — a certificate store, a key vault, an SSH agent, a TPM —
/// and Xmip carries the name of it.
#[derive(Clone, Debug, PartialEq, Eq, Hash, PartialOrd, Ord)]
pub struct CredentialRef {
    /// Which store — `windows-certificate-store`, `azure-key-vault`,
    /// `ssh-agent`, `file`, `environment`.
    pub store: String,
    /// The name within that store.
    pub reference: String,
}

impl CredentialRef {
    pub fn new(store: &str, reference: &str) -> (r: Self)
        ensures
            r.store@ == store@,
            r.reference@ == reference@,
    {
        CredentialRef { store: String::from_str(store), reference: String::from_str(reference) }
    }

    /// Shown as `store:reference`.
    pub fn to_string(&self) -> (r: String)
        ensures
            r@ == self.store@ + ":"@ + self.reference@,
    {
        let mut text = self.store.clone();
        text.append(":");
        text.append(self.reference.as_str());
        text
    }
}

} // verus!
