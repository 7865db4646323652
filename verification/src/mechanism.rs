//! A way of proving identity, and the three facts that follow from it.
//!
//! None of `class`, `layer` or `assurance` is configurable: an operator who
//! could declare an API key high-assurance would have declared away the only
//! thing the classification is for. A mechanism is declared by the module
//! that implements it, through [`Mechanism::declare`], and never built from
//! configuration. The ones Xmip implements itself are in [`declared`].

use vstd::prelude::*;

pub mod declared;
pub use declared::{
    anonymous, api_key, autack, basic, bearer, certificate, circumstance, contract, cookie,
    digest, dkim, dns, edi_x12_interchange, edifact_interchange, endpoint, header,
    hl7_sending_application, http_message_signature, ip, jws, jwt, kerberos, ldap, mac, message,
    mutual_tls, ntlm, oauth2, oidc, pam, party, passkey, password, peer_credentials, s_mime, saml,
    scram, shared_access_signature, sigv4, ssh_key, transport, username, windows, ws_security,
    xml_signature,
};

verus! {

/// Where an identity travels.
///
/// Anything Xmip can read before Message creation is transport; anything
/// requiring the Message to exist is message.
#[derive(Clone, Copy, Debug, PartialEq, Eq, Structural, Hash, PartialOrd, Ord)]
pub enum Layer {
    /// Who opened the connection.
    Transport,
    /// On whose behalf the content was produced.
    Message,
}

/// How an identity is proven: a property of the proof, not of who holds it
/// and not of how much it is trusted.
#[derive(Clone, Copy, Debug, PartialEq, Eq, Structural, Hash, PartialOrd, Ord)]
pub enum IdentityClass {
    /// Cryptographic proof bound to a named principal.
    HighAssurance,
    /// Asserted by a trusted third party.
    Federated,
    /// A secret both sides hold.
    SharedSecret,
    /// No identity is claimed.
    Anonymous,
}

/// The text an identity class is shown as.
pub open spec fn class_text(c: IdentityClass) -> Seq<char> {
    match c {
        IdentityClass::HighAssurance => "highAssurance"@,
        IdentityClass::Federated => "federated"@,
        IdentityClass::SharedSecret => "sharedSecret"@,
        IdentityClass::Anonymous => "anonymous"@,
    }
}

impl IdentityClass {
    /// The text this class is shown as.
    pub fn to_string(&self) -> (r: String)
        ensures
            r@ == class_text(*self),
    {
        match self {
            IdentityClass::HighAssurance => String::from_str("highAssurance"),
            IdentityClass::Federated => String::from_str("federated"),
            IdentityClass::SharedSecret => String::from_str("sharedSecret"),
            IdentityClass::Anonymous => String::from_str("anonymous"),
        }
    }
}

/// Whether a mechanism can settle the authentication gate, or only the
/// identity gate.
///
/// This is what the protocol provides, not a choice Xmip makes: X12's ISA06,
/// EDIFACT's UNB S002 and HL7's MSH-3 name the counterparty and carry no
/// cryptography whatever.
#[derive(Clone, Copy, Debug, PartialEq, Eq, Structural, Hash, PartialOrd, Ord)]
pub enum Assurance {
    /// Names a Party. Proves nothing.
    Identifies,
    /// Names a Party and proves the claim.
    Authenticates,
}

/// What a mechanism is: its name and the three facts that follow from it.
pub struct MechanismView {
    pub name: Seq<char>,
    pub class: IdentityClass,
    pub layer: Layer,
    pub assurance: Assurance,
}

/// A way of proving identity, and the three facts that follow from it.
#[derive(Clone, Debug, PartialEq, Eq, Hash, PartialOrd, Ord)]
pub struct Mechanism {
    name: String,
    class: IdentityClass,
    layer: Layer,
    assurance: Assurance,
}

impl View for Mechanism {
    type V = MechanismView;

    closed spec fn view(&self) -> MechanismView {
        MechanismView {
            name: self.name@,
            class: self.class,
            layer: self.layer,
            assurance: self.assurance,
        }
    }
}

impl Mechanism {
    /// Declared by the module that implements the mechanism, which is the only
    /// code that knows its class, layer and assurance.
    pub fn declare(name: &str, class: IdentityClass, layer: Layer, assurance: Assurance) -> (r:
        Self)
        ensures
            r@ == (MechanismView { name: name@, class, layer, assurance }),
    {
        Mechanism { name: String::from_str(name), class, layer, assurance }
    }

    /// The last segment of the repository that implements it.
    pub fn name(&self) -> (r: &str)
        ensures
            r@ == self@.name,
    {
        self.name.as_str()
    }

    pub fn class(&self) -> (r: IdentityClass)
        ensures
            r == self@.class,
    {
        self.class
    }

    pub fn layer(&self) -> (r: Layer)
        ensures
            r == self@.layer,
    {
        self.layer
    }

    pub fn assurance(&self) -> (r: Assurance)
        ensures
            r == self@.assurance,
    {
        self.assurance
    }

    /// Whether this mechanism can settle the authentication gate on its own.
    pub fn authenticates(&self) -> (r: bool)
        ensures
            r == (self@.assurance == Assurance::Authenticates),
    {
        match self.assurance {
            Assurance::Authenticates => true,
            Assurance::Identifies => false,
        }
    }
}

} // verus!
