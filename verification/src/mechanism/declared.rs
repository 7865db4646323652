//! The mechanisms Xmip itself implements.
//!
//! Here so that `mutual-tls` means the same thing in every module rather than
//! being re-declared, differently, in each one. Every name is the last segment
//! of the repository that implements it, so [`super::Mechanism::name`] and the
//! repository cannot drift apart.

use vstd::prelude::*;
use super::{Assurance, IdentityClass, Layer, Mechanism, MechanismView};

verus! {

// -- Transport: cryptographic proof bound to a principal ---------------

/// RFC 8446. The channel proves the client.
pub fn mutual_tls() -> (r: Mechanism)
    ensures
        r@ == (MechanismView {
            name: "mutual-tls"@,
            class: IdentityClass::HighAssurance,
            layer: Layer::Transport,
            assurance: Assurance::Authenticates,
        }),
{
    Mechanism::declare("mutual-tls", IdentityClass::HighAssurance, Layer::Transport, Assurance::Authenticates)
}

/// RFC 4559 Negotiate/SPNEGO, and GSSAPI over SFTP, NFS, Kafka and
/// PostgreSQL. One mechanism, many carriers.
pub fn kerberos() -> (r: Mechanism)
    ensures
        r@ == (MechanismView {
            name: "kerberos"@,
            class: IdentityClass::HighAssurance,
            layer: Layer::Transport,
            assurance: Assurance::Authenticates,
        }),
{
    Mechanism::declare("kerberos", IdentityClass::HighAssurance, Layer::Transport, Assurance::Authenticates)
}

/// An X.509 certificate outside a TLS handshake — S/MIME in AS2, an Oracle
/// wallet, an OPC UA application instance certificate.
pub fn certificate() -> (r: Mechanism)
    ensures
        r@ == (MechanismView {
            name: "certificate"@,
            class: IdentityClass::HighAssurance,
            layer: Layer::Transport,
            assurance: Assurance::Authenticates,
        }),
{
    Mechanism::declare("certificate", IdentityClass::HighAssurance, Layer::Transport, Assurance::Authenticates)
}

/// SSH-2 public key. RFC 4252.
pub fn ssh_key() -> (r: Mechanism)
    ensures
        r@ == (MechanismView {
            name: "ssh-key"@,
            class: IdentityClass::HighAssurance,
            layer: Layer::Transport,
            assurance: Assurance::Authenticates,
        }),
{
    Mechanism::declare("ssh-key", IdentityClass::HighAssurance, Layer::Transport, Assurance::Authenticates)
}

/// WebAuthn and FIDO2. A key pair bound to a principal and to an origin,
/// with the private half unable to leave its authenticator.
///
/// Absent from `identity-by-technology.md`, which sorted the integration
/// estate rather than the operator surfaces. It reaches Xmip through the
/// GUIs rather than through a transport.
pub fn passkey() -> (r: Mechanism)
    ensures
        r@ == (MechanismView {
            name: "passkey"@,
            class: IdentityClass::HighAssurance,
            layer: Layer::Transport,
            assurance: Assurance::Authenticates,
        }),
{
    Mechanism::declare("passkey", IdentityClass::HighAssurance, Layer::Transport, Assurance::Authenticates)
}

/// `SO_PEERCRED` on a Unix socket, the caller SID on a named pipe.
///
/// The kernel vouches for it and it is never presented at all, which makes
/// it stronger than most credentials and unlike all of them.
pub fn peer_credentials() -> (r: Mechanism)
    ensures
        r@ == (MechanismView {
            name: "peer-credentials"@,
            class: IdentityClass::HighAssurance,
            layer: Layer::Transport,
            assurance: Assurance::Authenticates,
        }),
{
    Mechanism::declare("peer-credentials", IdentityClass::HighAssurance, Layer::Transport, Assurance::Authenticates)
}

/// RFC 9421 HTTP Message Signatures. Signs selected headers and the body,
/// and is still transport: it is readable before Message creation.
pub fn http_message_signature() -> (r: Mechanism)
    ensures
        r@ == (MechanismView {
            name: "http-message-signature"@,
            class: IdentityClass::HighAssurance,
            layer: Layer::Transport,
            assurance: Assurance::Authenticates,
        }),
{
    Mechanism::declare("http-message-signature", IdentityClass::HighAssurance, Layer::Transport, Assurance::Authenticates)
}

// -- Transport: asserted by a third party -------------------------------

/// RFC 6749.
pub fn oauth2() -> (r: Mechanism)
    ensures
        r@ == (MechanismView {
            name: "oauth2"@,
            class: IdentityClass::Federated,
            layer: Layer::Transport,
            assurance: Assurance::Authenticates,
        }),
{
    Mechanism::declare("oauth2", IdentityClass::Federated, Layer::Transport, Assurance::Authenticates)
}

/// OIDC Core 1.0.
pub fn oidc() -> (r: Mechanism)
    ensures
        r@ == (MechanismView {
            name: "oidc"@,
            class: IdentityClass::Federated,
            layer: Layer::Transport,
            assurance: Assurance::Authenticates,
        }),
{
    Mechanism::declare("oidc", IdentityClass::Federated, Layer::Transport, Assurance::Authenticates)
}

// -- Transport: a secret both sides hold --------------------------------

/// RFC 7617.
pub fn basic() -> (r: Mechanism)
    ensures
        r@ == (MechanismView {
            name: "basic"@,
            class: IdentityClass::SharedSecret,
            layer: Layer::Transport,
            assurance: Assurance::Authenticates,
        }),
{
    Mechanism::declare("basic", IdentityClass::SharedSecret, Layer::Transport, Assurance::Authenticates)
}

/// RFC 7616.
pub fn digest() -> (r: Mechanism)
    ensures
        r@ == (MechanismView {
            name: "digest"@,
            class: IdentityClass::SharedSecret,
            layer: Layer::Transport,
            assurance: Assurance::Authenticates,
        }),
{
    Mechanism::declare("digest", IdentityClass::SharedSecret, Layer::Transport, Assurance::Authenticates)
}

/// RFC 6750 — carriage, not issuance.
///
/// `sharedSecret` rather than `federated` on purpose. A bearer token by
/// itself proves possession and nothing else; whether an issuer stands
/// behind it is a fact about [`oauth2`] or [`oidc`], which are separate
/// mechanisms for exactly that reason.
pub fn bearer() -> (r: Mechanism)
    ensures
        r@ == (MechanismView {
            name: "bearer"@,
            class: IdentityClass::SharedSecret,
            layer: Layer::Transport,
            assurance: Assurance::Authenticates,
        }),
{
    Mechanism::declare("bearer", IdentityClass::SharedSecret, Layer::Transport, Assurance::Authenticates)
}

/// No standard. Vendor convention, universally.
pub fn api_key() -> (r: Mechanism)
    ensures
        r@ == (MechanismView {
            name: "api-key"@,
            class: IdentityClass::SharedSecret,
            layer: Layer::Transport,
            assurance: Assurance::Authenticates,
        }),
{
    Mechanism::declare("api-key", IdentityClass::SharedSecret, Layer::Transport, Assurance::Authenticates)
}

/// RFC 5802. Kafka, PostgreSQL, MySQL `caching_sha2_password`.
pub fn scram() -> (r: Mechanism)
    ensures
        r@ == (MechanismView {
            name: "scram"@,
            class: IdentityClass::SharedSecret,
            layer: Layer::Transport,
            assurance: Assurance::Authenticates,
        }),
{
    Mechanism::declare("scram", IdentityClass::SharedSecret, Layer::Transport, Assurance::Authenticates)
}

/// Username and password over a protected channel — FTPS, SASL PLAIN,
/// a SQL login.
pub fn password() -> (r: Mechanism)
    ensures
        r@ == (MechanismView {
            name: "password"@,
            class: IdentityClass::SharedSecret,
            layer: Layer::Transport,
            assurance: Assurance::Authenticates,
        }),
{
    Mechanism::declare("password", IdentityClass::SharedSecret, Layer::Transport, Assurance::Authenticates)
}

/// AWS Signature Version 4.
pub fn sigv4() -> (r: Mechanism)
    ensures
        r@ == (MechanismView {
            name: "sigv4"@,
            class: IdentityClass::SharedSecret,
            layer: Layer::Transport,
            assurance: Assurance::Authenticates,
        }),
{
    Mechanism::declare("sigv4", IdentityClass::SharedSecret, Layer::Transport, Assurance::Authenticates)
}

/// Azure Shared Key and SAS tokens.
pub fn shared_access_signature() -> (r: Mechanism)
    ensures
        r@ == (MechanismView {
            name: "shared-access-signature"@,
            class: IdentityClass::SharedSecret,
            layer: Layer::Transport,
            assurance: Assurance::Authenticates,
        }),
{
    Mechanism::declare("shared-access-signature", IdentityClass::SharedSecret, Layer::Transport, Assurance::Authenticates)
}

/// The path, the permissions and the source address of a drop folder.
///
/// A partner drop folder is not an absence of identity.
/// The circumstance *is* the transport identity, and it is authenticated as
/// that — weakly, and on the record.
pub fn circumstance() -> (r: Mechanism)
    ensures
        r@ == (MechanismView {
            name: "circumstance"@,
            class: IdentityClass::SharedSecret,
            layer: Layer::Transport,
            assurance: Assurance::Authenticates,
        }),
{
    Mechanism::declare("circumstance", IdentityClass::SharedSecret, Layer::Transport, Assurance::Authenticates)
}

// -- Transport: nothing claimed -----------------------------------------

/// An authenticated outcome, not a skipped gate. The
/// claim is "nobody", it is verified as such, and authorization then
/// decides whether nobody may post here.
pub fn anonymous() -> (r: Mechanism)
    ensures
        r@ == (MechanismView {
            name: "anonymous"@,
            class: IdentityClass::Anonymous,
            layer: Layer::Transport,
            assurance: Assurance::Authenticates,
        }),
{
    Mechanism::declare("anonymous", IdentityClass::Anonymous, Layer::Transport, Assurance::Authenticates)
}

// -- Message: proof inside the payload -----------------------------------

/// OASIS WSS 1.1 — UsernameToken, X.509 and SAML token profiles.
pub fn ws_security() -> (r: Mechanism)
    ensures
        r@ == (MechanismView {
            name: "ws-security"@,
            class: IdentityClass::HighAssurance,
            layer: Layer::Message,
            assurance: Assurance::Authenticates,
        }),
{
    Mechanism::declare("ws-security", IdentityClass::HighAssurance, Layer::Message, Assurance::Authenticates)
}

/// RFC 7515 JWS, and RFC 7519 JWT inside a payload.
pub fn jws() -> (r: Mechanism)
    ensures
        r@ == (MechanismView {
            name: "jws"@,
            class: IdentityClass::HighAssurance,
            layer: Layer::Message,
            assurance: Assurance::Authenticates,
        }),
{
    Mechanism::declare("jws", IdentityClass::HighAssurance, Layer::Message, Assurance::Authenticates)
}

/// W3C XMLDSIG, RFC 3275.
pub fn xml_signature() -> (r: Mechanism)
    ensures
        r@ == (MechanismView {
            name: "xml-signature"@,
            class: IdentityClass::HighAssurance,
            layer: Layer::Message,
            assurance: Assurance::Authenticates,
        }),
{
    Mechanism::declare("xml-signature", IdentityClass::HighAssurance, Layer::Message, Assurance::Authenticates)
}

/// RFC 8551. The sender half of AS2.
pub fn s_mime() -> (r: Mechanism)
    ensures
        r@ == (MechanismView {
            name: "s-mime"@,
            class: IdentityClass::HighAssurance,
            layer: Layer::Message,
            assurance: Assurance::Authenticates,
        }),
{
    Mechanism::declare("s-mime", IdentityClass::HighAssurance, Layer::Message, Assurance::Authenticates)
}

/// RFC 6376. Proves the message was signed by the claimed domain and is
/// unaltered.
pub fn dkim() -> (r: Mechanism)
    ensures
        r@ == (MechanismView {
            name: "dkim"@,
            class: IdentityClass::HighAssurance,
            layer: Layer::Message,
            assurance: Assurance::Authenticates,
        }),
{
    Mechanism::declare("dkim", IdentityClass::HighAssurance, Layer::Message, Assurance::Authenticates)
}

/// ISO 9735-5/6/7 AUTACK. EDIFACT with cryptography actually applied.
pub fn autack() -> (r: Mechanism)
    ensures
        r@ == (MechanismView {
            name: "autack"@,
            class: IdentityClass::HighAssurance,
            layer: Layer::Message,
            assurance: Assurance::Authenticates,
        }),
{
    Mechanism::declare("autack", IdentityClass::HighAssurance, Layer::Message, Assurance::Authenticates)
}

// -- Message: a name, and nothing behind it ------------------------------

/// X12 ISA05–ISA08. **Identifies. Does not authenticate.**
///
/// Enough to route and bill a Journey. Proving it is the transport's job,
/// or AS2's.
pub fn edi_x12_interchange() -> (r: Mechanism)
    ensures
        r@ == (MechanismView {
            name: "edi-x12-interchange"@,
            class: IdentityClass::SharedSecret,
            layer: Layer::Message,
            assurance: Assurance::Identifies,
        }),
{
    Mechanism::declare("edi-x12-interchange", IdentityClass::SharedSecret, Layer::Message, Assurance::Identifies)
}

/// EDIFACT UNB S002 and S003. **Identifies. Does not authenticate.**
pub fn edifact_interchange() -> (r: Mechanism)
    ensures
        r@ == (MechanismView {
            name: "edifact-interchange"@,
            class: IdentityClass::SharedSecret,
            layer: Layer::Message,
            assurance: Assurance::Identifies,
        }),
{
    Mechanism::declare("edifact-interchange", IdentityClass::SharedSecret, Layer::Message, Assurance::Identifies)
}

/// HL7 v2.x MSH-3 and MSH-4. **Identifies. Does not authenticate.**
///
/// MLLP is a framing protocol with no security whatever, carrying
/// healthcare data, so for most HL7 deployments this is the only identity
/// present anywhere.
pub fn hl7_sending_application() -> (r: Mechanism)
    ensures
        r@ == (MechanismView {
            name: "hl7-sending-application"@,
            class: IdentityClass::SharedSecret,
            layer: Layer::Message,
            assurance: Assurance::Identifies,
        }),
{
    Mechanism::declare("hl7-sending-application", IdentityClass::SharedSecret, Layer::Message, Assurance::Identifies)
}

// -- Transport: a name read off the connection, and nothing behind it ----
//
// None of the four classes is "a name with no proof"; [`circumstance`] set the precedent that such a claim is
// filed as a shared secret and marked as identifying only, and these follow
// it. Each is the last segment of `xmip-core-identify-<name>`.

/// The peer address. Spoofable on most networks and still the commonest
/// allow-list there is.
pub fn ip() -> (r: Mechanism)
    ensures
        r@ == (MechanismView {
            name: "ip"@,
            class: IdentityClass::SharedSecret,
            layer: Layer::Transport,
            assurance: Assurance::Identifies,
        }),
{
    Mechanism::declare("ip", IdentityClass::SharedSecret, Layer::Transport, Assurance::Identifies)
}

/// The peer's link-layer address, where a fieldbus or Ethernet transport
/// reports one.
pub fn mac() -> (r: Mechanism)
    ensures
        r@ == (MechanismView {
            name: "mac"@,
            class: IdentityClass::SharedSecret,
            layer: Layer::Transport,
            assurance: Assurance::Identifies,
        }),
{
    Mechanism::declare("mac", IdentityClass::SharedSecret, Layer::Transport, Assurance::Identifies)
}

/// The peer's reverse-resolved name, from the resolver the node is given.
pub fn dns() -> (r: Mechanism)
    ensures
        r@ == (MechanismView {
            name: "dns"@,
            class: IdentityClass::SharedSecret,
            layer: Layer::Transport,
            assurance: Assurance::Identifies,
        }),
{
    Mechanism::declare("dns", IdentityClass::SharedSecret, Layer::Transport, Assurance::Identifies)
}

/// One named transport header, read as presented.
pub fn header() -> (r: Mechanism)
    ensures
        r@ == (MechanismView {
            name: "header"@,
            class: IdentityClass::SharedSecret,
            layer: Layer::Transport,
            assurance: Assurance::Identifies,
        }),
{
    Mechanism::declare("header", IdentityClass::SharedSecret, Layer::Transport, Assurance::Identifies)
}

/// One named cookie.
pub fn cookie() -> (r: Mechanism)
    ensures
        r@ == (MechanismView {
            name: "cookie"@,
            class: IdentityClass::SharedSecret,
            layer: Layer::Transport,
            assurance: Assurance::Identifies,
        }),
{
    Mechanism::declare("cookie", IdentityClass::SharedSecret, Layer::Transport, Assurance::Identifies)
}

/// A username presented without a proof — an FTP `USER`, a SASL name, the
/// user half of a Basic credential. The proof, where one follows, is
/// [`password`]'s.
pub fn username() -> (r: Mechanism)
    ensures
        r@ == (MechanismView {
            name: "username"@,
            class: IdentityClass::SharedSecret,
            layer: Layer::Transport,
            assurance: Assurance::Identifies,
        }),
{
    Mechanism::declare("username", IdentityClass::SharedSecret, Layer::Transport, Assurance::Identifies)
}

/// The identity the Receive Location's configuration names for whatever
/// arrives on it. Inferred, never passed.
pub fn endpoint() -> (r: Mechanism)
    ensures
        r@ == (MechanismView {
            name: "endpoint"@,
            class: IdentityClass::SharedSecret,
            layer: Layer::Transport,
            assurance: Assurance::Identifies,
        }),
{
    Mechanism::declare("endpoint", IdentityClass::SharedSecret, Layer::Transport, Assurance::Identifies)
}

/// The Party the Location's configuration names. Inferred, never passed.
pub fn party() -> (r: Mechanism)
    ensures
        r@ == (MechanismView {
            name: "party"@,
            class: IdentityClass::SharedSecret,
            layer: Layer::Transport,
            assurance: Assurance::Identifies,
        }),
{
    Mechanism::declare("party", IdentityClass::SharedSecret, Layer::Transport, Assurance::Identifies)
}

/// One named property the carrier promoted — an AMQP container id, an MQTT
/// client id, a Kafka client id.
pub fn transport() -> (r: Mechanism)
    ensures
        r@ == (MechanismView {
            name: "transport"@,
            class: IdentityClass::SharedSecret,
            layer: Layer::Transport,
            assurance: Assurance::Identifies,
        }),
{
    Mechanism::declare("transport", IdentityClass::SharedSecret, Layer::Transport, Assurance::Identifies)
}

// -- Transport: verified by something the node holds or reaches -----------

/// RFC 7519 as a transport credential — a `Bearer` token with a signature
/// the node can check. Inside a payload it is [`jws`].
pub fn jwt() -> (r: Mechanism)
    ensures
        r@ == (MechanismView {
            name: "jwt"@,
            class: IdentityClass::Federated,
            layer: Layer::Transport,
            assurance: Assurance::Authenticates,
        }),
{
    Mechanism::declare("jwt", IdentityClass::Federated, Layer::Transport, Assurance::Authenticates)
}

/// SAML 2.0, an assertion signed by an identity provider.
pub fn saml() -> (r: Mechanism)
    ensures
        r@ == (MechanismView {
            name: "saml"@,
            class: IdentityClass::Federated,
            layer: Layer::Transport,
            assurance: Assurance::Authenticates,
        }),
{
    Mechanism::declare("saml", IdentityClass::Federated, Layer::Transport, Assurance::Authenticates)
}

/// NTLMv2. A challenge and a response over the stored NT hash.
pub fn ntlm() -> (r: Mechanism)
    ensures
        r@ == (MechanismView {
            name: "ntlm"@,
            class: IdentityClass::SharedSecret,
            layer: Layer::Transport,
            assurance: Assurance::Authenticates,
        }),
{
    Mechanism::declare("ntlm", IdentityClass::SharedSecret, Layer::Transport, Assurance::Authenticates)
}

/// A username and password proven by a bind at a directory.
pub fn ldap() -> (r: Mechanism)
    ensures
        r@ == (MechanismView {
            name: "ldap"@,
            class: IdentityClass::SharedSecret,
            layer: Layer::Transport,
            assurance: Assurance::Authenticates,
        }),
{
    Mechanism::declare("ldap", IdentityClass::SharedSecret, Layer::Transport, Assurance::Authenticates)
}

/// A username and password proven by the host's PAM stack.
pub fn pam() -> (r: Mechanism)
    ensures
        r@ == (MechanismView {
            name: "pam"@,
            class: IdentityClass::SharedSecret,
            layer: Layer::Transport,
            assurance: Assurance::Authenticates,
        }),
{
    Mechanism::declare("pam", IdentityClass::SharedSecret, Layer::Transport, Assurance::Authenticates)
}

/// A credential proven by the host's SSPI.
pub fn windows() -> (r: Mechanism)
    ensures
        r@ == (MechanismView {
            name: "windows"@,
            class: IdentityClass::SharedSecret,
            layer: Layer::Transport,
            assurance: Assurance::Authenticates,
        }),
{
    Mechanism::declare("windows", IdentityClass::SharedSecret, Layer::Transport, Assurance::Authenticates)
}

// -- Message: a name read out of the Message, and nothing behind it -------

/// One named property of the Message's context — an EDI sender id promoted
/// earlier, a routing key. **Identifies. Does not authenticate.**
pub fn message() -> (r: Mechanism)
    ensures
        r@ == (MechanismView {
            name: "message"@,
            class: IdentityClass::SharedSecret,
            layer: Layer::Message,
            assurance: Assurance::Identifies,
        }),
{
    Mechanism::declare("message", IdentityClass::SharedSecret, Layer::Message, Assurance::Identifies)
}

/// The Party the Contract the first section is bound to names as its sender.
/// **Identifies. Does not authenticate.**
pub fn contract() -> (r: Mechanism)
    ensures
        r@ == (MechanismView {
            name: "contract"@,
            class: IdentityClass::SharedSecret,
            layer: Layer::Message,
            assurance: Assurance::Identifies,
        }),
{
    Mechanism::declare("contract", IdentityClass::SharedSecret, Layer::Message, Assurance::Identifies)
}

} // verus!
