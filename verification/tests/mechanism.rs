use xmip_core::mechanism;
use xmip_core::mechanism::{Assurance, IdentityClass, Layer, Mechanism};

#[test]
fn class_and_layer_come_from_the_mechanism_not_from_configuration() {
    assert_eq!(mechanism::mutual_tls().class(), IdentityClass::HighAssurance);

    assert_eq!(mechanism::api_key().class(), IdentityClass::SharedSecret);
}

#[test]
fn a_bearer_token_proves_possession_and_not_an_issuer() {
    assert_eq!(mechanism::bearer().class(), IdentityClass::SharedSecret);
    assert_eq!(mechanism::oauth2().class(), IdentityClass::Federated);
}

#[test]
fn a_signed_http_request_is_still_transport() {
    let signed = mechanism::http_message_signature();

    assert_eq!(signed.layer(), Layer::Transport);
    assert_eq!(signed.class(), IdentityClass::HighAssurance);
}

#[test]
fn edi_interchange_identifiers_name_a_party_and_prove_nothing() {
    for claim in [
        mechanism::edi_x12_interchange(),
        mechanism::edifact_interchange(),
        mechanism::hl7_sending_application(),
    ] {
        assert!(!claim.authenticates(), "{} carries no cryptography", claim.name());
    }

    assert!(mechanism::autack().authenticates());
}

#[test]
fn a_drop_folder_is_an_identity_rather_than_the_absence_of_one() {
    let folder = mechanism::circumstance();

    assert_eq!(folder.layer(), Layer::Transport);
    assert_ne!(folder.class(), IdentityClass::Anonymous);
    assert!(folder.authenticates());
}

#[test]
fn a_kernel_vouched_identity_is_never_presented_and_still_proves_most() {
    assert_eq!(mechanism::peer_credentials().class(), IdentityClass::HighAssurance);
}

#[test]
fn every_identity_technology_of_adr_0050_has_a_declared_mechanism() {
    let names = [
        "ip",
        "mac",
        "dns",
        "header",
        "cookie",
        "username",
        "api-key",
        "certificate",
        "ssh-key",
        "jwt",
        "oidc",
        "saml",
        "kerberos",
        "ntlm",
        "endpoint",
        "party",
        "transport",
        "message",
        "contract",
        "password",
        "basic",
        "digest",
        "bearer",
        "scram",
        "oauth2",
        "mutual-tls",
        "ldap",
        "pam",
        "windows",
    ];
    let declared = [
        mechanism::ip(),
        mechanism::mac(),
        mechanism::dns(),
        mechanism::header(),
        mechanism::cookie(),
        mechanism::username(),
        mechanism::api_key(),
        mechanism::certificate(),
        mechanism::ssh_key(),
        mechanism::jwt(),
        mechanism::oidc(),
        mechanism::saml(),
        mechanism::kerberos(),
        mechanism::ntlm(),
        mechanism::endpoint(),
        mechanism::party(),
        mechanism::transport(),
        mechanism::message(),
        mechanism::contract(),
        mechanism::password(),
        mechanism::basic(),
        mechanism::digest(),
        mechanism::bearer(),
        mechanism::scram(),
        mechanism::oauth2(),
        mechanism::mutual_tls(),
        mechanism::ldap(),
        mechanism::pam(),
        mechanism::windows(),
    ];

    for (name, declared) in names.iter().zip(declared.iter()) {
        assert_eq!(declared.name(), *name);
    }
}

#[test]
fn a_name_read_off_the_connection_identifies_and_proves_nothing() {
    for claim in [
        mechanism::ip(),
        mechanism::header(),
        mechanism::username(),
        mechanism::endpoint(),
        mechanism::message(),
    ] {
        assert!(!claim.authenticates(), "{} is a name", claim.name());
    }
}

#[test]
fn a_declared_mechanism_keeps_what_it_was_declared_with() {
    let m = Mechanism::declare(
        "acme-scim",
        IdentityClass::Federated,
        Layer::Message,
        Assurance::Identifies,
    );
    assert_eq!(m.name(), "acme-scim");
    assert_eq!(m.class(), IdentityClass::Federated);
    assert_eq!(m.layer(), Layer::Message);
    assert_eq!(m.assurance(), Assurance::Identifies);
    assert!(!m.authenticates());
}

#[test]
fn message_layer_proofs_authenticate_in_the_payload() {
    for proof in [
        mechanism::ws_security(),
        mechanism::jws(),
        mechanism::xml_signature(),
        mechanism::s_mime(),
        mechanism::dkim(),
        mechanism::autack(),
    ] {
        assert_eq!(proof.layer(), Layer::Message);
        assert_eq!(proof.class(), IdentityClass::HighAssurance);
        assert_eq!(proof.assurance(), Assurance::Authenticates);
    }
}

#[test]
fn the_remaining_declarations_are_as_declared() {
    let m = mechanism::passkey();
    assert_eq!((m.name(), m.class(), m.layer()), ("passkey", IdentityClass::HighAssurance, Layer::Transport));
    let m = mechanism::sigv4();
    assert_eq!((m.name(), m.class()), ("sigv4", IdentityClass::SharedSecret));
    let m = mechanism::shared_access_signature();
    assert_eq!((m.name(), m.class()), ("shared-access-signature", IdentityClass::SharedSecret));
    let m = mechanism::anonymous();
    assert_eq!((m.name(), m.class(), m.assurance()), ("anonymous", IdentityClass::Anonymous, Assurance::Authenticates));
    let m = mechanism::mac();
    assert_eq!((m.name(), m.assurance()), ("mac", Assurance::Identifies));
}

#[test]
fn identity_classes_read_as_their_configuration_names() {
    assert_eq!(IdentityClass::HighAssurance.to_string(), "highAssurance");
    assert_eq!(IdentityClass::Federated.to_string(), "federated");
    assert_eq!(IdentityClass::SharedSecret.to_string(), "sharedSecret");
    assert_eq!(IdentityClass::Anonymous.to_string(), "anonymous");
}
