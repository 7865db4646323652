use xmip_core::text::{compare_text, TextOrder};
use xmip_core::{Arriving, CredentialRef, Departing, Established, Purpose};

#[test]
fn arrivals_and_departures_are_not_the_same_three() {
    assert_eq!(Arriving::Pushed.to_string(), "pushed");
    assert_eq!(Arriving::Detected.to_string(), "detected");
    assert_eq!(Arriving::Scheduled.to_string(), "scheduled");
    assert_eq!(Departing::Pushed.to_string(), "pushed");
    assert_eq!(Departing::Collected.to_string(), "collected");
    assert_eq!(Departing::Scheduled.to_string(), "scheduled");
}

#[test]
fn provenance_reads_as_its_name() {
    assert_eq!(Established::Passed.to_string(), "passed");
    assert_eq!(Established::Inferred.to_string(), "inferred");
    assert_eq!(Established::Detected.to_string(), "detected");
}

#[test]
fn processing_and_sending_need_credential_material() {
    assert!(Purpose::Process.needs_credential());
    assert!(Purpose::Send.needs_credential());
    assert!(!Purpose::Receive.needs_credential());
    assert!(!Purpose::Operate.needs_credential());
    assert_eq!(Purpose::Receive.to_string(), "receive");
    assert_eq!(Purpose::Process.to_string(), "process");
    assert_eq!(Purpose::Send.to_string(), "send");
    assert_eq!(Purpose::Operate.to_string(), "operate");
}

#[test]
fn a_credential_is_named_by_store_and_reference() {
    let credential = CredentialRef::new("azure-key-vault", "partner-x/signing");
    assert_eq!(credential.store, "azure-key-vault");
    assert_eq!(credential.reference, "partner-x/signing");
    assert_eq!(credential.to_string(), "azure-key-vault:partner-x/signing");
}

#[test]
fn texts_compare_character_by_character() {
    assert_eq!(compare_text("a", "b"), TextOrder::Before);
    assert_eq!(compare_text("b", "a"), TextOrder::After);
    assert_eq!(compare_text("ab", "ab"), TextOrder::Same);
    assert_eq!(compare_text("a", "ab"), TextOrder::Before);
    assert_eq!(compare_text("ab", "a"), TextOrder::After);
    assert_eq!(compare_text("", ""), TextOrder::Same);
    assert_eq!(compare_text("Z", "a"), TextOrder::Before);
}
