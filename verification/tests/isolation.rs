use xmip_core::isolation::IdentityContext;
use xmip_core::mechanism;
use xmip_core::mechanism::IdentityClass;

fn kerberos(delegation: &str) -> IdentityContext {
    IdentityContext::new(&mechanism::kerberos())
        .with("realm", "CORP.EXAMPLE")
        .with("principal", "xmip/node-a.corp.example")
        .with("delegation-scope", delegation)
}

#[test]
fn delegation_scope_separates_one_principal_into_two_contexts() {
    assert_ne!(kerberos("unconstrained"), kerberos("constrained"));
    assert!(!kerberos("unconstrained").may_share_host_process(&kerberos("constrained")));
}

#[test]
fn identical_facts_are_one_context() {
    assert!(kerberos("constrained").may_share_host_process(&kerberos("constrained")));
}

#[test]
fn anonymous_does_not_share_with_authenticated_work() {
    let open = IdentityContext::new(&mechanism::anonymous());
    let keyed = IdentityContext::new(&mechanism::api_key()).with("key-id", "partner-x");

    assert!(!open.may_share_host_process(&keyed));
}

#[test]
fn a_context_reads_as_something_an_operator_can_act_on() {
    assert_eq!(
        kerberos("constrained").to_string(),
        "kerberos[highAssurance] delegation-scope=constrained principal=xmip/node-a.corp.example realm=CORP.EXAMPLE"
    );
}

#[test]
fn a_new_context_carries_the_mechanism_and_no_facts() {
    let context = IdentityContext::new(&mechanism::oidc());
    assert_eq!(context.mechanism(), "oidc");
    assert_eq!(context.class(), IdentityClass::Federated);
    assert_eq!(context.fact("realm"), None);
    assert_eq!(context.to_string(), "oidc[federated]");
}

#[test]
fn a_fact_reads_back_what_was_given() {
    let context = kerberos("constrained");
    assert_eq!(context.fact("realm"), Some("CORP.EXAMPLE"));
    assert_eq!(context.fact("principal"), Some("xmip/node-a.corp.example"));
    assert_eq!(context.fact("delegation-scope"), Some("constrained"));
    assert_eq!(context.fact("delegation"), None);
    assert_eq!(context.fact("zone"), None);
    assert_eq!(context.fact(""), None);
}

#[test]
fn a_later_value_replaces_an_earlier_one() {
    let replaced = kerberos("unconstrained").with("delegation-scope", "constrained");
    assert_eq!(replaced.fact("delegation-scope"), Some("constrained"));
    assert!(replaced.may_share_host_process(&kerberos("constrained")));
    assert_eq!(replaced, kerberos("constrained"));
    assert_eq!(replaced.to_string(), kerberos("constrained").to_string());
}

#[test]
fn the_order_facts_are_given_in_does_not_matter() {
    let one = IdentityContext::new(&mechanism::kerberos())
        .with("delegation-scope", "constrained")
        .with("principal", "xmip/node-a.corp.example")
        .with("realm", "CORP.EXAMPLE");
    assert!(one.may_share_host_process(&kerberos("constrained")));
    assert!(kerberos("constrained").may_share_host_process(&one));
    assert_eq!(one.to_string(), kerberos("constrained").to_string());
}

#[test]
fn a_missing_fact_separates_contexts() {
    let fewer = IdentityContext::new(&mechanism::kerberos())
        .with("realm", "CORP.EXAMPLE")
        .with("principal", "xmip/node-a.corp.example");
    assert!(!fewer.may_share_host_process(&kerberos("constrained")));
    assert!(!kerberos("constrained").may_share_host_process(&fewer));
}

#[test]
fn the_same_facts_under_another_mechanism_are_another_context() {
    let a = IdentityContext::new(&mechanism::basic()).with("user", "x");
    let b = IdentityContext::new(&mechanism::digest()).with("user", "x");
    assert!(!a.may_share_host_process(&b));
    let c = IdentityContext::new(&mechanism::basic()).with("user", "x");
    assert!(a.may_share_host_process(&c));
}

#[test]
fn a_name_that_is_a_prefix_of_another_sorts_first() {
    let context = IdentityContext::new(&mechanism::header())
        .with("ab", "2")
        .with("a", "1")
        .with("b", "3");
    assert_eq!(context.to_string(), "header[sharedSecret] a=1 ab=2 b=3");
}

#[test]
fn names_sort_by_code_point_not_by_case() {
    let context = IdentityContext::new(&mechanism::header())
        .with("b", "lower")
        .with("B", "upper")
        .with("é", "accent");
    assert_eq!(context.to_string(), "header[sharedSecret] B=upper b=lower é=accent");
}

#[test]
fn a_clone_is_the_same_context() {
    let context = kerberos("constrained");
    let copy = context.clone();
    assert!(copy.may_share_host_process(&context));
    assert_eq!(copy.to_string(), context.to_string());
}
