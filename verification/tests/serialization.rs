use authn_context::AuthnContextClassRef;
use authn_context::AuthnContextComparison;
use authn_context::AuthnContextDeclRef;
use authn_context::RequestedAuthnContext;

fn class_ref(value: Option<&str>) -> AuthnContextClassRef {
    AuthnContextClassRef {
        value: value.map(|v| v.to_string()),
    }
}

fn decl_ref(value: Option<&str>) -> AuthnContextDeclRef {
    AuthnContextDeclRef {
        value: value.map(|v| v.to_string()),
    }
}

#[test]
fn empty_context_serializes_to_bare_element() {
    let rc = RequestedAuthnContext {
        authn_context_class_refs: None,
        authn_context_decl_refs: None,
        comparison: None,
    };
    assert_eq!(
        rc.to_xml().unwrap(),
        "<saml2p:RequestedAuthnContext xmlns:saml2=\"urn:oasis:names:tc:SAML:2.0:assertion\"></saml2p:RequestedAuthnContext>"
    );
}

#[test]
fn no_comparison_omits_the_attribute() {
    let rc = RequestedAuthnContext {
        authn_context_class_refs: None,
        authn_context_decl_refs: Some(vec![decl_ref(Some("urn:d"))]),
        comparison: None,
    };
    let out = rc.to_xml().unwrap();
    assert!(!out.contains("Comparison"));
}

#[test]
fn comparison_attribute_follows_namespace_declaration() {
    let rc = RequestedAuthnContext {
        authn_context_class_refs: None,
        authn_context_decl_refs: None,
        comparison: Some(AuthnContextComparison::Better),
    };
    assert_eq!(
        rc.to_xml().unwrap(),
        "<saml2p:RequestedAuthnContext xmlns:saml2=\"urn:oasis:names:tc:SAML:2.0:assertion\" Comparison=\"better\"></saml2p:RequestedAuthnContext>"
    );
}

#[test]
fn present_empty_class_refs_suppress_decl_refs() {
    let rc = RequestedAuthnContext {
        authn_context_class_refs: Some(vec![]),
        authn_context_decl_refs: Some(vec![decl_ref(Some("urn:d"))]),
        comparison: None,
    };
    assert_eq!(
        rc.to_xml().unwrap(),
        "<saml2p:RequestedAuthnContext xmlns:saml2=\"urn:oasis:names:tc:SAML:2.0:assertion\"></saml2p:RequestedAuthnContext>"
    );
}

#[test]
fn valueless_decl_ref_contributes_no_child() {
    let rc = RequestedAuthnContext {
        authn_context_class_refs: None,
        authn_context_decl_refs: Some(vec![decl_ref(None), decl_ref(Some("x"))]),
        comparison: None,
    };
    assert_eq!(
        rc.to_xml().unwrap(),
        "<saml2p:RequestedAuthnContext xmlns:saml2=\"urn:oasis:names:tc:SAML:2.0:assertion\"><saml2:AuthnContextDeclRef>x</saml2:AuthnContextDeclRef></saml2p:RequestedAuthnContext>"
    );
}

#[test]
fn class_ref_with_exact_comparison() {
    let rc = RequestedAuthnContext {
        authn_context_class_refs: Some(vec![class_ref(Some("urn:x"))]),
        authn_context_decl_refs: None,
        comparison: Some(AuthnContextComparison::Exact),
    };
    assert_eq!(
        rc.to_xml().unwrap(),
        "<saml2p:RequestedAuthnContext xmlns:saml2=\"urn:oasis:names:tc:SAML:2.0:assertion\" Comparison=\"exact\"><saml2:AuthnContextClassRef>urn:x</saml2:AuthnContextClassRef></saml2p:RequestedAuthnContext>"
    );
}

#[test]
fn children_keep_list_order() {
    let rc = RequestedAuthnContext {
        authn_context_class_refs: None,
        authn_context_decl_refs: Some(vec![decl_ref(Some("urn:a")), decl_ref(Some("urn:b"))]),
        comparison: Some(AuthnContextComparison::Minimum),
    };
    assert_eq!(
        rc.to_xml().unwrap(),
        "<saml2p:RequestedAuthnContext xmlns:saml2=\"urn:oasis:names:tc:SAML:2.0:assertion\" Comparison=\"minimum\"><saml2:AuthnContextDeclRef>urn:a</saml2:AuthnContextDeclRef><saml2:AuthnContextDeclRef>urn:b</saml2:AuthnContextDeclRef></saml2p:RequestedAuthnContext>"
    );
}

#[test]
fn class_refs_keep_list_order() {
    let rc = RequestedAuthnContext {
        authn_context_class_refs: Some(vec![class_ref(Some("urn:a")), class_ref(Some("urn:b"))]),
        authn_context_decl_refs: None,
        comparison: None,
    };
    assert_eq!(
        rc.to_xml().unwrap(),
        "<saml2p:RequestedAuthnContext xmlns:saml2=\"urn:oasis:names:tc:SAML:2.0:assertion\"><saml2:AuthnContextClassRef>urn:a</saml2:AuthnContextClassRef><saml2:AuthnContextClassRef>urn:b</saml2:AuthnContextClassRef></saml2p:RequestedAuthnContext>"
    );
}

#[test]
fn decl_ref_serializes_value_between_tags() {
    let d = decl_ref(Some("urn:custom:policy"));
    assert_eq!(
        d.to_xml().unwrap(),
        "<saml2:AuthnContextDeclRef>urn:custom:policy</saml2:AuthnContextDeclRef>"
    );
}

#[test]
fn decl_ref_without_value_serializes_to_empty_text() {
    let d = decl_ref(None);
    assert_eq!(d.to_xml().unwrap(), "");
}

#[test]
fn class_ref_serializes_value_between_tags() {
    let c = class_ref(Some("urn:class"));
    assert_eq!(
        c.to_xml().unwrap(),
        "<saml2:AuthnContextClassRef>urn:class</saml2:AuthnContextClassRef>"
    );
}

#[test]
fn class_ref_without_value_serializes_to_empty_text() {
    let c = class_ref(None);
    assert_eq!(c.to_xml().unwrap(), "");
}

#[test]
fn element_names() {
    assert_eq!(AuthnContextDeclRef::name(), "saml2:AuthnContextDeclRef");
    assert_eq!(AuthnContextClassRef::name(), "saml2:AuthnContextClassRef");
    assert_eq!(RequestedAuthnContext::name(), "saml2p:RequestedAuthnContext");
}
