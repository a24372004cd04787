use authrs_bridge::ceremony::{
    is_none_attestation, parse_resident_key, parse_user_verification, ResidentKeyRequirement,
    UserVerificationRequirement,
};
use authrs_bridge::dom_query::{
    collect_all_elements, connected_element_is_descendant_of, has_attr, MayUseInvalidation, Node,
    NodeKind, QueryAll, QueryFirst, SelectorQuery, SimpleFilter, Tree,
};
use authrs_bridge::errors::{
    authrs_to_nserror, error_cancels_prompts, BackendError, PinFailure, Status,
};
use authrs_bridge::prompt::{cancel_prompts, send_prompt, PromptKind};
use authrs_bridge::results::{CredentialPublicKey, CtapSignResult, SignOutcome, WebAuthnAttObj};
use authrs_bridge::transport::{AuthrsTransport, Config};
use authrs_bridge::virtual_token::{decode_arg, AuthenticatorVersion};

fn transport() -> AuthrsTransport<u32, u8> {
    AuthrsTransport::new(Config {
        usb_token_enabled: false,
        soft_token_enabled: true,
        ctap2_enabled: true,
        allow_direct_attestation: false,
    })
}

#[test]
fn error_codes() {
    assert_eq!(authrs_to_nserror(&BackendError::CredentialExcluded), Status::DomInvalidState);
    assert_eq!(authrs_to_nserror(&BackendError::NotAllowed), Status::DomNotAllowed);
    assert_eq!(
        authrs_to_nserror(&BackendError::PinError(PinFailure::PinInvalid)),
        Status::DomNotAllowed
    );
    assert!(!error_cancels_prompts(&BackendError::CredentialExcluded));
    assert!(error_cancels_prompts(&BackendError::TransportFailure));
    assert!(error_cancels_prompts(&BackendError::PinError(PinFailure::UvBlocked)));
}

#[test]
fn prompt_queueing() {
    let mut out = Vec::new();
    send_prompt(&mut out, PromptKind::UvInvalid { retries: Some(2) }, 9, Some("o".to_string()), Some(4));
    cancel_prompts(&mut out, 9);
    assert_eq!(out.len(), 2);
    assert!(matches!(out[0].kind, PromptKind::UvInvalid { retries: Some(2) }));
    assert_eq!(out[0].origin.as_deref(), Some("o"));
    assert!(matches!(out[1].kind, PromptKind::Cancel));
    assert_eq!(out[1].tid, 9);
    assert_eq!(out[1].origin, None);
    assert_eq!(out[1].browsing_context_id, None);
}

#[test]
fn option_parsing() {
    assert_eq!(parse_resident_key("required"), Some(ResidentKeyRequirement::Required));
    assert_eq!(parse_resident_key("preferred"), Some(ResidentKeyRequirement::Preferred));
    assert_eq!(parse_resident_key("discouraged"), Some(ResidentKeyRequirement::Discouraged));
    assert_eq!(parse_resident_key("Required"), None);
    assert_eq!(parse_user_verification("required"), UserVerificationRequirement::Required);
    assert_eq!(parse_user_verification("discouraged"), UserVerificationRequirement::Discouraged);
    assert_eq!(parse_user_verification("whatever"), UserVerificationRequirement::Preferred);
    assert!(is_none_attestation("none"));
    assert!(is_none_attestation(""));
    assert!(!is_none_attestation("direct"));
    assert!(!is_none_attestation("indirect"));
    assert!(!is_none_attestation("enterprise"));
}

#[test]
fn sign_result_accessors() {
    let r = CtapSignResult {
        result: Ok(SignOutcome {
            credential_id: None,
            signature: vec![1, 2],
            authenticator_data: vec![3],
            user: Some(authrs_bridge::prompt::UserEntity {
                id: vec![4],
                name: None,
                display_name: None,
            }),
            used_app_id: Some(true),
        }),
    };
    assert_eq!(r.get_credential_id().map(|v| v.to_vec()), Err(Status::Failure));
    assert_eq!(r.get_signature().unwrap().to_vec(), vec![1, 2]);
    assert_eq!(r.get_authenticator_data().unwrap().to_vec(), vec![3]);
    assert_eq!(r.get_user_handle().unwrap().to_vec(), vec![4]);
    assert_eq!(r.get_user_name(), Err(Status::NotAvailable));
    assert_eq!(r.get_used_app_id(), Ok(true));

    let e = CtapSignResult { result: Err(BackendError::NotAllowed) };
    assert_eq!(e.get_user_handle().map(|v| v.to_vec()), Err(Status::NotAvailable));
    assert_eq!(e.get_used_app_id(), Err(Status::Failure));
    assert_eq!(e.get_signature().map(|v| v.to_vec()), Err(Status::Failure));
}

#[test]
fn attestation_object_accessors() {
    let a = WebAuthnAttObj {
        attestation_object: Some(vec![0xa3]),
        authenticator_data: vec![1, 1],
        credential: Some(CredentialPublicKey { der_spki: None, algorithm: -7 }),
    };
    assert_eq!(a.get_attestation_object().unwrap().to_vec(), vec![0xa3]);
    assert_eq!(a.get_authenticator_data().unwrap().to_vec(), vec![1, 1]);
    assert_eq!(a.get_public_key().map(|v| v.to_vec()), Err(Status::NotAvailable));
    assert_eq!(a.get_public_key_algorithm(), Ok(-7));
    let b = WebAuthnAttObj { attestation_object: None, authenticator_data: vec![], credential: None };
    assert_eq!(b.get_public_key().map(|v| v.to_vec()), Err(Status::Failure));
    assert_eq!(b.get_public_key_algorithm(), Err(Status::Failure));
    assert_eq!(b.get_attestation_object().map(|v| v.to_vec()), Err(Status::Failure));
}

#[test]
fn base64url_arguments() {
    assert_eq!(decode_arg("AQID"), Ok(vec![1, 2, 3]));
    assert_eq!(decode_arg("_-8"), Ok(vec![0xff, 0xef]));
    assert_eq!(decode_arg("AQID=="), Err(Status::InvalidArg));
    assert_eq!(decode_arg("A+B/"), Err(Status::InvalidArg));
    let t = transport();
    let c = t.add_credential(3, "AQ", true, "example.com", "AgI", "Aw", 5).unwrap();
    assert_eq!(c.authenticator_id, 3);
    assert_eq!(c.credential_id, vec![1]);
    assert_eq!(c.private_key, vec![2, 2]);
    assert_eq!(c.user_handle, vec![3]);
    assert_eq!(c.rp_id, "example.com");
    assert_eq!(c.sign_count, 5);
    assert!(c.is_resident_credential);
    assert!(matches!(t.add_credential(3, "AQ", true, "x", "***", "Aw", 5), Err(Status::InvalidArg)));
    assert_eq!(t.remove_credential("AQID"), Ok(vec![1, 2, 3]));
    assert_eq!(t.remove_credential("?"), Err(Status::InvalidArg));
}

#[test]
fn virtual_authenticator_descriptions() {
    let t = transport();
    let a = t.add_virtual_authenticator("ctap2_1", "internal", true, false, true, false).unwrap();
    assert_eq!(a.protocol, AuthenticatorVersion::Fido21);
    assert!(a.has_resident_key && !a.has_user_verification && a.is_user_consenting);
    assert_eq!(
        t.add_virtual_authenticator("ctap1/u2f", "usb", false, false, false, false)
            .unwrap()
            .protocol,
        AuthenticatorVersion::U2fV2
    );
    assert_eq!(
        t.add_virtual_authenticator("ctap2", "smart-card", false, false, false, false)
            .unwrap()
            .protocol,
        AuthenticatorVersion::Fido20
    );
    assert!(matches!(
        t.add_virtual_authenticator("ctap3", "usb", false, false, false, false),
        Err(Status::InvalidArg)
    ));
    assert!(matches!(
        t.add_virtual_authenticator("ctap2", "serial", false, false, false, false),
        Err(Status::InvalidArg)
    ));
}

fn node(kind: NodeKind, parent: Option<usize>, name: &str, attrs: &[&str], id: Option<&str>) -> Node {
    Node {
        kind,
        parent,
        local_name: name.to_string(),
        attr_names: attrs.iter().map(|a| a.to_string()).collect(),
        id: id.map(|s| s.to_string()),
    }
}

// document > html > (body > (div#a[title] > p[title]), span)
fn sample_tree() -> Tree {
    Tree {
        nodes: vec![
            node(NodeKind::Document, None, "", &[], None),
            node(NodeKind::Element, Some(0), "html", &[], None),
            node(NodeKind::Element, Some(1), "body", &[], None),
            node(NodeKind::Element, Some(2), "div", &["title", "id"], Some("a")),
            node(NodeKind::Text, Some(3), "", &[], None),
            node(NodeKind::Element, Some(3), "p", &["title"], None),
            node(NodeKind::Element, Some(1), "span", &[], None),
        ],
    }
}

#[test]
fn attribute_presence() {
    let t = sample_tree();
    assert!(has_attr(&t.nodes[3], "title"));
    assert!(has_attr(&t.nodes[3], "id"));
    assert!(!has_attr(&t.nodes[3], "class"));
    assert!(!has_attr(&t.nodes[1], "title"));
}

#[test]
fn descendant_checks() {
    let t = sample_tree();
    assert!(connected_element_is_descendant_of(&t, 5, 2));
    assert!(connected_element_is_descendant_of(&t, 5, 0));
    assert!(!connected_element_is_descendant_of(&t, 6, 2));
    assert!(!connected_element_is_descendant_of(&t, 2, 2));
}

#[test]
fn query_all_collects_in_document_order() {
    let t = sample_tree();
    let mut out = QueryAll::new_output();
    collect_all_elements::<QueryAll>(&t, 1, &mut out, &SimpleFilter::Attr("title".to_string()));
    assert_eq!(out.to_vec(), vec![3, 5]);
    let mut all = QueryAll::new_output();
    collect_all_elements::<QueryAll>(&t, 0, &mut all, &SimpleFilter::Any);
    assert_eq!(all.to_vec(), vec![1, 2, 3, 5, 6]);
    let mut none = QueryAll::new_output();
    collect_all_elements::<QueryAll>(&t, 5, &mut none, &SimpleFilter::Any);
    assert!(<QueryAll as SelectorQuery>::is_empty(&none));
}

#[test]
fn query_first_stops_at_first_match() {
    let t = sample_tree();
    let mut first: Option<usize> = None;
    collect_all_elements::<QueryFirst>(&t, 0, &mut first, &SimpleFilter::LocalName("p".to_string()));
    assert_eq!(first, Some(5));
    let mut by_id: Option<usize> = None;
    collect_all_elements::<QueryFirst>(&t, 2, &mut by_id, &SimpleFilter::Id("a".to_string()));
    assert_eq!(by_id, Some(3));
    let mut kept = Some(6);
    collect_all_elements::<QueryFirst>(&t, 0, &mut kept, &SimpleFilter::Any);
    assert_eq!(kept, Some(6));
    assert!(<QueryFirst as SelectorQuery>::should_stop_after_first_match());
    assert!(!<QueryAll as SelectorQuery>::should_stop_after_first_match());
    assert!(MayUseInvalidation::Yes != MayUseInvalidation::No);
}
