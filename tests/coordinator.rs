use authrs_bridge::ceremony::{RegisterRequest, SignRequest};
use authrs_bridge::completion::RegisterPlan;
use authrs_bridge::errors::{BackendError, PinFailure, Status};
use authrs_bridge::prompt::{Prompt, PromptKind, UserEntity};
use authrs_bridge::results::{CtapRegisterResult, RegisterOutcome, SignOutcome};
use authrs_bridge::transport::{
    Action, AuthrsTransport, Backend, Config, SignCompletion, StatusContext, StatusEvent,
};

type Transport = AuthrsTransport<u32, u8>;

fn usb_config() -> Config {
    Config {
        usb_token_enabled: true,
        soft_token_enabled: false,
        ctap2_enabled: true,
        allow_direct_attestation: false,
    }
}

fn register_request(conveyance: &str) -> RegisterRequest {
    RegisterRequest {
        origin: "https://example.com".to_string(),
        rp_id: "example.com".to_string(),
        client_data_hash: [7u8; 32],
        timeout_ms: 30000,
        exclude_list: vec![vec![9, 9]],
        user_id: vec![1, 2, 3],
        user_name: "alice".to_string(),
        cose_algs: vec![-7, -257],
        resident_key: "discouraged".to_string(),
        user_verification: "preferred".to_string(),
        authenticator_attachment: None,
        attestation_conveyance: conveyance.to_string(),
        cred_props: true,
        min_pin_length: false,
    }
}

fn sign_request(allow_list: Vec<Vec<u8>>) -> SignRequest {
    SignRequest {
        origin: "https://example.com".to_string(),
        rp_id: "example.com".to_string(),
        client_data_hash: [3u8; 32],
        timeout_ms: 10000,
        allow_list,
        user_verification: "required".to_string(),
        app_id: None,
    }
}

fn kinds_and_tids(prompts: &[Prompt]) -> Vec<(String, u64)> {
    prompts
        .iter()
        .map(|p| {
            let k = match &p.kind {
                PromptKind::AlreadyRegistered => "already-registered",
                PromptKind::Cancel => "cancel",
                PromptKind::DeviceBlocked => "device-blocked",
                PromptKind::PinAuthBlocked => "pin-auth-blocked",
                PromptKind::PinNotSet => "pin-not-set",
                PromptKind::Presence => "presence",
                PromptKind::SelectDevice => "select-device",
                PromptKind::UvBlocked => "uv-blocked",
                PromptKind::PinRequired => "pin-required",
                PromptKind::PinInvalid { .. } => "pin-invalid",
                PromptKind::RegisterDirect => "register-direct",
                PromptKind::UvInvalid { .. } => "uv-invalid",
                PromptKind::SelectSignResult { .. } => "select-sign-result",
            };
            (k.to_string(), p.tid)
        })
        .collect()
}

fn pairs(v: &[(&str, u64)]) -> Vec<(String, u64)> {
    v.iter().map(|(k, t)| (k.to_string(), *t)).collect()
}

fn ctx(tid: u64) -> StatusContext {
    StatusContext { tid, origin: "https://example.com".to_string(), browsing_context_id: 7 }
}

#[test]
fn direct_registration_end_to_end() {
    let mut t = Transport::new(usb_config());
    assert_eq!(t.make_credential(1, 7, register_request("direct")), Ok(()));
    let prompts = t.take_prompts();
    assert_eq!(kinds_and_tids(&prompts), pairs(&[("register-direct", 1)]));
    assert_eq!(prompts[0].origin.as_deref(), Some("https://example.com"));
    assert_eq!(prompts[0].browsing_context_id, Some(7));
    assert!(t.take_actions().is_empty());
    assert!(t.is_awaiting_consent(1));

    assert_eq!(t.resume_make_credential(1, false), Ok(()));
    let mut actions = t.take_actions();
    assert_eq!(actions.len(), 1);
    let (status, completion) = match actions.remove(0) {
        Action::Register { backend, timeout_ms, args, status, completion } => {
            assert_eq!(backend, Backend::UsbToken);
            assert_eq!(timeout_ms, 30000);
            assert_eq!(args.rp_id, "example.com");
            (status, completion)
        }
        _ => panic!("expected a registration"),
    };
    t.handle_status_update(&status, StatusEvent::PresenceRequired);
    assert_eq!(kinds_and_tids(&t.take_prompts()), pairs(&[("presence", 1)]));

    let plan: RegisterPlan = completion.complete(None);
    assert!(!plan.anonymize);
    assert_eq!(kinds_and_tids(&plan.prompts), pairs(&[("cancel", 1)]));
    assert_eq!(t.active_transaction(), Some(1));
}

#[test]
fn second_begin_resets_first() {
    let mut t = Transport::new(usb_config());
    assert_eq!(t.get_assertion(1, 7, sign_request(vec![])), Ok(()));
    t.handle_status_update(&ctx(1), StatusEvent::PinRequired(11));
    t.handle_status_update(&ctx(1), StatusEvent::SelectResultNotice(3, vec![]));
    t.take_prompts();
    t.take_actions();
    assert_eq!(t.make_credential(2, 7, register_request("none")), Ok(()));
    assert_eq!(
        kinds_and_tids(&t.take_prompts()),
        pairs(&[("cancel", 1), ("presence", 2)])
    );
    let actions = t.take_actions();
    assert_eq!(actions.len(), 2);
    assert!(matches!(actions[0], Action::AbortBackend));
    assert!(matches!(actions[1], Action::Register { .. }));
    assert_eq!(t.active_transaction(), Some(2));
    assert_eq!(t.pin_callback(1), Err(Status::Failure));
    assert_eq!(t.selection_callback(1), Err(Status::Failure));
}

#[test]
fn pin_answered_once_under_its_id() {
    let mut t = Transport::new(usb_config());
    t.get_assertion(4, 7, sign_request(vec![])).unwrap();
    t.take_prompts();
    t.handle_status_update(&ctx(4), StatusEvent::PinRequired(11));
    t.handle_status_update(&ctx(4), StatusEvent::InvalidPin(12, Some(3)));
    let prompts = t.take_prompts();
    assert_eq!(kinds_and_tids(&prompts), pairs(&[("pin-required", 4), ("pin-invalid", 4)]));
    assert!(matches!(prompts[1].kind, PromptKind::PinInvalid { retries: Some(3) }));
    assert_eq!(t.pin_callback(4), Ok(12));
    assert_eq!(t.pin_callback(4), Err(Status::Failure));
}

#[test]
fn pin_with_wrong_id_forfeits_the_slot() {
    let mut t = Transport::new(usb_config());
    t.get_assertion(4, 7, sign_request(vec![])).unwrap();
    t.handle_status_update(&ctx(4), StatusEvent::PinRequired(11));
    assert_eq!(t.pin_callback(5), Err(Status::Failure));
    assert_eq!(t.pin_callback(4), Err(Status::Failure));
}

#[test]
fn selection_answered_once_under_its_id() {
    let mut t = Transport::new(usb_config());
    t.get_assertion(8, 7, sign_request(vec![])).unwrap();
    t.take_prompts();
    let user = UserEntity { id: vec![5], name: Some("bob".to_string()), display_name: None };
    t.handle_status_update(&ctx(8), StatusEvent::SelectResultNotice(2, vec![user]));
    let prompts = t.take_prompts();
    assert_eq!(kinds_and_tids(&prompts), pairs(&[("select-sign-result", 8)]));
    match &prompts[0].kind {
        PromptKind::SelectSignResult { entities } => assert_eq!(entities[0].id, vec![5]),
        _ => panic!("expected a selection prompt"),
    }
    assert_eq!(t.selection_callback(9), Err(Status::Failure));
    t.handle_status_update(&ctx(8), StatusEvent::SelectResultNotice(3, vec![]));
    assert_eq!(t.selection_callback(8), Ok(3));
    assert_eq!(t.selection_callback(8), Err(Status::Failure));
}

#[test]
fn status_events_map_to_prompts() {
    let mut t = Transport::new(usb_config());
    t.get_assertion(3, 7, sign_request(vec![])).unwrap();
    t.take_prompts();
    let c = ctx(3);
    t.handle_status_update(&c, StatusEvent::SelectDeviceNotice);
    t.handle_status_update(&c, StatusEvent::PinAuthBlocked);
    t.handle_status_update(&c, StatusEvent::PinBlocked);
    t.handle_status_update(&c, StatusEvent::PinNotSet);
    t.handle_status_update(&c, StatusEvent::InvalidUv(None));
    t.handle_status_update(&c, StatusEvent::UvBlocked);
    t.handle_status_update(&c, StatusEvent::PinIsTooShort);
    t.handle_status_update(&c, StatusEvent::PinIsTooLong);
    t.handle_status_update(&c, StatusEvent::InteractiveManagement);
    assert_eq!(
        kinds_and_tids(&t.take_prompts()),
        pairs(&[
            ("select-device", 3),
            ("pin-auth-blocked", 3),
            ("device-blocked", 3),
            ("pin-not-set", 3),
            ("uv-invalid", 3),
            ("uv-blocked", 3),
        ])
    );
}

#[test]
fn events_of_an_ended_ceremony_are_dropped() {
    let mut t = Transport::new(usb_config());
    t.get_assertion(3, 7, sign_request(vec![])).unwrap();
    assert_eq!(t.reset(), Ok(()));
    t.take_prompts();
    t.handle_status_update(&ctx(3), StatusEvent::PinRequired(1));
    assert!(t.take_prompts().is_empty());
    assert_eq!(t.pin_callback(3), Err(Status::Failure));
}

#[test]
fn none_conveyance_registers_at_once_and_anonymizes() {
    let mut t = Transport::new(usb_config());
    assert_eq!(t.make_credential(5, 7, register_request("none")), Ok(()));
    assert_eq!(kinds_and_tids(&t.take_prompts()), pairs(&[("presence", 5)]));
    let mut actions = t.take_actions();
    assert_eq!(actions.len(), 1);
    match actions.remove(0) {
        Action::Register { completion, .. } => {
            assert!(completion.force_none_attestation);
            let plan = completion.complete(None);
            assert!(plan.anonymize);
        }
        _ => panic!("expected a registration"),
    }
    assert!(!t.is_awaiting_consent(5));
}

#[test]
fn testing_override_registers_direct_at_once() {
    let mut config = usb_config();
    config.allow_direct_attestation = true;
    let mut t = Transport::new(config);
    assert_eq!(t.make_credential(5, 7, register_request("direct")), Ok(()));
    assert_eq!(kinds_and_tids(&t.take_prompts()), pairs(&[("presence", 5)]));
    match &t.take_actions()[0] {
        Action::Register { completion, .. } => assert!(!completion.force_none_attestation),
        _ => panic!("expected a registration"),
    }
}

#[test]
fn consent_with_wrong_id_fails_and_keeps_pending() {
    let mut t = Transport::new(usb_config());
    t.make_credential(1, 7, register_request("direct")).unwrap();
    assert_eq!(t.resume_make_credential(2, true), Err(Status::Failure));
    assert!(t.take_actions().is_empty());
    assert!(t.is_awaiting_consent(1));
    assert_eq!(t.resume_make_credential(1, true), Ok(()));
    assert_eq!(t.resume_make_credential(1, true), Err(Status::Failure));
}

#[test]
fn consent_without_ceremony_fails() {
    let mut t = Transport::new(usb_config());
    assert_eq!(t.resume_make_credential(1, false), Err(Status::Failure));
}

#[test]
fn sign_injects_single_allowed_credential() {
    let mut t = Transport::new(usb_config());
    t.get_assertion(6, 7, sign_request(vec![vec![4, 4, 4]])).unwrap();
    assert_eq!(kinds_and_tids(&t.take_prompts()), pairs(&[("presence", 6)]));
    let mut actions = t.take_actions();
    let (status, args) = match actions.remove(0) {
        Action::Sign { status, args, backend, .. } => {
            assert_eq!(backend, Backend::UsbToken);
            assert!(args.user_presence);
            (status, args)
        }
        _ => panic!("expected a signing request"),
    };
    assert_eq!(status.tid, 6);
    let completion = SignCompletion::new(6, &args);
    let outcome = SignOutcome {
        credential_id: None,
        signature: vec![1],
        authenticator_data: vec![2],
        user: None,
        used_app_id: None,
    };
    let (prompts, result) = completion.complete(Ok(outcome));
    assert_eq!(kinds_and_tids(&prompts), pairs(&[("cancel", 6)]));
    assert_eq!(result.get_credential_id().unwrap().to_vec(), vec![4, 4, 4]);
    assert_eq!(result.get_status(), Status::Success);
}

#[test]
fn sign_keeps_named_credential_and_ignores_longer_lists() {
    let args_one = authrs_bridge::ceremony::sign_args(sign_request(vec![vec![4]]), false);
    let outcome = SignOutcome {
        credential_id: Some(vec![8]),
        signature: vec![],
        authenticator_data: vec![],
        user: None,
        used_app_id: None,
    };
    let (_, r) = SignCompletion::new(1, &args_one).complete(Ok(outcome));
    assert_eq!(r.get_credential_id().unwrap().to_vec(), vec![8]);

    let args_two = authrs_bridge::ceremony::sign_args(sign_request(vec![vec![4], vec![5]]), false);
    let outcome = SignOutcome {
        credential_id: None,
        signature: vec![],
        authenticator_data: vec![],
        user: None,
        used_app_id: None,
    };
    let (_, r) = SignCompletion::new(1, &args_two).complete(Ok(outcome));
    assert_eq!(r.get_credential_id().map(|v| v.to_vec()), Err(Status::Failure));
}

#[test]
fn excluded_credential_keeps_prompts() {
    let mut t = Transport::new(usb_config());
    t.make_credential(2, 7, register_request("none")).unwrap();
    let completion = match t.take_actions().remove(0) {
        Action::Register { completion, .. } => completion,
        _ => panic!("expected a registration"),
    };
    let plan = completion.complete(Some(BackendError::CredentialExcluded));
    assert!(!plan.anonymize);
    assert_eq!(kinds_and_tids(&plan.prompts), pairs(&[("already-registered", 2)]));
    assert_eq!(plan.prompts[0].browsing_context_id, Some(7));
}

#[test]
fn other_failures_cancel_prompts() {
    let mut t = Transport::new(usb_config());
    t.make_credential(2, 7, register_request("none")).unwrap();
    let completion = match t.take_actions().remove(0) {
        Action::Register { completion, .. } => completion,
        _ => panic!("expected a registration"),
    };
    let plan = completion.complete(Some(BackendError::PinError(PinFailure::PinBlocked)));
    assert!(!plan.anonymize);
    assert_eq!(kinds_and_tids(&plan.prompts), pairs(&[("cancel", 2)]));

    let c = SignCompletion { tid: 3, unique_allowed_credential: None };
    let (prompts, r) = c.complete(Err(BackendError::NotAllowed));
    assert_eq!(kinds_and_tids(&prompts), pairs(&[("cancel", 3)]));
    assert_eq!(r.get_status(), Status::DomNotAllowed);
}

#[test]
fn cancel_other_tid_is_noop() {
    let mut t = Transport::new(usb_config());
    t.get_assertion(1, 7, sign_request(vec![])).unwrap();
    t.handle_status_update(&ctx(1), StatusEvent::PinRequired(5));
    t.take_prompts();
    t.take_actions();
    assert_eq!(t.cancel(2), Ok(()));
    assert!(t.take_prompts().is_empty());
    assert!(t.take_actions().is_empty());
    assert_eq!(t.active_transaction(), Some(1));
    assert_eq!(t.pin_callback(1), Ok(5));
}

#[test]
fn cancel_active_tid_ends_it() {
    let mut t = Transport::new(usb_config());
    t.get_assertion(1, 7, sign_request(vec![])).unwrap();
    t.handle_status_update(&ctx(1), StatusEvent::PinRequired(5));
    t.take_actions();
    assert_eq!(t.cancel(1), Ok(()));
    let actions = t.take_actions();
    assert_eq!(actions.len(), 2);
    assert!(matches!(actions[0], Action::AbortBackend));
    assert!(matches!(actions[1], Action::NotifyCancelled { tid: 1 }));
    assert_eq!(t.active_transaction(), None);
    assert_eq!(t.pin_callback(1), Err(Status::Failure));
}

#[test]
fn reset_without_ceremony_does_nothing() {
    let mut t = Transport::new(usb_config());
    assert_eq!(t.reset(), Ok(()));
    assert!(t.take_prompts().is_empty());
    assert!(t.take_actions().is_empty());
}

#[test]
fn no_backend_is_a_configuration_error() {
    let config = Config {
        usb_token_enabled: false,
        soft_token_enabled: false,
        ctap2_enabled: true,
        allow_direct_attestation: false,
    };
    let mut t = Transport::new(config);
    assert_eq!(t.make_credential(1, 7, register_request("none")), Err(Status::Failure));
    assert_eq!(t.get_assertion(2, 7, sign_request(vec![])), Err(Status::Failure));
    assert_eq!(t.active_transaction(), None);
    assert!(t.take_prompts().is_empty());
    assert!(t.take_actions().is_empty());
}

#[test]
fn soft_token_serves_when_usb_is_off() {
    let config = Config {
        usb_token_enabled: false,
        soft_token_enabled: true,
        ctap2_enabled: false,
        allow_direct_attestation: false,
    };
    let mut t = Transport::new(config);
    t.get_assertion(2, 7, sign_request(vec![])).unwrap();
    match &t.take_actions()[0] {
        Action::Sign { backend, args, .. } => {
            assert_eq!(*backend, Backend::SoftToken);
            assert!(args.use_ctap1_fallback);
        }
        _ => panic!("expected a signing request"),
    }
}

#[test]
fn unsound_registration_is_refused() {
    let mut t = Transport::new(usb_config());
    let mut req = register_request("none");
    req.resident_key = "sometimes".to_string();
    assert_eq!(t.make_credential(1, 7, req), Err(Status::Failure));
    let mut req = register_request("none");
    req.authenticator_attachment = Some("platform".to_string());
    assert_eq!(t.make_credential(1, 7, req), Err(Status::Failure));
    assert_eq!(t.active_transaction(), None);
    let mut req = register_request("none");
    req.authenticator_attachment = Some("cross-platform".to_string());
    assert_eq!(t.make_credential(1, 7, req), Ok(()));
}

#[test]
fn controller_is_not_handed_out() {
    let t = Transport::new(usb_config());
    assert_eq!(t.get_controller(), Err(Status::NotImplemented));
}

#[test]
fn register_result_accessors() {
    let ok = CtapRegisterResult {
        result: Ok(RegisterOutcome {
            attestation_object: Some(vec![0xa3, 1]),
            credential_id: Some(vec![6, 6]),
            cred_props_rk: None,
        }),
    };
    assert_eq!(ok.get_attestation_object().unwrap().to_vec(), vec![0xa3, 1]);
    assert_eq!(ok.get_credential_id().unwrap().to_vec(), vec![6, 6]);
    assert_eq!(ok.get_transports().unwrap().to_vec(), vec!["usb".to_string()]);
    assert_eq!(ok.get_cred_props_rk(), Err(Status::NotAvailable));
    assert_eq!(ok.get_status(), Status::Success);

    let failed = CtapRegisterResult { result: Err(BackendError::CredentialExcluded) };
    assert_eq!(failed.get_status(), Status::DomInvalidState);
    assert_eq!(failed.get_cred_props_rk(), Err(Status::Failure));
    assert!(failed.get_transports().is_err());
    assert_eq!(failed.get_credential_id().map(|v| v.to_vec()), Err(Status::Failure));
}
