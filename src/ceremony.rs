//! The arguments of a ceremony: what the host hands over, and the checked form
//! that goes to the backend.
use vstd::prelude::*;
use crate::errors::Status;
use crate::prompt::UserEntity;

verus! {

/// Whether the authenticator is asked to store the credential itself.
#[derive(Clone, Copy, Debug, PartialEq, Eq, Structural)]
pub enum ResidentKeyRequirement {
    Required,
    Preferred,
    Discouraged,
}

/// How strongly the relying party asks for user verification.
#[derive(Clone, Copy, Debug, PartialEq, Eq, Structural)]
pub enum UserVerificationRequirement {
    Required,
    Preferred,
    Discouraged,
}

/// A registration request as the host hands it over, options still in text.
pub struct RegisterRequest {
    pub origin: String,
    pub rp_id: String,
    pub client_data_hash: [u8; 32],
    pub timeout_ms: u32,
    pub exclude_list: Vec<Vec<u8>>,
    pub user_id: Vec<u8>,
    pub user_name: String,
    pub cose_algs: Vec<i32>,
    pub resident_key: String,
    pub user_verification: String,
    pub authenticator_attachment: Option<String>,
    pub attestation_conveyance: String,
    pub cred_props: bool,
    pub min_pin_length: bool,
}

/// A checked registration, ready for the backend.
pub struct RegisterArgs {
    pub client_data_hash: [u8; 32],
    pub rp_id: String,
    pub origin: String,
    pub user: UserEntity,
    pub cose_algs: Vec<i32>,
    pub exclude_list: Vec<Vec<u8>>,
    pub user_verification: UserVerificationRequirement,
    pub resident_key: ResidentKeyRequirement,
    pub cred_props: bool,
    pub min_pin_length: bool,
    pub use_ctap1_fallback: bool,
}

/// A signing request as the host hands it over.
pub struct SignRequest {
    pub origin: String,
    pub rp_id: String,
    pub client_data_hash: [u8; 32],
    pub timeout_ms: u32,
    pub allow_list: Vec<Vec<u8>>,
    pub user_verification: String,
    pub app_id: Option<String>,
}

/// A checked signing request, ready for the backend.
pub struct SignArgs {
    pub client_data_hash: [u8; 32],
    pub rp_id: String,
    pub origin: String,
    pub allow_list: Vec<Vec<u8>>,
    pub user_verification: UserVerificationRequirement,
    pub user_presence: bool,
    pub app_id: Option<String>,
    pub use_ctap1_fallback: bool,
}

pub open spec fn resident_key_of(s: Seq<char>) -> Option<ResidentKeyRequirement> {
    if s == "required"@ {
        Some(ResidentKeyRequirement::Required)
    } else if s == "preferred"@ {
        Some(ResidentKeyRequirement::Preferred)
    } else if s == "discouraged"@ {
        Some(ResidentKeyRequirement::Discouraged)
    } else {
        None
    }
}

/// Anything but the two named values reads as `Preferred`.
pub open spec fn user_verification_of(s: Seq<char>) -> UserVerificationRequirement {
    if s == "required"@ {
        UserVerificationRequirement::Required
    } else if s == "discouraged"@ {
        UserVerificationRequirement::Discouraged
    } else {
        UserVerificationRequirement::Preferred
    }
}

/// Only `indirect`, `direct` and `enterprise` ask for the device's attestation.
pub open spec fn conveys_none(s: Seq<char>) -> bool {
    !(s == "indirect"@ || s == "direct"@ || s == "enterprise"@)
}

/// A registration is refused when its resident-key option is unknown or it
/// asks for a platform authenticator, which this backend is not.
pub open spec fn register_request_ok(req: RegisterRequest) -> bool {
    &&& resident_key_of(req.resident_key@) is Some
    &&& match req.authenticator_attachment {
        Some(a) => a@ != "platform"@,
        None => true,
    }
}

pub open spec fn register_args_of(req: RegisterRequest, use_ctap1_fallback: bool) -> RegisterArgs
    recommends
        register_request_ok(req),
{
    RegisterArgs {
        client_data_hash: req.client_data_hash,
        rp_id: req.rp_id,
        origin: req.origin,
        user: UserEntity { id: req.user_id, name: Some(req.user_name), display_name: None },
        cose_algs: req.cose_algs,
        exclude_list: req.exclude_list,
        user_verification: user_verification_of(req.user_verification@),
        resident_key: resident_key_of(req.resident_key@)->Some_0,
        cred_props: req.cred_props,
        min_pin_length: req.min_pin_length,
        use_ctap1_fallback,
    }
}

pub open spec fn sign_args_of(req: SignRequest, use_ctap1_fallback: bool) -> SignArgs {
    SignArgs {
        client_data_hash: req.client_data_hash,
        rp_id: req.rp_id,
        origin: req.origin,
        allow_list: req.allow_list,
        user_verification: user_verification_of(req.user_verification@),
        user_presence: true,
        app_id: req.app_id,
        use_ctap1_fallback,
    }
}

/// Compares two strings character by character.
pub fn text_eq(a: &str, b: &str) -> (r: bool)
    ensures
        r == (a@ == b@),
{
    let n = a.unicode_len();
    if n != b.unicode_len() {
        return false;
    }
    let mut i: usize = 0;
    while i < n
        invariant
            n == a@.len(),
            n == b@.len(),
            i <= n,
            a@.subrange(0, i as int) == b@.subrange(0, i as int),
        decreases n - i,
    {
        if a.get_char(i) != b.get_char(i) {
            return false;
        }
        assert(a@.subrange(0, i + 1) == a@.subrange(0, i as int).push(a@[i as int]));
        assert(b@.subrange(0, i + 1) == b@.subrange(0, i as int).push(b@[i as int]));
        i = i + 1;
    }
    assert(a@ == a@.subrange(0, n as int));
    assert(b@ == b@.subrange(0, n as int));
    true
}

/// Reads the resident-key option.
pub fn parse_resident_key(s: &str) -> (r: Option<ResidentKeyRequirement>)
    ensures
        r == resident_key_of(s@),
{
    if text_eq(s, "required") {
        Some(ResidentKeyRequirement::Required)
    } else if text_eq(s, "preferred") {
        Some(ResidentKeyRequirement::Preferred)
    } else if text_eq(s, "discouraged") {
        Some(ResidentKeyRequirement::Discouraged)
    } else {
        None
    }
}

/// Reads the user-verification option.
pub fn parse_user_verification(s: &str) -> (r: UserVerificationRequirement)
    ensures
        r == user_verification_of(s@),
{
    if text_eq(s, "required") {
        UserVerificationRequirement::Required
    } else if text_eq(s, "discouraged") {
        UserVerificationRequirement::Discouraged
    } else {
        UserVerificationRequirement::Preferred
    }
}

/// Whether the attestation-conveyance option leaves out the device's attestation.
pub fn is_none_attestation(s: &str) -> (r: bool)
    ensures
        r == conveys_none(s@),
{
    !(text_eq(s, "indirect") || text_eq(s, "direct") || text_eq(s, "enterprise"))
}

/// Checks a registration request and puts it in the backend's form.
pub fn register_args(req: RegisterRequest, use_ctap1_fallback: bool) -> (r: Result<
    RegisterArgs,
    Status,
>)
    ensures
        register_request_ok(req) ==> r == Ok::<RegisterArgs, Status>(
            register_args_of(req, use_ctap1_fallback),
        ),
        !register_request_ok(req) ==> r == Err::<RegisterArgs, Status>(Status::Failure),
{
    let resident_key = match parse_resident_key(req.resident_key.as_str()) {
        Some(rk) => rk,
        None => return Err(Status::Failure),
    };
    match &req.authenticator_attachment {
        Some(a) => {
            if text_eq(a.as_str(), "platform") {
                return Err(Status::Failure);
            }
        },
        None => {},
    }
    let user_verification = parse_user_verification(req.user_verification.as_str());
    Ok(
        RegisterArgs {
            client_data_hash: req.client_data_hash,
            rp_id: req.rp_id,
            origin: req.origin,
            user: UserEntity { id: req.user_id, name: Some(req.user_name), display_name: None },
            cose_algs: req.cose_algs,
            exclude_list: req.exclude_list,
            user_verification,
            resident_key,
            cred_props: req.cred_props,
            min_pin_length: req.min_pin_length,
            use_ctap1_fallback,
        },
    )
}

/// Puts a signing request in the backend's form; user presence is always asked for.
pub fn sign_args(req: SignRequest, use_ctap1_fallback: bool) -> (r: SignArgs)
    ensures
        r == sign_args_of(req, use_ctap1_fallback),
{
    let user_verification = parse_user_verification(req.user_verification.as_str());
    SignArgs {
        client_data_hash: req.client_data_hash,
        rp_id: req.rp_id,
        origin: req.origin,
        allow_list: req.allow_list,
        user_verification,
        user_presence: true,
        app_id: req.app_id,
        use_ctap1_fallback,
    }
}

} // verus!
