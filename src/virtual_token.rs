//! Checks and decodes the arguments of the virtual-authenticator controls
//! before they reach the registry of software tokens.
use vstd::prelude::*;
use base64::Engine;
use base64::DecodeError;
use vstd::string::StringSliceAdditionalSpecFns;
use crate::ceremony::text_eq;
use crate::errors::Status;
use crate::transport::AuthrsTransport;

verus! {

#[verifier::external_type_specification]
#[verifier::external_body]
pub struct ExDecodeError(DecodeError);

/// What base64's URL-safe, unpadded decoding makes of `s`, or `None` where
/// `s` is not such an encoding.
pub uninterp spec fn b64url_decoded(s: Seq<u8>) -> Option<Seq<u8>>;

/// Relies on base64's `URL_SAFE_NO_PAD` engine and `Engine::decode`, whose
/// result depends on the input bytes alone.
#[verifier::external_body]
fn decode_url_safe(s: &[u8]) -> (r: Result<Vec<u8>, DecodeError>)
    ensures
        r is Ok <==> b64url_decoded(s@) is Some,
        r is Ok ==> r->Ok_0@ == b64url_decoded(s@)->Some_0,
{
    base64::engine::general_purpose::URL_SAFE_NO_PAD.decode(s)
}

/// Decodes a base64url argument; a malformed one is an invalid argument.
pub fn decode_arg(s: &str) -> (r: Result<Vec<u8>, Status>)
    ensures
        match b64url_decoded(s.spec_bytes()) {
            Some(b) => r is Ok && r->Ok_0@ == b,
            None => r == Err::<Vec<u8>, Status>(Status::InvalidArg),
        },
{
    match decode_url_safe(s.as_bytes()) {
        Ok(b) => Ok(b),
        Err(_) => Err(Status::InvalidArg),
    }
}

/// The protocol a virtual authenticator speaks.
#[derive(Clone, Copy, Debug, PartialEq, Eq, Structural)]
pub enum AuthenticatorVersion {
    U2fV2,
    Fido20,
    Fido21,
}

pub open spec fn protocol_of(s: Seq<char>) -> Option<AuthenticatorVersion> {
    if s == "ctap1/u2f"@ {
        Some(AuthenticatorVersion::U2fV2)
    } else if s == "ctap2"@ {
        Some(AuthenticatorVersion::Fido20)
    } else if s == "ctap2_1"@ {
        Some(AuthenticatorVersion::Fido21)
    } else {
        None
    }
}

pub open spec fn known_transport(s: Seq<char>) -> bool {
    s == "usb"@ || s == "nfc"@ || s == "ble"@ || s == "smart-card"@ || s == "hybrid"@ || s
        == "internal"@
}

/// A virtual authenticator to add to the registry.
pub struct VirtualAuthenticator {
    pub protocol: AuthenticatorVersion,
    pub has_resident_key: bool,
    pub has_user_verification: bool,
    pub is_user_consenting: bool,
    pub is_user_verified: bool,
}

/// A credential to add to a virtual authenticator, its fields decoded.
pub struct NewCredential {
    pub authenticator_id: u64,
    pub credential_id: Vec<u8>,
    pub private_key: Vec<u8>,
    pub user_handle: Vec<u8>,
    pub sign_count: u32,
    pub rp_id: String,
    pub is_resident_credential: bool,
}

/// Reads the protocol name of a virtual authenticator.
pub fn parse_protocol(s: &str) -> (r: Option<AuthenticatorVersion>)
    ensures
        r == protocol_of(s@),
{
    if text_eq(s, "ctap1/u2f") {
        Some(AuthenticatorVersion::U2fV2)
    } else if text_eq(s, "ctap2") {
        Some(AuthenticatorVersion::Fido20)
    } else if text_eq(s, "ctap2_1") {
        Some(AuthenticatorVersion::Fido21)
    } else {
        None
    }
}

/// Whether `s` names a transport that a virtual authenticator may use.
pub fn is_known_transport(s: &str) -> (r: bool)
    ensures
        r == known_transport(s@),
{
    text_eq(s, "usb") || text_eq(s, "nfc") || text_eq(s, "ble") || text_eq(s, "smart-card")
        || text_eq(s, "hybrid") || text_eq(s, "internal")
}

impl<P, S> AuthrsTransport<P, S> {
    /// Checks the description of a new virtual authenticator. An unknown
    /// protocol or transport is an invalid argument.
    pub fn add_virtual_authenticator(
        &self,
        protocol: &str,
        transport: &str,
        has_resident_key: bool,
        has_user_verification: bool,
        is_user_consenting: bool,
        is_user_verified: bool,
    ) -> (r: Result<VirtualAuthenticator, Status>)
        ensures
            match protocol_of(protocol@) {
                Some(v) => if known_transport(transport@) {
                    r == Ok::<VirtualAuthenticator, Status>(
                        VirtualAuthenticator {
                            protocol: v,
                            has_resident_key,
                            has_user_verification,
                            is_user_consenting,
                            is_user_verified,
                        },
                    )
                } else {
                    r == Err::<VirtualAuthenticator, Status>(Status::InvalidArg)
                },
                None => r == Err::<VirtualAuthenticator, Status>(Status::InvalidArg),
            },
    {
        let protocol = match parse_protocol(protocol) {
            Some(v) => v,
            None => return Err(Status::InvalidArg),
        };
        if !is_known_transport(transport) {
            return Err(Status::InvalidArg);
        }
        Ok(
            VirtualAuthenticator {
                protocol,
                has_resident_key,
                has_user_verification,
                is_user_consenting,
                is_user_verified,
            },
        )
    }

    /// Decodes the base64url fields of a credential for a virtual
    /// authenticator. A malformed one is an invalid argument.
    pub fn add_credential(
        &self,
        authenticator_id: u64,
        credential_id: &str,
        is_resident_credential: bool,
        rp_id: &str,
        private_key: &str,
        user_handle: &str,
        sign_count: u32,
    ) -> (r: Result<NewCredential, Status>)
        ensures
            ({
                let c = b64url_decoded(credential_id.spec_bytes());
                let k = b64url_decoded(private_key.spec_bytes());
                let u = b64url_decoded(user_handle.spec_bytes());
                if c is Some && k is Some && u is Some {
                    &&& r is Ok
                    &&& r->Ok_0.authenticator_id == authenticator_id
                    &&& r->Ok_0.credential_id@ == c->Some_0
                    &&& r->Ok_0.private_key@ == k->Some_0
                    &&& r->Ok_0.user_handle@ == u->Some_0
                    &&& r->Ok_0.sign_count == sign_count
                    &&& r->Ok_0.rp_id@ == rp_id@
                    &&& r->Ok_0.is_resident_credential == is_resident_credential
                } else {
                    r == Err::<NewCredential, Status>(Status::InvalidArg)
                }
            }),
    {
        let credential_id = match decode_arg(credential_id) {
            Ok(b) => b,
            Err(e) => return Err(e),
        };
        let private_key = match decode_arg(private_key) {
            Ok(b) => b,
            Err(e) => return Err(e),
        };
        let user_handle = match decode_arg(user_handle) {
            Ok(b) => b,
            Err(e) => return Err(e),
        };
        Ok(
            NewCredential {
                authenticator_id,
                credential_id,
                private_key,
                user_handle,
                sign_count,
                rp_id: rp_id.to_owned(),
                is_resident_credential,
            },
        )
    }

    /// Decodes the base64url id of a credential to remove.
    pub fn remove_credential(&self, credential_id: &str) -> (r: Result<Vec<u8>, Status>)
        ensures
            match b64url_decoded(credential_id.spec_bytes()) {
                Some(b) => r is Ok && r->Ok_0@ == b,
                None => r == Err::<Vec<u8>, Status>(Status::InvalidArg),
            },
    {
        decode_arg(credential_id)
    }
}

} // verus!
