//! The outcome objects handed to the host, and their accessors.
use vstd::prelude::*;
use thin_vec::ThinVec;
use crate::errors::{authrs_to_nserror, error_status, BackendError, Status};
use crate::prompt::UserEntity;

verus! {

#[verifier::external_type_specification]
#[verifier::external_body]
#[verifier::reject_recursive_types(T)]
pub struct ExThinVec<T>(ThinVec<T>);

/// The bytes that a `ThinVec<u8>` holds, in order.
pub uninterp spec fn thin_bytes(v: ThinVec<u8>) -> Seq<u8>;

/// The strings that a `ThinVec<String>` holds, in order.
pub uninterp spec fn thin_strings(v: ThinVec<String>) -> Seq<String>;

/// Relies on thin_vec's `From<&[T]> for ThinVec<T>`, which clones the items
/// in order.
#[verifier::external_body]
fn bytes_to_thin(b: &[u8]) -> (r: ThinVec<u8>)
    ensures
        thin_bytes(r) == b@,
{
    ThinVec::from(b)
}

/// Relies on thin_vec's `From<Vec<T>> for ThinVec<T>`, which moves the items
/// over in order.
#[verifier::external_body]
fn strings_to_thin(v: Vec<String>) -> (r: ThinVec<String>)
    ensures
        thin_strings(r) == v@,
{
    ThinVec::from(v)
}

/// A successful registration, as the host reads it.
pub struct RegisterOutcome {
    /// The attestation object in its CBOR encoding; `None` when it could not
    /// be encoded.
    pub attestation_object: Option<Vec<u8>>,
    pub credential_id: Option<Vec<u8>>,
    /// The `rk` member of the credProps extension, when the authenticator
    /// reported it.
    pub cred_props_rk: Option<bool>,
}

/// The result of a registration ceremony.
pub struct CtapRegisterResult {
    pub result: Result<RegisterOutcome, BackendError>,
}

/// The public key of a new credential.
pub struct CredentialPublicKey {
    /// The key as a DER SubjectPublicKeyInfo, when it can be written so.
    pub der_spki: Option<Vec<u8>>,
    /// Its COSE algorithm identifier.
    pub algorithm: i32,
}

/// An attestation object, as the host reads it.
pub struct WebAuthnAttObj {
    /// The attestation object in its CBOR encoding; `None` when it could not
    /// be encoded.
    pub attestation_object: Option<Vec<u8>>,
    pub authenticator_data: Vec<u8>,
    /// Present when the authenticator data carries attested credential data.
    pub credential: Option<CredentialPublicKey>,
}

/// A successful assertion, as the host reads it.
pub struct SignOutcome {
    pub credential_id: Option<Vec<u8>>,
    pub signature: Vec<u8>,
    pub authenticator_data: Vec<u8>,
    pub user: Option<UserEntity>,
    /// The output of the appid extension, when it was asked for.
    pub used_app_id: Option<bool>,
}

/// The result of a signing ceremony.
pub struct CtapSignResult {
    pub result: Result<SignOutcome, BackendError>,
}

/// The status reported for a ceremony's result.
pub open spec fn result_status<T>(r: Result<T, BackendError>) -> Status {
    match r {
        Ok(_) => Status::Success,
        Err(e) => error_status(e),
    }
}

/// A byte string handed to the host, or the error that stands for it.
pub open spec fn bytes_out(r: Result<ThinVec<u8>, Status>, v: Result<Seq<u8>, Status>) -> bool {
    match v {
        Ok(b) => r is Ok && thin_bytes(r->Ok_0) == b,
        Err(e) => r == Err::<ThinVec<u8>, Status>(e),
    }
}

impl CtapRegisterResult {
    pub fn get_attestation_object(&self) -> (r: Result<ThinVec<u8>, Status>)
        ensures
            bytes_out(
                r,
                match self.result {
                    Ok(o) => match o.attestation_object {
                        Some(a) => Ok(a@),
                        None => Err(Status::Failure),
                    },
                    Err(_) => Err(Status::Failure),
                },
            ),
    {
        match &self.result {
            Ok(o) => match &o.attestation_object {
                Some(a) => Ok(bytes_to_thin(a.as_slice())),
                None => Err(Status::Failure),
            },
            Err(_) => Err(Status::Failure),
        }
    }

    pub fn get_credential_id(&self) -> (r: Result<ThinVec<u8>, Status>)
        ensures
            bytes_out(
                r,
                match self.result {
                    Ok(o) => match o.credential_id {
                        Some(id) => Ok(id@),
                        None => Err(Status::Failure),
                    },
                    Err(_) => Err(Status::Failure),
                },
            ),
    {
        match &self.result {
            Ok(o) => match &o.credential_id {
                Some(id) => Ok(bytes_to_thin(id.as_slice())),
                None => Err(Status::Failure),
            },
            Err(_) => Err(Status::Failure),
        }
    }

    /// Only the USB transport is supported, so a new credential is always
    /// reachable over USB.
    pub fn get_transports(&self) -> (r: Result<ThinVec<String>, Status>)
        ensures
            self.result is Err ==> r == Err::<ThinVec<String>, Status>(Status::Failure),
            self.result is Ok ==> r is Ok && thin_strings(r->Ok_0).len() == 1 && thin_strings(
                r->Ok_0,
            )[0]@ == "usb"@,
    {
        if self.result.is_err() {
            return Err(Status::Failure);
        }
        let mut v: Vec<String> = Vec::new();
        v.push(String::from_str("usb"));
        Ok(strings_to_thin(v))
    }

    pub fn get_cred_props_rk(&self) -> (r: Result<bool, Status>)
        ensures
            r == (match self.result {
                Ok(o) => match o.cred_props_rk {
                    Some(rk) => Ok(rk),
                    None => Err(Status::NotAvailable),
                },
                Err(_) => Err(Status::Failure),
            }),
    {
        match &self.result {
            Ok(o) => match o.cred_props_rk {
                Some(rk) => Ok(rk),
                None => Err(Status::NotAvailable),
            },
            Err(_) => Err(Status::Failure),
        }
    }

    pub fn get_status(&self) -> (r: Status)
        ensures
            r == result_status(self.result),
    {
        match &self.result {
            Ok(_) => Status::Success,
            Err(e) => authrs_to_nserror(e),
        }
    }
}

impl WebAuthnAttObj {
    pub fn get_attestation_object(&self) -> (r: Result<ThinVec<u8>, Status>)
        ensures
            bytes_out(
                r,
                match self.attestation_object {
                    Some(a) => Ok(a@),
                    None => Err(Status::Failure),
                },
            ),
    {
        match &self.attestation_object {
            Some(a) => Ok(bytes_to_thin(a.as_slice())),
            None => Err(Status::Failure),
        }
    }

    pub fn get_authenticator_data(&self) -> (r: Result<ThinVec<u8>, Status>)
        ensures
            bytes_out(r, Ok(self.authenticator_data@)),
    {
        Ok(bytes_to_thin(self.authenticator_data.as_slice()))
    }

    pub fn get_public_key(&self) -> (r: Result<ThinVec<u8>, Status>)
        ensures
            bytes_out(
                r,
                match self.credential {
                    Some(c) => match c.der_spki {
                        Some(k) => Ok(k@),
                        None => Err(Status::NotAvailable),
                    },
                    None => Err(Status::Failure),
                },
            ),
    {
        match &self.credential {
            Some(c) => match &c.der_spki {
                Some(k) => Ok(bytes_to_thin(k.as_slice())),
                None => Err(Status::NotAvailable),
            },
            None => Err(Status::Failure),
        }
    }

    pub fn get_public_key_algorithm(&self) -> (r: Result<i32, Status>)
        ensures
            r == (match self.credential {
                Some(c) => Ok(c.algorithm),
                None => Err(Status::Failure),
            }),
    {
        match &self.credential {
            Some(c) => Ok(c.algorithm),
            None => Err(Status::Failure),
        }
    }
}

impl CtapSignResult {
    pub fn get_credential_id(&self) -> (r: Result<ThinVec<u8>, Status>)
        ensures
            bytes_out(
                r,
                match self.result {
                    Ok(o) => match o.credential_id {
                        Some(id) => Ok(id@),
                        None => Err(Status::Failure),
                    },
                    Err(_) => Err(Status::Failure),
                },
            ),
    {
        match &self.result {
            Ok(o) => match &o.credential_id {
                Some(id) => Ok(bytes_to_thin(id.as_slice())),
                None => Err(Status::Failure),
            },
            Err(_) => Err(Status::Failure),
        }
    }

    pub fn get_signature(&self) -> (r: Result<ThinVec<u8>, Status>)
        ensures
            bytes_out(
                r,
                match self.result {
                    Ok(o) => Ok(o.signature@),
                    Err(_) => Err(Status::Failure),
                },
            ),
    {
        match &self.result {
            Ok(o) => Ok(bytes_to_thin(o.signature.as_slice())),
            Err(_) => Err(Status::Failure),
        }
    }

    pub fn get_authenticator_data(&self) -> (r: Result<ThinVec<u8>, Status>)
        ensures
            bytes_out(
                r,
                match self.result {
                    Ok(o) => Ok(o.authenticator_data@),
                    Err(_) => Err(Status::Failure),
                },
            ),
    {
        match &self.result {
            Ok(o) => Ok(bytes_to_thin(o.authenticator_data.as_slice())),
            Err(_) => Err(Status::Failure),
        }
    }

    pub fn get_user_handle(&self) -> (r: Result<ThinVec<u8>, Status>)
        ensures
            bytes_out(
                r,
                match self.result {
                    Ok(o) => match o.user {
                        Some(u) => Ok(u.id@),
                        None => Err(Status::NotAvailable),
                    },
                    Err(_) => Err(Status::NotAvailable),
                },
            ),
    {
        match &self.result {
            Ok(o) => match &o.user {
                Some(u) => Ok(bytes_to_thin(u.id.as_slice())),
                None => Err(Status::NotAvailable),
            },
            Err(_) => Err(Status::NotAvailable),
        }
    }

    pub fn get_user_name(&self) -> (r: Result<String, Status>)
        ensures
            r == (match self.result {
                Ok(o) => match o.user {
                    Some(u) => match u.name {
                        Some(n) => Ok(n),
                        None => Err(Status::NotAvailable),
                    },
                    None => Err(Status::NotAvailable),
                },
                Err(_) => Err(Status::NotAvailable),
            }),
    {
        match &self.result {
            Ok(o) => match &o.user {
                Some(u) => match &u.name {
                    Some(n) => Ok(n.clone()),
                    None => Err(Status::NotAvailable),
                },
                None => Err(Status::NotAvailable),
            },
            Err(_) => Err(Status::NotAvailable),
        }
    }

    pub fn get_used_app_id(&self) -> (r: Result<bool, Status>)
        ensures
            r == (match self.result {
                Ok(o) => match o.used_app_id {
                    Some(b) => Ok(b),
                    None => Err(Status::NotAvailable),
                },
                Err(_) => Err(Status::Failure),
            }),
    {
        match &self.result {
            Ok(o) => match o.used_app_id {
                Some(b) => Ok(b),
                None => Err(Status::NotAvailable),
            },
            Err(_) => Err(Status::Failure),
        }
    }

    pub fn get_status(&self) -> (r: Status)
        ensures
            r == result_status(self.result),
    {
        match &self.result {
            Ok(_) => Status::Success,
            Err(e) => authrs_to_nserror(e),
        }
    }
}

} // verus!
