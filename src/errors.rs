//! Result codes reported to the host, and the backend's failure kinds.
use vstd::prelude::*;

verus! {

/// The result codes that the host understands.
#[derive(Clone, Copy, Debug, PartialEq, Eq, Structural)]
pub enum Status {
    Success,
    Failure,
    InvalidArg,
    NotAvailable,
    NotImplemented,
    NullPointer,
    DomInvalidState,
    DomNotAllowed,
}

/// PIN and user-verification failures the authenticator can report.
#[derive(Clone, Copy, Debug, PartialEq, Eq, Structural)]
pub enum PinFailure {
    PinInvalid,
    PinAuthBlocked,
    PinBlocked,
    PinNotSet,
    UvInvalid,
    UvBlocked,
    /// A PIN that breaks the device's rules, or a failure of the PIN protocol.
    Other,
}

/// How a ceremony failed in the backend.
#[derive(Clone, Copy, Debug, PartialEq, Eq, Structural)]
pub enum BackendError {
    /// A credential from the exclude list already lives on the authenticator.
    CredentialExcluded,
    /// The PIN or user-verification step failed.
    PinError(PinFailure),
    /// The user cancelled, or the operation is not allowed.
    NotAllowed,
    /// The device could not be reached or misbehaved.
    TransportFailure,
}

/// The status that the host is told for a backend failure.
pub open spec fn error_status(e: BackendError) -> Status {
    match e {
        BackendError::CredentialExcluded => Status::DomInvalidState,
        _ => Status::DomNotAllowed,
    }
}

/// Whether a failure of this kind ends the prompts of its ceremony. Only an
/// excluded credential leaves them on screen, so that the front end can keep
/// showing why the registration stopped.
pub open spec fn cancels_prompts(e: BackendError) -> bool {
    !(e is CredentialExcluded)
}

/// Maps a backend failure to the status reported to the host.
pub fn authrs_to_nserror(e: &BackendError) -> (r: Status)
    ensures
        r == error_status(*e),
{
    match e {
        BackendError::CredentialExcluded => Status::DomInvalidState,
        _ => Status::DomNotAllowed,
    }
}

/// Whether the prompts of a ceremony that failed with `e` are to be cancelled.
pub fn error_cancels_prompts(e: &BackendError) -> (r: bool)
    ensures
        r == cancels_prompts(*e),
{
    match e {
        BackendError::CredentialExcluded => false,
        _ => true,
    }
}

} // verus!
