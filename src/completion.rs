//! What happens when the backend concludes a ceremony: the result is shaped
//! and the ceremony's prompts are withdrawn, or kept where they explain the
//! failure.
use vstd::prelude::*;
use crate::errors::{cancels_prompts, error_cancels_prompts, BackendError};
use crate::prompt::{cancel_prompt, cancel_prompts, send_prompt, Prompt, PromptKind};
use crate::results::{CtapSignResult, SignOutcome};
use crate::transport::{RegisterCompletion, SignCompletion};

verus! {

/// What the host does with the result of a registration.
pub struct RegisterPlan {
    /// Strip the attestation statement, keeping its format and the
    /// authenticator data, before the result is handed over.
    pub anonymize: bool,
    /// Prompts to send before the result is handed over.
    pub prompts: Vec<Prompt>,
}

pub open spec fn already_registered_prompt(ctx: RegisterCompletion) -> Prompt {
    Prompt {
        kind: PromptKind::AlreadyRegistered,
        tid: ctx.tid,
        origin: Some(ctx.origin),
        browsing_context_id: Some(ctx.browsing_context_id),
    }
}

/// The prompts that end a registration that failed with `error`, or
/// succeeded when it is `None`. An excluded credential is explained to the
/// user and leaves the other prompts in place; any other end withdraws them.
pub open spec fn register_end_prompts(ctx: RegisterCompletion, error: Option<BackendError>) -> Seq<
    Prompt,
> {
    match error {
        Some(BackendError::CredentialExcluded) => seq![already_registered_prompt(ctx)],
        _ => seq![cancel_prompt(ctx.tid)],
    }
}

/// The prompts that end a signing ceremony with this result.
pub open spec fn sign_end_prompts(tid: u64, result: Result<SignOutcome, BackendError>) -> Seq<
    Prompt,
> {
    match result {
        Err(e) => if cancels_prompts(e) {
            seq![cancel_prompt(tid)]
        } else {
            seq![]
        },
        Ok(_) => seq![cancel_prompt(tid)],
    }
}

/// Gives an assertion that names no credential the one credential that the
/// allow list held.
pub open spec fn with_unique_credential(
    unique: Option<Vec<u8>>,
    result: Result<SignOutcome, BackendError>,
) -> Result<SignOutcome, BackendError> {
    match result {
        Ok(o) => if o.credential_id is None && unique is Some {
            Ok(SignOutcome { credential_id: unique, ..o })
        } else {
            Ok(o)
        },
        Err(e) => Err(e),
    }
}

/// Whether the result of a registration loses its attestation statement.
pub open spec fn anonymizes(ctx: RegisterCompletion, error: Option<BackendError>) -> bool {
    error is None && ctx.force_none_attestation
}

impl RegisterCompletion {
    /// Decides how a registration ends; `error` is the backend's failure, or
    /// `None` on success. Taking `self` makes it run once per ceremony.
    pub fn complete(self, error: Option<BackendError>) -> (r: RegisterPlan)
        ensures
            r.anonymize == anonymizes(self, error),
            r.prompts@ == register_end_prompts(self, error),
    {
        let mut prompts: Vec<Prompt> = Vec::new();
        match error {
            Some(BackendError::CredentialExcluded) => {
                send_prompt(
                    &mut prompts,
                    PromptKind::AlreadyRegistered,
                    self.tid,
                    Some(self.origin),
                    Some(self.browsing_context_id),
                );
            },
            _ => {
                cancel_prompts(&mut prompts, self.tid);
            },
        }
        assert(prompts@ =~= register_end_prompts(self, error));
        RegisterPlan { anonymize: error.is_none() && self.force_none_attestation, prompts }
    }
}

impl SignCompletion {
    /// Shapes the result of a signing ceremony and decides which prompts end
    /// it. Taking `self` makes it run once per ceremony.
    pub fn complete(self, result: Result<SignOutcome, BackendError>) -> (r: (
        Vec<Prompt>,
        CtapSignResult,
    ))
        ensures
            r.0@ == sign_end_prompts(self.tid, result),
            r.1.result == with_unique_credential(self.unique_allowed_credential, result),
    {
        let mut prompts: Vec<Prompt> = Vec::new();
        let cancels = match &result {
            Ok(_) => true,
            Err(e) => error_cancels_prompts(e),
        };
        if cancels {
            cancel_prompts(&mut prompts, self.tid);
        }
        assert(prompts@ =~= sign_end_prompts(self.tid, result));
        let shaped = match result {
            Ok(o) => {
                if o.credential_id.is_none() && self.unique_allowed_credential.is_some() {
                    Ok(SignOutcome { credential_id: self.unique_allowed_credential, ..o })
                } else {
                    Ok(o)
                }
            },
            Err(e) => Err(e),
        };
        (prompts, CtapSignResult { result: shaped })
    }
}

} // verus!
