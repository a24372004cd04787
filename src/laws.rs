//! Properties of the coordinator that span several operations.
use vstd::prelude::*;
use crate::ceremony::{conveys_none, RegisterRequest, SignArgs, SignRequest};
use crate::completion::{
    already_registered_prompt, anonymizes, register_end_prompts, sign_end_prompts,
    with_unique_credential,
};
use crate::errors::BackendError;
use crate::prompt::cancel_prompt;
use crate::results::SignOutcome;
use crate::transport::{
    awaits_consent, cancel_state, get_assertion_state, is_active, make_credential_state,
    pin_answer, register_accepted, register_direct_prompt, reset_state, resume_state,
    selection_answer, state_wf, status_state, Action, RegisterCompletion, SignCompletion,
    StatusContext, StatusEvent, TransportState,
};

verus! {

/// Starting a registration ends the earlier ceremony first: its prompts are
/// withdrawn and the backend is asked to abort before anything of the new
/// ceremony is queued, and both bridges are empty. The slot then holds the
/// new ceremony alone, or nothing when the request was refused.
pub proof fn lemma_register_resets_prior<P, S>(
    s: TransportState<P, S>,
    tid: u64,
    bc: u64,
    req: RegisterRequest,
)
    requires
        state_wf(s),
        s.transaction is Some,
    ensures
        ({
            let s2 = make_credential_state(s, tid, bc, req);
            let prior = s.transaction->Some_0.tid;
            &&& s2.prompts.len() > s.prompts.len()
            &&& s2.prompts.subrange(0, s.prompts.len() + 1 as int) == s.prompts.push(cancel_prompt(prior))
            &&& s2.actions.len() > s.actions.len()
            &&& s2.actions.subrange(0, s.actions.len() + 1 as int) == s.actions.push(Action::AbortBackend)
            &&& s2.pin is None
            &&& s2.selection is None
            &&& (s2.transaction is Some <==> register_accepted(s, req))
            &&& s2.transaction is Some ==> s2.transaction->Some_0.tid == tid
        }),
{
    let r = reset_state(s);
    let s2 = make_credential_state(s, tid, bc, req);
    assert(r.prompts == s.prompts.push(cancel_prompt(s.transaction->Some_0.tid)));
    assert(s2.prompts.subrange(0, s.prompts.len() + 1 as int) =~= r.prompts);
    assert(s2.actions.subrange(0, s.actions.len() + 1 as int) =~= r.actions);
}

/// Starting a signing ceremony ends the earlier ceremony first, as starting
/// a registration does.
pub proof fn lemma_sign_resets_prior<P, S>(
    s: TransportState<P, S>,
    tid: u64,
    bc: u64,
    req: SignRequest,
)
    requires
        state_wf(s),
        s.transaction is Some,
    ensures
        ({
            let s2 = get_assertion_state(s, tid, bc, req);
            let prior = s.transaction->Some_0.tid;
            &&& s2.prompts.len() > s.prompts.len()
            &&& s2.prompts.subrange(0, s.prompts.len() + 1 as int) == s.prompts.push(cancel_prompt(prior))
            &&& s2.actions.len() > s.actions.len()
            &&& s2.actions.subrange(0, s.actions.len() + 1 as int) == s.actions.push(Action::AbortBackend)
            &&& s2.pin is None
            &&& s2.selection is None
            &&& s2.transaction is Some ==> s2.transaction->Some_0.tid == tid
        }),
{
    let r = reset_state(s);
    let s2 = get_assertion_state(s, tid, bc, req);
    assert(s2.prompts.subrange(0, s.prompts.len() + 1 as int) =~= r.prompts);
    assert(s2.actions.subrange(0, s.actions.len() + 1 as int) =~= r.actions);
}

/// A PIN request of the active ceremony can be answered under that
/// ceremony's id and no other, and only once: after one delivery the bridge
/// is empty.
pub proof fn lemma_pin_answered_once<P, S>(
    s: TransportState<P, S>,
    ctx: StatusContext,
    ev: StatusEvent<P, S>,
    tid: u64,
)
    requires
        state_wf(s),
        is_active(s, ctx.tid),
        ev is PinRequired || ev is InvalidPin,
    ensures
        ({
            let s1 = status_state(s, ctx, ev);
            &&& s1.prompts.len() == s.prompts.len() + 1
            &&& s1.prompts.last().tid == ctx.tid
            &&& (s1.prompts.last().kind is PinRequired || s1.prompts.last().kind is PinInvalid)
            &&& (pin_answer(s1, tid) is Some <==> tid == ctx.tid)
            &&& pin_answer(TransportState { pin: None, ..s1 }, tid) is None
        }),
{
}

/// Status events other than a PIN request leave the PIN bridge as it was.
pub proof fn lemma_other_events_keep_pin<P, S>(
    s: TransportState<P, S>,
    ctx: StatusContext,
    ev: StatusEvent<P, S>,
)
    requires
        !(ev is PinRequired || ev is InvalidPin),
    ensures
        status_state(s, ctx, ev).pin == s.pin,
{
}

/// The choice among several accounts of the active ceremony can be answered
/// under that ceremony's id and no other, and only once.
pub proof fn lemma_selection_answered_once<P, S>(
    s: TransportState<P, S>,
    ctx: StatusContext,
    ev: StatusEvent<P, S>,
    tid: u64,
)
    requires
        state_wf(s),
        is_active(s, ctx.tid),
        ev is SelectResultNotice,
    ensures
        ({
            let s1 = status_state(s, ctx, ev);
            &&& s1.prompts.len() == s.prompts.len() + 1
            &&& s1.prompts.last().tid == ctx.tid
            &&& s1.prompts.last().kind is SelectSignResult
            &&& (selection_answer(s1, tid) is Some <==> tid == ctx.tid)
            &&& selection_answer(TransportState { selection: None, ..s1 }, tid) is None
        }),
{
}

/// Status events other than a choice of account leave the selection bridge
/// as it was.
pub proof fn lemma_other_events_keep_selection<P, S>(
    s: TransportState<P, S>,
    ctx: StatusContext,
    ev: StatusEvent<P, S>,
)
    requires
        !(ev is SelectResultNotice),
    ensures
        status_state(s, ctx, ev).selection == s.selection,
{
}

/// A registration that does not ask for the device's attestation is never
/// held for consent: it goes to the backend at once, and its successful
/// result loses its attestation statement.
pub proof fn lemma_none_conveyance_registers_at_once<P, S>(
    s: TransportState<P, S>,
    tid: u64,
    bc: u64,
    req: RegisterRequest,
)
    requires
        state_wf(s),
        register_accepted(s, req),
        conveys_none(req.attestation_conveyance@),
    ensures
        ({
            let r = reset_state(s);
            let s2 = make_credential_state(s, tid, bc, req);
            &&& forall|i: int|
                r.prompts.len() <= i < s2.prompts.len() ==> !((#[trigger] s2.prompts[i]).kind is RegisterDirect)
            &&& s2.actions.len() == r.actions.len() + 1
            &&& s2.actions.last() matches Action::Register { completion, .. } && completion.tid == tid
                && anonymizes(completion, None)
            &&& !awaits_consent(s2, tid)
        }),
{
    let r = reset_state(s);
    let s2 = make_credential_state(s, tid, bc, req);
    assert(s2.prompts.len() == r.prompts.len() + 1);
}

/// A registration that asks for the device's attestation shows the consent
/// prompt and reaches the backend only on the consent for its own id; the
/// consent for another id fails and leaves everything as it was.
pub proof fn lemma_direct_conveyance_waits_for_consent<P, S>(
    s: TransportState<P, S>,
    tid: u64,
    bc: u64,
    req: RegisterRequest,
    other: u64,
    force_none_attestation: bool,
)
    requires
        state_wf(s),
        register_accepted(s, req),
        req.attestation_conveyance@ == "direct"@,
        !s.config.allow_direct_attestation,
        other != tid,
    ensures
        ({
            let s2 = make_credential_state(s, tid, bc, req);
            &&& s2.prompts.last() == register_direct_prompt(tid, req.origin, bc)
            &&& s2.actions == reset_state(s).actions
            &&& awaits_consent(s2, tid)
            &&& !awaits_consent(s2, other)
            &&& resume_state(s2, other, force_none_attestation) == s2
            &&& resume_state(s2, tid, force_none_attestation).actions.last() is Register
        }),
{
}

/// When the allow list held one credential and the assertion names none, the
/// result handed over names that credential; nothing else changes.
pub proof fn lemma_unique_credential_injected(c: SignCompletion, args: SignArgs, o: SignOutcome)
    requires
        args.allow_list.len() == 1 <==> c.unique_allowed_credential is Some,
        args.allow_list.len() == 1 ==> c.unique_allowed_credential->Some_0@ == args.allow_list@[0]@,
        args.allow_list.len() == 1,
        o.credential_id is None,
    ensures
        with_unique_credential(c.unique_allowed_credential, Ok(o)) matches Ok(o2) && o2.credential_id
            is Some && o2.credential_id->Some_0@ == args.allow_list@[0]@ && o2.signature == o.signature
            && o2.authenticator_data == o.authenticator_data && o2.user == o.user && o2.used_app_id
            == o.used_app_id,
{
}

/// An excluded credential is explained to the user and withdraws no prompt;
/// every other end of a registration withdraws the ceremony's prompts.
pub proof fn lemma_register_end_prompts(c: RegisterCompletion, error: Option<BackendError>)
    ensures
        error == Some(BackendError::CredentialExcluded) ==> register_end_prompts(c, error) == seq![
            already_registered_prompt(c),
        ] && !(already_registered_prompt(c).kind is Cancel),
        error != Some(BackendError::CredentialExcluded) ==> register_end_prompts(c, error).contains(
            cancel_prompt(c.tid),
        ),
{
    if error != Some(BackendError::CredentialExcluded) {
        assert(register_end_prompts(c, error)[0] == cancel_prompt(c.tid));
    }
}

/// Every end of a signing ceremony but an excluded credential withdraws the
/// ceremony's prompts.
pub proof fn lemma_sign_end_prompts(tid: u64, result: Result<SignOutcome, BackendError>)
    ensures
        result != Err::<SignOutcome, BackendError>(BackendError::CredentialExcluded)
            ==> sign_end_prompts(tid, result).contains(cancel_prompt(tid)),
        result == Err::<SignOutcome, BackendError>(BackendError::CredentialExcluded)
            ==> sign_end_prompts(tid, result).len() == 0,
{
    if result != Err::<SignOutcome, BackendError>(BackendError::CredentialExcluded) {
        assert(sign_end_prompts(tid, result)[0] == cancel_prompt(tid));
    }
}

/// Cancelling a ceremony that is not the active one changes nothing.
pub proof fn lemma_cancel_other_is_noop<P, S>(s: TransportState<P, S>, tid: u64)
    requires
        !is_active(s, tid),
    ensures
        cancel_state(s, tid) == s,
{
}

} // verus!
