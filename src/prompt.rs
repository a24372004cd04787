//! Prompt events for the front end.
use vstd::prelude::*;

verus! {

/// A user account as the authenticator reports it.
#[derive(Debug)]
pub struct UserEntity {
    pub id: Vec<u8>,
    pub name: Option<String>,
    pub display_name: Option<String>,
}

/// What the front end is asked to show.
#[derive(Debug)]
pub enum PromptKind {
    AlreadyRegistered,
    Cancel,
    DeviceBlocked,
    PinAuthBlocked,
    PinNotSet,
    Presence,
    SelectDevice,
    UvBlocked,
    PinRequired,
    PinInvalid { retries: Option<u8> },
    RegisterDirect,
    UvInvalid { retries: Option<u8> },
    SelectSignResult { entities: Vec<UserEntity> },
}

/// One prompt event, addressed by transaction id.
#[derive(Debug)]
pub struct Prompt {
    pub kind: PromptKind,
    pub tid: u64,
    pub origin: Option<String>,
    pub browsing_context_id: Option<u64>,
}

/// The prompt that withdraws every prompt of transaction `tid`.
pub open spec fn cancel_prompt(tid: u64) -> Prompt {
    Prompt { kind: PromptKind::Cancel, tid, origin: None, browsing_context_id: None }
}

/// Queues a prompt event for the front end.
pub fn send_prompt(
    out: &mut Vec<Prompt>,
    kind: PromptKind,
    tid: u64,
    origin: Option<String>,
    browsing_context_id: Option<u64>,
)
    ensures
        final(out)@ == old(out)@.push(
            (Prompt { kind, tid, origin, browsing_context_id }),
        ),
{
    out.push(Prompt { kind, tid, origin, browsing_context_id });
}

/// Queues the event that withdraws every prompt of transaction `tid`.
pub fn cancel_prompts(out: &mut Vec<Prompt>, tid: u64)
    ensures
        final(out)@ == old(out)@.push(cancel_prompt(tid)),
{
    send_prompt(out, PromptKind::Cancel, tid, None, None);
}

} // verus!
