//! The transaction coordinator: one ceremony at a time, the response bridges,
//! and the work it hands to the host (prompts and backend requests).
use vstd::prelude::*;
use crate::bridge::ResponseBridge;
use crate::ceremony::{
    conveys_none, register_args, register_args_of, register_request_ok, sign_args, sign_args_of,
    is_none_attestation, RegisterArgs, RegisterRequest, SignArgs, SignRequest,
};
use crate::errors::Status;
use crate::prompt::{cancel_prompt, cancel_prompts, send_prompt, Prompt, PromptKind, UserEntity};

verus! {

/// Which backends the host enables, and the feature switches that shape a
/// request.
#[derive(Clone, Copy, Debug, PartialEq, Eq, Structural)]
pub struct Config {
    pub usb_token_enabled: bool,
    pub soft_token_enabled: bool,
    pub ctap2_enabled: bool,
    pub allow_direct_attestation: bool,
}

/// The backend that services a ceremony.
#[derive(Clone, Copy, Debug, PartialEq, Eq, Structural)]
pub enum Backend {
    UsbToken,
    SoftToken,
}

/// The hardware backend wins when both are enabled.
pub open spec fn backend_of(c: Config) -> Option<Backend> {
    if c.usb_token_enabled {
        Some(Backend::UsbToken)
    } else if c.soft_token_enabled {
        Some(Backend::SoftToken)
    } else {
        None
    }
}

/// Chooses the backend for a new ceremony.
pub fn select_backend(c: &Config) -> (r: Option<Backend>)
    ensures
        r == backend_of(*c),
{
    if c.usb_token_enabled {
        Some(Backend::UsbToken)
    } else if c.soft_token_enabled {
        Some(Backend::SoftToken)
    } else {
        None
    }
}

/// Arguments held between the start of a registration and the caller's
/// consent to reveal the device's attestation.
pub enum PendingCeremony {
    Register { timeout_ms: u64, args: RegisterArgs },
}

/// The one active ceremony.
pub struct TransactionState {
    pub tid: u64,
    pub browsing_context_id: u64,
    pub pending_args: Option<PendingCeremony>,
}

/// What the status listener of a ceremony needs to address its prompts.
pub struct StatusContext {
    pub tid: u64,
    pub origin: String,
    pub browsing_context_id: u64,
}

/// What the completion of a registration needs.
pub struct RegisterCompletion {
    pub tid: u64,
    pub origin: String,
    pub browsing_context_id: u64,
    pub force_none_attestation: bool,
}

/// What the completion of a signing ceremony needs: the one credential of
/// the allow list, when it had exactly one.
pub struct SignCompletion {
    pub tid: u64,
    pub unique_allowed_credential: Option<Vec<u8>>,
}

/// Work for the host beyond prompts.
pub enum Action {
    /// Ask the backend to abort what it is doing.
    AbortBackend,
    /// Tell the caller that ceremony `tid` was cancelled.
    NotifyCancelled { tid: u64 },
    /// Start the status listener and hand the registration to the backend.
    Register {
        backend: Backend,
        timeout_ms: u64,
        args: RegisterArgs,
        status: StatusContext,
        completion: RegisterCompletion,
    },
    /// Start the status listener and hand the signing request to the backend;
    /// its completion is `SignCompletion::new(status.tid, &args)`.
    Sign {
        backend: Backend,
        timeout_ms: u64,
        args: SignArgs,
        status: StatusContext,
    },
}

/// A status event from the backend, carrying the responders through which it
/// waits for the user's answer.
pub enum StatusEvent<P, S> {
    SelectDeviceNotice,
    PresenceRequired,
    PinRequired(P),
    InvalidPin(P, Option<u8>),
    PinAuthBlocked,
    PinBlocked,
    PinNotSet,
    InvalidUv(Option<u8>),
    UvBlocked,
    PinIsTooShort,
    PinIsTooLong,
    InteractiveManagement,
    SelectResultNotice(S, Vec<UserEntity>),
}

/// The coordinator as a mathematical value.
pub struct TransportState<P, S> {
    pub config: Config,
    pub transaction: Option<TransactionState>,
    pub pin: Option<(u64, P)>,
    pub selection: Option<(u64, S)>,
    /// Prompts queued for the front end, oldest first.
    pub prompts: Seq<Prompt>,
    /// Other work queued for the host, oldest first.
    pub actions: Seq<Action>,
}

pub open spec fn active_tid<P, S>(s: TransportState<P, S>) -> Option<u64> {
    match s.transaction {
        Some(t) => Some(t.tid),
        None => None,
    }
}

/// A bridge entry always belongs to the active ceremony, and a ceremony only
/// exists while a backend is enabled.
pub open spec fn state_wf<P, S>(s: TransportState<P, S>) -> bool {
    &&& s.transaction is Some ==> backend_of(s.config) is Some
    &&& s.pin matches Some((t, _)) ==> active_tid(s) == Some(t)
    &&& s.selection matches Some((t, _)) ==> active_tid(s) == Some(t)
}

pub open spec fn initial_state<P, S>(config: Config) -> TransportState<P, S> {
    TransportState {
        config,
        transaction: None,
        pin: None,
        selection: None,
        prompts: Seq::empty(),
        actions: Seq::empty(),
    }
}

pub open spec fn with_prompt<P, S>(s: TransportState<P, S>, p: Prompt) -> TransportState<P, S> {
    TransportState { prompts: s.prompts.push(p), ..s }
}

/// Ends the active ceremony, if any: its bridges are emptied, the backend is
/// asked to abort and its prompts are withdrawn.
pub open spec fn reset_state<P, S>(s: TransportState<P, S>) -> TransportState<P, S> {
    match s.transaction {
        Some(t) => TransportState {
            transaction: None,
            pin: None,
            selection: None,
            prompts: s.prompts.push(cancel_prompt(t.tid)),
            actions: s.actions.push(Action::AbortBackend),
            ..s
        },
        None => s,
    }
}

pub open spec fn is_active<P, S>(s: TransportState<P, S>, tid: u64) -> bool {
    s.transaction matches Some(t) && t.tid == tid
}

/// Ends ceremony `tid` if it is the active one, and does nothing otherwise.
pub open spec fn cancel_state<P, S>(s: TransportState<P, S>, tid: u64) -> TransportState<P, S> {
    if is_active(s, tid) {
        TransportState {
            transaction: None,
            pin: None,
            selection: None,
            actions: s.actions.push(Action::AbortBackend).push(Action::NotifyCancelled { tid }),
            ..s
        }
    } else {
        s
    }
}

/// Whether ceremony `tid` is active and waits for the caller's consent.
pub open spec fn awaits_consent<P, S>(s: TransportState<P, S>, tid: u64) -> bool {
    s.transaction matches Some(t) && t.tid == tid && t.pending_args is Some
}

/// Hands the pending registration of ceremony `tid` to the backend.
pub open spec fn resume_state<P, S>(
    s: TransportState<P, S>,
    tid: u64,
    force_none_attestation: bool,
) -> TransportState<P, S> {
    if awaits_consent(s, tid) {
        let t = s.transaction->Some_0;
        let PendingCeremony::Register { timeout_ms, args } = t.pending_args->Some_0;
        let status = StatusContext {
            tid,
            origin: args.origin,
            browsing_context_id: t.browsing_context_id,
        };
        let completion = RegisterCompletion {
            tid,
            origin: args.origin,
            browsing_context_id: t.browsing_context_id,
            force_none_attestation,
        };
        TransportState {
            transaction: Some(TransactionState { pending_args: None, ..t }),
            actions: s.actions.push(
                Action::Register {
                    backend: backend_of(s.config)->Some_0,
                    timeout_ms,
                    args,
                    status,
                    completion,
                },
            ),
            ..s
        }
    } else {
        s
    }
}

pub open spec fn presence_prompt(tid: u64, origin: String, bc: u64) -> Prompt {
    Prompt {
        kind: PromptKind::Presence,
        tid,
        origin: Some(origin),
        browsing_context_id: Some(bc),
    }
}

pub open spec fn register_direct_prompt(tid: u64, origin: String, bc: u64) -> Prompt {
    Prompt {
        kind: PromptKind::RegisterDirect,
        tid,
        origin: Some(origin),
        browsing_context_id: Some(bc),
    }
}

/// Whether a registration goes to the backend at once, without asking the
/// caller's consent first.
pub open spec fn registers_at_once(config: Config, req: RegisterRequest) -> bool {
    conveys_none(req.attestation_conveyance@) || config.allow_direct_attestation
}

/// Whether a registration is accepted: the request is sound and a backend is
/// enabled.
pub open spec fn register_accepted<P, S>(s: TransportState<P, S>, req: RegisterRequest) -> bool {
    register_request_ok(req) && backend_of(s.config) is Some
}

/// Starts a registration after ending any earlier ceremony.
pub open spec fn make_credential_state<P, S>(
    s: TransportState<P, S>,
    tid: u64,
    bc: u64,
    req: RegisterRequest,
) -> TransportState<P, S> {
    let r = reset_state(s);
    if !register_accepted(s, req) {
        r
    } else {
        let args = register_args_of(req, !s.config.ctap2_enabled);
        let pending = PendingCeremony::Register { timeout_ms: req.timeout_ms as u64, args };
        let recorded = TransportState {
            transaction: Some(
                TransactionState { tid, browsing_context_id: bc, pending_args: Some(pending) },
            ),
            ..r
        };
        if registers_at_once(s.config, req) {
            resume_state(
                with_prompt(recorded, presence_prompt(tid, req.origin, bc)),
                tid,
                conveys_none(req.attestation_conveyance@),
            )
        } else {
            with_prompt(recorded, register_direct_prompt(tid, req.origin, bc))
        }
    }
}

/// Starts a signing ceremony after ending any earlier one.
pub open spec fn get_assertion_state<P, S>(
    s: TransportState<P, S>,
    tid: u64,
    bc: u64,
    req: SignRequest,
) -> TransportState<P, S> {
    let r = reset_state(s);
    if backend_of(s.config) is None {
        r
    } else {
        TransportState {
            transaction: Some(TransactionState { tid, browsing_context_id: bc, pending_args: None }),
            prompts: r.prompts.push(presence_prompt(tid, req.origin, bc)),
            actions: r.actions.push(
                Action::Sign {
                    backend: backend_of(s.config)->Some_0,
                    timeout_ms: req.timeout_ms as u64,
                    args: sign_args_of(req, !s.config.ctap2_enabled),
                    status: StatusContext { tid, origin: req.origin, browsing_context_id: bc },
                },
            ),
            ..r
        }
    }
}

/// The prompt that a status event asks for, if any.
pub open spec fn status_prompt_kind<P, S>(ev: StatusEvent<P, S>) -> Option<PromptKind> {
    match ev {
        StatusEvent::SelectDeviceNotice => Some(PromptKind::SelectDevice),
        StatusEvent::PresenceRequired => Some(PromptKind::Presence),
        StatusEvent::PinRequired(_) => Some(PromptKind::PinRequired),
        StatusEvent::InvalidPin(_, retries) => Some(PromptKind::PinInvalid { retries }),
        StatusEvent::PinAuthBlocked => Some(PromptKind::PinAuthBlocked),
        StatusEvent::PinBlocked => Some(PromptKind::DeviceBlocked),
        StatusEvent::PinNotSet => Some(PromptKind::PinNotSet),
        StatusEvent::InvalidUv(retries) => Some(PromptKind::UvInvalid { retries }),
        StatusEvent::UvBlocked => Some(PromptKind::UvBlocked),
        StatusEvent::SelectResultNotice(_, entities) => Some(
            PromptKind::SelectSignResult { entities },
        ),
        _ => None,
    }
}

/// Handles one status event of the ceremony that `ctx` describes. Events of a
/// ceremony that is no longer active are dropped; otherwise a request for a
/// PIN or for a choice of account stores its responder in the bridge, and
/// the event is shown as its prompt.
pub open spec fn status_state<P, S>(
    s: TransportState<P, S>,
    ctx: StatusContext,
    ev: StatusEvent<P, S>,
) -> TransportState<P, S> {
    if !is_active(s, ctx.tid) {
        s
    } else {
        let s1 = match ev {
            StatusEvent::PinRequired(p) => TransportState { pin: Some((ctx.tid, p)), ..s },
            StatusEvent::InvalidPin(p, _) => TransportState { pin: Some((ctx.tid, p)), ..s },
            StatusEvent::SelectResultNotice(r, _) => TransportState {
                selection: Some((ctx.tid, r)),
                ..s
            },
            _ => s,
        };
        match status_prompt_kind(ev) {
            Some(kind) => with_prompt(
                s1,
                Prompt {
                    kind,
                    tid: ctx.tid,
                    origin: Some(ctx.origin),
                    browsing_context_id: Some(ctx.browsing_context_id),
                },
            ),
            None => s1,
        }
    }
}

/// The responder for a PIN of ceremony `tid`, if the pin bridge holds it.
pub open spec fn pin_answer<P, S>(s: TransportState<P, S>, tid: u64) -> Option<P> {
    match s.pin {
        Some((t, p)) => if t == tid { Some(p) } else { None },
        None => None,
    }
}

/// The responder for a choice of account of ceremony `tid`, if held.
pub open spec fn selection_answer<P, S>(s: TransportState<P, S>, tid: u64) -> Option<S> {
    match s.selection {
        Some((t, r)) => if t == tid { Some(r) } else { None },
        None => None,
    }
}

/// A copy of a byte string.
pub fn copy_bytes(v: &Vec<u8>) -> (r: Vec<u8>)
    ensures
        r@ == v@,
{
    let mut r: Vec<u8> = Vec::new();
    let mut i: usize = 0;
    while i < v.len()
        invariant
            i <= v.len(),
            r@ == v@.subrange(0, i as int),
        decreases v.len() - i,
    {
        r.push(v[i]);
        i = i + 1;
    }
    assert(r@ == v@.subrange(0, v.len() as int));
    r
}

impl SignCompletion {
    /// The completion of signing ceremony `tid` with these arguments.
    pub fn new(tid: u64, args: &SignArgs) -> (r: SignCompletion)
        ensures
            r.tid == tid,
            args.allow_list.len() == 1 <==> r.unique_allowed_credential is Some,
            args.allow_list.len() == 1 ==> r.unique_allowed_credential->Some_0@
                == args.allow_list@[0]@,
    {
        let unique_allowed_credential = if args.allow_list.len() == 1 {
            Some(copy_bytes(&args.allow_list[0]))
        } else {
            None
        };
        SignCompletion { tid, unique_allowed_credential }
    }
}

/// The coordinator. `P` is the responder through which the backend waits for
/// a PIN, `S` the one through which it waits for the choice of an account.
pub struct AuthrsTransport<P, S> {
    config: Config,
    pin_receiver: ResponseBridge<P>,
    selection_receiver: ResponseBridge<S>,
    transaction: Option<TransactionState>,
    prompts: Vec<Prompt>,
    actions: Vec<Action>,
}

impl<P, S> View for AuthrsTransport<P, S> {
    type V = TransportState<P, S>;

    closed spec fn view(&self) -> TransportState<P, S> {
        TransportState {
            config: self.config,
            transaction: self.transaction,
            pin: self.pin_receiver@,
            selection: self.selection_receiver@,
            prompts: self.prompts@,
            actions: self.actions@,
        }
    }
}

impl<P, S> AuthrsTransport<P, S> {
    pub open spec fn wf(&self) -> bool {
        state_wf(self@)
    }

    /// A coordinator with no ceremony and nothing queued.
    pub fn new(config: Config) -> (r: Self)
        ensures
            r@ == initial_state::<P, S>(config),
            r.wf(),
    {
        let r = AuthrsTransport {
            config,
            pin_receiver: ResponseBridge::new(),
            selection_receiver: ResponseBridge::new(),
            transaction: None,
            prompts: Vec::new(),
            actions: Vec::new(),
        };
        assert(r@.prompts == Seq::<Prompt>::empty());
        assert(r@.actions == Seq::<Action>::empty());
        r
    }

    /// Hands over the queued prompts, oldest first.
    pub fn take_prompts(&mut self) -> (r: Vec<Prompt>)
        ensures
            r@ == old(self)@.prompts,
            final(self)@ == (TransportState { prompts: Seq::empty(), ..old(self)@ }),
    {
        let mut r = Vec::new();
        std::mem::swap(&mut r, &mut self.prompts);
        assert(self@.prompts == Seq::<Prompt>::empty());
        r
    }

    /// Hands over the queued actions, oldest first.
    pub fn take_actions(&mut self) -> (r: Vec<Action>)
        ensures
            r@ == old(self)@.actions,
            final(self)@ == (TransportState { actions: Seq::empty(), ..old(self)@ }),
    {
        let mut r = Vec::new();
        std::mem::swap(&mut r, &mut self.actions);
        assert(self@.actions == Seq::<Action>::empty());
        r
    }

    /// Drops both bridges' responders unanswered, and asks the backend to abort.
    fn reset_helper(&mut self)
        ensures
            final(self)@ == (TransportState {
                pin: None,
                selection: None,
                actions: old(self)@.actions.push(Action::AbortBackend),
                ..old(self)@
            }),
    {
        self.pin_receiver.clear();
        self.selection_receiver.clear();
        self.actions.push(Action::AbortBackend);
    }

    /// Ends the active ceremony, if any, and withdraws its prompts.
    pub fn reset(&mut self) -> (r: Result<(), Status>)
        requires
            old(self).wf(),
        ensures
            final(self).wf(),
            final(self)@ == reset_state(old(self)@),
            r == Ok::<(), Status>(()),
    {
        match self.transaction.take() {
            Some(t) => {
                self.reset_helper();
                cancel_prompts(&mut self.prompts, t.tid);
            },
            None => {},
        }
        Ok(())
    }

    /// Cancels ceremony `tid`. Nothing happens unless it is the active one;
    /// either way the call succeeds.
    pub fn cancel(&mut self, tid: u64) -> (r: Result<(), Status>)
        requires
            old(self).wf(),
        ensures
            final(self).wf(),
            final(self)@ == cancel_state(old(self)@, tid),
            r == Ok::<(), Status>(()),
    {
        let matches = match &self.transaction {
            Some(t) => t.tid == tid,
            None => false,
        };
        if matches {
            self.reset_helper();
            self.actions.push(Action::NotifyCancelled { tid });
            self.transaction = None;
        }
        Ok(())
    }

    /// The caller's consent for ceremony `tid`: its pending registration goes
    /// to the backend, without the device's attestation when
    /// `force_none_attestation` is set. Fails, changing nothing, unless `tid`
    /// is active and still waits for consent.
    pub fn resume_make_credential(&mut self, tid: u64, force_none_attestation: bool) -> (r: Result<
        (),
        Status,
    >)
        requires
            old(self).wf(),
        ensures
            final(self).wf(),
            final(self)@ == resume_state(old(self)@, tid, force_none_attestation),
            r == (if awaits_consent(old(self)@, tid) {
                Ok::<(), Status>(())
            } else {
                Err(Status::Failure)
            }),
    {
        let state = match self.transaction.take() {
            Some(t) => t,
            None => return Err(Status::Failure),
        };
        if state.tid != tid || state.pending_args.is_none() {
            self.transaction = Some(state);
            return Err(Status::Failure);
        }
        let TransactionState { tid: _, browsing_context_id, pending_args } = state;
        let backend = match select_backend(&self.config) {
            Some(b) => b,
            None => {
                assert(false);
                return Err(Status::Failure);
            },
        };
        match pending_args {
            Some(PendingCeremony::Register { timeout_ms, args }) => {
                let status = StatusContext { tid, origin: args.origin.clone(), browsing_context_id };
                let completion = RegisterCompletion {
                    tid,
                    origin: args.origin.clone(),
                    browsing_context_id,
                    force_none_attestation,
                };
                self.transaction = Some(
                    TransactionState { tid, browsing_context_id, pending_args: None },
                );
                self.actions.push(
                    Action::Register { backend, timeout_ms, args, status, completion },
                );
                Ok(())
            },
            None => Err(Status::Failure),
        }
    }

    /// Starts a registration. Any earlier ceremony is ended first. The
    /// request is refused (`Failure`) when its options are unsound or no
    /// backend is enabled; then no ceremony is recorded. Otherwise, when the
    /// device's attestation is not asked for, the registration goes to the
    /// backend at once; else the front end is asked for consent and the
    /// registration waits for `resume_make_credential`.
    pub fn make_credential(&mut self, tid: u64, browsing_context_id: u64, req: RegisterRequest) -> (r:
        Result<(), Status>)
        requires
            old(self).wf(),
        ensures
            final(self).wf(),
            final(self)@ == make_credential_state(old(self)@, tid, browsing_context_id, req),
            r == (if register_accepted(old(self)@, req) {
                Ok::<(), Status>(())
            } else {
                Err(Status::Failure)
            }),
    {
        let _ = self.reset();
        let none_attestation = is_none_attestation(req.attestation_conveyance.as_str());
        let timeout_ms = req.timeout_ms as u64;
        let at_once = none_attestation || self.config.allow_direct_attestation;
        let use_ctap1_fallback = !self.config.ctap2_enabled;
        let args = match register_args(req, use_ctap1_fallback) {
            Ok(a) => a,
            Err(e) => return Err(e),
        };
        if select_backend(&self.config).is_none() {
            return Err(Status::Failure);
        }
        let origin = args.origin.clone();
        self.transaction = Some(
            TransactionState {
                tid,
                browsing_context_id,
                pending_args: Some(PendingCeremony::Register { timeout_ms, args }),
            },
        );
        if at_once {
            send_prompt(
                &mut self.prompts,
                PromptKind::Presence,
                tid,
                Some(origin),
                Some(browsing_context_id),
            );
            self.resume_make_credential(tid, none_attestation)
        } else {
            send_prompt(
                &mut self.prompts,
                PromptKind::RegisterDirect,
                tid,
                Some(origin),
                Some(browsing_context_id),
            );
            Ok(())
        }
    }

    /// Starts a signing ceremony, which goes to the backend at once. Any
    /// earlier ceremony is ended first. Fails (`Failure`), recording nothing,
    /// when no backend is enabled.
    pub fn get_assertion(&mut self, tid: u64, browsing_context_id: u64, req: SignRequest) -> (r:
        Result<(), Status>)
        requires
            old(self).wf(),
        ensures
            final(self).wf(),
            final(self)@ == get_assertion_state(old(self)@, tid, browsing_context_id, req),
            r == (if backend_of(old(self)@.config) is Some {
                Ok::<(), Status>(())
            } else {
                Err(Status::Failure)
            }),
    {
        let _ = self.reset();
        let backend = match select_backend(&self.config) {
            Some(b) => b,
            None => return Err(Status::Failure),
        };
        let timeout_ms = req.timeout_ms as u64;
        let origin = req.origin.clone();
        let status = StatusContext { tid, origin: req.origin.clone(), browsing_context_id };
        let args = sign_args(req, !self.config.ctap2_enabled);
        send_prompt(
            &mut self.prompts,
            PromptKind::Presence,
            tid,
            Some(origin),
            Some(browsing_context_id),
        );
        self.transaction = Some(TransactionState { tid, browsing_context_id, pending_args: None });
        self.actions.push(
            Action::Sign {
                backend,
                timeout_ms,
                args,
                status,
            },
        );
        Ok(())
    }

    /// Takes the PIN responder out of its bridge for ceremony `tid`. The
    /// bridge is empty afterwards either way; the responder is handed back
    /// only when it was stored for `tid`.
    pub fn pin_callback(&mut self, tid: u64) -> (r: Result<P, Status>)
        requires
            old(self).wf(),
        ensures
            final(self).wf(),
            final(self)@ == (TransportState { pin: None, ..old(self)@ }),
            r == (match pin_answer(old(self)@, tid) {
                Some(p) => Ok::<P, Status>(p),
                None => Err(Status::Failure),
            }),
    {
        match self.pin_receiver.deliver(tid) {
            Some(p) => Ok(p),
            None => Err(Status::Failure),
        }
    }

    /// Takes the responder for the choice of an account out of its bridge for
    /// ceremony `tid`, as `pin_callback` does for a PIN.
    pub fn selection_callback(&mut self, tid: u64) -> (r: Result<S, Status>)
        requires
            old(self).wf(),
        ensures
            final(self).wf(),
            final(self)@ == (TransportState { selection: None, ..old(self)@ }),
            r == (match selection_answer(old(self)@, tid) {
                Some(s) => Ok::<S, Status>(s),
                None => Err(Status::Failure),
            }),
    {
        match self.selection_receiver.deliver(tid) {
            Some(s) => Ok(s),
            None => Err(Status::Failure),
        }
    }

    /// Handles one status event of the ceremony that `ctx` describes.
    pub fn handle_status_update(&mut self, ctx: &StatusContext, ev: StatusEvent<P, S>)
        requires
            old(self).wf(),
        ensures
            final(self).wf(),
            final(self)@ == status_state(old(self)@, *ctx, ev),
    {
        let active = match &self.transaction {
            Some(t) => t.tid == ctx.tid,
            None => false,
        };
        if !active {
            return ;
        }
        let tid = ctx.tid;
        let origin = Some(ctx.origin.clone());
        let bc = Some(ctx.browsing_context_id);
        match ev {
            StatusEvent::SelectDeviceNotice => {
                send_prompt(&mut self.prompts, PromptKind::SelectDevice, tid, origin, bc);
            },
            StatusEvent::PresenceRequired => {
                send_prompt(&mut self.prompts, PromptKind::Presence, tid, origin, bc);
            },
            StatusEvent::PinRequired(p) => {
                self.pin_receiver.offer(tid, p);
                send_prompt(&mut self.prompts, PromptKind::PinRequired, tid, origin, bc);
            },
            StatusEvent::InvalidPin(p, retries) => {
                self.pin_receiver.offer(tid, p);
                send_prompt(&mut self.prompts, PromptKind::PinInvalid { retries }, tid, origin, bc);
            },
            StatusEvent::PinAuthBlocked => {
                send_prompt(&mut self.prompts, PromptKind::PinAuthBlocked, tid, origin, bc);
            },
            StatusEvent::PinBlocked => {
                send_prompt(&mut self.prompts, PromptKind::DeviceBlocked, tid, origin, bc);
            },
            StatusEvent::PinNotSet => {
                send_prompt(&mut self.prompts, PromptKind::PinNotSet, tid, origin, bc);
            },
            StatusEvent::InvalidUv(retries) => {
                send_prompt(&mut self.prompts, PromptKind::UvInvalid { retries }, tid, origin, bc);
            },
            StatusEvent::UvBlocked => {
                send_prompt(&mut self.prompts, PromptKind::UvBlocked, tid, origin, bc);
            },
            StatusEvent::SelectResultNotice(r, entities) => {
                self.selection_receiver.offer(tid, r);
                send_prompt(
                    &mut self.prompts,
                    PromptKind::SelectSignResult { entities },
                    tid,
                    origin,
                    bc,
                );
            },
            StatusEvent::PinIsTooShort => {},
            StatusEvent::PinIsTooLong => {},
            StatusEvent::InteractiveManagement => {},
        }
    }

    /// The id of the active ceremony, if any.
    pub fn active_transaction(&self) -> (r: Option<u64>)
        ensures
            r == active_tid(self@),
    {
        match &self.transaction {
            Some(t) => Some(t.tid),
            None => None,
        }
    }

    /// Whether the active ceremony is `tid` and waits for the caller's consent.
    pub fn is_awaiting_consent(&self, tid: u64) -> (r: bool)
        ensures
            r == awaits_consent(self@, tid),
    {
        match &self.transaction {
            Some(t) => t.tid == tid && t.pending_args.is_some(),
            None => false,
        }
    }

    /// The coordinator does not hand out its host controller.
    pub fn get_controller(&self) -> (r: Result<(), Status>)
        ensures
            r == Err::<(), Status>(Status::NotImplemented),
    {
        Err(Status::NotImplemented)
    }
}

} // verus!
