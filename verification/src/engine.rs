use crate::protocol::{Reply, Request, RequestView, Step, StepView};
use crate::types::{CallbackHandles, ClientHandle, Direction, EngineError, Port, PortView};
use vstd::prelude::*;

verus! {

/// The tri-state ownership holder for the audio-server client handle.
///
/// Exactly one `ClientState` exists per engine; whichever variant is
/// current is the sole owner of the handle.  `Transitioning` is the
/// explicit moved-out placeholder held while a fallible (de)activation
/// call is in flight: a state is extracted and replaced with
/// `Transitioning` before the call runs, and the resolved state is
/// written back only once the call's outcome is known, so no code path
/// can observe two live owners of the handle.
#[derive(Clone, Copy, PartialEq, Eq, Structural, Debug)]
pub enum ClientState {
    /// Registered with the audio server but not processing; structural
    /// port registration is legal directly.
    Inactive(ClientHandle),
    /// Registered and processing: the real-time callback is live, so
    /// structural port registration is forbidden.
    Active(ClientHandle, CallbackHandles),
    /// Transient placeholder held only while an ownership move is in
    /// flight; observing it at the start of a public operation is a
    /// programming-error condition.
    Transitioning,
}

/// The continuation of an in-flight engine operation: which server
/// reply the engine is waiting for, and what it will do with it.
enum Pending {
    /// `activate`: waiting for the activation outcome.
    Activating,
    /// `deactivate`: waiting for the deactivation outcome.
    Deactivating,
    /// Port registration that found the client `Active`: waiting for
    /// the quiescing deactivation before registering.
    RegisterDeactivating(Direction, String),
    /// Port registration: waiting for the server's verdict on the
    /// name.  The flag records whether the client must be reactivated
    /// afterwards.
    Registering(Direction, String, bool),
    /// Port registration that quiesced an active client: waiting for
    /// the reactivation outcome while holding the registration result.
    Reactivating(Result<Port, EngineError>),
}

/// Mathematical image of a pending continuation.
pub enum PendingView {
    Activating,
    Deactivating,
    RegisterDeactivating(Direction, Seq<char>),
    Registering(Direction, Seq<char>, bool),
    Reactivating(Result<PortView, EngineError>),
}

impl View for Pending {
    type V = PendingView;

    closed spec fn view(&self) -> PendingView {
        match self {
            Pending::Activating => PendingView::Activating,
            Pending::Deactivating => PendingView::Deactivating,
            Pending::RegisterDeactivating(d, n) => PendingView::RegisterDeactivating(*d, n@),
            Pending::Registering(d, n, r) => PendingView::Registering(*d, n@, *r),
            Pending::Reactivating(res) => PendingView::Reactivating(
                match res {
                    Ok(p) => Ok(p@),
                    Err(e) => Err(*e),
                },
            ),
        }
    }
}

/// Mathematical image of an [`Engine`].
pub struct EngineView {
    pub state: ClientState,
    pub pending: Option<PendingView>,
    pub looping: bool,
}

impl EngineView {
    /// Well-formedness: a pending continuation agrees with the state it
    /// left behind.  While a handle is moved out for a server call the
    /// state is `Transitioning`; a plain registration runs against the
    /// still-held `Inactive` handle.
    pub open spec fn wf(self) -> bool {
        match self.pending {
            None => true,
            Some(PendingView::Activating) => self.state is Transitioning,
            Some(PendingView::Deactivating) => self.state is Transitioning,
            Some(PendingView::RegisterDeactivating(_, _)) => self.state is Transitioning,
            Some(PendingView::Registering(_, _, _)) => self.state is Inactive,
            Some(PendingView::Reactivating(_)) => self.state is Transitioning,
        }
    }

    /// No operation is in flight.
    pub open spec fn idle(self) -> bool {
        self.pending is None
    }
}

/// One public operation of the engine, as its mathematical image.
pub enum OpView {
    Activate,
    Deactivate,
    RegisterPort(Direction, Seq<char>),
}

/// How an operation begins: either it resolves immediately (a no-op or
/// a refusal), or the engine parks a continuation and asks for the
/// first server call of the operation.
pub open spec fn begin_spec(e: EngineView, op: OpView) -> (EngineView, StepView) {
    if e.pending is Some || e.state is Transitioning {
        (e, StepView::Done(Err(EngineError::ClientDeactivationError)))
    } else {
        match (op, e.state) {
            (OpView::Activate, ClientState::Active(_, _)) => (e, StepView::Done(Ok(None))),
            (OpView::Activate, ClientState::Inactive(c)) => (
                EngineView {
                    state: ClientState::Transitioning,
                    pending: Some(PendingView::Activating),
                    ..e
                },
                StepView::Call(RequestView::Activate(c)),
            ),
            (OpView::Deactivate, ClientState::Inactive(_)) => (e, StepView::Done(Ok(None))),
            (OpView::Deactivate, ClientState::Active(c, a)) => (
                EngineView {
                    state: ClientState::Transitioning,
                    pending: Some(PendingView::Deactivating),
                    ..e
                },
                StepView::Call(RequestView::Deactivate(c, a)),
            ),
            (OpView::RegisterPort(d, n), ClientState::Inactive(c)) => (
                EngineView { pending: Some(PendingView::Registering(d, n, false)), ..e },
                StepView::Call(RequestView::RegisterPort(c, d, n)),
            ),
            (OpView::RegisterPort(d, n), ClientState::Active(c, a)) => (
                EngineView {
                    state: ClientState::Transitioning,
                    pending: Some(PendingView::RegisterDeactivating(d, n)),
                    ..e
                },
                StepView::Call(RequestView::Deactivate(c, a)),
            ),
            _ => (e, StepView::Done(Err(EngineError::ClientDeactivationError))),
        }
    }
}

/// Whether a reply answers the server call the continuation is waiting
/// for.
pub open spec fn reply_matches(p: PendingView, r: Reply) -> bool {
    match p {
        PendingView::Activating => r is Activated || r is ActivateFailed,
        PendingView::Deactivating => r is Deactivated || r is DeactivateFailed,
        PendingView::RegisterDeactivating(_, _) => r is Deactivated || r is DeactivateFailed,
        PendingView::Registering(_, _, _) => r is Registered || r is RegisterFailed,
        PendingView::Reactivating(_) => r is Activated || r is ActivateFailed,
    }
}

/// How an operation proceeds once a server reply arrives: the parked
/// continuation consumes the reply and either asks for the next call
/// of the operation or resolves the state machine and finishes.
pub open spec fn resume_spec(e: EngineView, r: Reply) -> (EngineView, StepView) {
    let cleared = EngineView { pending: None, ..e };
    match e.pending {
        None => (e, StepView::Done(Err(EngineError::ClientDeactivationError))),
        Some(PendingView::Activating) => match r {
            Reply::Activated(c, a) => (
                EngineView { state: ClientState::Active(c, a), pending: None, ..e },
                StepView::Done(Ok(None)),
            ),
            Reply::ActivateFailed(c) => (
                EngineView { state: ClientState::Inactive(c), pending: None, ..e },
                StepView::Done(Err(EngineError::ClientActivationError)),
            ),
            _ => (cleared, StepView::Done(Err(EngineError::ClientDeactivationError))),
        },
        Some(PendingView::Deactivating) => match r {
            Reply::Deactivated(c) => (
                EngineView { state: ClientState::Inactive(c), pending: None, ..e },
                StepView::Done(Ok(None)),
            ),
            Reply::DeactivateFailed => (
                EngineView { state: ClientState::Transitioning, pending: None, ..e },
                StepView::Done(Err(EngineError::ClientDeactivationError)),
            ),
            _ => (cleared, StepView::Done(Err(EngineError::ClientDeactivationError))),
        },
        Some(PendingView::RegisterDeactivating(d, n)) => match r {
            Reply::Deactivated(c) => (
                EngineView {
                    state: ClientState::Inactive(c),
                    pending: Some(PendingView::Registering(d, n, true)),
                    ..e
                },
                StepView::Call(RequestView::RegisterPort(c, d, n)),
            ),
            Reply::DeactivateFailed => (
                EngineView { state: ClientState::Transitioning, pending: None, ..e },
                StepView::Done(Err(EngineError::ClientDeactivationError)),
            ),
            _ => (cleared, StepView::Done(Err(EngineError::ClientDeactivationError))),
        },
        Some(PendingView::Registering(d, n, reactivate)) => match e.state {
            ClientState::Inactive(c) => match r {
                Reply::Registered(id) => {
                    let port = PortView { direction: d, name: n, id };
                    if reactivate {
                        (
                            EngineView {
                                state: ClientState::Transitioning,
                                pending: Some(PendingView::Reactivating(Ok(port))),
                                ..e
                            },
                            StepView::Call(RequestView::Activate(c)),
                        )
                    } else {
                        (cleared, StepView::Done(Ok(Some(port))))
                    }
                },
                Reply::RegisterFailed => {
                    if reactivate {
                        (
                            EngineView {
                                state: ClientState::Transitioning,
                                pending: Some(
                                    PendingView::Reactivating(
                                        Err(EngineError::PortRegistrationError),
                                    ),
                                ),
                                ..e
                            },
                            StepView::Call(RequestView::Activate(c)),
                        )
                    } else {
                        (cleared, StepView::Done(Err(EngineError::PortRegistrationError)))
                    }
                },
                _ => (cleared, StepView::Done(Err(EngineError::ClientDeactivationError))),
            },
            _ => (cleared, StepView::Done(Err(EngineError::ClientDeactivationError))),
        },
        Some(PendingView::Reactivating(outcome)) => match r {
            Reply::Activated(c, a) => (
                EngineView { state: ClientState::Active(c, a), pending: None, ..e },
                StepView::Done(
                    match outcome {
                        Ok(p) => Ok(Some(p)),
                        Err(er) => Err(er),
                    },
                ),
            ),
            Reply::ActivateFailed(c) => (
                EngineView { state: ClientState::Inactive(c), pending: None, ..e },
                StepView::Done(
                    match outcome {
                        Ok(_) => Err(EngineError::ClientActivationError),
                        Err(er) => Err(er),
                    },
                ),
            ),
            _ => (cleared, StepView::Done(Err(EngineError::ClientDeactivationError))),
        },
    }
}

/// The audio engine: the only component with mutation authority over
/// the client state.  Its operations run as short sessions: `begin_*`
/// either resolves at once or hands out the first server call, and
/// `resume` consumes each reply until a `Done` step is produced.  All
/// public engine operations are meant to be invoked sequentially by a
/// single caller.
pub struct Engine {
    state: ClientState,
    pending: Option<Pending>,
    looping: bool,
}

impl View for Engine {
    type V = EngineView;

    closed spec fn view(&self) -> EngineView {
        EngineView {
            state: self.state,
            pending: match self.pending {
                None => None,
                Some(p) => Some(p@),
            },
            looping: self.looping,
        }
    }
}

impl Engine {
    /// Wrap an inert client handle obtained from the audio server.
    pub fn from_client(client: ClientHandle) -> (e: Engine)
        ensures
            e@ == (EngineView {
                state: ClientState::Inactive(client),
                pending: None,
                looping: false,
            }),
    {
        Engine { state: ClientState::Inactive(client), pending: None, looping: false }
    }

    /// Begin making the client live.  A no-op if already `Active`; a
    /// refusal if the state machine is `Transitioning` or another
    /// operation is in flight.
    pub fn begin_activate(&mut self) -> (step: Step)
        requires
            old(self)@.wf(),
        ensures
            final(self)@.wf(),
            (final(self)@, step@) == begin_spec(old(self)@, OpView::Activate),
    {
        if self.pending.is_some() {
            return Step::Done(Err(EngineError::ClientDeactivationError));
        }
        match self.state {
            ClientState::Transitioning => Step::Done(Err(EngineError::ClientDeactivationError)),
            ClientState::Active(_, _) => Step::Done(Ok(None)),
            ClientState::Inactive(c) => {
                self.state = ClientState::Transitioning;
                self.pending = Some(Pending::Activating);
                Step::Call(Request::Activate(c))
            },
        }
    }

    /// Begin stopping the real-time callback.  A no-op if already
    /// `Inactive`; a refusal if `Transitioning` or busy.
    pub fn begin_deactivate(&mut self) -> (step: Step)
        requires
            old(self)@.wf(),
        ensures
            final(self)@.wf(),
            (final(self)@, step@) == begin_spec(old(self)@, OpView::Deactivate),
    {
        if self.pending.is_some() {
            return Step::Done(Err(EngineError::ClientDeactivationError));
        }
        match self.state {
            ClientState::Transitioning => Step::Done(Err(EngineError::ClientDeactivationError)),
            ClientState::Inactive(_) => Step::Done(Ok(None)),
            ClientState::Active(c, a) => {
                self.state = ClientState::Transitioning;
                self.pending = Some(Pending::Deactivating);
                Step::Call(Request::Deactivate(c, a))
            },
        }
    }

    /// Begin registering an input port with the given name.
    pub fn begin_register_input_port(&mut self, name: String) -> (step: Step)
        requires
            old(self)@.wf(),
        ensures
            final(self)@.wf(),
            (final(self)@, step@) == begin_spec(
                old(self)@,
                OpView::RegisterPort(Direction::Input, name@),
            ),
    {
        self.begin_register_port(Direction::Input, name)
    }

    /// Begin registering an output port with the given name.
    pub fn begin_register_output_port(&mut self, name: String) -> (step: Step)
        requires
            old(self)@.wf(),
        ensures
            final(self)@.wf(),
            (final(self)@, step@) == begin_spec(
                old(self)@,
                OpView::RegisterPort(Direction::Output, name@),
            ),
    {
        self.begin_register_port(Direction::Output, name)
    }

    /// Begin registering a port.  Against an `Inactive` client the
    /// registration runs directly; against an `Active` one the engine
    /// first asks for the quiescing deactivation.
    pub fn begin_register_port(&mut self, direction: Direction, name: String) -> (step: Step)
        requires
            old(self)@.wf(),
        ensures
            final(self)@.wf(),
            (final(self)@, step@) == begin_spec(
                old(self)@,
                OpView::RegisterPort(direction, name@),
            ),
    {
        if self.pending.is_some() {
            return Step::Done(Err(EngineError::ClientDeactivationError));
        }
        match self.state {
            ClientState::Transitioning => Step::Done(Err(EngineError::ClientDeactivationError)),
            ClientState::Inactive(c) => {
                let request_name = name.clone();
                self.pending = Some(Pending::Registering(direction, name, false));
                Step::Call(Request::RegisterPort(c, direction, request_name))
            },
            ClientState::Active(c, a) => {
                self.state = ClientState::Transitioning;
                self.pending = Some(Pending::RegisterDeactivating(direction, name));
                Step::Call(Request::Deactivate(c, a))
            },
        }
    }

    /// Feed the reply of the server call the engine last asked for.
    /// The parked continuation consumes it and either asks for the next
    /// call or resolves the state machine and finishes the operation.
    pub fn resume(&mut self, reply: Reply) -> (step: Step)
        requires
            old(self)@.wf(),
            old(self)@.pending matches Some(p) ==> reply_matches(p, reply),
        ensures
            final(self)@.wf(),
            (final(self)@, step@) == resume_spec(old(self)@, reply),
    {
        let pending = self.pending.take();
        match pending {
            None => Step::Done(Err(EngineError::ClientDeactivationError)),
            Some(Pending::Activating) => match reply {
                Reply::Activated(c, a) => {
                    self.state = ClientState::Active(c, a);
                    Step::Done(Ok(None))
                },
                Reply::ActivateFailed(c) => {
                    self.state = ClientState::Inactive(c);
                    Step::Done(Err(EngineError::ClientActivationError))
                },
                _ => Step::Done(Err(EngineError::ClientDeactivationError)),
            },
            Some(Pending::Deactivating) => match reply {
                Reply::Deactivated(c) => {
                    self.state = ClientState::Inactive(c);
                    Step::Done(Ok(None))
                },
                Reply::DeactivateFailed => {
                    self.state = ClientState::Transitioning;
                    Step::Done(Err(EngineError::ClientDeactivationError))
                },
                _ => Step::Done(Err(EngineError::ClientDeactivationError)),
            },
            Some(Pending::RegisterDeactivating(d, n)) => match reply {
                Reply::Deactivated(c) => {
                    self.state = ClientState::Inactive(c);
                    let request_name = n.clone();
                    self.pending = Some(Pending::Registering(d, n, true));
                    Step::Call(Request::RegisterPort(c, d, request_name))
                },
                Reply::DeactivateFailed => {
                    self.state = ClientState::Transitioning;
                    Step::Done(Err(EngineError::ClientDeactivationError))
                },
                _ => Step::Done(Err(EngineError::ClientDeactivationError)),
            },
            Some(Pending::Registering(d, n, reactivate)) => match self.state {
                ClientState::Inactive(c) => match reply {
                    Reply::Registered(id) => {
                        let port = Port { direction: d, name: n, id };
                        if reactivate {
                            self.state = ClientState::Transitioning;
                            self.pending = Some(Pending::Reactivating(Ok(port)));
                            Step::Call(Request::Activate(c))
                        } else {
                            Step::Done(Ok(Some(port)))
                        }
                    },
                    Reply::RegisterFailed => {
                        if reactivate {
                            self.state = ClientState::Transitioning;
                            self.pending = Some(
                                Pending::Reactivating(Err(EngineError::PortRegistrationError)),
                            );
                            Step::Call(Request::Activate(c))
                        } else {
                            Step::Done(Err(EngineError::PortRegistrationError))
                        }
                    },
                    _ => Step::Done(Err(EngineError::ClientDeactivationError)),
                },
                _ => Step::Done(Err(EngineError::ClientDeactivationError)),
            },
            Some(Pending::Reactivating(outcome)) => match reply {
                Reply::Activated(c, a) => {
                    self.state = ClientState::Active(c, a);
                    match outcome {
                        Ok(p) => Step::Done(Ok(Some(p))),
                        Err(er) => Step::Done(Err(er)),
                    }
                },
                Reply::ActivateFailed(c) => {
                    self.state = ClientState::Inactive(c);
                    match outcome {
                        Ok(_) => Step::Done(Err(EngineError::ClientActivationError)),
                        Err(er) => Step::Done(Err(er)),
                    }
                },
                _ => Step::Done(Err(EngineError::ClientDeactivationError)),
            },
        }
    }

    /// The current state of the client state machine.
    pub fn client_state(&self) -> (s: ClientState)
        ensures
            s == self@.state,
    {
        self.state
    }

    /// Whether an operation is in flight, waiting for a server reply.
    pub fn in_flight(&self) -> (b: bool)
        ensures
            b == (self@.pending is Some),
    {
        self.pending.is_some()
    }

    /// Liveness marker for the caller's run loop.
    pub fn is_looping(&self) -> (b: bool)
        ensures
            b == self@.looping,
    {
        self.looping
    }

    /// Set the liveness marker for the caller's run loop.
    pub fn set_looping(&mut self, looping: bool)
        ensures
            final(self)@ == (EngineView { looping, ..old(self)@ }),
    {
        self.looping = looping;
    }
}

/// Law: an operation that resolves at `begin` leaves the state machine
/// resolved — when the engine was idle, a `Done` step at `begin` means
/// no continuation was parked, and the state is `Active` or `Inactive`
/// unless the operation failed with `ClientDeactivationError`.
pub proof fn lemma_begin_resolves(e: EngineView, op: OpView)
    requires
        e.wf(),
        e.idle(),
    ensures
        ({
            let (e2, step) = begin_spec(e, op);
            &&& e2.wf()
            &&& step matches StepView::Done(res) ==> {
                &&& e2.pending is None
                &&& e2.state is Active || e2.state is Inactive || res == Err::<
                    Option<PortView>,
                    EngineError,
                >(EngineError::ClientDeactivationError)
            }
        }),
{
}

/// Law: whenever `resume` finishes an operation, the state machine is
/// resolved — the continuation is cleared, and the state is `Active`
/// or `Inactive` unless the operation failed with
/// `ClientDeactivationError`.  Together with `lemma_begin_resolves`
/// this holds for every sequence of operations and every sequence of
/// server replies: `Transitioning` is never exposed by a completed
/// call that did not report `ClientDeactivationError`.
pub proof fn lemma_resume_resolves(e: EngineView, r: Reply)
    requires
        e.wf(),
    ensures
        ({
            let (e2, step) = resume_spec(e, r);
            &&& e2.wf()
            &&& step matches StepView::Done(res) ==> {
                &&& e2.pending is None
                &&& e2.state is Active || e2.state is Inactive || res == Err::<
                    Option<PortView>,
                    EngineError,
                >(EngineError::ClientDeactivationError)
            }
        }),
{
}

} // verus!
