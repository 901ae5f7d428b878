use crate::engine::{ClientState, Engine, EngineView};
use crate::protocol::{Reply, RequestTag, RequestView, Step};
use crate::server::{create_client_spec, perform_spec, ServerModel, ServerModelView};
use crate::types::{Direction, EngineError, Port, PortView};
use vstd::prelude::*;
use vstd::string::StringExecFns;

verus! {

/// The engine's held handles are honoured by the server: whichever
/// variant currently owns the client handle, the server agrees on the
/// client's identity and activity.  While `Transitioning` nothing is
/// owed — the engine is unusable until the next operation refuses.
pub open spec fn linked(e: EngineView, s: ServerModelView) -> bool {
    match e.state {
        ClientState::Inactive(c) => s.client_inactive(c),
        ClientState::Active(c, a) => s.client_active_with(c, a),
        ClientState::Transitioning => true,
    }
}

/// What `activate` does against a server: a no-op when `Active`, a
/// refusal when `Transitioning`, and otherwise one activation request
/// whose outcome resolves the state machine — `Active` on success,
/// back to `Inactive` with `ClientActivationError` on refusal.
pub open spec fn activate_op_spec(e: EngineView, s: ServerModelView) -> (
    EngineView,
    ServerModelView,
    Result<(), EngineError>,
) {
    match e.state {
        ClientState::Active(_, _) => (e, s, Ok(())),
        ClientState::Transitioning => (e, s, Err(EngineError::ClientDeactivationError)),
        ClientState::Inactive(c) => {
            let (s1, rep) = perform_spec(s, RequestView::Activate(c));
            match rep {
                Reply::Activated(c2, a) => (
                    EngineView { state: ClientState::Active(c2, a), ..e },
                    s1,
                    Ok(()),
                ),
                _ => (
                    EngineView { state: ClientState::Inactive(c), ..e },
                    s1,
                    Err(EngineError::ClientActivationError),
                ),
            }
        },
    }
}

/// What `deactivate` does against a server: a no-op when `Inactive`, a
/// refusal when `Transitioning`, and otherwise one deactivation
/// request — `Inactive` with the recovered handle on success, and a
/// detectable `Transitioning` with `ClientDeactivationError` when the
/// handle could not be recovered.
pub open spec fn deactivate_op_spec(e: EngineView, s: ServerModelView) -> (
    EngineView,
    ServerModelView,
    Result<(), EngineError>,
) {
    match e.state {
        ClientState::Inactive(_) => (e, s, Ok(())),
        ClientState::Transitioning => (e, s, Err(EngineError::ClientDeactivationError)),
        ClientState::Active(c, a) => {
            let (s1, rep) = perform_spec(s, RequestView::Deactivate(c, a));
            match rep {
                Reply::Deactivated(c2) => (
                    EngineView { state: ClientState::Inactive(c2), ..e },
                    s1,
                    Ok(()),
                ),
                _ => (
                    EngineView { state: ClientState::Transitioning, ..e },
                    s1,
                    Err(EngineError::ClientDeactivationError),
                ),
            }
        },
    }
}

/// What port registration does against a server.  Against an
/// `Inactive` client the registration runs directly and the state is
/// untouched.  Against an `Active` client the engine deactivates,
/// registers, and reactivates; the three server calls are atomic with
/// respect to other engine operations.  A registration refusal is
/// reported as `PortRegistrationError`; a reactivation refusal as
/// `ClientActivationError`, with the engine left `Inactive`.
pub open spec fn register_port_op_spec(
    e: EngineView,
    s: ServerModelView,
    direction: Direction,
    name: Seq<char>,
) -> (EngineView, ServerModelView, Result<PortView, EngineError>) {
    match e.state {
        ClientState::Transitioning => (e, s, Err(EngineError::ClientDeactivationError)),
        ClientState::Inactive(c) => {
            let (s1, rep) = perform_spec(s, RequestView::RegisterPort(c, direction, name));
            match rep {
                Reply::Registered(id) => (e, s1, Ok(PortView { direction, name, id })),
                _ => (e, s1, Err(EngineError::PortRegistrationError)),
            }
        },
        ClientState::Active(c, a) => {
            let (s1, rep1) = perform_spec(s, RequestView::Deactivate(c, a));
            match rep1 {
                Reply::Deactivated(c1) => {
                    let (s2, rep2) = perform_spec(s1, RequestView::RegisterPort(c1, direction, name));
                    let port_res: Result<PortView, EngineError> = match rep2 {
                        Reply::Registered(id) => Ok(PortView { direction, name, id }),
                        _ => Err(EngineError::PortRegistrationError),
                    };
                    let (s3, rep3) = perform_spec(s2, RequestView::Activate(c1));
                    match rep3 {
                        Reply::Activated(c2, a2) => (
                            EngineView { state: ClientState::Active(c2, a2), ..e },
                            s3,
                            port_res,
                        ),
                        _ => (
                            EngineView { state: ClientState::Inactive(c1), ..e },
                            s3,
                            if port_res is Ok {
                                Err(EngineError::ClientActivationError)
                            } else {
                                port_res
                            },
                        ),
                    }
                },
                _ => (
                    EngineView { state: ClientState::Transitioning, ..e },
                    s1,
                    Err(EngineError::ClientDeactivationError),
                ),
            }
        },
    }
}

impl Engine {
    /// Create an engine around a freshly created client with this
    /// name.  The server's refusal (a name collision) is surfaced as
    /// `ClientCreationError`.
    pub fn new(server: &mut ServerModel, name: String) -> (r: Result<Engine, EngineError>)
        ensures
            ({
                let (s2, cr) = create_client_spec(old(server)@, name@);
                &&& final(server)@ == s2
                &&& match (r, cr) {
                    (Ok(e), Ok(c)) => {
                        &&& e@ == (EngineView {
                            state: ClientState::Inactive(c),
                            pending: None,
                            looping: false,
                        })
                        &&& e@.wf()
                        &&& e@.idle()
                        &&& linked(e@, final(server)@)
                    },
                    (Err(er), Err(cer)) => er == cer,
                    _ => false,
                }
            }),
    {
        match server.create_client(name) {
            Ok(c) => Ok(Engine::from_client(c)),
            Err(er) => Err(er),
        }
    }

    /// Make the client live, as `activate_op_spec` says.  Calling
    /// `activate` while already `Active` is a no-op: no activation
    /// request is sent to the server.
    pub fn activate(&mut self, server: &mut ServerModel) -> (r: Result<(), EngineError>)
        requires
            old(self)@.wf(),
            old(self)@.idle(),
        ensures
            final(self)@.wf(),
            final(self)@.idle(),
            (final(self)@, final(server)@, r) == activate_op_spec(old(self)@, old(server)@),
            linked(old(self)@, old(server)@) ==> linked(final(self)@, final(server)@),
    {
        let step = self.begin_activate();
        match step {
            Step::Done(res) => match res {
                Ok(_) => Ok(()),
                Err(er) => Err(er),
            },
            Step::Call(rq) => {
                let reply = server.perform(rq);
                let step2 = self.resume(reply);
                match step2 {
                    Step::Done(res) => match res {
                        Ok(_) => Ok(()),
                        Err(er) => Err(er),
                    },
                    Step::Call(_) => vstd::pervasive::unreached(),
                }
            },
        }
    }

    /// Stop the real-time callback, as `deactivate_op_spec` says.
    /// Calling `deactivate` while already `Inactive` is a no-op: no
    /// deactivation request is sent to the server.
    pub fn deactivate(&mut self, server: &mut ServerModel) -> (r: Result<(), EngineError>)
        requires
            old(self)@.wf(),
            old(self)@.idle(),
        ensures
            final(self)@.wf(),
            final(self)@.idle(),
            (final(self)@, final(server)@, r) == deactivate_op_spec(old(self)@, old(server)@),
            linked(old(self)@, old(server)@) ==> linked(final(self)@, final(server)@),
    {
        let step = self.begin_deactivate();
        match step {
            Step::Done(res) => match res {
                Ok(_) => Ok(()),
                Err(er) => Err(er),
            },
            Step::Call(rq) => {
                let reply = server.perform(rq);
                let step2 = self.resume(reply);
                match step2 {
                    Step::Done(res) => match res {
                        Ok(_) => Ok(()),
                        Err(er) => Err(er),
                    },
                    Step::Call(_) => vstd::pervasive::unreached(),
                }
            },
        }
    }

    /// Register an input port with this name, as
    /// `register_port_op_spec` says.
    pub fn register_input_port(&mut self, server: &mut ServerModel, name: String) -> (r: Result<
        Port,
        EngineError,
    >)
        requires
            old(self)@.wf(),
            old(self)@.idle(),
            linked(old(self)@, old(server)@),
        ensures
            final(self)@.wf(),
            final(self)@.idle(),
            linked(final(self)@, final(server)@),
            ({
                let (e2, s2, res) = register_port_op_spec(
                    old(self)@,
                    old(server)@,
                    Direction::Input,
                    name@,
                );
                &&& final(self)@ == e2
                &&& final(server)@ == s2
                &&& match (r, res) {
                    (Ok(p), Ok(pv)) => p@ == pv,
                    (Err(er), Err(ev)) => er == ev,
                    _ => false,
                }
            }),
    {
        self.register_port(server, Direction::Input, name)
    }

    /// Register an output port with this name, as
    /// `register_port_op_spec` says.
    pub fn register_output_port(&mut self, server: &mut ServerModel, name: String) -> (r: Result<
        Port,
        EngineError,
    >)
        requires
            old(self)@.wf(),
            old(self)@.idle(),
            linked(old(self)@, old(server)@),
        ensures
            final(self)@.wf(),
            final(self)@.idle(),
            linked(final(self)@, final(server)@),
            ({
                let (e2, s2, res) = register_port_op_spec(
                    old(self)@,
                    old(server)@,
                    Direction::Output,
                    name@,
                );
                &&& final(self)@ == e2
                &&& final(server)@ == s2
                &&& match (r, res) {
                    (Ok(p), Ok(pv)) => p@ == pv,
                    (Err(er), Err(ev)) => er == ev,
                    _ => false,
                }
            }),
    {
        self.register_port(server, Direction::Output, name)
    }

    /// Drive one port registration through the session protocol.
    fn register_port(&mut self, server: &mut ServerModel, direction: Direction, name: String) -> (r:
        Result<Port, EngineError>)
        requires
            old(self)@.wf(),
            old(self)@.idle(),
            linked(old(self)@, old(server)@),
        ensures
            final(self)@.wf(),
            final(self)@.idle(),
            linked(final(self)@, final(server)@),
            ({
                let (e2, s2, res) = register_port_op_spec(old(self)@, old(server)@, direction, name@);
                &&& final(self)@ == e2
                &&& final(server)@ == s2
                &&& match (r, res) {
                    (Ok(p), Ok(pv)) => p@ == pv,
                    (Err(er), Err(ev)) => er == ev,
                    _ => false,
                }
            }),
    {
        let step = self.begin_register_port(direction, name);
        match step {
            Step::Done(res) => Self::finish_register(res),
            Step::Call(rq) => {
                let reply = server.perform(rq);
                let step2 = self.resume(reply);
                match step2 {
                    Step::Done(res) => Self::finish_register(res),
                    Step::Call(rq2) => {
                        let reply2 = server.perform(rq2);
                        let step3 = self.resume(reply2);
                        match step3 {
                            Step::Done(res) => Self::finish_register(res),
                            Step::Call(rq3) => {
                                let reply3 = server.perform(rq3);
                                let step4 = self.resume(reply3);
                                match step4 {
                                    Step::Done(res) => Self::finish_register(res),
                                    Step::Call(_) => vstd::pervasive::unreached(),
                                }
                            },
                        }
                    },
                }
            },
        }
    }

    /// Shape the final step of a registration session: a finished
    /// registration always carries a port.
    fn finish_register(res: Result<Option<Port>, EngineError>) -> (r: Result<Port, EngineError>)
        requires
            res matches Ok(p) ==> p is Some,
        ensures
            match (r, res) {
                (Ok(p), Ok(q)) => q == Some(p),
                (Err(er), Err(ev)) => er == ev,
                _ => false,
            },
    {
        match res {
            Ok(Some(p)) => Ok(p),
            Ok(None) => vstd::pervasive::unreached(),
            Err(er) => Err(er),
        }
    }
}

/// The client name the surrounding program connects under.
pub fn default_client_name() -> (name: String)
    ensures
        name@ == "mawbd"@,
{
    String::from_str("mawbd")
}

/// The port layout the surrounding program registers at start-up: two
/// input ports, then two output ports.
pub fn startup_ports() -> (plan: Vec<(Direction, String)>)
    ensures
        plan@.len() == 4,
        plan@[0].0 == Direction::Input && plan@[0].1@ == "in_1"@,
        plan@[1].0 == Direction::Input && plan@[1].1@ == "in_2"@,
        plan@[2].0 == Direction::Output && plan@[2].1@ == "out_1"@,
        plan@[3].0 == Direction::Output && plan@[3].1@ == "out_2"@,
{
    let mut plan: Vec<(Direction, String)> = Vec::new();
    plan.push((Direction::Input, String::from_str("in_1")));
    plan.push((Direction::Input, String::from_str("in_2")));
    plan.push((Direction::Output, String::from_str("out_1")));
    plan.push((Direction::Output, String::from_str("out_2")));
    plan
}

/// Law: a completed `activate` never exposes `Transitioning` — the
/// state machine resolves to `Active` or `Inactive` unless the call
/// failed with `ClientDeactivationError`.
pub proof fn lemma_activate_resolves(e: EngineView, s: ServerModelView)
    requires
        e.wf(),
        e.idle(),
    ensures
        ({
            let (e2, s2, r) = activate_op_spec(e, s);
            e2.state is Transitioning ==> r == Err::<(), EngineError>(
                EngineError::ClientDeactivationError,
            )
        }),
{
}

/// Law: a completed `deactivate` never exposes `Transitioning` — the
/// state machine resolves to `Active` or `Inactive` unless the call
/// failed with `ClientDeactivationError`.  With
/// `lemma_activate_resolves` this covers every sequence of `activate`
/// and `deactivate` calls.
pub proof fn lemma_deactivate_resolves(e: EngineView, s: ServerModelView)
    requires
        e.wf(),
        e.idle(),
    ensures
        ({
            let (e2, s2, r) = deactivate_op_spec(e, s);
            e2.state is Transitioning ==> r == Err::<(), EngineError>(
                EngineError::ClientDeactivationError,
            )
        }),
{
}

/// Run a whole sequence of `activate` (true) and `deactivate` (false)
/// calls, reporting whether every call succeeded.
pub open spec fn run_toggles(e: EngineView, s: ServerModelView, calls: Seq<bool>) -> (
    EngineView,
    ServerModelView,
    bool,
)
    decreases calls.len(),
{
    if calls.len() == 0 {
        (e, s, true)
    } else {
        let (e1, s1, r) = if calls[0] {
            activate_op_spec(e, s)
        } else {
            deactivate_op_spec(e, s)
        };
        let (e2, s2, rest_ok) = run_toggles(e1, s1, calls.subrange(1, calls.len() as int));
        (e2, s2, rest_ok && r is Ok)
    }
}

/// Law: for every sequence of `activate`/`deactivate` calls, the
/// state machine never exposes `Transitioning` after the calls
/// return — as long as no call failed, the state is resolved to
/// `Active` or `Inactive`; the only failures are
/// `ClientDeactivationError` (see the per-call laws) and
/// `ClientActivationError`, and each call leaves the engine
/// well-formed and idle.
pub proof fn lemma_toggle_sequences_resolve(e: EngineView, s: ServerModelView, calls: Seq<bool>)
    requires
        e.wf(),
        e.idle(),
    ensures
        ({
            let (e2, s2, ok) = run_toggles(e, s, calls);
            &&& e2.wf()
            &&& e2.idle()
            &&& ok && calls.len() > 0 ==> (e2.state is Active || e2.state is Inactive)
        }),
    decreases calls.len(),
{
    if calls.len() > 0 {
        let (e1, s1, r) = if calls[0] {
            activate_op_spec(e, s)
        } else {
            deactivate_op_spec(e, s)
        };
        lemma_toggle_sequences_resolve(e1, s1, calls.subrange(1, calls.len() as int));
    }
}

/// Law: `deactivate` while `Inactive` is a no-op — the engine and the
/// server are unchanged (no request is sent) and no error is
/// reported.
pub proof fn lemma_deactivate_inactive_noop(e: EngineView, s: ServerModelView)
    requires
        e.wf(),
        e.idle(),
        e.state is Inactive,
    ensures
        deactivate_op_spec(e, s) == (e, s, Ok::<(), EngineError>(())),
{
}

/// Law: `activate` while `Active` is a no-op — the engine and the
/// server are unchanged and no error is reported.  In particular a
/// second `activate` in a row sends no second activation request to
/// the server.
pub proof fn lemma_activate_active_noop(e: EngineView, s: ServerModelView)
    requires
        e.wf(),
        e.idle(),
        e.state is Active,
    ensures
        activate_op_spec(e, s) == (e, s, Ok::<(), EngineError>(())),
{
}

/// Law: registering a port while `Inactive` never toggles the state —
/// whatever the server answers, the engine is exactly as before.
pub proof fn lemma_register_inactive_keeps_state(
    e: EngineView,
    s: ServerModelView,
    direction: Direction,
    name: Seq<char>,
)
    requires
        e.wf(),
        e.idle(),
        e.state is Inactive,
    ensures
        register_port_op_spec(e, s, direction, name).0 == e,
{
}

/// Law: registering a port while `Active` ends `Active` again, with a
/// single transient deactivation in between — the server handles
/// exactly deactivate, register, activate, in that order.  The
/// registration succeeds exactly when the name is non-empty and still
/// free in its direction, and the returned port carries the requested
/// direction and name.
pub proof fn lemma_register_while_active(
    e: EngineView,
    s: ServerModelView,
    direction: Direction,
    name: Seq<char>,
)
    requires
        e.wf(),
        e.idle(),
        e.state is Active,
        linked(e, s),
    ensures
        ({
            let (e2, s2, r) = register_port_op_spec(e, s, direction, name);
            &&& e2.state is Active
            &&& s2.requests == s.requests.push(RequestTag::Deactivate).push(
                RequestTag::RegisterPort,
            ).push(RequestTag::Activate)
            &&& r is Ok <==> (name.len() > 0 && !s.has_port(direction, name))
            &&& r matches Ok(p) ==> p.direction == direction && p.name == name
        }),
{
}

/// Law: port registration preserves well-formedness, idleness outside
/// a session, and the engine–server link, whatever the prior state.
pub proof fn lemma_register_preserves_link(
    e: EngineView,
    s: ServerModelView,
    direction: Direction,
    name: Seq<char>,
)
    requires
        e.wf(),
        e.idle(),
        linked(e, s),
    ensures
        ({
            let (e2, s2, r) = register_port_op_spec(e, s, direction, name);
            &&& e2.wf()
            &&& e2.idle()
            &&& linked(e2, s2)
            &&& r matches Ok(p) ==> s2.has_port(direction, name)
        }),
{
    let (e2, s2, r) = register_port_op_spec(e, s, direction, name);
    match e.state {
        ClientState::Transitioning => {},
        ClientState::Inactive(c) => {
            if s.accepts_port(c, direction, name) {
                assert(s2.ports[s.ports.len() as int].direction == direction);
                assert(s2.has_port(direction, name));
            }
        },
        ClientState::Active(c, a) => {
            let (s1, rep1) = perform_spec(s, RequestView::Deactivate(c, a));
            let (s2m, rep2) = perform_spec(s1, RequestView::RegisterPort(c, direction, name));
            if s1.accepts_port(c, direction, name) {
                assert(s2m.ports[s1.ports.len() as int].direction == direction);
                assert(s2m.has_port(direction, name));
            }
        },
    }
}

/// Law: registering two ports with the same name in the same
/// direction fails the second time with `PortRegistrationError`,
/// whichever states the engine passes through.
pub proof fn lemma_duplicate_port_rejected(
    e: EngineView,
    s: ServerModelView,
    direction: Direction,
    name: Seq<char>,
)
    requires
        e.wf(),
        e.idle(),
        linked(e, s),
    ensures
        ({
            let (e1, s1, r1) = register_port_op_spec(e, s, direction, name);
            let (e2, s2, r2) = register_port_op_spec(e1, s1, direction, name);
            r1 is Ok ==> r2 == Err::<PortView, EngineError>(EngineError::PortRegistrationError)
        }),
{
    let (e1, s1, r1) = register_port_op_spec(e, s, direction, name);
    let (e2, s2, r2) = register_port_op_spec(e1, s1, direction, name);
    if r1 is Ok {
        lemma_register_preserves_link(e, s, direction, name);
        assert(s1.has_port(direction, name));
        assert(!(e1.state is Transitioning)) by {
            match e.state {
                ClientState::Transitioning => {},
                ClientState::Inactive(_) => {},
                ClientState::Active(_, _) => {},
            }
        }
        match e1.state {
            ClientState::Transitioning => {},
            ClientState::Inactive(c) => {
                assert(!s1.accepts_port(c, direction, name));
            },
            ClientState::Active(c, a) => {
                let (s1d, rep1) = perform_spec(s1, RequestView::Deactivate(c, a));
                assert(s1d.ports =~= s1.ports);
                assert(s1d.has_port(direction, name)) by {
                    let i = choose|i: int|
                        0 <= i < s1.ports.len() && s1.ports[i].direction == direction
                            && s1.ports[i].name == name;
                    assert(s1d.ports[i].direction == direction);
                }
                assert(!s1d.accepts_port(c, direction, name));
            },
        }
    }
}

} // verus!
