use crate::protocol::{tag_of, Reply, Request, RequestTag, RequestView};
use crate::types::{CallbackHandles, ClientHandle, Direction, EngineError};
use vstd::prelude::*;

verus! {

/// One client registered at the model server.
struct ClientEntry {
    name: String,
    /// `Some(token)` while the client is live, holding the identity of
    /// the callback handles that were handed out on activation.
    active: Option<u64>,
}

/// Mathematical image of a registered client.
pub struct ClientEntryView {
    pub name: Seq<char>,
    pub active: Option<u64>,
}

impl View for ClientEntry {
    type V = ClientEntryView;

    closed spec fn view(&self) -> ClientEntryView {
        ClientEntryView { name: self.name@, active: self.active }
    }
}

/// One port registered at the model server.
struct PortEntry {
    client_id: u64,
    direction: Direction,
    name: String,
}

/// Mathematical image of a registered port.
pub struct PortEntryView {
    pub client_id: u64,
    pub direction: Direction,
    pub name: Seq<char>,
}

impl View for PortEntry {
    type V = PortEntryView;

    closed spec fn view(&self) -> PortEntryView {
        PortEntryView { client_id: self.client_id, direction: self.direction, name: self.name@ }
    }
}

/// An in-memory model of the audio server, faithful to the consumed
/// contract: it creates clients, activates and deactivates them, and
/// registers ports, refusing a port name that is empty or already
/// taken in its direction and refusing topology mutation while the
/// client is live.  It logs every request it handles, in order, so a
/// test can observe exactly which calls an engine operation caused.
pub struct ServerModel {
    clients: Vec<ClientEntry>,
    ports: Vec<PortEntry>,
    requests: Vec<RequestTag>,
}

/// Mathematical image of the model server.  A client's identity is its
/// position among the clients, a port's its position among the ports.
#[verifier::ext_equal]
pub struct ServerModelView {
    pub clients: Seq<ClientEntryView>,
    pub ports: Seq<PortEntryView>,
    pub requests: Seq<RequestTag>,
}

impl View for ServerModel {
    type V = ServerModelView;

    closed spec fn view(&self) -> ServerModelView {
        ServerModelView {
            clients: self.clients@.map_values(|c: ClientEntry| c@),
            ports: self.ports@.map_values(|p: PortEntry| p@),
            requests: self.requests@,
        }
    }
}

impl ServerModelView {
    /// Some client with this name is registered.
    pub open spec fn has_client_named(self, name: Seq<char>) -> bool {
        exists|i: int| 0 <= i < self.clients.len() && self.clients[i].name == name
    }

    /// The handle identifies a client this server created.
    pub open spec fn valid_client(self, c: ClientHandle) -> bool {
        c.id < self.clients.len()
    }

    /// The client exists and is not processing.
    pub open spec fn client_inactive(self, c: ClientHandle) -> bool {
        self.valid_client(c) && self.clients[c.id as int].active is None
    }

    /// The client exists and is live with exactly these callback
    /// handles.
    pub open spec fn client_active_with(self, c: ClientHandle, a: CallbackHandles) -> bool {
        self.valid_client(c) && self.clients[c.id as int].active == Some(a.id)
    }

    /// A port with this name is already registered in this direction.
    pub open spec fn has_port(self, direction: Direction, name: Seq<char>) -> bool {
        exists|i: int|
            0 <= i < self.ports.len() && self.ports[i].direction == direction
                && self.ports[i].name == name
    }

    /// The server will accept this registration: the client is held
    /// inactive, and the name is non-empty and still free within its
    /// direction.
    pub open spec fn accepts_port(self, c: ClientHandle, direction: Direction, name: Seq<char>) -> bool {
        self.client_inactive(c) && name.len() > 0 && !self.has_port(direction, name)
    }
}

/// What client creation does: a name collision is refused with
/// `ClientCreationError`; otherwise a fresh inactive client is
/// registered and its handle returned.
pub open spec fn create_client_spec(s: ServerModelView, name: Seq<char>) -> (
    ServerModelView,
    Result<ClientHandle, EngineError>,
) {
    if s.has_client_named(name) {
        (s, Err(EngineError::ClientCreationError))
    } else {
        (
            ServerModelView {
                clients: s.clients.push(ClientEntryView { name, active: None }),
                ..s
            },
            Ok(ClientHandle { id: s.clients.len() as u64 }),
        )
    }
}

/// What handling one request does to the server.  Every request is
/// logged.  Activation succeeds exactly on an inactive client and
/// hands out fresh callback handles; deactivation succeeds exactly on
/// a client live with the surrendered handles; registration succeeds
/// exactly when `accepts_port` holds and assigns the next port
/// identity.
pub open spec fn perform_spec(s: ServerModelView, rq: RequestView) -> (ServerModelView, Reply) {
    let logged = ServerModelView { requests: s.requests.push(tag_of(rq)), ..s };
    match rq {
        RequestView::Activate(c) => {
            if s.client_inactive(c) {
                let token = s.requests.len() as u64;
                (
                    ServerModelView {
                        clients: logged.clients.update(
                            c.id as int,
                            ClientEntryView {
                                name: s.clients[c.id as int].name,
                                active: Some(token),
                            },
                        ),
                        ..logged
                    },
                    Reply::Activated(c, CallbackHandles { id: token }),
                )
            } else {
                (logged, Reply::ActivateFailed(c))
            }
        },
        RequestView::Deactivate(c, a) => {
            if s.client_active_with(c, a) {
                (
                    ServerModelView {
                        clients: logged.clients.update(
                            c.id as int,
                            ClientEntryView { name: s.clients[c.id as int].name, active: None },
                        ),
                        ..logged
                    },
                    Reply::Deactivated(c),
                )
            } else {
                (logged, Reply::DeactivateFailed)
            }
        },
        RequestView::RegisterPort(c, d, n) => {
            if s.accepts_port(c, d, n) {
                (
                    ServerModelView {
                        ports: logged.ports.push(
                            PortEntryView { client_id: c.id, direction: d, name: n },
                        ),
                        ..logged
                    },
                    Reply::Registered(s.ports.len() as u64),
                )
            } else {
                (logged, Reply::RegisterFailed)
            }
        },
    }
}

impl ServerModel {
    /// A fresh server with no clients, no ports, and an empty log.
    pub fn new() -> (s: ServerModel)
        ensures
            s@ == (ServerModelView {
                clients: Seq::<ClientEntryView>::empty(),
                ports: Seq::<PortEntryView>::empty(),
                requests: Seq::<RequestTag>::empty(),
            }),
    {
        let s = ServerModel { clients: Vec::new(), ports: Vec::new(), requests: Vec::new() };
        proof {
            assert(s@.clients =~= Seq::<ClientEntryView>::empty());
            assert(s@.ports =~= Seq::<PortEntryView>::empty());
            assert(s@ =~= (ServerModelView {
                clients: Seq::<ClientEntryView>::empty(),
                ports: Seq::<PortEntryView>::empty(),
                requests: Seq::<RequestTag>::empty(),
            }));
        }
        s
    }

    /// Create a client with this name, as `create_client_spec` says.
    pub fn create_client(&mut self, name: String) -> (r: Result<ClientHandle, EngineError>)
        ensures
            (final(self)@, r) == create_client_spec(old(self)@, name@),
            r matches Ok(c) ==> final(self)@.client_inactive(c) && c.id as int == old(
                self,
            )@.clients.len(),
    {
        let mut i: usize = 0;
        let mut found = false;
        while i < self.clients.len()
            invariant
                self == old(self),
                i <= self.clients.len(),
                found <==> exists|j: int| 0 <= j < i && self@.clients[j].name == name@,
            decreases self.clients.len() - i,
        {
            if self.clients[i].name == name {
                proof {
                    assert(self@.clients[i as int].name == name@);
                }
                found = true;
            }
            i += 1;
        }
        if found {
            Err(EngineError::ClientCreationError)
        } else {
            let ghost pre = self@;
            let id = self.clients.len() as u64;
            self.clients.push(ClientEntry { name, active: None });
            proof {
                assert(self@.clients =~= pre.clients.push(
                    ClientEntryView { name: name@, active: None },
                ));
                assert(self@ =~= create_client_spec(pre, name@).0);
            }
            Ok(ClientHandle { id })
        }
    }

    /// Whether a port with this name exists in this direction.
    fn has_port_in_direction(&self, direction: Direction, name: &String) -> (b: bool)
        ensures
            b == self@.has_port(direction, name@),
    {
        let mut i: usize = 0;
        let mut found = false;
        while i < self.ports.len()
            invariant
                i <= self.ports.len(),
                found <==> exists|j: int|
                    0 <= j < i && self@.ports[j].direction == direction
                        && self@.ports[j].name == name@,
            decreases self.ports.len() - i,
        {
            if self.ports[i].direction == direction && self.ports[i].name == *name {
                proof {
                    assert(self@.ports[i as int].direction == direction);
                    assert(self@.ports[i as int].name == name@);
                }
                found = true;
            }
            i += 1;
        }
        found
    }

    /// Handle one request, as `perform_spec` says, and log it.
    pub fn perform(&mut self, request: Request) -> (reply: Reply)
        ensures
            (final(self)@, reply) == perform_spec(old(self)@, request@),
    {
        let ghost pre = self@;
        match request {
            Request::Activate(c) => {
                let token = self.requests.len() as u64;
                self.requests.push(RequestTag::Activate);
                if c.id < self.clients.len() as u64 {
                    let i = c.id as usize;
                    if self.clients[i].active.is_none() {
                        let entry_name = self.clients[i].name.clone();
                        self.clients[i] = ClientEntry { name: entry_name, active: Some(token) };
                        proof {
                            assert(self@.clients =~= perform_spec(pre, RequestView::Activate(c)).0.clients);
                            assert(self@ =~= perform_spec(pre, RequestView::Activate(c)).0);
                        }
                        return Reply::Activated(c, CallbackHandles { id: token });
                    }
                }
                proof {
                    assert(self@ =~= perform_spec(pre, RequestView::Activate(c)).0);
                }
                Reply::ActivateFailed(c)
            },
            Request::Deactivate(c, a) => {
                self.requests.push(RequestTag::Deactivate);
                if c.id < self.clients.len() as u64 {
                    let i = c.id as usize;
                    let active = self.clients[i].active;
                    match active {
                        Some(token) => {
                            if token == a.id {
                                let entry_name = self.clients[i].name.clone();
                                self.clients[i] = ClientEntry { name: entry_name, active: None };
                                proof {
                                    assert(self@.clients =~= perform_spec(
                                        pre,
                                        RequestView::Deactivate(c, a),
                                    ).0.clients);
                                    assert(self@ =~= perform_spec(
                                        pre,
                                        RequestView::Deactivate(c, a),
                                    ).0);
                                }
                                return Reply::Deactivated(c);
                            }
                        },
                        None => {},
                    }
                }
                proof {
                    assert(self@ =~= perform_spec(pre, RequestView::Deactivate(c, a)).0);
                }
                Reply::DeactivateFailed
            },
            Request::RegisterPort(c, d, name) => {
                self.requests.push(RequestTag::RegisterPort);
                let mut acceptable = false;
                if c.id < self.clients.len() as u64 {
                    let i = c.id as usize;
                    if self.clients[i].active.is_none() && !name.as_str().is_empty()
                        && !self.has_port_in_direction(d, &name) {
                        acceptable = true;
                    }
                }
                if acceptable {
                    let id = self.ports.len() as u64;
                    self.ports.push(PortEntry { client_id: c.id, direction: d, name });
                    proof {
                        assert(self@.ports =~= perform_spec(
                            pre,
                            RequestView::RegisterPort(c, d, name@),
                        ).0.ports);
                        assert(self@ =~= perform_spec(pre, RequestView::RegisterPort(c, d, name@)).0);
                    }
                    Reply::Registered(id)
                } else {
                    proof {
                        assert(self@ =~= perform_spec(pre, RequestView::RegisterPort(c, d, name@)).0);
                    }
                    Reply::RegisterFailed
                }
            },
        }
    }

    /// The log of every request handled so far, in arrival order.
    pub fn request_log(&self) -> (log: &Vec<RequestTag>)
        ensures
            log@ == self@.requests,
    {
        &self.requests
    }

    /// How many ports are registered.
    pub fn port_count(&self) -> (n: usize)
        ensures
            n == self@.ports.len(),
    {
        self.ports.len()
    }

    /// How many clients are registered.
    pub fn client_count(&self) -> (n: usize)
        ensures
            n == self@.clients.len(),
    {
        self.clients.len()
    }
}

} // verus!
