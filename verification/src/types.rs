use vstd::prelude::*;

verus! {

/// Direction of an audio port: data flows into or out of the client.
#[derive(Clone, Copy, PartialEq, Eq, Structural, Debug)]
pub enum Direction {
    Input,
    Output,
}

/// Handle to a client that is registered with the audio server but not
/// processing.  The handle is opaque to the engine beyond its identity;
/// port registration is legal only against such an inactive client.
#[derive(Clone, Copy, PartialEq, Eq, Structural, Debug)]
pub struct ClientHandle {
    pub id: u64,
}

/// Handle to the live real-time machinery the audio server hands back
/// when a client is activated.  Surrendering it on deactivation stops
/// the real-time callback and recovers the inert client handle.
#[derive(Clone, Copy, PartialEq, Eq, Structural, Debug)]
pub struct CallbackHandles {
    pub id: u64,
}

/// The error taxonomy of the engine.
#[derive(Clone, Copy, PartialEq, Eq, Structural, Debug)]
pub enum EngineError {
    /// The audio server refused to create a client (name collision).
    ClientCreationError,
    /// The audio server refused to activate; the engine is left
    /// `Inactive` and the error is surfaced.
    ClientActivationError,
    /// The state machine was observed in `Transitioning`, or the
    /// deactivation leg of a transition could not be completed.
    ClientDeactivationError,
    /// The audio server rejected a port name (duplicate or invalid).
    PortRegistrationError,
}

/// A named, directional audio endpoint.  Created by port registration,
/// owned thereafter by the audio server; the engine never destroys
/// ports.
#[derive(Clone, Debug, PartialEq, Eq)]
pub struct Port {
    pub direction: Direction,
    pub name: String,
    pub id: u64,
}

/// Mathematical image of a [`Port`].
pub struct PortView {
    pub direction: Direction,
    pub name: Seq<char>,
    pub id: u64,
}

impl View for Port {
    type V = PortView;

    open spec fn view(&self) -> PortView {
        PortView { direction: self.direction, name: self.name@, id: self.id }
    }
}

} // verus!
