use crate::types::{CallbackHandles, ClientHandle, Direction, EngineError, Port, PortView};
use vstd::prelude::*;

verus! {

/// A control-plane call the engine asks its driver to perform against
/// the audio server.  Whichever handle a request carries has been moved
/// out of the state machine for the duration of the call.
#[derive(Clone, Debug)]
pub enum Request {
    /// Make the client live: hand the inert handle, together with the
    /// notification sink and the real-time callback, to the server's
    /// asynchronous-activation entry point.
    Activate(ClientHandle),
    /// Stop the real-time callback and recover the inert handle.
    Deactivate(ClientHandle, CallbackHandles),
    /// Register a port with the given direction and name against the
    /// inactive client.
    RegisterPort(ClientHandle, Direction, String),
}

/// Mathematical image of a [`Request`].
pub enum RequestView {
    Activate(ClientHandle),
    Deactivate(ClientHandle, CallbackHandles),
    RegisterPort(ClientHandle, Direction, Seq<char>),
}

impl View for Request {
    type V = RequestView;

    open spec fn view(&self) -> RequestView {
        match self {
            Request::Activate(c) => RequestView::Activate(*c),
            Request::Deactivate(c, a) => RequestView::Deactivate(*c, *a),
            Request::RegisterPort(c, d, n) => RequestView::RegisterPort(*c, *d, n@),
        }
    }
}

/// What kind of call a [`Request`] was; the server model logs one tag
/// per request it handles, in arrival order.
#[derive(Clone, Copy, PartialEq, Eq, Structural, Debug)]
pub enum RequestTag {
    Activate,
    Deactivate,
    RegisterPort,
}

/// The tag of a request.
pub open spec fn tag_of(rq: RequestView) -> RequestTag {
    match rq {
        RequestView::Activate(_) => RequestTag::Activate,
        RequestView::Deactivate(_, _) => RequestTag::Deactivate,
        RequestView::RegisterPort(_, _, _) => RequestTag::RegisterPort,
    }
}

/// The audio server's answer to a [`Request`].
#[derive(Clone, Copy, PartialEq, Eq, Structural, Debug)]
pub enum Reply {
    /// Activation succeeded: the client is live and the server handed
    /// back the real-time callback handles.
    Activated(ClientHandle, CallbackHandles),
    /// Activation was refused; the server keeps the client registered
    /// and returns its inert handle.
    ActivateFailed(ClientHandle),
    /// Deactivation succeeded: the inert client handle is recovered.
    Deactivated(ClientHandle),
    /// Deactivation failed; the client handle could not be recovered.
    DeactivateFailed,
    /// Port registration succeeded, with the server-assigned identity.
    Registered(u64),
    /// The server rejected the port name (duplicate or invalid).
    RegisterFailed,
}

/// One turn of an engine operation: either the driver must perform a
/// server call and feed the reply back through `resume`, or the
/// operation has finished with a result.
#[derive(Debug)]
pub enum Step {
    Call(Request),
    Done(Result<Option<Port>, EngineError>),
}

/// Mathematical image of a [`Step`].
pub enum StepView {
    Call(RequestView),
    Done(Result<Option<PortView>, EngineError>),
}

impl View for Step {
    type V = StepView;

    open spec fn view(&self) -> StepView {
        match self {
            Step::Call(rq) => StepView::Call(rq@),
            Step::Done(r) => StepView::Done(
                match r {
                    Ok(Some(p)) => Ok(Some(p@)),
                    Ok(None) => Ok(None),
                    Err(e) => Err(*e),
                },
            ),
        }
    }
}

} // verus!
