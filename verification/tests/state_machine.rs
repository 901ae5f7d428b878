//! Session-level tests: the engine is driven by hand with chosen
//! server replies, including the failure replies a real audio server
//! could give.

use mawbd::engine::{ClientState, Engine};
use mawbd::protocol::{Reply, Request, Step};
use mawbd::types::{CallbackHandles, ClientHandle, Direction, EngineError};

fn handle(id: u64) -> ClientHandle {
    ClientHandle { id }
}

#[test]
fn activation_failure_leaves_inactive() {
    let mut engine = Engine::from_client(handle(3));
    let step = engine.begin_activate();
    let request = match step {
        Step::Call(rq) => rq,
        Step::Done(_) => panic!("activation from Inactive must ask for a server call"),
    };
    match request {
        Request::Activate(c) => assert_eq!(c, handle(3)),
        _ => panic!("activation must ask for an activation call"),
    }
    // while the call is in flight the placeholder state is held
    assert_eq!(engine.client_state(), ClientState::Transitioning);
    assert!(engine.in_flight());
    let step = engine.resume(Reply::ActivateFailed(handle(3)));
    match step {
        Step::Done(r) => assert_eq!(r, Err(EngineError::ClientActivationError)),
        Step::Call(_) => panic!("activation resolves after one reply"),
    }
    // the robust design leaves the engine usable and Inactive
    assert_eq!(engine.client_state(), ClientState::Inactive(handle(3)));
    assert!(!engine.in_flight());
}

#[test]
fn deactivation_failure_is_detectable() {
    let mut engine = Engine::from_client(handle(0));
    match engine.begin_activate() {
        Step::Call(Request::Activate(c)) => {
            engine.resume(Reply::Activated(c, CallbackHandles { id: 9 }));
        }
        _ => panic!("activation from Inactive must ask for a server call"),
    }
    assert_eq!(
        engine.client_state(),
        ClientState::Active(handle(0), CallbackHandles { id: 9 })
    );
    match engine.begin_deactivate() {
        Step::Call(Request::Deactivate(c, a)) => {
            assert_eq!(c, handle(0));
            assert_eq!(a, CallbackHandles { id: 9 });
        }
        _ => panic!("deactivation from Active must ask for a server call"),
    }
    let step = engine.resume(Reply::DeactivateFailed);
    match step {
        Step::Done(r) => assert_eq!(r, Err(EngineError::ClientDeactivationError)),
        Step::Call(_) => panic!("deactivation resolves after one reply"),
    }
    // the handle could not be recovered: the engine stays in the
    // detectable placeholder state and refuses further operations
    assert_eq!(engine.client_state(), ClientState::Transitioning);
    match engine.begin_activate() {
        Step::Done(r) => assert_eq!(r, Err(EngineError::ClientDeactivationError)),
        Step::Call(_) => panic!("a Transitioning engine must refuse"),
    }
    match engine.begin_register_input_port(String::from("late")) {
        Step::Done(r) => assert!(matches!(r, Err(EngineError::ClientDeactivationError))),
        Step::Call(_) => panic!("a Transitioning engine must refuse"),
    }
}

#[test]
fn register_while_active_walks_the_three_calls() {
    let mut engine = Engine::from_client(handle(1));
    match engine.begin_activate() {
        Step::Call(Request::Activate(c)) => {
            engine.resume(Reply::Activated(c, CallbackHandles { id: 5 }));
        }
        _ => panic!("activation from Inactive must ask for a server call"),
    }
    let step = engine.begin_register_input_port(String::from("mic"));
    let step = match step {
        Step::Call(Request::Deactivate(c, a)) => {
            assert_eq!(c, handle(1));
            assert_eq!(a.id, 5);
            engine.resume(Reply::Deactivated(c))
        }
        _ => panic!("registration while Active starts by quiescing"),
    };
    let step = match step {
        Step::Call(Request::RegisterPort(c, d, name)) => {
            assert_eq!(c, handle(1));
            assert_eq!(d, Direction::Input);
            assert_eq!(name, "mic");
            engine.resume(Reply::Registered(7))
        }
        _ => panic!("after quiescing the registration itself runs"),
    };
    let step = match step {
        Step::Call(Request::Activate(c)) => {
            assert_eq!(c, handle(1));
            engine.resume(Reply::Activated(c, CallbackHandles { id: 6 }))
        }
        _ => panic!("after registering the client is reactivated"),
    };
    match step {
        Step::Done(Ok(Some(port))) => {
            assert_eq!(port.direction, Direction::Input);
            assert_eq!(port.name, "mic");
            assert_eq!(port.id, 7);
        }
        _ => panic!("the session must finish with the new port"),
    }
    assert_eq!(
        engine.client_state(),
        ClientState::Active(handle(1), CallbackHandles { id: 6 })
    );
}

#[test]
fn registration_refusal_still_reactivates() {
    let mut engine = Engine::from_client(handle(2));
    match engine.begin_activate() {
        Step::Call(Request::Activate(c)) => {
            engine.resume(Reply::Activated(c, CallbackHandles { id: 1 }));
        }
        _ => panic!("activation from Inactive must ask for a server call"),
    }
    let step = engine.begin_register_output_port(String::from("dup"));
    let step = match step {
        Step::Call(Request::Deactivate(c, _)) => engine.resume(Reply::Deactivated(c)),
        _ => panic!("registration while Active starts by quiescing"),
    };
    let step = match step {
        Step::Call(Request::RegisterPort(_, _, _)) => engine.resume(Reply::RegisterFailed),
        _ => panic!("after quiescing the registration itself runs"),
    };
    let step = match step {
        Step::Call(Request::Activate(c)) => {
            engine.resume(Reply::Activated(c, CallbackHandles { id: 2 }))
        }
        _ => panic!("even a refused registration reactivates the client"),
    };
    match step {
        Step::Done(r) => assert!(matches!(r, Err(EngineError::PortRegistrationError))),
        Step::Call(_) => panic!("the session must finish after reactivation"),
    }
    assert!(matches!(engine.client_state(), ClientState::Active(_, _)));
}

#[test]
fn reactivation_refusal_surfaces_activation_error() {
    let mut engine = Engine::from_client(handle(4));
    match engine.begin_activate() {
        Step::Call(Request::Activate(c)) => {
            engine.resume(Reply::Activated(c, CallbackHandles { id: 8 }));
        }
        _ => panic!("activation from Inactive must ask for a server call"),
    }
    let step = engine.begin_register_input_port(String::from("in"));
    let step = match step {
        Step::Call(Request::Deactivate(c, _)) => engine.resume(Reply::Deactivated(c)),
        _ => panic!("registration while Active starts by quiescing"),
    };
    let step = match step {
        Step::Call(Request::RegisterPort(_, _, _)) => engine.resume(Reply::Registered(0)),
        _ => panic!("after quiescing the registration itself runs"),
    };
    let step = match step {
        Step::Call(Request::Activate(_)) => engine.resume(Reply::ActivateFailed(handle(4))),
        _ => panic!("after registering the client is reactivated"),
    };
    match step {
        Step::Done(r) => assert!(matches!(r, Err(EngineError::ClientActivationError))),
        Step::Call(_) => panic!("the session must finish after the refusal"),
    }
    // the robust design resolves to Inactive rather than aborting
    assert_eq!(engine.client_state(), ClientState::Inactive(handle(4)));
}

#[test]
fn resume_without_pending_is_refused() {
    let mut engine = Engine::from_client(handle(0));
    let step = engine.resume(Reply::Deactivated(handle(0)));
    match step {
        Step::Done(r) => assert_eq!(r, Err(EngineError::ClientDeactivationError)),
        Step::Call(_) => panic!("an unmatched reply must be refused"),
    }
    assert_eq!(engine.client_state(), ClientState::Inactive(handle(0)));
}

#[test]
fn begin_while_in_flight_is_refused() {
    let mut engine = Engine::from_client(handle(0));
    match engine.begin_activate() {
        Step::Call(_) => {}
        Step::Done(_) => panic!("activation from Inactive must ask for a server call"),
    }
    // a second operation may not interleave with the running one
    match engine.begin_deactivate() {
        Step::Done(r) => assert_eq!(r, Err(EngineError::ClientDeactivationError)),
        Step::Call(_) => panic!("an engine with a call in flight must refuse"),
    }
    assert!(engine.in_flight());
    // the running operation still resolves normally afterwards
    let step = engine.resume(Reply::Activated(handle(0), CallbackHandles { id: 0 }));
    assert!(matches!(step, Step::Done(Ok(None))));
    assert!(matches!(engine.client_state(), ClientState::Active(_, _)));
}

#[test]
fn looping_flag_is_plain_state() {
    let mut engine = Engine::from_client(handle(0));
    assert!(!engine.is_looping());
    engine.set_looping(true);
    assert!(engine.is_looping());
    assert_eq!(engine.client_state(), ClientState::Inactive(handle(0)));
}
