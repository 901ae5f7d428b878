//! Scenario tests: the engine drives its operations against the
//! in-memory server model, which logs every request it handles, so
//! the tests can observe exactly which calls each operation caused.

use mawbd::callbacks::{notification_response, process_block, Control, Notification};
use mawbd::engine::{ClientState, Engine};
use mawbd::ops::{default_client_name, startup_ports};
use mawbd::protocol::RequestTag;
use mawbd::server::ServerModel;
use mawbd::types::{Direction, EngineError};

fn new_engine(server: &mut ServerModel, name: &str) -> Engine {
    Engine::new(server, String::from(name)).expect("client creation must succeed")
}

fn count(server: &ServerModel, tag: RequestTag) -> usize {
    server.request_log().iter().filter(|t| **t == tag).count()
}

#[test]
fn deactivate_while_inactive_is_noop() {
    let mut server = ServerModel::new();
    let mut engine = new_engine(&mut server, "mawbd");
    let before = engine.client_state();
    assert!(matches!(before, ClientState::Inactive(_)));
    assert_eq!(engine.deactivate(&mut server), Ok(()));
    // state unchanged, no error, and no request reached the server
    assert_eq!(engine.client_state(), before);
    assert_eq!(server.request_log().len(), 0);
}

#[test]
fn activate_while_active_is_noop() {
    let mut server = ServerModel::new();
    let mut engine = new_engine(&mut server, "mawbd");
    assert_eq!(engine.activate(&mut server), Ok(()));
    assert!(matches!(engine.client_state(), ClientState::Active(_, _)));
    let before = engine.client_state();
    assert_eq!(count(&server, RequestTag::Activate), 1);
    // second call in a row: a no-op, and no second activation request
    assert_eq!(engine.activate(&mut server), Ok(()));
    assert_eq!(engine.client_state(), before);
    assert_eq!(count(&server, RequestTag::Activate), 1);
}

#[test]
fn register_while_inactive_keeps_state() {
    let mut server = ServerModel::new();
    let mut engine = new_engine(&mut server, "mawbd");
    let before = engine.client_state();
    let port = engine
        .register_input_port(&mut server, String::from("in_1"))
        .expect("a fresh name must be accepted");
    assert_eq!(port.direction, Direction::Input);
    assert_eq!(port.name, "in_1");
    assert_eq!(port.id, 0);
    // registration against an inactive client never toggles the state
    assert_eq!(engine.client_state(), before);
    assert_eq!(server.request_log(), &vec![RequestTag::RegisterPort]);
}

#[test]
fn register_while_active_ends_active_again() {
    let mut server = ServerModel::new();
    let mut engine = new_engine(&mut server, "mawbd");
    assert_eq!(engine.activate(&mut server), Ok(()));
    let port = engine
        .register_output_port(&mut server, String::from("out_1"))
        .expect("a fresh name must be accepted");
    assert_eq!(port.direction, Direction::Output);
    assert_eq!(port.name, "out_1");
    // transiently Inactive in between, Active again at return
    assert!(matches!(engine.client_state(), ClientState::Active(_, _)));
    assert_eq!(
        server.request_log(),
        &vec![
            RequestTag::Activate,
            RequestTag::Deactivate,
            RequestTag::RegisterPort,
            RequestTag::Activate,
        ]
    );
}

#[test]
fn duplicate_name_same_direction_is_rejected() {
    let mut server = ServerModel::new();
    let mut engine = new_engine(&mut server, "mawbd");
    assert!(engine
        .register_input_port(&mut server, String::from("in_1"))
        .is_ok());
    assert!(matches!(
        engine.register_input_port(&mut server, String::from("in_1")),
        Err(EngineError::PortRegistrationError)
    ));
    // the same name is still free in the other direction
    assert!(engine
        .register_output_port(&mut server, String::from("in_1"))
        .is_ok());
    assert_eq!(server.port_count(), 2);
}

#[test]
fn duplicate_name_is_rejected_while_active_too() {
    let mut server = ServerModel::new();
    let mut engine = new_engine(&mut server, "mawbd");
    assert!(engine
        .register_input_port(&mut server, String::from("in_1"))
        .is_ok());
    assert_eq!(engine.activate(&mut server), Ok(()));
    assert!(matches!(
        engine.register_input_port(&mut server, String::from("in_1")),
        Err(EngineError::PortRegistrationError)
    ));
    // the failed attempt still quiesced and reactivated the client
    assert!(matches!(engine.client_state(), ClientState::Active(_, _)));
}

#[test]
fn empty_port_name_is_rejected() {
    let mut server = ServerModel::new();
    let mut engine = new_engine(&mut server, "mawbd");
    assert!(matches!(
        engine.register_input_port(&mut server, String::new()),
        Err(EngineError::PortRegistrationError)
    ));
    assert_eq!(server.port_count(), 0);
}

#[test]
fn duplicate_client_name_is_rejected() {
    let mut server = ServerModel::new();
    let _engine = new_engine(&mut server, "mawbd");
    assert!(matches!(
        Engine::new(&mut server, String::from("mawbd")),
        Err(EngineError::ClientCreationError)
    ));
    assert_eq!(server.client_count(), 1);
}

#[test]
fn startup_scenario_observes_one_deactivation() {
    let mut server = ServerModel::new();
    let mut engine = new_engine(&mut server, "mawbd");

    let port = engine
        .register_input_port(&mut server, String::from("in_1"))
        .expect("a fresh name must be accepted");
    assert_eq!(port.name, "in_1");
    assert!(matches!(engine.client_state(), ClientState::Inactive(_)));

    assert_eq!(engine.activate(&mut server), Ok(()));
    assert!(matches!(engine.client_state(), ClientState::Active(_, _)));

    let port = engine
        .register_output_port(&mut server, String::from("out_1"))
        .expect("a fresh name must be accepted");
    assert_eq!(port.name, "out_1");
    assert!(matches!(engine.client_state(), ClientState::Active(_, _)));

    // exactly one brief internal deactivation over the whole scenario
    assert_eq!(count(&server, RequestTag::Deactivate), 1);
}

#[test]
fn full_startup_plan_registers_four_ports() {
    let mut server = ServerModel::new();
    let name = default_client_name();
    assert_eq!(name, "mawbd");
    let mut engine = Engine::new(&mut server, name).expect("client creation must succeed");
    for (direction, port_name) in startup_ports() {
        let port = match direction {
            Direction::Input => engine.register_input_port(&mut server, port_name),
            Direction::Output => engine.register_output_port(&mut server, port_name),
        }
        .expect("the startup names are distinct");
        assert_eq!(port.direction, direction);
    }
    assert_eq!(server.port_count(), 4);
}

#[test]
fn startup_plan_contents() {
    let plan = startup_ports();
    let expected = vec![
        (Direction::Input, "in_1"),
        (Direction::Input, "in_2"),
        (Direction::Output, "out_1"),
        (Direction::Output, "out_2"),
    ];
    assert_eq!(plan.len(), expected.len());
    for ((d, n), (ed, en)) in plan.iter().zip(expected.iter()) {
        assert_eq!(d, ed);
        assert_eq!(n, en);
    }
}

#[test]
fn notification_sink_always_continues() {
    let events = vec![
        Notification::ThreadInitialized,
        Notification::Shutdown,
        Notification::Freewheel { enabled: true },
        Notification::SampleRateChanged { rate: 48000 },
        Notification::ClientRegistered { registered: false },
        Notification::PortRegistered { port_id: 3, registered: true },
        Notification::PortRenamed { port_id: 3 },
        Notification::PortsConnected { port_a: 1, port_b: 2, connected: true },
        Notification::GraphReordered,
        Notification::XrunDetected,
    ];
    for event in events {
        assert_eq!(notification_response(&event), Control::Continue);
    }
}

#[test]
fn process_block_continues() {
    assert_eq!(process_block(), Control::Continue);
}
