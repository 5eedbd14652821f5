use kubeport::client::{
    client_step, establishment_request, ClientAction, ClientError, ClientPhase, BUFFER_SIZE,
    LOCAL_SERVICE_PORT, REQUESTED_PORT,
};
use kubeport::protocol::messages::{data_message, ControlCode, ProtocolMessage, WebsocketMessage};
use kubeport::server::{
    control_step, establishment_reply, frame_to_vec, pair_read_step, pair_write_data, ControlAction,
    ControlPhase, PairReadAction, ServerError, SERVER_CONTROL_PORT, WEB_SERVER_PORT,
};

fn message(id: u32, data: &[u8]) -> ProtocolMessage {
    ProtocolMessage::Message(WebsocketMessage { id, code: ControlCode::Neutral, data: data.to_vec() })
}

#[test]
fn constants() {
    assert_eq!(LOCAL_SERVICE_PORT, 4032);
    assert_eq!(BUFFER_SIZE, 4096);
    assert_eq!(REQUESTED_PORT, 10432);
    assert_eq!(SERVER_CONTROL_PORT, 8001);
    assert_eq!(WEB_SERVER_PORT, 8000);
}

#[test]
fn establishment_request_asks_for_the_http_service() {
    match establishment_request() {
        ProtocolMessage::Establishment((port, name)) => {
            assert_eq!(port, 10432);
            assert_eq!(name, "http-server");
        }
        other => panic!("unexpected {:?}", other),
    }
}

#[test]
fn handshake_agrees() {
    let (phase, action) = control_step(ControlPhase::AwaitingEstablishment, establishment_request());
    assert_eq!(phase, ControlPhase::Established { service_id: 10432 });
    match action {
        ControlAction::Register { service_id, name } => {
            assert_eq!(service_id, 10432);
            assert_eq!(name, "http-server");
        }
        other => panic!("unexpected {:?}", other),
    }
    let reply = establishment_reply(40000, "http-server".to_string());
    let (phase, action) = client_step(ClientPhase::AwaitingConfirmation, reply);
    assert_eq!(phase, ClientPhase::Established);
    match action {
        ClientAction::Confirmed { port, name } => {
            assert_eq!(port, 40000);
            assert_eq!(name, "http-server");
        }
        other => panic!("unexpected {:?}", other),
    }
}

#[test]
fn server_drops_a_client_that_does_not_establish() {
    let (phase, action) = control_step(ControlPhase::AwaitingEstablishment, ProtocolMessage::Open(3));
    assert_eq!(phase, ControlPhase::AwaitingEstablishment);
    assert!(matches!(action, ControlAction::Fail(ServerError::NoEstablishment)));
    let (_, action) = control_step(ControlPhase::AwaitingEstablishment, message(1, b"x"));
    assert!(matches!(action, ControlAction::Fail(ServerError::NoEstablishment)));
}

#[test]
fn client_fails_without_confirmation() {
    let (phase, action) = client_step(ClientPhase::AwaitingConfirmation, ProtocolMessage::Open(3));
    assert_eq!(phase, ClientPhase::AwaitingConfirmation);
    assert!(matches!(action, ClientAction::Fail(ClientError::ConnectionFailed)));
}

#[test]
fn established_server_publishes_data_and_skips_the_rest() {
    let phase = ControlPhase::Established { service_id: 9 };
    let (next, action) = control_step(phase, message(77, b"abc"));
    assert_eq!(next, phase);
    assert!(matches!(action, ControlAction::Publish(77)));
    let (next, action) = control_step(phase, ProtocolMessage::Open(5));
    assert_eq!(next, phase);
    assert!(matches!(action, ControlAction::Skip));
    let (_, action) = control_step(phase, establishment_reply(1, "again".to_string()));
    assert!(matches!(action, ControlAction::Skip));
}

#[test]
fn established_client_opens_forwards_and_ignores() {
    let phase = ClientPhase::Established;
    let (next, action) = client_step(phase, ProtocolMessage::Open(12));
    assert_eq!(next, phase);
    assert!(matches!(action, ClientAction::OpenConnection(12)));
    let (_, action) = client_step(phase, message(12, b"GET / HTTP/1.1"));
    match action {
        ClientAction::Forward { id, data } => {
            assert_eq!(id, 12);
            assert_eq!(data, b"GET / HTTP/1.1".to_vec());
        }
        other => panic!("unexpected {:?}", other),
    }
    let (_, action) = client_step(phase, establishment_reply(1, "x".to_string()));
    assert!(matches!(action, ClientAction::Ignore));
}

#[test]
fn data_message_takes_the_read_prefix() {
    let buf = [1u8, 2, 3, 4, 5];
    assert!(data_message(4, &buf, 0).is_none());
    match data_message(4, &buf, 3).unwrap() {
        ProtocolMessage::Message(m) => {
            assert_eq!(m.id, 4);
            assert_eq!(m.code, ControlCode::Neutral);
            assert_eq!(m.data, vec![1, 2, 3]);
        }
        other => panic!("unexpected {:?}", other),
    }
}

#[test]
fn read_step_shuts_down_on_error_or_end() {
    let buf = [0u8; 8];
    assert!(matches!(pair_read_step(1, &buf, None), PairReadAction::Shutdown));
    assert!(matches!(pair_read_step(1, &buf, Some(0)), PairReadAction::Shutdown));
}

#[test]
fn public_bytes_reach_the_local_service() {
    let buf = *b"hello world";
    let msg = match pair_read_step(21, &buf, Some(5)) {
        PairReadAction::Tunnel(m) => m,
        other => panic!("unexpected {:?}", other),
    };
    let (_, action) = client_step(ClientPhase::Established, msg);
    match action {
        ClientAction::Forward { id, data } => {
            assert_eq!(id, 21);
            assert_eq!(data, b"hello".to_vec());
        }
        other => panic!("unexpected {:?}", other),
    }
}

#[test]
fn local_bytes_reach_the_public_connection() {
    let buf = *b"HTTP/1.1 200 OK";
    let msg = data_message(8, &buf, 12).unwrap();
    let (_, action) = control_step(ControlPhase::Established { service_id: 1 }, msg);
    assert!(matches!(action, ControlAction::Publish(8)));
    let msg = data_message(8, &buf, 12).unwrap();
    assert_eq!(pair_write_data(msg), Some(b"HTTP/1.1 200".to_vec()));
    assert_eq!(pair_write_data(ProtocolMessage::Open(8)), None);
}

#[test]
fn frame_payload_is_copied() {
    assert_eq!(frame_to_vec(&[3, 1, 4]), vec![3, 1, 4]);
    assert!(frame_to_vec(&[]).is_empty());
}

#[test]
fn listener_ports_prefer_the_requested_port() {
    assert_eq!(kubeport::server::listener_ports(10432), (10432, 0));
    assert_eq!(kubeport::server::listener_ports(0), (0, 0));
}
