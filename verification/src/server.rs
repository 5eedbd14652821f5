use vstd::prelude::*;
use vstd::slice::slice_to_vec;
use crate::client::{spec_client_step, spec_service_name, ClientAction, ClientPhase, REQUESTED_PORT};
use crate::protocol::messages::{data_message, is_data_message, ControlCode, ProtocolMessage};

verus! {

/// The port of the server's control listener.
pub const SERVER_CONTROL_PORT: u16 = 8001;

/// The port on which the server accepts clients.
pub const WEB_SERVER_PORT: u16 = 8000;

/// Why the server dropped a client.
#[derive(Clone, Copy, Debug, PartialEq, Eq, Structural)]
pub enum ServerError {
    /// The first packet of a client was not an establishment packet.
    NoEstablishment,
}

/// Where a client's control connection stands.
#[derive(Clone, Copy, Debug, PartialEq, Eq, Structural)]
pub enum ControlPhase {
    /// The client's establishment packet is awaited.
    AwaitingEstablishment,
    /// The client's service is registered under this identifier.
    Established { service_id: u16 },
}

/// What the server does with a packet from a client.
#[derive(Debug)]
pub enum ControlAction {
    /// Register the service and open a public listener, preferably on `service_id`.
    Register { service_id: u16, name: String },
    /// Hand the packet to the channel with this identifier.
    Publish(u32),
    /// Nothing to do with this packet.
    Skip,
    /// Drop the client.
    Fail(ServerError),
}

/// The server's decision on one packet from a client, and the phase it moves to.
/// The first packet must be an establishment packet; after it, data messages are published to
/// their channel and anything else is skipped.
pub open spec fn spec_control_step(phase: ControlPhase, msg: ProtocolMessage) -> (ControlPhase, ControlAction) {
    match phase {
        ControlPhase::AwaitingEstablishment => match msg {
            ProtocolMessage::Establishment((id, name)) => {
                (ControlPhase::Established { service_id: id }, ControlAction::Register { service_id: id, name })
            },
            _ => (ControlPhase::AwaitingEstablishment, ControlAction::Fail(ServerError::NoEstablishment)),
        },
        ControlPhase::Established { service_id } => match msg {
            ProtocolMessage::Message(m) => (phase, ControlAction::Publish(m.id)),
            _ => (phase, ControlAction::Skip),
        },
    }
}

/// One step of a client's control connection (see `spec_control_step`).
pub fn control_step(phase: ControlPhase, msg: ProtocolMessage) -> (res: (ControlPhase, ControlAction))
    ensures
        res == spec_control_step(phase, msg),
        phase == ControlPhase::AwaitingEstablishment ==> match msg {
            ProtocolMessage::Establishment((port, name)) => {
                &&& res.0 == (ControlPhase::Established { service_id: port })
                &&& res.1 matches ControlAction::Register { service_id, name: n } && service_id == port && n == name
            },
            _ => res.0 == phase && res.1 is Fail,
        },
        phase is Established ==> res.0 == phase,
        phase is Established ==> match msg {
            ProtocolMessage::Message(m) => res.1 matches ControlAction::Publish(c) && c == m.id,
            _ => res.1 is Skip,
        },
{
    match phase {
        ControlPhase::AwaitingEstablishment => match msg {
            ProtocolMessage::Establishment((id, name)) => {
                (ControlPhase::Established { service_id: id }, ControlAction::Register { service_id: id, name })
            },
            _ => (ControlPhase::AwaitingEstablishment, ControlAction::Fail(ServerError::NoEstablishment)),
        },
        ControlPhase::Established { service_id } => match msg {
            ProtocolMessage::Message(m) => (phase, ControlAction::Publish(m.id)),
            _ => (phase, ControlAction::Skip),
        },
    }
}

/// The ports on which the server tries, in order, to open the public listener of a service that
/// asked for `service_id`: that port first, then any free port (port 0). The service stays
/// registered under `service_id` whichever of the two is bound.
pub fn listener_ports(service_id: u16) -> (ports: (u16, u16))
    ensures
        ports == (service_id, 0u16),
{
    (service_id, 0)
}

/// The server's answer to an establishment packet: the port it actually listens on, and the
/// service name it was given.
pub fn establishment_reply(port: u16, name: String) -> (msg: ProtocolMessage)
    ensures
        msg matches ProtocolMessage::Establishment((p, n)) && p == port && n@ == name@,
{
    ProtocolMessage::Establishment((port, name))
}

/// What the reading side of a public connection does after a read: `read` is the number of bytes
/// read into `buf`, or `None` when the read failed.
#[derive(Debug)]
pub enum PairReadAction {
    /// The connection is finished: shut its channel down.
    Shutdown,
    /// Push this packet through the tunnel.
    Tunnel(ProtocolMessage),
}

/// The decision of the read loop of a public connection on channel `id`: a failed read or an
/// empty one ends the connection, anything else goes through the tunnel as a data message.
pub fn pair_read_step(id: u32, buf: &[u8], read: Option<usize>) -> (action: PairReadAction)
    requires
        read matches Some(n) ==> n <= buf@.len(),
    ensures
        match read {
            None => action is Shutdown,
            Some(n) => if n == 0 {
                action is Shutdown
            } else {
                action matches PairReadAction::Tunnel(m)
                    && is_data_message(m, id, ControlCode::Neutral, buf@.subrange(0, n as int))
            },
        },
{
    match read {
        None => PairReadAction::Shutdown,
        Some(n) => match data_message(id, buf, n) {
            None => PairReadAction::Shutdown,
            Some(m) => PairReadAction::Tunnel(m),
        },
    }
}

/// What the writing side of a public connection sends on for a packet taken from its
/// channel: the data of a data message; nothing for any other packet.
pub open spec fn spec_pair_write_data(msg: ProtocolMessage) -> Option<Vec<u8>> {
    match msg {
        ProtocolMessage::Message(m) => Some(m.data),
        _ => None,
    }
}

/// The bytes that the writing side of a public connection sends on (see `spec_pair_write_data`).
pub fn pair_write_data(msg: ProtocolMessage) -> (data: Option<Vec<u8>>)
    ensures
        data == spec_pair_write_data(msg),
{
    match msg {
        ProtocolMessage::Message(m) => Some(m.data),
        _ => None,
    }
}

/// The payload of a websocket frame, copied into a buffer of its own.
pub fn frame_to_vec(payload: &[u8]) -> (bytes: Vec<u8>)
    ensures
        bytes@ == payload@,
{
    slice_to_vec(payload)
}

/// The handshake agrees on both sides: the server registers the port and service name that the
/// client's establishment request asks for, and the client accepts the server's establishment
/// reply, whatever port the server settled on, and moves on to serving packets.
pub proof fn lemma_handshake_agrees(request: ProtocolMessage, reply: ProtocolMessage, port: u16)
    requires
        request matches ProtocolMessage::Establishment((p, n)) && p == REQUESTED_PORT
            && n@ == spec_service_name(),
        reply matches ProtocolMessage::Establishment((p, n)) && p == port,
    ensures
        spec_control_step(ControlPhase::AwaitingEstablishment, request).0
            == (ControlPhase::Established { service_id: REQUESTED_PORT }),
        spec_control_step(ControlPhase::AwaitingEstablishment, request).1 matches
            ControlAction::Register { service_id, name } && service_id == REQUESTED_PORT
            && name@ == spec_service_name(),
        spec_client_step(ClientPhase::AwaitingConfirmation, reply).0 == ClientPhase::Established,
        spec_client_step(ClientPhase::AwaitingConfirmation, reply).1 matches
            ClientAction::Confirmed { port: p, name } && p == port,
{
}

/// The service of an establishment packet is registered under exactly the port it asked for and
/// with exactly the name it gave, whatever the port and the name; the connection is then
/// established under that port.
pub proof fn lemma_registers_the_requested_port(msg: ProtocolMessage, port: u16, name: String)
    requires
        msg == ProtocolMessage::Establishment((port, name)),
    ensures
        spec_control_step(ControlPhase::AwaitingEstablishment, msg).0
            == (ControlPhase::Established { service_id: port }),
        spec_control_step(ControlPhase::AwaitingEstablishment, msg).1 matches
            ControlAction::Register { service_id, name: n } && service_id == port && n == name,
{
}

/// Before its establishment packet, a control connection accepts nothing else: any other packet
/// drops the client and leaves the connection unestablished.
pub proof fn lemma_nothing_before_establishment(msg: ProtocolMessage)
    requires
        !(msg is Establishment),
    ensures
        spec_control_step(ControlPhase::AwaitingEstablishment, msg).0 == ControlPhase::AwaitingEstablishment,
        spec_control_step(ControlPhase::AwaitingEstablishment, msg).1 matches
            ControlAction::Fail(e) && e == ServerError::NoEstablishment,
{
}

/// An established control connection stays established under the same service on every packet
/// that follows, whatever it is; a data message is published to exactly the channel it names and
/// any other packet is skipped.
pub proof fn lemma_established_connection_is_stable(service_id: u16, msg: ProtocolMessage)
    ensures
        spec_control_step(ControlPhase::Established { service_id }, msg).0
            == (ControlPhase::Established { service_id }),
        msg matches ProtocolMessage::Message(m) ==> (spec_control_step(
            ControlPhase::Established { service_id },
            msg,
        ).1 matches ControlAction::Publish(c) && c == m.id),
        !(msg is Message) ==> spec_control_step(ControlPhase::Established { service_id }, msg).1 is Skip,
{
}

/// A data message carries its bytes unchanged to the right place in both directions: the client
/// forwards it to the local connection of its channel, the server publishes it to its channel,
/// and the public connection of that channel writes out exactly its bytes.
pub proof fn lemma_data_reaches_its_channel(
    msg: ProtocolMessage,
    id: u32,
    code: ControlCode,
    data: Seq<u8>,
    service_id: u16,
)
    requires
        is_data_message(msg, id, code, data),
    ensures
        spec_client_step(ClientPhase::Established, msg).0 == ClientPhase::Established,
        spec_client_step(ClientPhase::Established, msg).1 matches ClientAction::Forward { id: i, data: d }
            && i == id && d@ == data,
        spec_control_step(ControlPhase::Established { service_id }, msg).1 matches
            ControlAction::Publish(c) && c == id,
        spec_pair_write_data(msg) matches Some(d) && d@ == data,
{
}

} // verus!
