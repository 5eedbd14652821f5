use vstd::prelude::*;
use crate::protocol::messages::ProtocolMessage;

verus! {

/// The port of the local service that the client exposes.
pub const LOCAL_SERVICE_PORT: u16 = 4032;

/// How many bytes the client reads from a local connection at a time.
pub const BUFFER_SIZE: usize = 4096;

/// The public port the client asks the server for.
pub const REQUESTED_PORT: u16 = 10432;

/// The service name the client announces.
pub open spec fn spec_service_name() -> Seq<char> {
    "http-server"@
}

/// Where the client stands in its conversation with the server.
#[derive(Clone, Copy, Debug, PartialEq, Eq, Structural)]
pub enum ClientPhase {
    /// The establishment request was sent; the server's confirmation is awaited.
    AwaitingConfirmation,
    /// The server confirmed the tunnel; packets are being served.
    Established,
}

/// Why the client gave up.
#[derive(Clone, Copy, Debug, PartialEq, Eq, Structural)]
pub enum ClientError {
    /// The server answered the establishment request with something else.
    ConnectionFailed,
}

/// What the client does with a packet from the server.
#[derive(Debug)]
pub enum ClientAction {
    /// The server confirmed the tunnel on this public port, for this service name.
    Confirmed { port: u16, name: String },
    /// Open a new connection to the local service for this channel.
    OpenConnection(u32),
    /// Write these bytes to the local connection of this channel.
    Forward { id: u32, data: Vec<u8> },
    /// Nothing to do.
    Ignore,
    /// Stop: the conversation failed.
    Fail(ClientError),
}

/// The packet the client opens the conversation with: the requested port and its service name.
pub fn establishment_request() -> (msg: ProtocolMessage)
    ensures
        msg matches ProtocolMessage::Establishment((port, name)) && port == REQUESTED_PORT
            && name@ == spec_service_name(),
{
    ProtocolMessage::Establishment((REQUESTED_PORT, String::from_str("http-server")))
}

/// The client's decision on one packet from the server, and the phase it moves to.
/// While awaiting confirmation only an establishment packet is accepted; afterwards an open
/// request starts a local connection, a data message is forwarded to its channel and anything
/// else is ignored.
pub open spec fn spec_client_step(phase: ClientPhase, msg: ProtocolMessage) -> (ClientPhase, ClientAction) {
    match phase {
        ClientPhase::AwaitingConfirmation => match msg {
            ProtocolMessage::Establishment((port, name)) => {
                (ClientPhase::Established, ClientAction::Confirmed { port, name })
            },
            _ => (ClientPhase::AwaitingConfirmation, ClientAction::Fail(ClientError::ConnectionFailed)),
        },
        ClientPhase::Established => match msg {
            ProtocolMessage::Open(id) => (ClientPhase::Established, ClientAction::OpenConnection(id)),
            ProtocolMessage::Message(m) => {
                (ClientPhase::Established, ClientAction::Forward { id: m.id, data: m.data })
            },
            ProtocolMessage::Establishment(_) => (ClientPhase::Established, ClientAction::Ignore),
        },
    }
}

/// One step of the client's conversation with the server (see `spec_client_step`).
pub fn client_step(phase: ClientPhase, msg: ProtocolMessage) -> (res: (ClientPhase, ClientAction))
    ensures
        res == spec_client_step(phase, msg),
        phase == ClientPhase::Established ==> res.0 == ClientPhase::Established,
        phase == ClientPhase::Established ==> match msg {
            ProtocolMessage::Open(id) => res.1 matches ClientAction::OpenConnection(i) && i == id,
            ProtocolMessage::Message(m) => res.1 matches ClientAction::Forward { id, data }
                && id == m.id && data == m.data,
            ProtocolMessage::Establishment(_) => res.1 is Ignore,
        },
        phase == ClientPhase::AwaitingConfirmation ==> match msg {
            ProtocolMessage::Establishment((port, name)) => res.0 == ClientPhase::Established
                && (res.1 matches ClientAction::Confirmed { port: p, name: n } && p == port && n == name),
            _ => res.0 == phase && (res.1 matches ClientAction::Fail(e) && e == ClientError::ConnectionFailed),
        },
{
    match phase {
        ClientPhase::AwaitingConfirmation => match msg {
            ProtocolMessage::Establishment((port, name)) => {
                (ClientPhase::Established, ClientAction::Confirmed { port, name })
            },
            _ => (ClientPhase::AwaitingConfirmation, ClientAction::Fail(ClientError::ConnectionFailed)),
        },
        ClientPhase::Established => match msg {
            ProtocolMessage::Open(id) => (ClientPhase::Established, ClientAction::OpenConnection(id)),
            ProtocolMessage::Message(m) => {
                (ClientPhase::Established, ClientAction::Forward { id: m.id, data: m.data })
            },
            ProtocolMessage::Establishment(_) => (ClientPhase::Established, ClientAction::Ignore),
        },
    }
}

/// Once the tunnel is confirmed the client stays in that phase on every packet; an open request
/// opens a local connection for exactly the channel it announces, and a data message is
/// forwarded, bytes unchanged, to exactly the channel it names.
pub proof fn lemma_established_client_is_stable(msg: ProtocolMessage)
    ensures
        spec_client_step(ClientPhase::Established, msg).0 == ClientPhase::Established,
        msg matches ProtocolMessage::Open(id) ==> (spec_client_step(ClientPhase::Established, msg).1
            matches ClientAction::OpenConnection(i) && i == id),
        msg matches ProtocolMessage::Message(m) ==> (spec_client_step(ClientPhase::Established, msg).1
            matches ClientAction::Forward { id, data } && id == m.id && data@ == m.data@),
        msg is Establishment ==> spec_client_step(ClientPhase::Established, msg).1 is Ignore,
{
}

/// The client confirms the tunnel on exactly the port and name that the server's establishment
/// packet carries, whatever they are, and refuses anything else before it.
pub proof fn lemma_client_confirms_what_the_server_sent(msg: ProtocolMessage)
    ensures
        msg matches ProtocolMessage::Establishment((port, name)) ==> {
            &&& spec_client_step(ClientPhase::AwaitingConfirmation, msg).0 == ClientPhase::Established
            &&& spec_client_step(ClientPhase::AwaitingConfirmation, msg).1 matches
                ClientAction::Confirmed { port: p, name: n } && p == port && n == name
        },
        !(msg is Establishment) ==> {
            &&& spec_client_step(ClientPhase::AwaitingConfirmation, msg).0 == ClientPhase::AwaitingConfirmation
            &&& spec_client_step(ClientPhase::AwaitingConfirmation, msg).1 matches
                ClientAction::Fail(e) && e == ClientError::ConnectionFailed
        },
{
}

} // verus!
