use vstd::prelude::*;
use vstd::slice::{slice_subrange, slice_to_vec};

verus! {

/// Marks the server side of a tunnel.
pub struct HandleServer;

/// Marks the client side of a tunnel.
pub struct HandleClient;

/// Marks a tunnel end that both sends and receives.
pub struct HandleDuplex;

/// What a data message does to its channel.
#[derive(Clone, Copy, Debug, PartialEq, Eq, Structural)]
pub enum ControlCode {
    Neutral,
    Open,
    Close,
}

/// A piece of traffic of one tunnelled connection.
#[derive(Debug)]
pub struct WebsocketMessage {
    /// The channel (connection) the data belongs to.
    pub id: u32,
    pub code: ControlCode,
    pub data: Vec<u8>,
}

/// The packets that client and server exchange over the control connection.
#[derive(Debug)]
pub enum ProtocolMessage {
    /// Sends a requested port and a service name.
    Establishment((u16, String)),
    /// Sends a channel ID.
    Open(u32),
    Message(WebsocketMessage),
}

/// Whether `msg` is a data message for channel `id` with code `code` carrying `data`.
pub open spec fn is_data_message(msg: ProtocolMessage, id: u32, code: ControlCode, data: Seq<u8>) -> bool {
    &&& msg is Message
    &&& msg->Message_0.id == id
    &&& msg->Message_0.code == code
    &&& msg->Message_0.data@ == data
}

/// The data message that carries the first `len` bytes of `buf` on channel `id`, or `None` when
/// nothing was read (`len` is 0), the signal that the connection was closed.
pub fn data_message(id: u32, buf: &[u8], len: usize) -> (msg: Option<ProtocolMessage>)
    requires
        len <= buf@.len(),
    ensures
        len == 0 <==> msg is None,
        msg matches Some(m) ==> is_data_message(m, id, ControlCode::Neutral, buf@.subrange(0, len as int)),
{
    if len == 0 {
        None
    } else {
        let data = slice_to_vec(slice_subrange(buf, 0, len));
        Some(ProtocolMessage::Message(WebsocketMessage { id, code: ControlCode::Neutral, data }))
    }
}

} // verus!
