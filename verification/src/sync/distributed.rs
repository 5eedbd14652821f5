use vstd::prelude::*;
use core::marker::PhantomData;
use flume::{Receiver, Sender};
use crate::protocol::messages::ProtocolMessage;
use crate::sync::channels::{
    bounded_channel, channel_map_contains, channel_map_entry, channel_map_get, channel_map_insert, channel_map_keys,
    channel_map_new, clone_receiver, clone_sender, ChannelMap, PacketChannel,
};

verus! {

/// The serialized bytes of a value of type `T`, tagged with that type.
pub struct LightPacket<T> {
    data: Vec<u8>,
    _type: PhantomData<T>,
}

impl<T> View for LightPacket<T> {
    type V = Seq<u8>;

    closed spec fn view(&self) -> Seq<u8> {
        self.data@
    }
}

impl<T> LightPacket<T> {
    /// A packet holding `data`.
    pub fn from_bytes(data: Vec<u8>) -> (packet: LightPacket<T>)
        ensures
            packet@ == data@,
    {
        LightPacket { data, _type: PhantomData }
    }

    /// The bytes of the packet.
    pub fn to_bytes(&self) -> (data: &Vec<u8>)
        ensures
            data@ == self@,
    {
        &self.data
    }
}

/// A tunnel with one primary channel towards the remote end and one channel per connection
/// identifier from it; connection channels are made on first use.
pub struct TunnelCenter {
    primary: PacketChannel,
    channels: ChannelMap,
    buffer_size: usize,
}

impl TunnelCenter {
    /// The connection identifiers that have a channel.
    pub closed spec fn topics(&self) -> Set<u32> {
        channel_map_keys(self.channels)
    }

    /// How many packets each channel holds at most.
    pub closed spec fn capacity(&self) -> nat {
        self.buffer_size as nat
    }

    /// The channel held for `channel` (meaningful where `channel` is one of the topics).
    pub closed spec fn channel_of(&self, channel: u32) -> PacketChannel {
        channel_map_entry(self.channels, channel)
    }

    /// The sending end of the primary channel.
    pub closed spec fn primary_sending_end(&self) -> Sender<LightPacket<ProtocolMessage>> {
        self.primary.0
    }

    /// The receiving end of the primary channel.
    pub closed spec fn primary_receiving_end(&self) -> Receiver<LightPacket<ProtocolMessage>> {
        self.primary.1
    }

    /// A tunnel with no connection channel yet, whose channels hold at most `buffer` packets.
    pub fn new(buffer: usize) -> (center: Self)
        ensures
            center.topics() == Set::<u32>::empty(),
            center.capacity() == buffer,
    {
        TunnelCenter {
            primary: bounded_channel(buffer),
            channels: channel_map_new(),
            buffer_size: buffer,
        }
    }

    /// Makes the channel of `channel` if it has none; an existing channel is left as it is, so
    /// that no packet queued on it is lost.
    pub fn init_channel(&mut self, channel: u32)
        ensures
            final(self).topics() == old(self).topics().insert(channel),
            final(self).capacity() == old(self).capacity(),
            old(self).topics().contains(channel) ==> *final(self) == *old(self),
            forall|k: u32| #[trigger] old(self).topics().contains(k)
                ==> final(self).channel_of(k) == old(self).channel_of(k),
            final(self).primary_sending_end() == old(self).primary_sending_end(),
            final(self).primary_receiving_end() == old(self).primary_receiving_end(),
    {
        if !channel_map_contains(&self.channels, channel) {
            let fresh = bounded_channel(self.buffer_size);
            channel_map_insert(&mut self.channels, channel, fresh);
        }
    }

    /// The receiving end of the channel of `channel`, made on first use: what `subscribe` awaits.
    pub fn subscriber(&mut self, channel: u32) -> (receiver: Receiver<LightPacket<ProtocolMessage>>)
        ensures
            final(self).topics() == old(self).topics().insert(channel),
            final(self).capacity() == old(self).capacity(),
            old(self).topics().contains(channel) ==> *final(self) == *old(self),
            forall|k: u32| #[trigger] old(self).topics().contains(k)
                ==> final(self).channel_of(k) == old(self).channel_of(k),
            final(self).primary_sending_end() == old(self).primary_sending_end(),
            final(self).primary_receiving_end() == old(self).primary_receiving_end(),
            receiver == final(self).channel_of(channel).1,
    {
        self.init_channel(channel);
        let pair = channel_map_get(&self.channels, channel).unwrap();
        pair.1
    }

    /// The sending end of the channel of `channel`, made on first use: what `publish` sends on.
    pub fn publisher(&mut self, channel: u32) -> (sender: Sender<LightPacket<ProtocolMessage>>)
        ensures
            final(self).topics() == old(self).topics().insert(channel),
            final(self).capacity() == old(self).capacity(),
            old(self).topics().contains(channel) ==> *final(self) == *old(self),
            forall|k: u32| #[trigger] old(self).topics().contains(k)
                ==> final(self).channel_of(k) == old(self).channel_of(k),
            final(self).primary_sending_end() == old(self).primary_sending_end(),
            final(self).primary_receiving_end() == old(self).primary_receiving_end(),
            sender == final(self).channel_of(channel).0,
    {
        self.init_channel(channel);
        let pair = channel_map_get(&self.channels, channel).unwrap();
        pair.0
    }

    /// The sending end of the primary channel: what `to_tunnel` sends on.
    pub fn tunnel_sender(&self) -> (sender: Sender<LightPacket<ProtocolMessage>>)
        ensures
            sender == self.primary_sending_end(),
    {
        clone_sender(&self.primary.0)
    }

    /// The receiving end of the primary channel: what `recv_from_tunnel` awaits.
    pub fn tunnel_receiver(&self) -> (receiver: Receiver<LightPacket<ProtocolMessage>>)
        ensures
            receiver == self.primary_receiving_end(),
    {
        clone_receiver(&self.primary.1)
    }
}

} // verus!
