use vstd::prelude::*;
use flume::{Receiver, Sender};
use crate::protocol::messages::ProtocolMessage;
use crate::sync::channels::{
    bounded_channel, channel_map_contains, channel_map_entry, channel_map_get, channel_map_insert, channel_map_keys,
    channel_map_new, clone_receiver, clone_sender, ChannelMap, PacketChannel,
};
use crate::sync::distributed::LightPacket;

verus! {

/// A hub with one primary channel and one channel per connection identifier, each carrying
/// serialized protocol packets; connection channels are made on first use.
pub struct Kraken {
    primary: PacketChannel,
    channels: ChannelMap,
    buffer_size: usize,
}

impl Kraken {
    /// The connection identifiers that have a channel.
    pub closed spec fn topics(&self) -> Set<u32> {
        channel_map_keys(self.channels)
    }

    /// How many packets each channel holds at most.
    pub closed spec fn capacity(&self) -> nat {
        self.buffer_size as nat
    }

    /// The channel held for `channel` (meaningful where `channel` is one of the topics).
    pub closed spec fn channel_of(&self, channel: u32) -> PacketChannel {
        channel_map_entry(self.channels, channel)
    }

    /// The sending end of the primary channel.
    pub closed spec fn primary_sending_end(&self) -> Sender<LightPacket<ProtocolMessage>> {
        self.primary.0
    }

    /// The receiving end of the primary channel.
    pub closed spec fn primary_receiving_end(&self) -> Receiver<LightPacket<ProtocolMessage>> {
        self.primary.1
    }

    /// A hub with no connection channel yet, whose channels hold at most `buffer_size` packets.
    pub fn new(buffer_size: usize) -> (hub: Self)
        ensures
            hub.topics() == Set::<u32>::empty(),
            hub.capacity() == buffer_size,
    {
        Kraken {
            primary: bounded_channel(buffer_size),
            channels: channel_map_new(),
            buffer_size,
        }
    }

    /// Makes the channel of `channel` if it has none; an existing channel is left as it is.
    fn optional_create_channel(&mut self, channel: u32)
        ensures
            final(self).topics() == old(self).topics().insert(channel),
            final(self).capacity() == old(self).capacity(),
            old(self).topics().contains(channel) ==> *final(self) == *old(self),
            forall|k: u32| #[trigger] old(self).topics().contains(k)
                ==> final(self).channel_of(k) == old(self).channel_of(k),
            final(self).primary_sending_end() == old(self).primary_sending_end(),
            final(self).primary_receiving_end() == old(self).primary_receiving_end(),
    {
        if !channel_map_contains(&self.channels, channel) {
            let fresh = bounded_channel(self.buffer_size);
            channel_map_insert(&mut self.channels, channel, fresh);
        }
    }

    /// The receiving end of the channel of `channel`, made on first use: what `subscribe` awaits.
    pub fn subscriber(&mut self, channel: u32) -> (receiver: Receiver<LightPacket<ProtocolMessage>>)
        ensures
            final(self).topics() == old(self).topics().insert(channel),
            final(self).capacity() == old(self).capacity(),
            old(self).topics().contains(channel) ==> *final(self) == *old(self),
            forall|k: u32| #[trigger] old(self).topics().contains(k)
                ==> final(self).channel_of(k) == old(self).channel_of(k),
            final(self).primary_sending_end() == old(self).primary_sending_end(),
            final(self).primary_receiving_end() == old(self).primary_receiving_end(),
            receiver == final(self).channel_of(channel).1,
    {
        self.optional_create_channel(channel);
        channel_map_get(&self.channels, channel).unwrap().1
    }

    /// The sending end of the channel of `channel`, made on first use: what `publish` sends on.
    pub fn publisher(&mut self, channel: u32) -> (sender: Sender<LightPacket<ProtocolMessage>>)
        ensures
            final(self).topics() == old(self).topics().insert(channel),
            final(self).capacity() == old(self).capacity(),
            old(self).topics().contains(channel) ==> *final(self) == *old(self),
            forall|k: u32| #[trigger] old(self).topics().contains(k)
                ==> final(self).channel_of(k) == old(self).channel_of(k),
            final(self).primary_sending_end() == old(self).primary_sending_end(),
            final(self).primary_receiving_end() == old(self).primary_receiving_end(),
            sender == final(self).channel_of(channel).0,
    {
        self.optional_create_channel(channel);
        channel_map_get(&self.channels, channel).unwrap().0
    }

    /// The receiving end of the primary channel: what `recv_primary` awaits.
    pub fn primary_receiver(&self) -> (receiver: Receiver<LightPacket<ProtocolMessage>>)
        ensures
            receiver == self.primary_receiving_end(),
    {
        clone_receiver(&self.primary.1)
    }

    /// The sending end of the primary channel: what `send_primary` sends on.
    pub fn primary_sender(&self) -> (sender: Sender<LightPacket<ProtocolMessage>>)
        ensures
            sender == self.primary_sending_end(),
    {
        clone_sender(&self.primary.0)
    }
}

} // verus!
