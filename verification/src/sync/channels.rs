use vstd::prelude::*;
use dashmap::DashMap;
use flume::{Receiver, Sender};
use crate::protocol::messages::ProtocolMessage;
use crate::sync::distributed::LightPacket;

verus! {

#[verifier::external_type_specification]
#[verifier::external_body]
#[verifier::reject_recursive_types(T)]
pub struct ExSender<T>(Sender<T>);

#[verifier::external_type_specification]
#[verifier::external_body]
#[verifier::reject_recursive_types(T)]
pub struct ExReceiver<T>(Receiver<T>);

#[verifier::external_type_specification]
#[verifier::external_body]
#[verifier::reject_recursive_types(K)]
#[verifier::reject_recursive_types(V)]
#[verifier::reject_recursive_types(S)]
pub struct ExDashMap<K, V, S>(DashMap<K, V, S>);

/// The two ends of a bounded channel of protocol packets.
pub type PacketChannel = (Sender<LightPacket<ProtocolMessage>>, Receiver<LightPacket<ProtocolMessage>>);

/// A concurrent map from channel identifiers to packet channels.
pub type ChannelMap = DashMap<u32, PacketChannel>;

/// The channel identifiers that a `ChannelMap` holds an entry for.
pub uninterp spec fn channel_map_keys(map: ChannelMap) -> Set<u32>;

/// The channel that a `ChannelMap` holds for `key` (meaningful where `key` has an entry).
pub uninterp spec fn channel_map_entry(map: ChannelMap, key: u32) -> PacketChannel;

/// `flume::bounded`: a new channel that holds at most `cap` packets; its two ends.
#[verifier::external_body]
pub fn bounded_channel<T>(cap: usize) -> (Sender<T>, Receiver<T>) {
    flume::bounded(cap)
}

/// `Sender::clone`: another handle on the sending end of the same channel. flume's clone holds
/// the same shared channel state (the same `Arc`) and only counts one more sender in it: the
/// clone stands for the same sending end as the handle it was made from.
#[verifier::external_body]
pub fn clone_sender<T>(sender: &Sender<T>) -> (copy: Sender<T>)
    ensures
        copy == *sender,
{
    sender.clone()
}

/// `Receiver::clone`: another handle on the receiving end of the same channel. flume's clone
/// holds the same shared channel state (the same `Arc`) and only counts one more receiver in it:
/// the clone stands for the same receiving end as the handle it was made from.
#[verifier::external_body]
pub fn clone_receiver<T>(receiver: &Receiver<T>) -> (copy: Receiver<T>)
    ensures
        copy == *receiver,
{
    receiver.clone()
}

/// `DashMap::new`: an empty map.
#[verifier::external_body]
pub fn channel_map_new() -> (map: ChannelMap)
    ensures
        channel_map_keys(map) == Set::<u32>::empty(),
{
    DashMap::new()
}

/// `DashMap::contains_key`: whether the map has an entry for `key`.
#[verifier::external_body]
pub fn channel_map_contains(map: &ChannelMap, key: u32) -> (found: bool)
    ensures
        found == channel_map_keys(*map).contains(key),
{
    map.contains_key(&key)
}

/// `DashMap::insert`: the map has an entry for `key`, holding `channel`; the entries of the other
/// keys are left as they were.
#[verifier::external_body]
pub fn channel_map_insert(map: &mut ChannelMap, key: u32, channel: PacketChannel)
    ensures
        channel_map_keys(*final(map)) == channel_map_keys(*old(map)).insert(key),
        channel_map_entry(*final(map), key) == channel,
        forall|k: u32| k != key && #[trigger] channel_map_keys(*old(map)).contains(k)
            ==> channel_map_entry(*final(map), k) == channel_map_entry(*old(map), k),
{
    map.insert(key, channel);
}

/// `DashMap::get`, then `Clone` of the entry: handles on the channel stored for `key`, if any.
/// The clones of flume's two ends stand for the same ends (see `clone_sender`).
#[verifier::external_body]
pub fn channel_map_get(map: &ChannelMap, key: u32) -> (channel: Option<PacketChannel>)
    ensures
        channel is Some <==> channel_map_keys(*map).contains(key),
        channel matches Some(c) ==> c == channel_map_entry(*map, key),
{
    match map.get(&key) {
        Some(entry) => Some(entry.value().clone()),
        None => None,
    }
}

} // verus!
