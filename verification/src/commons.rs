use vstd::prelude::*;
use std::sync::Arc;
use dashmap::DashMap;
use flume::{Receiver, Sender};
use crate::sync::channels::{bounded_channel, clone_receiver, clone_sender};

verus! {

/// How many messages a channel of the websocket proxy holds at most.
pub const CHANNEL_SIZE: usize = 10;

/// What a websocket data message does to its channel.
#[derive(Clone, Copy, Debug, PartialEq, Eq, Structural)]
pub enum ControlCode {
    Neutral,
    Open,
    Close,
}

/// A piece of traffic of one proxied connection; `id` is the connection's UUID as a `u128`.
#[derive(Debug)]
pub struct WebsocketMessage {
    pub id: u128,
    pub code: ControlCode,
    pub data: Vec<u8>,
}

/// The packets of the websocket proxy.
#[derive(Debug)]
pub enum ProtocolMessage {
    Message(WebsocketMessage),
}

/// A bounded channel, held by both of its ends.
#[verifier::reject_recursive_types(T)]
pub struct SimpleChannel<T> {
    channel: (Sender<T>, Receiver<T>),
}

impl<T> SimpleChannel<T> {
    /// The sending end of the channel.
    pub closed spec fn sending_end(&self) -> Sender<T> {
        self.channel.0
    }

    /// The receiving end of the channel.
    pub closed spec fn receiving_end(&self) -> Receiver<T> {
        self.channel.1
    }

    /// A channel that holds at most `cap` messages.
    pub fn new(cap: usize) -> Self {
        SimpleChannel { channel: bounded_channel(cap) }
    }

    /// The sending end: what `send` sends on.
    pub fn sender(&self) -> (sender: Sender<T>)
        ensures
            sender == self.sending_end(),
    {
        clone_sender(&self.channel.0)
    }

    /// The receiving end: what `recv` awaits.
    pub fn receiver(&self) -> (receiver: Receiver<T>)
        ensures
            receiver == self.receiving_end(),
    {
        clone_receiver(&self.channel.1)
    }
}

impl<T> Clone for SimpleChannel<T> {
    /// Another handle on the same channel.
    fn clone(&self) -> (copy: Self)
        ensures
            copy.sending_end() == self.sending_end(),
            copy.receiving_end() == self.receiving_end(),
    {
        SimpleChannel { channel: (clone_sender(&self.channel.0), clone_receiver(&self.channel.1)) }
    }
}

/// A concurrent map from connection UUIDs to the channels of their messages.
pub type TopicMap = DashMap<u128, Arc<SimpleChannel<WebsocketMessage>>>;

/// The connection UUIDs that a `TopicMap` holds a channel for.
pub uninterp spec fn topic_map_keys(map: TopicMap) -> Set<u128>;

/// The channel that a `TopicMap` holds for `key` (meaningful where `key` has an entry).
pub uninterp spec fn topic_map_entry(map: TopicMap, key: u128) -> Arc<SimpleChannel<WebsocketMessage>>;

/// `DashMap::new`: an empty map.
#[verifier::external_body]
fn topic_map_new() -> (map: TopicMap)
    ensures
        topic_map_keys(map) == Set::<u128>::empty(),
{
    DashMap::new()
}

/// `DashMap::contains_key`: whether the map has a channel for `key`.
#[verifier::external_body]
fn topic_map_contains(map: &TopicMap, key: u128) -> (found: bool)
    ensures
        found == topic_map_keys(*map).contains(key),
{
    map.contains_key(&key)
}

/// `DashMap::insert`: the map holds `channel` for `key`; the entries of the other keys are left
/// as they were.
#[verifier::external_body]
fn topic_map_insert(map: &mut TopicMap, key: u128, channel: Arc<SimpleChannel<WebsocketMessage>>)
    ensures
        topic_map_keys(*final(map)) == topic_map_keys(*old(map)).insert(key),
        topic_map_entry(*final(map), key) == channel,
        forall|k: u128| k != key && #[trigger] topic_map_keys(*old(map)).contains(k)
            ==> topic_map_entry(*final(map), k) == topic_map_entry(*old(map), k),
{
    map.insert(key, channel);
}

/// `DashMap::get`, then `Arc::clone` of the entry: the channel stored for `key`, if any.
#[verifier::external_body]
fn topic_map_get(map: &TopicMap, key: u128) -> (channel: Option<Arc<SimpleChannel<WebsocketMessage>>>)
    ensures
        channel is Some <==> topic_map_keys(*map).contains(key),
        channel matches Some(c) ==> c == topic_map_entry(*map, key),
{
    match map.get(&key) {
        Some(entry) => Some(Arc::clone(entry.value())),
        None => None,
    }
}

/// `DashMap::remove`: the map no longer has a channel for `key`; the entries of the other keys
/// are left as they were.
#[verifier::external_body]
fn topic_map_remove(map: &mut TopicMap, key: u128)
    ensures
        topic_map_keys(*final(map)) == topic_map_keys(*old(map)).remove(key),
        forall|k: u128| k != key && #[trigger] topic_map_keys(*old(map)).contains(k)
            ==> topic_map_entry(*final(map), k) == topic_map_entry(*old(map), k),
{
    map.remove(&key);
}

/// Hands out one channel per connection UUID, made on first request.
pub struct ChannelDistributor {
    buf_size: usize,
    cmap: TopicMap,
}

impl ChannelDistributor {
    /// The connection UUIDs that have a channel.
    pub closed spec fn topics(&self) -> Set<u128> {
        topic_map_keys(self.cmap)
    }

    /// How many messages each channel holds at most.
    pub closed spec fn capacity(&self) -> nat {
        self.buf_size as nat
    }

    /// The channel held for `id` (meaningful where `id` is one of the topics).
    pub closed spec fn channel_of(&self, id: u128) -> Arc<SimpleChannel<WebsocketMessage>> {
        topic_map_entry(self.cmap, id)
    }

    /// A distributor with no channel yet, whose channels hold at most `cap` messages.
    pub fn new(cap: usize) -> (distributor: Self)
        ensures
            distributor.topics() == Set::<u128>::empty(),
            distributor.capacity() == cap,
    {
        ChannelDistributor { buf_size: cap, cmap: topic_map_new() }
    }

    /// The channel of `id`, made if it has none; an existing channel is left as it is.
    pub fn get_channel(&mut self, id: u128) -> (channel: Arc<SimpleChannel<WebsocketMessage>>)
        ensures
            final(self).topics() == old(self).topics().insert(id),
            final(self).capacity() == old(self).capacity(),
            old(self).topics().contains(id) ==> *final(self) == *old(self),
            forall|k: u128| #[trigger] old(self).topics().contains(k)
                ==> final(self).channel_of(k) == old(self).channel_of(k),
            channel == final(self).channel_of(id),
    {
        if !topic_map_contains(&self.cmap, id) {
            topic_map_insert(&mut self.cmap, id, Arc::new(SimpleChannel::new(self.buf_size)));
        }
        topic_map_get(&self.cmap, id).unwrap()
    }

    /// Whether `id` has a channel.
    pub fn has_topic(&self, id: u128) -> (found: bool)
        ensures
            found == self.topics().contains(id),
    {
        topic_map_contains(&self.cmap, id)
    }

    /// `id` no longer has a channel.
    pub fn remove_topic(&mut self, id: u128)
        ensures
            final(self).topics() == old(self).topics().remove(id),
            final(self).capacity() == old(self).capacity(),
            forall|k: u128| k != id && #[trigger] old(self).topics().contains(k)
                ==> final(self).channel_of(k) == old(self).channel_of(k),
    {
        topic_map_remove(&mut self.cmap, id);
    }

    /// Where an incoming message for `id` goes: the channel of `id` when it has one; a message
    /// for a connection without a channel is dropped, and no channel is made for it.
    pub fn deliverable(&self, id: u128) -> (channel: Option<Arc<SimpleChannel<WebsocketMessage>>>)
        ensures
            channel is Some <==> self.topics().contains(id),
            channel matches Some(c) ==> c == self.channel_of(id),
    {
        if topic_map_contains(&self.cmap, id) {
            topic_map_get(&self.cmap, id)
        } else {
            None
        }
    }
}

/// What the listening task of a websocket proxy observed.
#[derive(Debug)]
pub enum ListenerEvent {
    /// A binary frame; its packet when it decoded, `None` when it did not.
    Binary(Option<ProtocolMessage>),
    /// A frame of another kind (text, ping, ...).
    OtherFrame,
    /// The websocket reported an error.
    Failed,
    /// The websocket ended.
    Closed,
    /// The proxy's coordinator changed state.
    Stopped,
}

/// What the listening task of a websocket proxy does next.
pub enum ListenerAction {
    /// Send the message on this channel, then listen on.
    Deliver(Arc<SimpleChannel<WebsocketMessage>>, WebsocketMessage),
    /// Listen on.
    Skip,
    /// Shut the proxy down and stop listening.
    ShutdownAndStop,
    /// Stop listening.
    Stop,
}

/// The decision of the listening task of a websocket proxy on one event: a decoded message goes
/// to the channel of its connection when that connection has one and is dropped otherwise;
/// undecodable and non-binary frames are skipped; an error or the end of the websocket shuts
/// the proxy down; a state change of the coordinator ends the task.
pub fn listener_step(distributor: &ChannelDistributor, event: ListenerEvent) -> (action: ListenerAction)
    ensures
        match event {
            ListenerEvent::Binary(Some(ProtocolMessage::Message(m))) => if distributor.topics().contains(m.id) {
                action matches ListenerAction::Deliver(c, d) && c == distributor.channel_of(m.id) && d == m
            } else {
                action is Skip
            },
            ListenerEvent::Binary(None) | ListenerEvent::OtherFrame => action is Skip,
            ListenerEvent::Failed | ListenerEvent::Closed => action is ShutdownAndStop,
            ListenerEvent::Stopped => action is Stop,
        },
{
    match event {
        ListenerEvent::Binary(Some(ProtocolMessage::Message(m))) => match distributor.deliverable(m.id) {
            Some(channel) => ListenerAction::Deliver(channel, m),
            None => ListenerAction::Skip,
        },
        ListenerEvent::Binary(None) | ListenerEvent::OtherFrame => ListenerAction::Skip,
        ListenerEvent::Failed | ListenerEvent::Closed => ListenerAction::ShutdownAndStop,
        ListenerEvent::Stopped => ListenerAction::Stop,
    }
}

/// The listening task's reaction when sending on a connection's channel failed: the
/// connection's topic is removed (a best effort; the other topics keep their channels) and the
/// task listens on.
pub fn delivery_failed(distributor: &mut ChannelDistributor, id: u128) -> (action: ListenerAction)
    ensures
        final(distributor).topics() == old(distributor).topics().remove(id),
        final(distributor).capacity() == old(distributor).capacity(),
        forall|k: u128| k != id && #[trigger] old(distributor).topics().contains(k)
            ==> final(distributor).channel_of(k) == old(distributor).channel_of(k),
        action is Skip,
{
    distributor.remove_topic(id);
    ListenerAction::Skip
}

} // verus!
