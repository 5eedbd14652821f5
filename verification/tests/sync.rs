use kubeport::commons::{ChannelDistributor, ControlCode, SimpleChannel, WebsocketMessage, CHANNEL_SIZE};
use kubeport::protocol::messages::ProtocolMessage;
use kubeport::sync::coordinator::AsyncCoordinator;
use kubeport::sync::distributed::{LightPacket, TunnelCenter};
use kubeport::sync::pubsub::Kraken;

#[test]
fn light_packet_keeps_its_bytes() {
    let packet: LightPacket<ProtocolMessage> = LightPacket::from_bytes(vec![1, 2, 3]);
    assert_eq!(packet.to_bytes(), &vec![1, 2, 3]);
}

#[test]
fn tunnel_publisher_and_subscriber_meet_on_one_channel() {
    let mut center = TunnelCenter::new(4);
    let tx = center.publisher(5);
    let rx = center.subscriber(5);
    tx.try_send(LightPacket::from_bytes(vec![42])).unwrap();
    assert_eq!(rx.try_recv().unwrap().to_bytes(), &vec![42]);
}

#[test]
fn tunnel_channels_are_kept_apart() {
    let mut center = TunnelCenter::new(4);
    center.publisher(1).try_send(LightPacket::from_bytes(vec![1])).unwrap();
    assert!(center.subscriber(2).try_recv().is_err());
    assert_eq!(center.subscriber(1).try_recv().unwrap().to_bytes(), &vec![1]);
}

#[test]
fn tunnel_channel_is_not_replaced_once_made() {
    let mut center = TunnelCenter::new(4);
    center.publisher(3).try_send(LightPacket::from_bytes(vec![7])).unwrap();
    center.init_channel(3);
    let _ = center.publisher(3);
    assert_eq!(center.subscriber(3).try_recv().unwrap().to_bytes(), &vec![7]);
}

#[test]
fn tunnel_primary_channel_carries_packets() {
    let center = TunnelCenter::new(2);
    center.tunnel_sender().try_send(LightPacket::from_bytes(vec![9, 9])).unwrap();
    assert_eq!(center.tunnel_receiver().try_recv().unwrap().to_bytes(), &vec![9, 9]);
}

#[test]
fn tunnel_channels_are_bounded() {
    let mut center = TunnelCenter::new(1);
    let tx = center.publisher(1);
    tx.try_send(LightPacket::from_bytes(vec![1])).unwrap();
    assert!(tx.try_send(LightPacket::from_bytes(vec![2])).is_err());
}

#[test]
fn kraken_routes_by_channel() {
    let mut hub = Kraken::new(3);
    hub.publisher(11).try_send(LightPacket::from_bytes(vec![5])).unwrap();
    assert!(hub.subscriber(12).try_recv().is_err());
    assert_eq!(hub.subscriber(11).try_recv().unwrap().to_bytes(), &vec![5]);
    hub.primary_sender().try_send(LightPacket::from_bytes(vec![6])).unwrap();
    assert_eq!(hub.primary_receiver().try_recv().unwrap().to_bytes(), &vec![6]);
}

fn ws(id: u128, data: &[u8]) -> WebsocketMessage {
    WebsocketMessage { id, code: ControlCode::Neutral, data: data.to_vec() }
}

#[test]
fn distributor_makes_and_removes_topics() {
    let mut distributor = ChannelDistributor::new(CHANNEL_SIZE);
    assert_eq!(CHANNEL_SIZE, 10);
    assert!(!distributor.has_topic(1));
    assert!(distributor.deliverable(1).is_none());
    assert!(!distributor.has_topic(1));
    let channel = distributor.get_channel(1);
    assert!(distributor.has_topic(1));
    channel.sender().try_send(ws(1, b"a")).unwrap();
    let again = distributor.deliverable(1).unwrap();
    assert_eq!(again.receiver().try_recv().unwrap().data, b"a".to_vec());
    distributor.remove_topic(1);
    assert!(!distributor.has_topic(1));
    assert!(distributor.deliverable(1).is_none());
}

#[test]
fn simple_channel_clone_shares_the_channel() {
    let channel: SimpleChannel<u8> = SimpleChannel::new(2);
    let copy = channel.clone();
    channel.sender().try_send(3).unwrap();
    assert_eq!(copy.receiver().try_recv().unwrap(), 3);
}

#[test]
fn coordinator_turns_on_and_off() {
    let coordinator = AsyncCoordinator::new();
    assert!(!coordinator.decision());
    coordinator.shutdown();
    assert!(coordinator.decision());
    coordinator.change_state(false);
    assert!(!coordinator.decision());
    coordinator.change_state(false);
    assert!(!coordinator.decision());
}

use kubeport::commons::{delivery_failed, listener_step, ListenerAction, ListenerEvent, ProtocolMessage as WsPacket};

#[test]
fn listener_delivers_only_to_known_connections() {
    let mut distributor = ChannelDistributor::new(2);
    let channel = distributor.get_channel(7);
    match listener_step(&distributor, ListenerEvent::Binary(Some(WsPacket::Message(ws(7, b"hi"))))) {
        ListenerAction::Deliver(target, msg) => {
            assert_eq!(msg.id, 7);
            assert_eq!(msg.data, b"hi".to_vec());
            target.sender().try_send(msg).unwrap();
            assert_eq!(channel.receiver().try_recv().unwrap().data, b"hi".to_vec());
        }
        _ => panic!("expected a delivery"),
    }
    assert!(matches!(
        listener_step(&distributor, ListenerEvent::Binary(Some(WsPacket::Message(ws(8, b"x"))))),
        ListenerAction::Skip
    ));
    assert!(!distributor.has_topic(8));
}

#[test]
fn listener_skips_stops_and_shuts_down() {
    let distributor = ChannelDistributor::new(2);
    assert!(matches!(listener_step(&distributor, ListenerEvent::Binary(None)), ListenerAction::Skip));
    assert!(matches!(listener_step(&distributor, ListenerEvent::OtherFrame), ListenerAction::Skip));
    assert!(matches!(listener_step(&distributor, ListenerEvent::Failed), ListenerAction::ShutdownAndStop));
    assert!(matches!(listener_step(&distributor, ListenerEvent::Closed), ListenerAction::ShutdownAndStop));
    assert!(matches!(listener_step(&distributor, ListenerEvent::Stopped), ListenerAction::Stop));
}

use std::sync::Arc;

#[test]
fn distributor_keeps_one_channel_per_topic() {
    let mut distributor = ChannelDistributor::new(2);
    let a = distributor.get_channel(5);
    let b = distributor.get_channel(5);
    assert!(Arc::ptr_eq(&a, &b));
    let other = distributor.get_channel(6);
    assert!(!Arc::ptr_eq(&a, &other));
    assert!(Arc::ptr_eq(&distributor.deliverable(5).unwrap(), &a));
    distributor.remove_topic(6);
    assert!(Arc::ptr_eq(&distributor.get_channel(5), &a));
    let fresh = distributor.get_channel(6);
    assert!(!Arc::ptr_eq(&fresh, &other));
}

#[test]
fn failed_delivery_removes_only_its_topic() {
    let mut distributor = ChannelDistributor::new(2);
    let kept = distributor.get_channel(1);
    let _ = distributor.get_channel(2);
    assert!(matches!(delivery_failed(&mut distributor, 2), ListenerAction::Skip));
    assert!(!distributor.has_topic(2));
    assert!(Arc::ptr_eq(&distributor.deliverable(1).unwrap(), &kept));
}

#[test]
fn tunnel_publishes_in_order_and_leaves_others_alone() {
    let mut center = TunnelCenter::new(4);
    let tx = center.publisher(1);
    for b in [1u8, 2, 3] {
        tx.try_send(LightPacket::from_bytes(vec![b])).unwrap();
    }
    assert!(center.subscriber(2).try_recv().is_err());
    assert!(center.tunnel_receiver().try_recv().is_err());
    let rx = center.subscriber(1);
    for b in [1u8, 2, 3] {
        assert_eq!(rx.try_recv().unwrap().to_bytes(), &vec![b]);
    }
}

#[test]
fn simple_channel_clone_receives_what_the_original_sends() {
    let channel: SimpleChannel<u32> = SimpleChannel::new(3);
    let copy = channel.clone();
    for n in [10u32, 20, 30] {
        channel.sender().try_send(n).unwrap();
    }
    assert!(copy.sender().try_send(40).is_err());
    for n in [10u32, 20, 30] {
        assert_eq!(copy.receiver().try_recv().unwrap(), n);
    }
}
