use kubeport::protocol::stream::{
    frame_header, frame_packet, payload_length, split_frame, split_frames, StreamError, HEADER_LEN,
};

#[test]
fn frame_is_little_endian_length_then_packet() {
    let framed = frame_packet(&[1, 2, 3]).unwrap();
    assert_eq!(framed, vec![3, 0, 0, 0, 1, 2, 3]);
}

#[test]
fn header_of_a_large_length() {
    assert_eq!(frame_header(0x0102_0304).unwrap(), vec![4, 3, 2, 1]);
    assert_eq!(frame_header(0).unwrap(), vec![0, 0, 0, 0]);
    assert_eq!(frame_header(u32::MAX as usize).unwrap(), vec![255, 255, 255, 255]);
}

#[test]
fn header_refuses_a_length_beyond_u32() {
    if usize::BITS > 32 {
        let too_long = (u32::MAX as u64 + 1) as usize;
        assert_eq!(frame_header(too_long), Err(StreamError::PacketTooLarge));
    }
}

#[test]
fn payload_length_reads_little_endian() {
    assert_eq!(payload_length(&[4, 3, 2, 1]), 0x0102_0304);
    assert_eq!(payload_length(&[1, 0, 0, 0]), 1);
    assert_eq!(HEADER_LEN, 4);
}

#[test]
fn split_frame_takes_back_the_packet() {
    let mut bytes = frame_packet(b"hello").unwrap();
    bytes.extend_from_slice(&[9, 9]);
    let (payload, used) = split_frame(&bytes).unwrap();
    assert_eq!(payload, b"hello".to_vec());
    assert_eq!(used, 9);
}

#[test]
fn split_frame_waits_for_a_complete_frame() {
    assert!(split_frame(&[]).is_none());
    assert!(split_frame(&[5, 0, 0]).is_none());
    assert!(split_frame(&[5, 0, 0, 0, 1, 2]).is_none());
    let (payload, used) = split_frame(&[0, 0, 0, 0]).unwrap();
    assert!(payload.is_empty());
    assert_eq!(used, 4);
}

#[test]
fn delimited_packets_come_back_in_order() {
    let mut wire = frame_packet(&[32]).unwrap();
    wire.extend(frame_packet(&[45]).unwrap());
    let (packets, used) = split_frames(&wire);
    assert_eq!(packets.len(), 2);
    assert_eq!(*packets[0].first().unwrap(), 32);
    assert_eq!(*packets[1].first().unwrap(), 45);
    assert_eq!(used, wire.len());
}

#[test]
fn split_frames_leaves_an_incomplete_tail() {
    let mut wire = frame_packet(&[1, 2]).unwrap();
    wire.extend_from_slice(&[10, 0, 0, 0, 7]);
    let (packets, used) = split_frames(&wire);
    assert_eq!(packets, vec![vec![1, 2]]);
    assert_eq!(used, 6);
}
