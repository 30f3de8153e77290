use rjr_relay::error::{FrameFault, ReceiverError};
use rjr_relay::packet::{Packet, PacketReadWriteExt, PacketType};
use rjr_relay::worker_pool::receiver::{
    check_header, decode_header, encode_header, receiver, receiver_fn, FrameHeader,
    ReceiverAction, ReceiverEvent,
};
use rjr_relay::worker_pool::sender::{into_wire_bytes, sender, SenderAction, SenderEvent};
use rjr_relay::command::ServerCommand;
use rjr_relay::worker_pool::receiver::error::{Error, ErrorKind};

fn header(length: u32, code: u32) -> [u8; 8] {
    let l = length.to_be_bytes();
    let c = code.to_be_bytes();
    [l[0], l[1], l[2], l[3], c[0], c[1], c[2], c[3]]
}

#[test]
fn a_header_with_a_known_type_and_a_length_in_range_is_accepted() {
    assert_eq!(
        check_header(&header(1, 141)),
        Ok(FrameHeader { packet_length: 1, packet_type: PacketType::CHAT })
    );
    assert_eq!(
        check_header(&header(51199, 160)),
        Ok(FrameHeader {
            packet_length: 51199,
            packet_type: PacketType::PREREGISTER_INFO_RECEIVE
        })
    );
}

#[test]
fn a_length_of_zero_is_rejected() {
    assert_eq!(check_header(&header(0, 141)), Err(FrameFault::BelowZero));
}

#[test]
fn a_negative_length_is_rejected() {
    assert_eq!(check_header(&header((-1i32) as u32, 141)), Err(FrameFault::BelowZero));
    assert_eq!(check_header(&header(i32::MIN as u32, 141)), Err(FrameFault::BelowZero));
}

#[test]
fn a_length_at_the_cap_is_rejected() {
    assert_eq!(check_header(&header(51200, 141)), Err(FrameFault::TooLong));
    assert_eq!(check_header(&header(i32::MAX as u32, 141)), Err(FrameFault::TooLong));
}

#[test]
fn an_unknown_type_is_rejected() {
    assert_eq!(check_header(&header(4, 1)), Err(FrameFault::TooLong));
    assert_eq!(check_header(&header(4, u32::MAX)), Err(FrameFault::TooLong));
    assert_eq!(check_header(&header(0, 1)), Err(FrameFault::BelowZero));
}

#[test]
fn decode_header_names_the_reason() {
    match decode_header(&header(0, 141)) {
        Err(ReceiverError::InvalidInput(text)) => assert_eq!(text, "packet length below zero"),
        other => panic!("{:?}", other),
    }
    match decode_header(&header(60000, 141)) {
        Err(ReceiverError::InvalidInput(text)) => assert_eq!(text, "packet length too long"),
        other => panic!("{:?}", other),
    }
    assert_eq!(
        decode_header(&header(7, 108)).unwrap(),
        FrameHeader { packet_length: 7, packet_type: PacketType::HEART_BEAT }
    );
}

#[test]
fn receiver_error_message() {
    let error = FrameFault::Incomplete.into_error();
    assert_eq!(error.message(), "unexpected end of frame");
}

#[test]
fn decode_then_encode_gives_the_bytes_back() {
    let stream: Vec<u8> = vec![0, 0, 0, 3, 0, 0, 0, 141, 10, 20, 30];
    let (packet, taken) = receiver_fn(&stream).unwrap();
    assert_eq!(taken, 11);
    assert_eq!(packet.packet_type(), PacketType::CHAT);
    assert_eq!(packet.packet_length(), 3);
    assert_eq!(packet.buffer(), &[10, 20, 30][..]);
    assert_eq!(encode_header(packet.packet_type(), packet.buffer()), stream);
}

#[test]
fn encode_then_decode_gives_the_packet_back() {
    let payload: Vec<u8> = (0..200u32).map(|i| (i % 251) as u8).collect();
    let mut stream = encode_header(PacketType::TICK, &payload);
    assert_eq!(&stream[..8], &[0, 0, 0, 200, 0, 0, 0, 10][..]);
    stream.extend_from_slice(&[1, 2, 3]);
    let (packet, taken) = receiver_fn(&stream).unwrap();
    assert_eq!(taken, 208);
    assert_eq!(packet.packet_type(), PacketType::TICK);
    assert_eq!(packet.into_inner(), payload);
}

#[test]
fn the_longest_frame_round_trips() {
    let payload: Vec<u8> = vec![7u8; 51199];
    let stream = encode_header(PacketType::SYNC, &payload);
    let (packet, taken) = receiver_fn(&stream).unwrap();
    assert_eq!(taken, 51207);
    assert_eq!(encode_header(packet.packet_type(), packet.buffer()), stream);
    let too_long = encode_header(PacketType::SYNC, &vec![7u8; 51200]);
    assert!(receiver_fn(&too_long).is_err());
}

#[test]
fn a_frame_that_is_cut_short_is_not_decoded() {
    assert!(receiver_fn(&[0, 0, 0, 3, 0, 0, 0]).is_err());
    match receiver_fn(&[0, 0, 0, 3, 0, 0, 0, 141, 10, 20]) {
        Err(ReceiverError::InvalidInput(text)) => assert_eq!(text, "unexpected end of frame"),
        other => panic!("{:?}", other),
    }
    assert!(receiver_fn(&[]).is_err());
}

#[test]
fn a_bad_frame_is_fatal_to_the_connection() {
    let bad = receiver_fn(&[0, 0, 0, 0, 0, 0, 0, 141]).map(|(packet, _)| packet);
    assert!(matches!(receiver(ReceiverEvent::Frame(bad)), ReceiverAction::DisconnectAndStop));
    let negative = receiver_fn(&[0xff, 0xff, 0xff, 0xff, 0, 0, 0, 141]).map(|(packet, _)| packet);
    assert!(matches!(
        receiver(ReceiverEvent::Frame(negative)),
        ReceiverAction::DisconnectAndStop
    ));
}

#[test]
fn the_receive_loop_hands_frames_on_and_stops_on_command() {
    let packet = Packet::decode_from_buffer(1, PacketType::TICK, vec![1]);
    match receiver(ReceiverEvent::Frame(Ok(packet.clone()))) {
        ReceiverAction::Forward(forwarded) => assert_eq!(forwarded, packet),
        other => panic!("{:?}", other),
    }
    assert!(matches!(
        receiver(ReceiverEvent::Command(Some(ServerCommand::Disconnect))),
        ReceiverAction::Stop
    ));
    assert!(matches!(
        receiver(ReceiverEvent::Command(None)),
        ReceiverAction::DisconnectAndStop
    ));
}

#[test]
fn the_send_loop_frames_each_packet() {
    let mut packet = Packet::new(PacketType::CHAT);
    packet.write_string("yo");
    match sender(SenderEvent::Packet(Some(packet.clone()))) {
        SenderAction::Write(bytes) => {
            assert_eq!(bytes, vec![0, 0, 0, 4, 0, 0, 0, 141, 0, 2, b'y', b'o'])
        }
        other => panic!("{:?}", other),
    }
    assert_eq!(into_wire_bytes(packet), vec![0, 0, 0, 4, 0, 0, 0, 141, 0, 2, b'y', b'o']);
    assert!(matches!(sender(SenderEvent::Packet(None)), SenderAction::DisconnectAndStop));
    assert!(matches!(sender(SenderEvent::WriteFailed), SenderAction::DisconnectAndStop));
    assert!(matches!(
        sender(SenderEvent::Command(Some(ServerCommand::Disconnect))),
        SenderAction::Stop
    ));
    assert!(matches!(sender(SenderEvent::Command(None)), SenderAction::DisconnectAndStop));
}

#[test]
fn what_is_sent_is_what_is_received() {
    let mut packet = Packet::new(PacketType::REGISTER_PLAYER);
    packet.write_u32(77);
    packet.write_string("name");
    let bytes = into_wire_bytes(packet);
    let (received, taken) = receiver_fn(&bytes).unwrap();
    assert_eq!(taken, bytes.len());
    assert_eq!(received.packet_type(), PacketType::REGISTER_PLAYER);
    assert_eq!(received.buffer(), &bytes[8..]);
}

#[test]
fn receive_error_keeps_kind_and_text() {
    let error = Error::new(ErrorKind::InvalidInput, "bad".to_string());
    assert_eq!(*error.kind(), ErrorKind::InvalidInput);
    assert_eq!(error.err(), "bad");
}
