use rjr_relay::connection::permission_status::PermissionStatus;
use rjr_relay::connection::Outcome;
use rjr_relay::connection_manager::{Binding, By, ConnectionManager};
use rjr_relay::event::{event_of, EventType};
use rjr_relay::packet::common_packet::CommonPacket;
use rjr_relay::packet::{Packet, PacketReadWriteExt, PacketType};
use rjr_relay::relay_manager::relay::RoomRef;
use rjr_relay::relay_manager::RelayManager;
use rjr_relay::worker_pool::receiver::receiver_fn;
use rjr_relay::worker_pool::sender::into_wire_bytes;
use rjr_relay::worker_pool::Acquired;

const UUID: &str = "123e4567-e89b-42d3-a456-426614174000";

fn on_the_wire(packet: Packet) -> Packet {
    let bytes = into_wire_bytes(packet);
    let (received, taken) = receiver_fn(&bytes).unwrap();
    assert_eq!(taken, bytes.len());
    received
}

fn contains(haystack: &[u8], needle: &[u8]) -> bool {
    haystack.windows(needle.len()).any(|window| window == needle)
}

fn manager() -> ConnectionManager {
    ConnectionManager::new(RelayManager::new(7))
}

fn accept(manager: &mut ConnectionManager, port: u32) -> u64 {
    manager
        .new_connection(format!("10.0.0.{}:{}", port, 5000 + port), format!("10.0.0.{}", port))
        .unwrap()
        .con
}

fn register(manager: &mut ConnectionManager, con: u64, name: &str) -> Outcome {
    let packet = on_the_wire(CommonPacket::get_preregister_info(name, "com.game", 3, 172, ""));
    manager.process_with(con, packet, UUID, None).unwrap()
}

fn command(manager: &mut ConnectionManager, con: u64, text: &str, picked: Option<u32>) -> Outcome {
    let packet = on_the_wire(CommonPacket::get_relay_hall_command(text));
    manager.process_with(con, packet, UUID, picked).unwrap()
}

fn permission(manager: &ConnectionManager, con: u64) -> PermissionStatus {
    manager.connections().get(con).unwrap().player_info.permission_status
}

#[test]
fn a_connection_is_bound_to_workers() {
    let mut manager = manager();
    let first = manager.new_connection("1.1.1.1:1".to_string(), "1.1.1.1".to_string());
    assert_eq!(
        first,
        Some(Binding {
            con: 0,
            receiver: Acquired { worker: 0, spawned: false },
            sender: Acquired { worker: 0, spawned: false },
        })
    );
    let second = manager.new_connection("1.1.1.2:1".to_string(), "1.1.1.2".to_string());
    assert_eq!(
        second,
        Some(Binding {
            con: 1,
            receiver: Acquired { worker: 1, spawned: true },
            sender: Acquired { worker: 1, spawned: true },
        })
    );
    assert_eq!(manager.connections().len(), 2);
    let con = manager.connections().get(1).unwrap();
    assert_eq!(con.connection_info.addr, "1.1.1.2:1");
    assert_eq!(con.connection_info.ip, "1.1.1.2");
    assert_eq!(con.player_info.permission_status, PermissionStatus::InitialConnection);
    assert!(!con.is_disconnected);
    assert!(manager.disconnect(0));
    let third = manager.new_connection("1.1.1.3:1".to_string(), "1.1.1.3".to_string());
    assert_eq!(
        third,
        Some(Binding {
            con: 2,
            receiver: Acquired { worker: 0, spawned: false },
            sender: Acquired { worker: 0, spawned: false },
        })
    );
}

#[test]
fn registering_certifies_and_greets_by_name() {
    let mut manager = manager();
    let bob = accept(&mut manager, 1);
    let outcome = register(&mut manager, bob, "Bob");
    assert!(!outcome.disconnect);
    assert_eq!(outcome.deliveries.len(), 2);
    assert_eq!(outcome.deliveries[0].con, bob);
    assert_eq!(outcome.deliveries[0].packet.packet_type(), PacketType::RELAY_VERSION_INFO);
    assert_eq!(
        &outcome.deliveries[0].packet.buffer()[8..],
        &[0, 0, 0, 0, 151, 0, 0, 0, 1, 0][..]
    );
    assert_eq!(outcome.deliveries[1].con, bob);
    assert_eq!(outcome.deliveries[1].packet.packet_type(), PacketType::RELAY_117);
    let greeting = &outcome.deliveries[1].packet.buffer()[8..];
    assert_eq!(&greeting[..5], &[1, 0, 0, 0, 5][..]);
    assert!(contains(greeting, b"[Relay CN]Bob "));
    assert!(contains(greeting, "欢迎使用RJR".as_bytes()));
    assert_eq!(permission(&manager, bob), PermissionStatus::Certified);
    let con = manager.connections().get(bob).unwrap();
    assert_eq!(con.player_info.player_name, "Bob");
    assert_eq!(con.connection_info.client_version, 172);
    assert!(con.connection_info.is_beta_version);
    assert!(con.cache_packet.is_some());
}

#[test]
fn a_host_opens_a_room_and_a_player_joins_it() {
    let mut manager = manager();
    let bob = accept(&mut manager, 1);
    register(&mut manager, bob, "Bob");

    let opened = command(&mut manager, bob, "new", Some(4821));
    assert!(!opened.disconnect);
    assert_eq!(opened.room_created, Some(RoomRef { id: 4821, generation: 0 }));
    assert_eq!(opened.deliveries.len(), 1);
    assert_eq!(opened.deliveries[0].con, bob);
    let become_server = &opened.deliveries[0].packet;
    assert_eq!(become_server.packet_type(), PacketType::RELAY_BECOME_SERVER);
    let mut expected: Vec<u8> = vec![2, 1, 1, 1, 0, 8];
    expected.extend_from_slice(b"RJR Team");
    expected.extend_from_slice(&[0, 0, 1, 0, 30]);
    expected.extend_from_slice(b"{RW-RJR Relay}.Room ID : S4821");
    expected.extend_from_slice(&[0, 1, 0, 36]);
    expected.extend_from_slice(UUID.as_bytes());
    assert_eq!(&become_server.buffer()[8..], &expected[..]);
    assert_eq!(permission(&manager, bob), PermissionStatus::HostPermission);
    assert_eq!(manager.connections().get(bob).unwrap().room_index, Some(1));
    match event_of(&opened).unwrap().event_type {
        EventType::NewRoomAndHostOk(room) => assert_eq!(room.id, 4821),
        other => panic!("{:?}", other),
    }
    let room = manager.relay_manager().room(4821).unwrap();
    assert_eq!(room.admin(), bob);
    assert_eq!(room.shared_data().custom.version, 172);
    assert!(!room.shared_data().custom.mods);

    let alice = accept(&mut manager, 2);
    let prereg = on_the_wire(CommonPacket::get_preregister_info("Alice", "com.game", 3, 172, ""));
    let prereg_payload = prereg.buffer().to_vec();
    manager.process_with(alice, prereg, UUID, None).unwrap();
    let joined = command(&mut manager, alice, "S4821", None);
    assert!(!joined.disconnect);
    assert_eq!(joined.room_created, None);
    assert_eq!(joined.deliveries.len(), 3);

    let notice = &joined.deliveries[0];
    assert_eq!(notice.con, bob);
    assert_eq!(notice.packet.packet_type(), PacketType::FORWARD_CLIENT_ADD);
    let mut expected: Vec<u8> = vec![1, 0, 0, 0, 2, 0, 36];
    expected.extend_from_slice(UUID.as_bytes());
    expected.extend_from_slice(&[0, 1, 0, 8]);
    expected.extend_from_slice(b"10.0.0.2");
    assert_eq!(&notice.packet.buffer()[8..], &expected[..]);

    let forwarded = &joined.deliveries[1];
    assert_eq!(forwarded.con, bob);
    assert_eq!(forwarded.packet.packet_type(), PacketType::PACKET_FORWARD_CLIENT_FROM);
    let length = prereg_payload.len() as u32;
    let mut expected: Vec<u8> = vec![0, 0, 0, 2];
    expected.extend_from_slice(&(length + 8).to_be_bytes());
    expected.extend_from_slice(&length.to_be_bytes());
    expected.extend_from_slice(&160u32.to_be_bytes());
    expected.extend_from_slice(&prereg_payload);
    assert_eq!(&forwarded.packet.buffer()[8..], &expected[..]);

    let welcome = &joined.deliveries[2];
    assert_eq!(welcome.con, alice);
    assert_eq!(welcome.packet.packet_type(), PacketType::CHAT);
    let mut expected: Vec<u8> = vec![0, 6];
    expected.extend_from_slice("欢迎".as_bytes());
    expected.extend_from_slice(&[3, 1, 0, 11]);
    expected.extend_from_slice(b"RJR Server:");
    expected.extend_from_slice(&[0, 0, 0, 5, 0, 0, 0, 5]);
    assert_eq!(&welcome.packet.buffer()[8..], &expected[..]);

    assert_eq!(permission(&manager, alice), PermissionStatus::PlayerPermission);
    assert_eq!(manager.connections().get(alice).unwrap().room_index, Some(2));
    assert_eq!(manager.relay_manager().room(4821).unwrap().player(2), Some(alice));

    let carol = accept(&mut manager, 3);
    register(&mut manager, carol, "Carol");
    command(&mut manager, carol, "S4821", None);
    assert_eq!(manager.connections().get(carol).unwrap().room_index, Some(3));
}

#[test]
fn the_relay_draws_its_own_room_number_and_id() {
    let mut manager = manager();
    let bob = accept(&mut manager, 1);
    let packet = on_the_wire(CommonPacket::get_preregister_info("Bob", "com.game", 3, 172, ""));
    manager.process(bob, packet).unwrap();
    let packet = on_the_wire(CommonPacket::get_relay_hall_command("mods"));
    let opened = manager.process(bob, packet).unwrap();
    let room = opened.room_created.unwrap();
    assert!((100..9999).contains(&room.id));
    assert!(manager.relay_manager().room(room.id).unwrap().shared_data().custom.mods);
    let body = &opened.deliveries[0].packet.buffer()[8..];
    assert!(contains(body, format!("Room ID : S{}", room.id).as_bytes()));
    let uuid = &body[body.len() - 36..];
    for (i, c) in uuid.iter().enumerate() {
        if i == 8 || i == 13 || i == 18 || i == 23 {
            assert_eq!(*c, b'-');
        } else {
            assert!(c.is_ascii_hexdigit() && !c.is_ascii_uppercase());
        }
    }
    assert_eq!(&body[body.len() - 39..body.len() - 36], &[1, 0, 36][..]);

    let alice = accept(&mut manager, 2);
    let packet = on_the_wire(CommonPacket::get_preregister_info("Alice", "com.game", 3, 172, ""));
    manager.process(alice, packet).unwrap();
    let packet = on_the_wire(CommonPacket::get_relay_hall_command(&format!("S{}", room.id)));
    let joined = manager.process(alice, packet).unwrap();
    assert_eq!(joined.deliveries.len(), 3);
    assert_eq!(manager.connections().get(alice).unwrap().room_index, Some(2));
}

#[test]
fn the_hall_answers_commands_it_cannot_follow() {
    let mut manager = manager();
    let bob = accept(&mut manager, 1);
    register(&mut manager, bob, "Bob");

    let empty = command(&mut manager, bob, "", Some(300));
    assert_eq!(empty.deliveries.len(), 1);
    assert_eq!(empty.deliveries[0].packet.packet_type(), PacketType::RELAY_117);
    assert!(contains(empty.deliveries[0].packet.buffer(), "你还什么都没输呢".as_bytes()));

    let unknown = command(&mut manager, bob, "hello", Some(300));
    assert_eq!(unknown.deliveries.len(), 1);
    let mut expected: Vec<u8> = vec![1, 0, 0, 0, 5, 0, 6];
    expected.extend_from_slice("不懂".as_bytes());
    assert_eq!(&unknown.deliveries[0].packet.buffer()[8..], &expected[..]);

    let missing = command(&mut manager, bob, "S1234", Some(300));
    assert_eq!(missing.deliveries.len(), 1);
    assert!(contains(
        missing.deliveries[0].packet.buffer(),
        "S1234此房间不存在".as_bytes()
    ));
    assert_eq!(permission(&manager, bob), PermissionStatus::Certified);
    assert_eq!(manager.relay_manager().room_count(), 0);
}

#[test]
fn a_taken_room_number_opens_nothing() {
    let mut manager = manager();
    let bob = accept(&mut manager, 1);
    register(&mut manager, bob, "Bob");
    command(&mut manager, bob, "new", Some(300));
    let eve = accept(&mut manager, 2);
    register(&mut manager, eve, "Eve");
    let refused = command(&mut manager, eve, "news", Some(300));
    assert!(refused.deliveries.is_empty());
    assert_eq!(refused.room_created, None);
    assert_eq!(permission(&manager, eve), PermissionStatus::Certified);
    let none = command(&mut manager, eve, "new", None);
    assert!(none.deliveries.is_empty());
    assert_eq!(manager.relay_manager().room(300).unwrap().admin(), bob);
}

#[test]
fn an_unregistered_connection_gets_nothing_done() {
    let mut manager = manager();
    let bob = accept(&mut manager, 1);
    for packet in [
        CommonPacket::get_relay_hall_command("new"),
        Packet::decode_from_buffer(1, PacketType::HEART_BEAT, vec![0; 9]),
        Packet::decode_from_buffer(1, PacketType::CHAT_RECEIVE, vec![1]),
        Packet::decode_from_buffer(1, PacketType::PACKET_FORWARD_CLIENT_TO, vec![0; 12]),
        Packet::decode_from_buffer(1, PacketType::REGISTER_PLAYER, vec![1]),
    ] {
        let outcome = manager.process_with(bob, packet, UUID, Some(300)).unwrap();
        assert!(outcome.deliveries.is_empty());
        assert!(!outcome.disconnect);
        assert_eq!(outcome.room_created, None);
        assert_eq!(permission(&manager, bob), PermissionStatus::InitialConnection);
    }
    assert_eq!(manager.relay_manager().room_count(), 0);
    let gone = manager
        .process_with(
            bob,
            Packet::decode_from_buffer(1, PacketType::DISCONNECT, vec![1]),
            UUID,
            None,
        )
        .unwrap();
    assert!(gone.disconnect);
    assert!(gone.deliveries.is_empty());
    assert!(manager.connections().get(bob).is_none());
    assert!(manager
        .process_with(bob, CommonPacket::get_relay_hall_command("new"), UUID, None)
        .is_none());
}

#[test]
fn a_preregistration_that_cannot_be_read_ends_the_connection() {
    let mut manager = manager();
    let bob = accept(&mut manager, 1);
    let packet = Packet::decode_from_buffer(3, PacketType::PREREGISTER_INFO_RECEIVE, vec![0, 9, 1]);
    let outcome = manager.process_with(bob, packet, UUID, None).unwrap();
    assert!(outcome.disconnect);
    assert_eq!(outcome.deliveries.len(), 1);
    assert_eq!(outcome.deliveries[0].packet.packet_type(), PacketType::RELAY_VERSION_INFO);
    assert!(manager.connections().get(bob).is_none());
}

#[test]
fn a_preregistration_with_a_query_string_ends_the_connection() {
    let mut manager = manager();
    let bob = accept(&mut manager, 1);
    let packet = on_the_wire(CommonPacket::get_preregister_info("Bob", "com.game", 3, 172, "q"));
    let outcome = manager.process_with(bob, packet, UUID, None).unwrap();
    assert!(outcome.disconnect);
    assert!(manager.connections().get(bob).is_none());
}

#[test]
fn a_client_of_an_older_protocol_cannot_open_or_join() {
    let mut manager = manager();
    let old = accept(&mut manager, 1);
    let packet = on_the_wire(CommonPacket::get_preregister_info("Old", "com.game", 3, 151, ""));
    let registered = manager.process_with(old, packet, UUID, None).unwrap();
    assert!(!registered.disconnect);
    assert!(!manager.connections().get(old).unwrap().connection_info.is_beta_version);
    let refused = command(&mut manager, old, "new", Some(300));
    assert!(refused.disconnect);
    assert!(refused.deliveries.is_empty());
    assert_eq!(manager.relay_manager().room_count(), 0);
    assert!(manager.connections().get(old).is_none());
}

fn room_of_three(manager: &mut ConnectionManager) -> (u64, u64, u64) {
    let bob = accept(manager, 1);
    register(manager, bob, "Bob");
    command(manager, bob, "new", Some(4821));
    let alice = accept(manager, 2);
    register(manager, alice, "Alice");
    command(manager, alice, "S4821", None);
    let carol = accept(manager, 3);
    register(manager, carol, "Carol");
    command(manager, carol, "S4821", None);
    (bob, alice, carol)
}

fn forward_to(index: u32, inner_type: u32, payload: &[u8]) -> Packet {
    let mut envelope = Packet::new(PacketType::PACKET_FORWARD_CLIENT_TO);
    envelope.write_u32(index);
    envelope.write_u32(inner_type);
    envelope.write_u32(payload.len() as u32);
    envelope.write_all(payload);
    on_the_wire(envelope)
}

#[test]
fn a_host_forwards_to_a_player() {
    let mut manager = manager();
    let (bob, alice, carol) = room_of_three(&mut manager);
    let outcome =
        manager.process_with(bob, forward_to(3, 141, &[9, 8, 7]), UUID, None).unwrap();
    assert_eq!(outcome.deliveries.len(), 1);
    assert_eq!(outcome.deliveries[0].con, carol);
    assert_eq!(outcome.deliveries[0].packet.packet_type(), PacketType::CHAT);
    assert_eq!(
        into_wire_bytes(outcome.deliveries[0].packet.clone()),
        vec![0, 0, 0, 3, 0, 0, 0, 141, 9, 8, 7]
    );
    let outcome = manager.process_with(bob, forward_to(2, 10, &[1]), UUID, None).unwrap();
    assert_eq!(outcome.deliveries[0].con, alice);
    assert_eq!(outcome.deliveries[0].packet.packet_type(), PacketType::TICK);
    let unknown = manager.process_with(bob, forward_to(2, 9999, &[1]), UUID, None).unwrap();
    assert_eq!(unknown.deliveries[0].packet.packet_type(), PacketType::NOT_RESOLVED);
}

#[test]
fn a_packet_for_a_player_who_is_gone_is_dropped() {
    let mut manager = manager();
    let (bob, alice, _carol) = room_of_three(&mut manager);
    assert!(manager.disconnect(alice));
    let outcome =
        manager.process_with(bob, forward_to(2, 141, &[9, 8, 7]), UUID, None).unwrap();
    assert!(outcome.deliveries.is_empty());
    assert!(!outcome.disconnect);
    assert_eq!(outcome.room_created, None);
    let never = manager.process_with(bob, forward_to(9, 141, &[1]), UUID, None).unwrap();
    assert!(never.deliveries.is_empty());
    assert!(!never.disconnect);
    assert_eq!(permission(&manager, bob), PermissionStatus::HostPermission);
    assert!(manager.relay_manager().get_relay("4821").is_some());
    assert_eq!(manager.relay_manager().room(4821).unwrap().player_count(), 1);
}

#[test]
fn a_disconnect_signal_inside_an_envelope_is_swallowed() {
    let mut manager = manager();
    let (bob, _alice, _carol) = room_of_three(&mut manager);
    let outcome = manager.process_with(bob, forward_to(2, 111, &[1]), UUID, None).unwrap();
    assert!(outcome.deliveries.is_empty());
    assert!(!outcome.disconnect);
}

#[test]
fn an_envelope_that_cannot_be_read_ends_the_host() {
    let mut manager = manager();
    let (bob, _alice, _carol) = room_of_three(&mut manager);
    let short = Packet::decode_from_buffer(6, PacketType::PACKET_FORWARD_CLIENT_TO, vec![0; 6]);
    let outcome = manager.process_with(bob, short, UUID, None).unwrap();
    assert!(outcome.disconnect);
    assert!(manager.connections().get(bob).is_none());
    assert!(manager.relay_manager().get_relay("4821").is_some());
}

#[test]
fn a_player_forwards_what_it_may() {
    let mut manager = manager();
    let (bob, alice, carol) = room_of_three(&mut manager);
    let chat = Packet::decode_from_buffer(3, PacketType::CHAT_RECEIVE, vec![4, 5, 6]);
    let outcome = manager.process_with(carol, chat, UUID, None).unwrap();
    assert_eq!(outcome.deliveries.len(), 1);
    assert_eq!(outcome.deliveries[0].con, bob);
    assert_eq!(
        &outcome.deliveries[0].packet.buffer()[8..],
        &[0, 0, 0, 3, 0, 0, 0, 11, 0, 0, 0, 3, 0, 0, 0, 140, 4, 5, 6][..]
    );
    for allowed in [
        PacketType::REGISTER_PLAYER,
        PacketType::ACCEPT_START_GAME,
        PacketType::GAMECOMMAND_RECEIVE,
        PacketType::SYNC_CHECK,
    ] {
        let packet = Packet::decode_from_buffer(1, allowed, vec![1]);
        let outcome = manager.process_with(alice, packet, UUID, None).unwrap();
        assert_eq!(outcome.deliveries.len(), 1);
        assert_eq!(outcome.deliveries[0].con, bob);
    }
}

#[test]
fn a_player_cannot_speak_with_the_voice_of_a_host() {
    let mut manager = manager();
    let (_bob, alice, _carol) = room_of_three(&mut manager);
    for forbidden in [
        PacketType::RELAY_117,
        PacketType::RELAY_118_117_RETURN,
        PacketType::RELAY_BECOME_SERVER,
        PacketType::FORWARD_CLIENT_ADD,
        PacketType::FORWARD_CLIENT_REMOVE,
        PacketType::PACKET_FORWARD_CLIENT_FROM,
        PacketType::PACKET_FORWARD_CLIENT_TO,
        PacketType::TICK,
        PacketType::SYNC,
        PacketType::SERVER_INFO,
        PacketType::HEART_BEAT,
        PacketType::START_GAME,
        PacketType::KICK,
        PacketType::CHAT,
        PacketType::PACKET_RECONNECT_TO,
        PacketType::NOT_RESOLVED,
    ] {
        let packet = Packet::decode_from_buffer(12, forbidden, vec![0; 12]);
        let outcome = manager.process_with(alice, packet, UUID, Some(300)).unwrap();
        assert!(outcome.deliveries.is_empty());
        assert!(!outcome.disconnect);
        assert_eq!(permission(&manager, alice), PermissionStatus::PlayerPermission);
    }
}

#[test]
fn a_player_who_disconnects_tells_the_host_and_leaves() {
    let mut manager = manager();
    let (bob, alice, _carol) = room_of_three(&mut manager);
    let packet = Packet::decode_from_buffer(1, PacketType::DISCONNECT, vec![1]);
    let outcome = manager.process_with(alice, packet, UUID, None).unwrap();
    assert!(outcome.disconnect);
    assert_eq!(outcome.deliveries.len(), 1);
    assert_eq!(outcome.deliveries[0].con, bob);
    assert_eq!(
        &outcome.deliveries[0].packet.buffer()[8..],
        &[0, 0, 0, 2, 0, 0, 0, 9, 0, 0, 0, 1, 0, 0, 0, 111, 1][..]
    );
    assert!(manager.connections().get(alice).is_none());
    assert_eq!(manager.relay_manager().room(4821).unwrap().player(2), None);
    assert_eq!(manager.relay_manager().room(4821).unwrap().player_count(), 1);
}

#[test]
fn a_room_is_torn_down_when_its_last_player_leaves() {
    let mut manager = manager();
    let (bob, alice, carol) = room_of_three(&mut manager);
    assert!(manager.disconnect(alice));
    assert!(manager.relay_manager().get_relay("4821").is_some());
    assert!(manager.disconnect(carol));
    assert!(manager.relay_manager().get_relay("4821").is_none());
    assert_eq!(manager.relay_manager().room_count(), 0);
    let outcome = manager.process_with(bob, forward_to(2, 141, &[1]), UUID, None).unwrap();
    assert!(outcome.deliveries.is_empty());
    assert!(!outcome.disconnect);
    let dave = accept(&mut manager, 4);
    register(&mut manager, dave, "Dave");
    let missing = command(&mut manager, dave, "S4821", None);
    assert_eq!(missing.deliveries.len(), 1);
    assert!(contains(missing.deliveries[0].packet.buffer(), "此房间不存在".as_bytes()));
}

#[test]
fn a_packet_for_a_host_who_is_gone_is_dropped() {
    let mut manager = manager();
    let (bob, alice, _carol) = room_of_three(&mut manager);
    assert!(manager.disconnect(bob));
    assert!(manager.relay_manager().get_relay("4821").is_some());
    let chat = Packet::decode_from_buffer(3, PacketType::CHAT_RECEIVE, vec![4, 5, 6]);
    let outcome = manager.process_with(alice, chat, UUID, None).unwrap();
    assert!(outcome.deliveries.is_empty());
    assert!(!outcome.disconnect);
    assert_eq!(permission(&manager, alice), PermissionStatus::PlayerPermission);
}

#[test]
fn disconnecting_happens_once() {
    let mut manager = manager();
    let (_bob, alice, _carol) = room_of_three(&mut manager);
    assert!(manager.disconnect(alice));
    assert!(!manager.disconnect(alice));
    assert!(!manager.disconnect(99));
    assert_eq!(manager.connections().len(), 2);
    assert_eq!(manager.relay_manager().room(4821).unwrap().player_count(), 1);
}

#[test]
fn a_host_answers_heartbeats() {
    let mut manager = manager();
    let (bob, _alice, _carol) = room_of_three(&mut manager);
    let beat = Packet::decode_from_buffer(
        9,
        PacketType::HEART_BEAT,
        vec![1, 2, 3, 4, 5, 6, 7, 8, 0],
    );
    let outcome = manager.process_with(bob, beat, UUID, None).unwrap();
    assert_eq!(outcome.deliveries.len(), 1);
    assert_eq!(outcome.deliveries[0].con, bob);
    assert_eq!(outcome.deliveries[0].packet.packet_type(), PacketType::HEART_BEAT_RESPONSE);
    assert_eq!(
        &outcome.deliveries[0].packet.buffer()[8..],
        &[1, 2, 3, 4, 5, 6, 7, 8, 1, 60][..]
    );
    let short = Packet::decode_from_buffer(3, PacketType::HEART_BEAT, vec![1, 2, 3]);
    let outcome = manager.process_with(bob, short, UUID, None).unwrap();
    assert!(outcome.disconnect);
}

#[test]
fn certified_connections_ignore_heartbeats() {
    let mut manager = manager();
    let bob = accept(&mut manager, 1);
    register(&mut manager, bob, "Bob");
    let beat = Packet::decode_from_buffer(9, PacketType::HEART_BEAT, vec![0; 9]);
    let outcome = manager.process_with(bob, beat, UUID, None).unwrap();
    assert!(outcome.deliveries.is_empty());
    assert!(!outcome.disconnect);
    let gone = Packet::decode_from_buffer(1, PacketType::DISCONNECT, vec![0]);
    assert!(manager.process_with(bob, gone, UUID, None).unwrap().disconnect);
}

#[test]
fn packets_reach_connections_by_address_or_name() {
    let mut manager = manager();
    let (bob, alice, _carol) = room_of_three(&mut manager);
    let packet = Packet::decode_from_buffer(1, PacketType::CHAT, vec![1]);
    let by_addr =
        manager.send_packet_to_player_by(By::Addr("10.0.0.2:5002".to_string()), packet.clone());
    assert_eq!(by_addr.len(), 1);
    assert_eq!(by_addr[0].con, alice);
    assert_eq!(by_addr[0].packet, packet);
    let by_name = manager.send_packet_to_player_by(By::Name("Bob".to_string()), packet.clone());
    assert_eq!(by_name.len(), 1);
    assert_eq!(by_name[0].con, bob);
    let nobody = manager.send_packet_to_player_by(By::Name("Zed".to_string()), packet);
    assert!(nobody.is_empty());
}

#[test]
fn processor_workers_are_handed_out_and_taken_back() {
    let mut manager = manager();
    let first = manager.get_free_processor().unwrap();
    assert_eq!(first, Acquired { worker: 9, spawned: false });
    manager.push_free_processor(first.worker);
    assert_eq!(manager.get_free_processor(), Some(Acquired { worker: 9, spawned: false }));
    for expected in (0..9).rev() {
        assert_eq!(
            manager.get_free_processor(),
            Some(Acquired { worker: expected, spawned: false })
        );
    }
    assert_eq!(manager.get_free_processor(), Some(Acquired { worker: 10, spawned: true }));
}
