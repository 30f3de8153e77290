use rjr_relay::command::ServerCommand;
use rjr_relay::connection::permission_status::PermissionStatus;
use rjr_relay::connection::player_net_api::{is_beta_version, CustomRelayData};
use rjr_relay::connection::{
    build_display_id, inspect, parse_relay_command, Connection, ConnectionAPI, Forwarded,
    RelayCommand,
};
use rjr_relay::connection_manager::connection_lib::{ConnectionLib, ConnectionLibAPI};
use rjr_relay::connection_manager::By;
use rjr_relay::event::{packet_event, EventType};
use rjr_relay::packet::common_packet::CommonPacket;
use rjr_relay::packet::{Packet, PacketType};
use rjr_relay::relay_manager::relay::RoomRef;
use rjr_relay::relay_manager::RelayManager;
use rjr_relay::server::{AllConfig, GameConfig, ServerConfig, UplistApi};
use rjr_relay::worker_pool::processor::{processor_with, route, ProcessorAction};

const UUID: &str = "123e4567-e89b-42d3-a456-426614174000";

fn received(packet: Packet) -> Packet {
    let payload = packet.buffer()[8..].to_vec();
    Packet::decode_from_buffer(payload.len() as u32, packet.packet_type(), payload)
}

fn connection(id: u64) -> Connection {
    Connection::new(id, format!("10.0.0.{}:9", id), format!("10.0.0.{}", id))
}

#[test]
fn a_new_connection_knows_nothing_of_its_client() {
    let con = connection(4);
    assert_eq!(con.id, 4);
    assert_eq!(con.player_info.permission_status, PermissionStatus::InitialConnection);
    assert_eq!(con.player_info.player_name, "");
    assert_eq!(con.connection_info.addr, "10.0.0.4:9");
    assert_eq!(con.connection_info.ip, "10.0.0.4");
    assert_eq!(con.connection_info.client_version, 0);
    assert!(!con.connection_info.is_beta_version);
    assert!(con.packet.is_none());
    assert!(con.cache_packet.is_none());
    assert_eq!(con.room_index, None);
    assert_eq!(con.shared_relay_room, None);
    assert!(!con.is_disconnected);
    assert_eq!(PermissionStatus::default(), PermissionStatus::InitialConnection);
}

#[test]
fn beta_versions_lie_between_152_and_175() {
    assert!(!is_beta_version(151));
    assert!(is_beta_version(152));
    assert!(is_beta_version(172));
    assert!(is_beta_version(175));
    assert!(!is_beta_version(176));
    assert!(!is_beta_version(0));
}

#[test]
fn a_preregistration_is_inspected() {
    let packet = received(CommonPacket::get_preregister_info("Bob", "com.x", 3, 176, "query"));
    let said = inspect(&packet).unwrap();
    assert_eq!(said.client_version, 176);
    assert!(!said.is_beta_version);
    assert_eq!(said.query_string, Some("query".to_string()));
    assert_eq!(said.player_name, Some("Bob".to_string()));

    let plain = received(CommonPacket::get_preregister_info("Bob", "com.x", 1, 160, "query"));
    let said = inspect(&plain).unwrap();
    assert_eq!(said.client_version, 160);
    assert!(said.is_beta_version);
    assert_eq!(said.query_string, None);
    assert_eq!(said.player_name, None);

    let unnamed = received(CommonPacket::get_preregister_info("Bob", "com.x", 2, 160, ""));
    let said = inspect(&unnamed).unwrap();
    assert_eq!(said.query_string, None);
    assert_eq!(said.player_name, None);
}

#[test]
fn a_preregistration_that_ends_early_says_nothing() {
    let whole = received(CommonPacket::get_preregister_info("Bob", "com.x", 3, 172, ""));
    let bytes = whole.buffer().to_vec();
    for cut in 0..bytes.len() - 3 {
        let short = Packet::decode_from_buffer(
            cut as u32 + 1,
            PacketType::PREREGISTER_INFO_RECEIVE,
            bytes[..cut].to_vec(),
        );
        assert!(inspect(&short).is_none(), "cut at {}", cut);
    }
    let empty = Packet::decode_from_buffer(0, PacketType::PREREGISTER_INFO_RECEIVE, bytes);
    assert!(inspect(&empty).is_none());
    let mut con = connection(1);
    assert!(con.relay_direct_inspection().is_none());
    con.cache_packet = Some(whole);
    assert_eq!(con.relay_direct_inspection().unwrap().client_version, 172);
}

#[test]
fn relay_commands_are_told_by_their_first_letters() {
    assert_eq!(parse_relay_command(b""), RelayCommand::Empty);
    assert_eq!(parse_relay_command(b"S"), RelayCommand::Join);
    assert_eq!(parse_relay_command(b"S123"), RelayCommand::Join);
    assert_eq!(parse_relay_command(b"new"), RelayCommand::New);
    assert_eq!(parse_relay_command(b"news"), RelayCommand::New);
    assert_eq!(parse_relay_command(b"newest"), RelayCommand::New);
    assert_eq!(parse_relay_command(b"mod"), RelayCommand::Mods);
    assert_eq!(parse_relay_command(b"mods"), RelayCommand::Mods);
    assert_eq!(parse_relay_command(b"ne"), RelayCommand::Unknown);
    assert_eq!(parse_relay_command(b"s123"), RelayCommand::Unknown);
    assert_eq!(parse_relay_command(b"New"), RelayCommand::Unknown);
    assert_eq!(parse_relay_command(b" new"), RelayCommand::Unknown);
    assert_eq!(build_display_id(4821), b"S4821".to_vec());
    assert_eq!(build_display_id(100), b"S100".to_vec());
}

#[test]
fn the_transition_table() {
    assert_eq!(route(PermissionStatus::InitialConnection, PacketType::PREREGISTER_INFO_RECEIVE), ProcessorAction::Register);
    assert_eq!(route(PermissionStatus::InitialConnection, PacketType::DISCONNECT), ProcessorAction::Disconnect);
    assert_eq!(route(PermissionStatus::InitialConnection, PacketType::RELAY_118_117_RETURN), ProcessorAction::Ignore);
    assert_eq!(route(PermissionStatus::InitialConnection, PacketType::HEART_BEAT), ProcessorAction::Ignore);
    assert_eq!(route(PermissionStatus::Certified, PacketType::RELAY_118_117_RETURN), ProcessorAction::RelayCommand);
    assert_eq!(route(PermissionStatus::Certified, PacketType::HEART_BEAT), ProcessorAction::Ignore);
    assert_eq!(route(PermissionStatus::Certified, PacketType::DISCONNECT), ProcessorAction::Disconnect);
    assert_eq!(route(PermissionStatus::Certified, PacketType::PREREGISTER_INFO_RECEIVE), ProcessorAction::Ignore);
    assert_eq!(route(PermissionStatus::PlayerPermission, PacketType::REGISTER_PLAYER), ProcessorAction::ForwardToHost);
    assert_eq!(route(PermissionStatus::PlayerPermission, PacketType::ACCEPT_START_GAME), ProcessorAction::ForwardToHost);
    assert_eq!(route(PermissionStatus::PlayerPermission, PacketType::CHAT_RECEIVE), ProcessorAction::ForwardToHost);
    assert_eq!(route(PermissionStatus::PlayerPermission, PacketType::GAMECOMMAND_RECEIVE), ProcessorAction::ForwardToHost);
    assert_eq!(route(PermissionStatus::PlayerPermission, PacketType::DISCONNECT), ProcessorAction::DisconnectAndForward);
    assert_eq!(route(PermissionStatus::PlayerPermission, PacketType::TICK), ProcessorAction::Ignore);
    assert_eq!(route(PermissionStatus::PlayerPermission, PacketType::CHAT), ProcessorAction::Ignore);
    assert_eq!(route(PermissionStatus::PlayerPermission, PacketType::PACKET_FORWARD_CLIENT_TO), ProcessorAction::Ignore);
    assert_eq!(route(PermissionStatus::PlayerPermission, PacketType::RETURN_TO_BATTLEROOM), ProcessorAction::Ignore);
    assert_eq!(route(PermissionStatus::HostPermission, PacketType::HEART_BEAT), ProcessorAction::Ping);
    assert_eq!(route(PermissionStatus::HostPermission, PacketType::PACKET_FORWARD_CLIENT_TO), ProcessorAction::ForwardToOthers);
    assert_eq!(route(PermissionStatus::HostPermission, PacketType::DISCONNECT), ProcessorAction::Disconnect);
    assert_eq!(route(PermissionStatus::HostPermission, PacketType::CHAT_RECEIVE), ProcessorAction::Ignore);
    assert_eq!(route(PermissionStatus::HostPermission, PacketType::PREREGISTER_INFO_RECEIVE), ProcessorAction::Ignore);
}

#[test]
fn the_processor_works_on_a_connection_and_the_rooms() {
    let mut rooms = RelayManager::new(5);
    let mut host = connection(1);
    let prereg = received(CommonPacket::get_preregister_info("Host", "com.x", 3, 172, ""));
    let out = processor_with(&mut host, &mut rooms, prereg, UUID, None);
    assert_eq!(out.deliveries.len(), 2);
    let command = received(CommonPacket::get_relay_hall_command("mod"));
    let out = processor_with(&mut host, &mut rooms, command, UUID, Some(777));
    assert_eq!(out.room_created, Some(RoomRef { id: 777, generation: 0 }));
    assert_eq!(host.shared_relay_room, Some(RoomRef { id: 777, generation: 0 }));
    assert_eq!(host.room_index, Some(1));
    assert!(host.packet.is_none());
    assert!(rooms.room(777).unwrap().shared_data().custom.mods);
    assert!(rooms.room(777).unwrap().shared_data().custom.beta_game_version);

    let gone = Packet::decode_from_buffer(1, PacketType::DISCONNECT, vec![0]);
    let out = processor_with(&mut host, &mut rooms, gone.clone(), UUID, None);
    assert!(out.disconnect);
    assert!(host.is_disconnected);
    assert!(rooms.room(777).is_none());
    let again = processor_with(&mut host, &mut rooms, gone, UUID, None);
    assert!(!again.disconnect);
    assert!(again.deliveries.is_empty());
}

#[test]
fn a_connection_serves_requests() {
    let mut rooms = RelayManager::new(5);
    let room = rooms.new_relay_id(9, Some(300), CustomRelayData::new(false, false, false, 172)).unwrap();
    let mut con = connection(2);
    let packet = Packet::decode_from_buffer(2, PacketType::CHAT_RECEIVE, vec![7, 7]);

    let reply = con.serve(&mut rooms, ConnectionAPI::SetPacket(packet.clone()), UUID, None);
    assert!(reply.outcome.deliveries.is_empty());
    assert_eq!(con.packet, Some(packet.clone()));
    con.serve(&mut rooms, ConnectionAPI::SetCachePacket(packet.clone()), UUID, None);
    assert_eq!(con.cache_packet, Some(packet.clone()));
    let reply = con.serve(&mut rooms, ConnectionAPI::RelayDirectInspection, UUID, None);
    assert!(reply.inspection.is_none());

    let reply = con.serve(&mut rooms, ConnectionAPI::SendRelayServerInfo, UUID, None);
    assert_eq!(reply.outcome.deliveries[0].packet.packet_type(), PacketType::RELAY_VERSION_INFO);
    let reply = con.serve(
        &mut rooms,
        ConnectionAPI::SendRelayHallMessage("hi".to_string()),
        UUID,
        None,
    );
    assert_eq!(
        &reply.outcome.deliveries[0].packet.buffer()[8..],
        &[1, 0, 0, 0, 5, 0, 2, b'h', b'i'][..]
    );

    let reply = con.serve(&mut rooms, ConnectionAPI::SendPacketToHost(packet.clone()), UUID, None);
    assert!(reply.outcome.deliveries.is_empty());
    assert_eq!(rooms.add_relay_player(room, 2), Some(2));
    con.shared_relay_room = Some(room);
    con.serve(&mut rooms, ConnectionAPI::SetRoomIndex(Some(2)), UUID, None);
    assert_eq!(con.room_index, Some(2));
    let reply = con.serve(&mut rooms, ConnectionAPI::SendPacketToHost(packet.clone()), UUID, None);
    assert_eq!(reply.outcome.deliveries[0].con, 9);
    assert_eq!(
        reply.outcome.deliveries[0].packet.packet_type(),
        PacketType::PACKET_FORWARD_CLIENT_FROM
    );
    let reply =
        con.serve(&mut rooms, ConnectionAPI::SendPacketToHostRaw(packet.clone()), UUID, None);
    assert_eq!(reply.outcome.deliveries[0].con, 9);
    assert_eq!(reply.outcome.deliveries[0].packet, packet);

    let reply = con.serve(&mut rooms, ConnectionAPI::AddRelayConnect, UUID, None);
    assert_eq!(con.player_info.permission_status, PermissionStatus::PlayerPermission);
    assert_eq!(reply.outcome.deliveries.len(), 3);

    con.packet = Some(Packet::decode_from_buffer(8, PacketType::HEART_BEAT, vec![9; 8]));
    let reply = con.serve(&mut rooms, ConnectionAPI::GetPingData, UUID, None);
    assert_eq!(&reply.outcome.deliveries[0].packet.buffer()[8..], &[9, 9, 9, 9, 9, 9, 9, 9, 1, 60][..]);
    assert!(con.packet.is_none());

    let reply = con.serve(&mut rooms, ConnectionAPI::Disconnect, UUID, None);
    assert!(reply.outcome.disconnect);
    assert!(con.is_disconnected);
    assert!(rooms.room(300).is_none());
    assert!(!con.disconnect(&mut rooms));
}

#[test]
fn a_host_connection_unwraps_envelopes() {
    let mut rooms = RelayManager::new(5);
    let room = rooms.new_relay_id(1, Some(300), CustomRelayData::new(false, false, false, 172)).unwrap();
    rooms.add_relay_player(room, 5);
    let mut host = connection(1);
    host.shared_relay_room = Some(room);
    let envelope = Packet::decode_from_buffer(
        14,
        PacketType::PACKET_FORWARD_CLIENT_TO,
        vec![0, 0, 0, 2, 0, 0, 0, 10, 0, 0, 0, 2, 8, 9],
    );
    match host.send_packet_to_others(&rooms, envelope) {
        Forwarded::Delivered(delivery) => {
            assert_eq!(delivery.con, 5);
            assert_eq!(delivery.packet.packet_type(), PacketType::TICK);
            assert_eq!(&delivery.packet.buffer()[8..], &[8, 9][..]);
        }
        other => panic!("{:?}", other),
    }
    let cut = Packet::decode_from_buffer(
        13,
        PacketType::PACKET_FORWARD_CLIENT_TO,
        vec![0, 0, 0, 2, 0, 0, 0, 10, 0, 0, 0, 2, 8],
    );
    assert!(matches!(host.send_packet_to_others(&rooms, cut), Forwarded::Malformed));
    let absent = Packet::decode_from_buffer(
        12,
        PacketType::PACKET_FORWARD_CLIENT_TO,
        vec![0, 0, 0, 3, 0, 0, 0, 10, 0, 0, 0, 0],
    );
    assert!(matches!(host.send_packet_to_others(&rooms, absent), Forwarded::Dropped));
    let reply = host.serve(
        &mut rooms,
        ConnectionAPI::SendPacketToOthers(Packet::decode_from_buffer(
            2,
            PacketType::PACKET_FORWARD_CLIENT_TO,
            vec![0, 0],
        )),
        UUID,
        None,
    );
    assert!(reply.outcome.disconnect);
}

#[test]
fn the_registry_of_connections() {
    let mut lib = ConnectionLib::new();
    assert_eq!(lib.len(), 0);
    lib.insert(connection(1));
    lib.insert(connection(2));
    lib.insert(connection(3));
    assert_eq!(lib.len(), 3);
    assert!(lib.contains(2));
    assert!(!lib.contains(4));
    assert_eq!(lib.get(3).unwrap().connection_info.ip, "10.0.0.3");
    assert!(lib.get(4).is_none());

    let mut taken = lib.take(2).unwrap();
    assert!(!lib.contains(2));
    assert!(lib.take(2).is_none());
    taken.player_info.player_name = "Two".to_string();
    lib.put(taken);
    assert_eq!(lib.find_by(&By::Name("Two".to_string())), vec![2]);
    assert_eq!(lib.find_by(&By::Addr("10.0.0.3:9".to_string())), vec![3]);
    assert!(lib.is_named(3, &By::Addr("10.0.0.3:9".to_string())));
    assert!(!lib.is_named(3, &By::Name("Two".to_string())));
    assert!(!lib.is_named(9, &By::Name("Two".to_string())));

    let mut same = connection(7);
    same.connection_info.addr = "10.0.0.1:9".to_string();
    lib.insert(same);
    assert_eq!(lib.find_by(&By::Addr("10.0.0.1:9".to_string())), vec![1, 7]);
    let packet = Packet::decode_from_buffer(1, PacketType::CHAT, vec![1]);
    let sent = lib.send_packet_to_player_by(By::Addr("10.0.0.1:9".to_string()), packet.clone());
    assert_eq!(sent.len(), 2);
    assert_eq!(sent[0].con, 1);
    assert_eq!(sent[1].con, 7);
    assert_eq!(sent[1].packet, packet);

    lib.remove_by(By::Addr("10.0.0.1:9".to_string()));
    assert_eq!(lib.len(), 2);
    assert!(!lib.contains(1));
    assert!(!lib.contains(7));
    lib.remove(3);
    lib.remove(3);
    assert_eq!(lib.len(), 1);
    assert!(lib.contains(2));
}

#[test]
fn the_registry_of_connections_serves_requests() {
    let mut lib = ConnectionLib::new();
    assert!(lib.serve(ConnectionLibAPI::InsertConnection(connection(1))).is_empty());
    assert!(lib.contains(1));
    let packet = Packet::decode_from_buffer(1, PacketType::CHAT, vec![1]);
    let sent = lib.serve(ConnectionLibAPI::SendPacketToPlayerBy(
        By::Addr("10.0.0.1:9".to_string()),
        packet,
    ));
    assert_eq!(sent.len(), 1);
    assert_eq!(sent[0].con, 1);
    assert!(lib
        .serve(ConnectionLibAPI::RemoveConnectionBy(By::Addr("10.0.0.1:9".to_string())))
        .is_empty());
    assert!(!lib.contains(1));
}

#[test]
fn an_event_tells_of_a_packet() {
    let packet = Packet::decode_from_buffer(1, PacketType::TICK, vec![1]);
    let event = packet_event(6, &packet);
    assert_eq!(event.event_name, "packet");
    match event.event_type {
        EventType::NewPacket(con, seen, packet_type) => {
            assert_eq!(con, 6);
            assert_eq!(seen, packet);
            assert_eq!(packet_type, PacketType::TICK);
        }
        other => panic!("{:?}", other),
    }
}

#[test]
fn the_ban_list_is_looked_up_by_address() {
    let config = AllConfig {
        server: ServerConfig::default(),
        uplist: UplistApi {},
        game: GameConfig {},
        banlist: vec!["1.2.3.4:5".to_string(), "6.7.8.9:10".to_string()],
    };
    assert!(config.is_banned("1.2.3.4:5"));
    assert!(config.is_banned("6.7.8.9:10"));
    assert!(!config.is_banned("1.2.3.4:6"));
    assert!(!config.is_banned(""));
    assert!(!AllConfig::default().is_banned("1.2.3.4:5"));
}

#[test]
fn the_one_command_is_to_disconnect() {
    assert_eq!(ServerCommand::Disconnect, ServerCommand::Disconnect);
}
