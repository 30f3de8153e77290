use rjr_relay::connection::player_net_api::CustomRelayData;
use rjr_relay::packet::{Packet, PacketType};
use rjr_relay::relay_manager::relay::{
    RelayRoom, RelayRoomAPI, RelayRoomReply, RoomRef, SharedRelayRoomData,
};
use rjr_relay::relay_manager::{RelayManager, RelayManagerAPI, RelayManagerReply};

fn custom() -> CustomRelayData {
    CustomRelayData::new(false, false, false, 172)
}

fn room(admin: u64) -> RelayRoom {
    RelayRoom::new(admin, SharedRelayRoomData::new(4821, 0, custom()))
}

#[test]
fn custom_relay_data_starts_without_a_player_limit() {
    let data = CustomRelayData::new(true, false, true, 176);
    assert_eq!(data.max_player_size, -1);
    assert_eq!(data.max_unit_size, 300);
    assert!(data.mods);
    assert!(!data.uplist);
    assert!(data.beta_game_version);
    assert_eq!(data.version, 176);
    assert_eq!(data.with_default_limit().max_player_size, 10);
    let limited = CustomRelayData { max_player_size: 4, ..data };
    assert_eq!(limited.with_default_limit().max_player_size, 4);
}

#[test]
fn a_new_room_has_its_host_and_no_player() {
    let room = room(7);
    assert_eq!(room.admin(), 7);
    assert_eq!(room.id(), 4821);
    assert_eq!(room.site(), 2);
    assert_eq!(room.player_count(), 0);
    assert!(room.has_no_player());
    assert_eq!(room.player(1), None);
    assert_eq!(room.room_ref(), RoomRef { id: 4821, generation: 0 });
    assert!(!room.shared_data().start_game);
}

#[test]
fn site_indices_count_up_from_two() {
    let mut room = room(7);
    assert_eq!(room.add_relay_player(10), Some(2));
    assert_eq!(room.add_relay_player(11), Some(3));
    assert_eq!(room.add_relay_player(12), Some(4));
    assert_eq!(room.player(2), Some(10));
    assert_eq!(room.player(3), Some(11));
    assert_eq!(room.player(4), Some(12));
    assert_eq!(room.site(), 5);
    assert_eq!(room.player_count(), 3);
}

#[test]
fn a_site_index_is_not_handed_out_again() {
    let mut room = room(7);
    assert_eq!(room.add_relay_player(10), Some(2));
    assert!(room.remove_player(2));
    assert_eq!(room.add_relay_player(11), Some(3));
    assert_eq!(room.player(2), None);
    assert_eq!(room.player(3), Some(11));
}

#[test]
fn removing_the_last_player_empties_the_room() {
    let mut room = room(7);
    room.add_relay_player(10);
    room.add_relay_player(11);
    assert!(!room.remove_player(2));
    assert!(!room.remove_player(2));
    assert!(!room.remove_player(9));
    assert!(room.remove_player(3));
    assert!(room.has_no_player());
}

#[test]
fn a_room_addresses_packets() {
    let mut room = room(7);
    room.add_relay_player(10);
    let packet = Packet::decode_from_buffer(1, PacketType::CHAT, vec![1]);
    let to_host = room.send_packet_to_host(packet.clone());
    assert_eq!(to_host.con, 7);
    assert_eq!(to_host.packet, packet);
    let to_player = room.send_packet_to_others(2, packet.clone()).unwrap();
    assert_eq!(to_player.con, 10);
    assert_eq!(to_player.packet, packet);
    assert!(room.send_packet_to_others(3, packet.clone()).is_none());
    assert!(room.send_packet_to_others(1, packet).is_none());
}

#[test]
fn a_room_serves_requests() {
    let mut room = room(7);
    let packet = Packet::decode_from_buffer(1, PacketType::CHAT, vec![1]);
    assert!(matches!(room.serve(RelayRoomAPI::AddRelayPlayer(10)), RelayRoomReply::Joined(2)));
    match room.serve(RelayRoomAPI::SendToHost(packet.clone())) {
        RelayRoomReply::Deliver(delivery) => assert_eq!(delivery.con, 7),
        other => panic!("{:?}", other),
    }
    match room.serve(RelayRoomAPI::SendToOthers(2, packet.clone())) {
        RelayRoomReply::Deliver(delivery) => assert_eq!(delivery.con, 10),
        other => panic!("{:?}", other),
    }
    assert!(matches!(
        room.serve(RelayRoomAPI::SendToOthers(5, packet)),
        RelayRoomReply::Dropped
    ));
}

#[test]
fn the_registry_opens_rooms_under_fresh_numbers() {
    let mut manager = RelayManager::new(1);
    assert_eq!(manager.room_count(), 0);
    let first = manager.new_relay_id(1, None, custom()).unwrap();
    let second = manager.new_relay_id(2, None, custom()).unwrap();
    assert!((100..9999).contains(&first.id));
    assert!((100..9999).contains(&second.id));
    assert_ne!(first.id, second.id);
    assert_eq!(first.generation, 0);
    assert_eq!(second.generation, 1);
    assert_eq!(manager.room_count(), 2);
    assert!(manager.is_live(first));
    assert_eq!(manager.room(first.id).unwrap().admin(), 1);
    assert_eq!(manager.room(second.id).unwrap().admin(), 2);
    assert_eq!(manager.room(first.id).unwrap().shared_data().custom.max_player_size, 10);
}

#[test]
fn a_taken_number_opens_no_room() {
    let mut manager = RelayManager::new(1);
    let first = manager.new_relay_id(1, Some(500), custom()).unwrap();
    assert_eq!(first, RoomRef { id: 500, generation: 0 });
    assert_eq!(manager.new_relay_id(2, Some(500), custom()), None);
    assert_eq!(manager.room(500).unwrap().admin(), 1);
    assert_eq!(manager.room_count(), 1);
}

#[test]
fn a_picked_number_is_free() {
    let mut manager = RelayManager::new(42);
    for _ in 0..200 {
        let picked = manager.pick_id().unwrap();
        assert!((100..9999).contains(&picked));
        assert!(manager.room(picked).is_none());
        manager.new_relay_id(1, Some(picked), custom()).unwrap();
    }
    assert_eq!(manager.room_count(), 200);
}

#[test]
fn the_registry_has_no_number_when_all_are_taken() {
    let mut manager = RelayManager::new(3);
    for id in 100..9999 {
        assert!(manager.new_relay_id(1, Some(id), custom()).is_some());
    }
    assert_eq!(manager.pick_id(), None);
    assert_eq!(manager.new_relay_id(1, None, custom()), None);
    assert!(manager.remove_player(manager.room(4000).unwrap().room_ref(), 1));
    assert_eq!(manager.pick_id(), Some(4000));
}

#[test]
fn rooms_are_found_by_the_digits_of_their_id() {
    let mut manager = RelayManager::new(1);
    let room = manager.new_relay_id(1, Some(4821), custom()).unwrap();
    assert_eq!(manager.get_relay("4821"), Some(room));
    assert_eq!(manager.get_relay("04821"), None);
    assert_eq!(manager.get_relay("4822"), None);
    assert_eq!(manager.get_relay(""), None);
    assert_eq!(manager.get_relay("48 21"), None);
    assert_eq!(manager.get_relay("S4821"), None);
    assert_eq!(manager.get_relay("99999999999999"), None);
    assert_eq!(manager.get_relay_by_digits(b"4821"), Some(room));
}

#[test]
fn a_room_is_gone_when_its_last_player_leaves() {
    let mut manager = RelayManager::new(1);
    let room = manager.new_relay_id(1, Some(4821), custom()).unwrap();
    assert_eq!(manager.add_relay_player(room, 10), Some(2));
    assert_eq!(manager.add_relay_player(room, 11), Some(3));
    assert!(!manager.remove_player(room, 2));
    assert_eq!(manager.get_relay("4821"), Some(room));
    assert!(manager.remove_player(room, 3));
    assert_eq!(manager.get_relay("4821"), None);
    assert!(manager.room(4821).is_none());
    assert!(!manager.is_live(room));
    assert_eq!(manager.add_relay_player(room, 12), None);
    assert!(!manager.remove_player(room, 2));
}

#[test]
fn a_room_without_players_is_gone_when_its_host_leaves() {
    let mut manager = RelayManager::new(1);
    let room = manager.new_relay_id(1, Some(300), custom()).unwrap();
    assert!(manager.remove_player(room, 1));
    assert_eq!(manager.get_relay("300"), None);
}

#[test]
fn a_reference_to_an_earlier_room_does_not_resolve_to_a_later_one() {
    let mut manager = RelayManager::new(1);
    let earlier = manager.new_relay_id(1, Some(300), custom()).unwrap();
    assert!(manager.remove_player(earlier, 1));
    let later = manager.new_relay_id(2, Some(300), custom()).unwrap();
    assert_eq!(later, RoomRef { id: 300, generation: 1 });
    assert!(!manager.is_live(earlier));
    assert!(manager.is_live(later));
    assert_eq!(manager.add_relay_player(earlier, 10), None);
    let packet = Packet::decode_from_buffer(1, PacketType::CHAT, vec![1]);
    assert!(manager.send_packet_to_host(earlier, packet.clone()).is_none());
    assert_eq!(manager.send_packet_to_host(later, packet).unwrap().con, 2);
}

#[test]
fn the_registry_addresses_packets() {
    let mut manager = RelayManager::new(1);
    let room = manager.new_relay_id(1, Some(300), custom()).unwrap();
    manager.add_relay_player(room, 10);
    let packet = Packet::decode_from_buffer(1, PacketType::CHAT, vec![1]);
    assert_eq!(manager.send_packet_to_others(room, 2, packet.clone()).unwrap().con, 10);
    assert!(manager.send_packet_to_others(room, 3, packet.clone()).is_none());
    let gone = RoomRef { id: 301, generation: 0 };
    assert!(manager.send_packet_to_others(gone, 2, packet).is_none());
}

#[test]
fn the_registry_serves_requests() {
    let mut manager = RelayManager::new(1);
    let made = RelayRoom::new(5, SharedRelayRoomData::new(777, 9, custom()));
    assert_eq!(
        manager.serve(RelayManagerAPI::InsertNewRelay(made)),
        RelayManagerReply::Inserted
    );
    assert_eq!(
        manager.serve(RelayManagerAPI::GetRelay("777".to_string())),
        RelayManagerReply::Relay(Some(RoomRef { id: 777, generation: 9 }))
    );
    assert_eq!(
        manager.serve(RelayManagerAPI::GetRelay("778".to_string())),
        RelayManagerReply::Relay(None)
    );
}
