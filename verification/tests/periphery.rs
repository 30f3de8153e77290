use rjr_relay::dummy::{serve, DummyAPI, DummyConf, DummyVersion};
use rjr_relay::error::BasicDummyError;
use rjr_relay::event::{Event, EventType};
use rjr_relay::module::easy_dummy::{EasyDummy, EasyDummyTrait};
use rjr_relay::module::rw_engine::image::get_hsv_terrain_name;
use rjr_relay::module::rw_engine::RwEngine;
use rjr_relay::module::{ModuleManager, ModuleType};
use rjr_relay::packet::common_packet::CommonPacket;
use rjr_relay::packet::{Packet, PacketType};
use rjr_relay::relay_manager::relay::RoomRef;
use rjr_relay::server::{AllConfig, ServerConfig};
use rjr_relay::uplist::{
    compute_confirmation, compute_second_token, compute_short_check, UplistData,
};

#[test]
fn a_bot_of_version_1_15_has_its_versions() {
    let conf = DummyConf::new("Bot".to_string(), "com.bot".to_string(), DummyVersion::Version1_15);
    assert_eq!(conf.dummy_name, "Bot");
    assert_eq!(conf.domain, "com.bot");
    assert_eq!(conf.version, DummyVersion::Version1_15);
    assert_eq!(conf.packet_version, 4);
    assert_eq!(conf.client_version, 172);
    let copy = conf.clone();
    assert_eq!(copy.dummy_name, "Bot");
    assert_eq!(copy.client_version, 172);
}

#[test]
fn a_bot_presents_itself_with_a_preregistration() {
    let conf = DummyConf::new("Bot".to_string(), "com.bot".to_string(), DummyVersion::Version1_15);
    assert_eq!(
        conf.preregister_info(),
        CommonPacket::get_preregister_info("Bot", "com.bot", 4, 172, "")
    );
    match EasyDummyTrait::new().startup_connected(&conf) {
        DummyAPI::SendPacket(packet) => assert_eq!(packet, conf.preregister_info()),
        other => panic!("{:?}", other),
    }
}

#[test]
fn a_bot_writes_each_packet_framed() {
    let mut first = Packet::new(PacketType::CHAT);
    first.write_u8(1);
    let mut second = Packet::new(PacketType::TICK);
    second.write_u16(0x0203);
    assert_eq!(
        serve(DummyAPI::SendPacket(first.clone())),
        vec![vec![0, 0, 0, 1, 0, 0, 0, 141, 1]]
    );
    assert_eq!(
        serve(DummyAPI::SendPackets(vec![first, second])),
        vec![vec![0, 0, 0, 1, 0, 0, 0, 141, 1], vec![0, 0, 0, 2, 0, 0, 0, 10, 2, 3]]
    );
    assert_eq!(serve(DummyAPI::SendPackets(vec![])), Vec::<Vec<u8>>::new());
}

#[test]
fn an_easy_dummy_starts_unconnected() {
    let dummy = EasyDummy::new(3, "Bot".to_string(), "com.bot".to_string(), DummyVersion::Version1_15);
    assert_eq!(dummy.index, 3);
    assert!(!dummy.is_connect);
    assert_eq!(dummy.conf.packet_version, 4);
}

#[test]
fn a_dummy_error_carries_its_reason() {
    let error = BasicDummyError::JoinRelayError("no room");
    assert_eq!(error.reason(), "no room");
}

#[test]
fn modules_are_noted_in_order() {
    let mut manager = ModuleManager::new();
    assert_eq!(manager.len(), 0);
    assert_eq!(manager.module_type(0), None);
    manager.init_module(ModuleType::RwEngine);
    manager.init_module(ModuleType::RwEngine);
    assert_eq!(manager.len(), 2);
    assert_eq!(manager.module_type(1), Some(ModuleType::RwEngine));
    assert_eq!(manager.module_type(2), None);
}

#[test]
fn the_engine_orders_a_bot_for_each_room() {
    let mut engine = RwEngine::new();
    assert_eq!(engine.dummies(), 0);
    let event = Event::new(
        "abab",
        EventType::NewRoomAndHostOk(RoomRef { id: 4821, generation: 0 }),
    );
    let order = engine.on_event(&event).unwrap();
    assert_eq!(order.index, 1);
    assert_eq!(order.conf.dummy_name, "RwEngineSystem");
    assert_eq!(order.conf.domain, "com.shishanyue.rwe");
    assert_eq!(
        order.register,
        CommonPacket::get_preregister_info("RwEngineSystem", "com.shishanyue.rwe", 4, 172, "")
    );
    assert_eq!(order.join, CommonPacket::get_relay_hall_command("S4821"));
    assert_eq!(engine.dummies(), 1);
    let seen = Event::new(
        "seen",
        EventType::NewPacket(1, Packet::new(PacketType::CHAT), PacketType::CHAT),
    );
    assert!(engine.on_event(&seen).is_none());
    assert_eq!(engine.on_event(&event).unwrap().index, 2);
}

#[test]
fn an_event_keeps_its_name() {
    let event = Event::new("abab", EventType::NewRoomAndHostOk(RoomRef { id: 1, generation: 2 }));
    assert_eq!(event.event_name, "abab");
    assert!(matches!(
        event.event_type,
        EventType::NewRoomAndHostOk(RoomRef { id: 1, generation: 2 })
    ));
}

#[test]
fn the_default_configuration_listens_on_one_port() {
    let config = ServerConfig::default();
    assert_eq!(config.port_range, vec![(5123, 5124)]);
    assert_eq!(config.thread_number, 30);
    assert!(!config.enable_web);
    assert_eq!(config.ports(), vec![5123]);
    let all = AllConfig::default();
    assert_eq!(all.server.ports(), vec![5123]);
    assert!(all.banlist.is_empty());
}

#[test]
fn port_ranges_are_listed_range_after_range() {
    let config = ServerConfig {
        port_range: vec![(5123, 5126), (7000, 7000), (9, 3), (80, 81)],
        thread_number: 1,
        enable_web: false,
    };
    assert_eq!(config.ports(), vec![5123, 5124, 5125, 80]);
    let none = ServerConfig { port_range: vec![], thread_number: 1, enable_web: true };
    assert_eq!(none.ports(), Vec::<u32>::new());
}

#[test]
fn colours_name_terrains() {
    assert_eq!(get_hsv_terrain_name(0, 0, 0), b"hsv0000000".to_vec());
    assert_eq!(get_hsv_terrain_name(360, 100, 100), b"hsv3609595".to_vec());
    assert_eq!(get_hsv_terrain_name(999, 95, 94), b"hsv3609590".to_vec());
    assert_eq!(get_hsv_terrain_name(123, 47, 9), b"hsv1204505".to_vec());
    assert_eq!(get_hsv_terrain_name(4, 5, 99), b"hsv0000595".to_vec());
}

fn digest_short_check(seed: &str) -> String {
    format!(
        "{:x}",
        md5::compute(&sha256::digest(format!("SHA256_{}", seed))[..=4])
    )
    .to_ascii_uppercase()[0..4]
        .to_string()
}

#[test]
fn the_checks_of_an_announcement_are_digests() {
    assert_eq!(
        compute_short_check(b"u_1234"),
        digest_short_check("u_1234").into_bytes()
    );
    assert_eq!(compute_short_check(b""), digest_short_check("").into_bytes());
    assert_eq!(
        compute_second_token(b"token"),
        format!("{:x}", md5::compute(md5::compute("token").0)).into_bytes()
    );
    assert_eq!(
        compute_confirmation(b"token"),
        format!("{:x}", md5::compute(format!("a{:x}", md5::compute("token")))).into_bytes()
    );
    assert_eq!(
        compute_second_token(b""),
        format!("{:x}", md5::compute(md5::compute("").0)).into_bytes()
    );
    assert_eq!(format!("{:x}", md5::compute("")), "d41d8cd98f00b204e9800998ecf8427e");
}

#[test]
fn the_form_that_adds_a_server() {
    let uuid = "u_123e4567-e89b-42d3-a456-426614174000";
    let token = "rs67nMZSgL8czc3uCQ7riylkpSKkUzbl7GqEjEbo";
    let time: u128 = 1710340893029;
    let data = UplistData::with(
        uuid.to_string(),
        token.to_string(),
        "false",
        "RW-Relay-RJR",
        5123,
        1,
        100,
        "RW-RJR",
        "shishanyue",
        "192.168.80.1",
        "battleroom",
        time,
    );
    let expected = format!("action=add&user_id={}&game_name={}&_1={}&tx2={}&tx3={}&game_version=176&game_version_string=1.15-Othe&game_version_beta=false&private_token={}&private_token_2={}&confirm={}&password_required={}&created_by={}&private_ip={}&port_number={}&game_map={}&game_mode=skirmishMap&game_status=battleroom&player_count={}&max_player_count={}",
        uuid, "RW-Relay-RJR", time,
        digest_short_check(&uuid[..=5]),
        digest_short_check(&format!("{}{}", &uuid[..=5], time)),
        token,
        format!("{:x}", md5::compute(md5::compute(token).0)),
        format!("{:x}", md5::compute(format!("a{:x}", md5::compute(token)))),
        "false", "shishanyue", "192.168.80.1", 5123, "RW-RJR", 1, 100);
    assert_eq!(String::from_utf8(data.add_body()).unwrap(), expected);
    assert_eq!(data.server_uuid(), uuid);
    assert_eq!(data.token(), token);
}

#[test]
fn the_form_that_keeps_a_server_listed() {
    let data = UplistData::with(
        "u_abc".to_string(),
        "tok".to_string(),
        "true",
        "Game",
        5200,
        3,
        8,
        "Map",
        "me",
        "10.0.0.1",
        "ingame",
        7,
    );
    assert_eq!(
        String::from_utf8(data.update_body()).unwrap(),
        "action=update&id=u_abc&private_token=tok&password_required=true&created_by=me&private_ip=34.92.10.132&port_number=5200&game_map=Map&game_mode=skirmishMap&game_status=ingame&player_count=3&max_player_count=8"
    );
}

#[test]
fn a_fresh_announcement_has_a_fresh_id_and_token() {
    let data = UplistData::new("false", "Game", 5123, 0, 10, "Map", "me", "10.0.0.1", "battleroom", 99);
    let id = data.server_uuid();
    assert_eq!(id.len(), 38);
    assert!(id.starts_with("u_"));
    assert_eq!(id.as_bytes()[10], b'-');
    let token = data.token();
    assert_eq!(token.len(), 40);
    assert!(token.bytes().all(|b| b.is_ascii_alphanumeric()));
    let other = UplistData::new("false", "Game", 5123, 0, 10, "Map", "me", "10.0.0.1", "battleroom", 99);
    assert_ne!(other.server_uuid(), id);
    assert!(String::from_utf8(data.add_body()).unwrap().contains("&_1=99&tx2="));
}
