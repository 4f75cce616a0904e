use radar_server::consts::{endpoint, CLIENT_PORT, CONTROL_PORT, RADAR_ADDRESS, RADAR_PORT, WORLD_ADDRESS, ARCHIVE_FILE_CHUNK_SIZE};
use radar_server::plugins::defs::{packet_group_names, Blanking, CryptInfo, NetType};
use radar_server::plugins::publish_data::settings_frames;

#[test]
fn unaddressed_settings_are_one_frame() {
    assert_eq!(settings_frames(b"", b"{}".to_vec()), vec![b"{}".to_vec()]);
}

#[test]
fn addressed_settings_lead_with_the_identity() {
    assert_eq!(settings_frames(b"\x00abc", b"{}".to_vec()), vec![b"\x00abc".to_vec(), b"{}".to_vec()]);
}

#[test]
fn endpoints_join_address_and_port() {
    assert_eq!(endpoint(WORLD_ADDRESS, RADAR_PORT), "tcp://*:5557");
    assert_eq!(endpoint(RADAR_ADDRESS, CLIENT_PORT), "tcp://localhost:5555");
    assert_eq!(endpoint(WORLD_ADDRESS, CONTROL_PORT), "tcp://*:5556");
    assert_eq!(ARCHIVE_FILE_CHUNK_SIZE, 86400);
}

#[test]
fn group_names_are_the_time_in_base_ten() {
    assert_eq!(packet_group_names(1_700_000_000, 123_456_789), ("1700000000".to_string(), "123456789".to_string()));
    assert_eq!(packet_group_names(0, 0), ("0".to_string(), "0".to_string()));
    let (a, b) = packet_group_names(12, 3);
    let (c, d) = packet_group_names(1, 23);
    assert!(a != c || b != d);
}

#[test]
fn legacy_types_compare_by_value() {
    assert_eq!(Blanking { x: -1, y: 2 }, Blanking { x: -1, y: 2 });
    assert_ne!(Blanking { x: -1, y: 2 }, Blanking { x: 1, y: 2 });
    assert_eq!(CryptInfo {}, CryptInfo {});
    assert_ne!(NetType::Transformer, NetType::Server);
}
