use radar_server::archiver::{Archiver, ArchiverAction, ControlMessage};
use radar_server::plugins::radar_packet::{NetType, SettingInfo};

fn msg(sender: &[u8], body: &[u8]) -> Vec<Vec<u8>> {
    vec![sender.to_vec(), body.to_vec()]
}

fn ids(infos: &Vec<SettingInfo>) -> Vec<String> {
    infos.iter().map(|i| i.id.clone()).collect()
}

#[test]
fn fresh_archiver_advertises_its_own_settings() {
    let a = Archiver::new();
    assert_eq!(ids(a.setting_info()), vec!["playback_delay".to_string()]);
}

#[test]
fn hello_registers_client_and_answers_twice() {
    let mut a = Archiver::new();
    let actions = a.handle_control_message(&msg(b"c1", b""), ControlMessage::Unrecognized);
    assert_eq!(
        actions,
        vec![
            ArchiverAction::SendSettingInfo(b"c1".to_vec()),
            ArchiverAction::ClientRegistered(b"c1".to_vec()),
            ArchiverAction::PrintMessage,
            ArchiverAction::SendSettingInfo(b"c1".to_vec()),
        ]
    );
}

#[test]
fn second_hello_is_idempotent() {
    let mut a = Archiver::new();
    a.handle_control_message(&msg(b"c1", b""), ControlMessage::Unrecognized);
    a.handle_control_message(&msg(b"c2", b""), ControlMessage::Unrecognized);
    let actions = a.handle_control_message(&msg(b"c1", b""), ControlMessage::Unrecognized);
    assert_eq!(
        actions,
        vec![
            ArchiverAction::SendSettingInfo(b"c1".to_vec()),
            ArchiverAction::ClientRegistered(b"c1".to_vec()),
            ArchiverAction::PrintMessage,
            ArchiverAction::SendSettingInfo(b"c1".to_vec()),
            ArchiverAction::SendSettingInfo(b"c2".to_vec()),
        ]
    );
}

#[test]
fn garbage_with_a_body_only_informs_clients() {
    let mut a = Archiver::new();
    a.handle_control_message(&msg(b"c1", b""), ControlMessage::Unrecognized);
    let actions = a.handle_control_message(&msg(b"x", b"not json"), ControlMessage::Unrecognized);
    assert_eq!(
        actions,
        vec![ArchiverAction::PrintMessage, ArchiverAction::SendSettingInfo(b"c1".to_vec())]
    );
}

#[test]
fn server_settings_are_learnt_and_advertised() {
    let mut a = Archiver::new();
    a.handle_control_message(&msg(b"c1", b""), ControlMessage::Unrecognized);
    let actions = a.handle_control_message(
        &msg(b"s1", b"{...}"),
        ControlMessage::SettingInfo { sender_type: NetType::Server, infos: SettingInfo::get_server_settings() },
    );
    assert_eq!(
        actions,
        vec![
            ArchiverAction::ServerRegistered(b"s1".to_vec()),
            ArchiverAction::PrintMessage,
            ArchiverAction::SendSettingInfo(b"c1".to_vec()),
        ]
    );
    assert_eq!(
        ids(a.setting_info()),
        vec!["playback_delay".to_string(), "samples".to_string(), "sample_rate".to_string()]
    );
}

#[test]
fn settings_from_a_client_are_ignored() {
    let mut a = Archiver::new();
    let actions = a.handle_control_message(
        &msg(b"c9", b"{...}"),
        ControlMessage::SettingInfo { sender_type: NetType::Client, infos: SettingInfo::get_server_settings() },
    );
    assert_eq!(actions, vec![ArchiverAction::PrintMessage]);
    assert_eq!(ids(a.setting_info()), vec!["playback_delay".to_string()]);
}

#[test]
fn setting_data_is_forwarded_to_every_server_once() {
    let mut a = Archiver::new();
    for s in [b"s1", b"s2", b"s1"] {
        a.handle_control_message(
            &msg(s, b"{...}"),
            ControlMessage::SettingInfo { sender_type: NetType::Server, infos: Vec::new() },
        );
    }
    a.handle_control_message(&msg(b"c1", b""), ControlMessage::Unrecognized);
    let actions = a.handle_control_message(&msg(b"c1", b"{...}"), ControlMessage::SettingData);
    assert_eq!(
        actions,
        vec![
            ArchiverAction::ForwardPacket(b"s1".to_vec()),
            ArchiverAction::ForwardPacket(b"s2".to_vec()),
            ArchiverAction::PrintMessage,
            ArchiverAction::SendSettingInfo(b"c1".to_vec()),
        ]
    );
}
