use radar_server::decimal::decimal_string;
use radar_server::plugins::radar_packet::{Identity, NetType, SettingInfo};

fn leaf(info: &SettingInfo) -> (String, String, Option<String>, Option<String>, Option<String>, Option<String>, bool) {
    (
        info.id.clone(),
        info.name.clone(),
        info.min.clone(),
        info.max.clone(),
        info.step.clone(),
        info.unit.clone(),
        info.values.is_none(),
    )
}

#[test]
fn archiver_settings_list_the_playback_delay() {
    let vals = SettingInfo::get_archiver_settings();
    assert_eq!(vals.len(), 1);
    assert_eq!(
        leaf(&vals[0]),
        (
            "playback_delay".to_string(),
            "Playback Delay".to_string(),
            Some("0".to_string()),
            Some("65535".to_string()),
            Some("1".to_string()),
            Some("Ms".to_string()),
            true,
        )
    );
}

#[test]
fn server_settings_list_samples_and_rate() {
    let vals = SettingInfo::get_server_settings();
    assert_eq!(vals.len(), 2);
    assert_eq!(
        leaf(&vals[0]),
        (
            "samples".to_string(),
            "Samples".to_string(),
            Some("0".to_string()),
            Some("65535".to_string()),
            Some("1".to_string()),
            None,
            true,
        )
    );
    assert_eq!(
        leaf(&vals[1]),
        (
            "sample_rate".to_string(),
            "Sample Rate".to_string(),
            Some("0".to_string()),
            Some("65535".to_string()),
            None,
            Some("Samples/Sec".to_string()),
            true,
        )
    );
}

#[test]
fn decimal_matches_to_string() {
    for n in [0u64, 7, 9, 10, 99, 100, 1000, 65535, 1234567890, u64::MAX] {
        assert_eq!(decimal_string(n), n.to_string());
    }
}

#[test]
fn identity_holds_type_and_version() {
    let id = Identity { net_type: NetType::Archiver, version: "0.1.0".to_string() };
    assert_eq!(id.net_type, NetType::Archiver);
    assert_ne!(id.net_type, NetType::Server);
    assert_eq!(id.version, "0.1.0");
}
