//! Network identities and the descriptors of the settings that a node offers.

use vstd::prelude::*;
use crate::decimal::{decimal, decimal_string};

verus! {

/// Network type for the packet.
#[derive(Debug, Clone, Copy, PartialEq, Eq, Structural)]
pub enum NetType {
    Server,
    Client,
    Archiver,
}

/// Identity info contains the network type and server version.
#[derive(Debug, Clone)]
pub struct Identity {
    pub net_type: NetType,
    pub version: String,
}

/// Describes one setting that a node accepts: its id, a display name, optional
/// bounds, step and unit, and optional nested settings.
#[derive(Debug, PartialEq)]
pub struct SettingInfo {
    pub id: String,
    pub name: String,
    pub min: Option<String>,
    pub max: Option<String>,
    pub step: Option<String>,
    pub unit: Option<String>,
    pub values: Option<Vec<SettingInfo>>,
}

/// The characters of an optional string.
pub open spec fn opt_chars(s: Option<String>) -> Option<Seq<char>> {
    match s {
        Some(t) => Some(t@),
        None => None,
    }
}

/// `info` is a leaf setting with exactly these fields.
pub open spec fn describes(
    info: SettingInfo,
    id: Seq<char>,
    name: Seq<char>,
    min: Option<Seq<char>>,
    max: Option<Seq<char>>,
    step: Option<Seq<char>>,
    unit: Option<Seq<char>>,
) -> bool {
    &&& info.id@ == id
    &&& info.name@ == name
    &&& opt_chars(info.min) == min
    &&& opt_chars(info.max) == max
    &&& opt_chars(info.step) == step
    &&& opt_chars(info.unit) == unit
    &&& info.values is None
}

/// The largest value of a `u16`, as the settings write it.
pub open spec fn u16_max_text() -> Seq<char> {
    decimal(u16::MAX as nat)
}

fn text(s: &str) -> (r: String)
    ensures
        r@ == s@,
{
    String::from_str(s)
}

fn some_text(s: &str) -> (r: Option<String>)
    ensures
        opt_chars(r) == Some(s@),
{
    Some(String::from_str(s))
}

impl SettingInfo {
    /// The settings that an archiver offers: the playback delay.
    pub fn get_archiver_settings() -> (vals: Vec<SettingInfo>)
        ensures
            vals@.len() == 1,
            describes(
                vals@[0],
                "playback_delay"@,
                "Playback Delay"@,
                Some("0"@),
                Some(u16_max_text()),
                Some("1"@),
                Some("Ms"@),
            ),
    {
        let mut vals = Vec::<SettingInfo>::new();
        vals.push(
            SettingInfo {
                id: text("playback_delay"),
                name: text("Playback Delay"),
                min: some_text("0"),
                max: Some(decimal_string(u16::MAX as u64)),
                step: some_text("1"),
                unit: some_text("Ms"),
                values: None,
            },
        );
        vals
    }

    /// The settings that a radar server offers: the number of samples and the
    /// sample rate.
    pub fn get_server_settings() -> (vals: Vec<SettingInfo>)
        ensures
            vals@.len() == 2,
            describes(
                vals@[0],
                "samples"@,
                "Samples"@,
                Some("0"@),
                Some(u16_max_text()),
                Some("1"@),
                None,
            ),
            describes(
                vals@[1],
                "sample_rate"@,
                "Sample Rate"@,
                Some("0"@),
                Some(u16_max_text()),
                None,
                Some("Samples/Sec"@),
            ),
    {
        let mut vals = Vec::<SettingInfo>::new();
        vals.push(
            SettingInfo {
                id: text("samples"),
                name: text("Samples"),
                min: some_text("0"),
                max: Some(decimal_string(u16::MAX as u64)),
                step: some_text("1"),
                unit: None,
                values: None,
            },
        );
        vals.push(
            SettingInfo {
                id: text("sample_rate"),
                name: text("Sample Rate"),
                min: some_text("0"),
                max: Some(decimal_string(u16::MAX as u64)),
                step: None,
                unit: some_text("Samples/Sec"),
                values: None,
            },
        );
        vals
    }
}

} // verus!
