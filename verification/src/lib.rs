//! Verified core of the radar server: setting descriptors, the archiver's
//! control-channel rules, sample framing and demo playback bookkeeping.

pub mod consts;
pub mod decimal;
pub mod plugins;
pub mod archiver;
