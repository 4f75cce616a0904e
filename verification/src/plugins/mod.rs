//! Data structures and logic of the server's plugins.

pub mod defs;
pub mod publish_data;
pub mod radar_packet;
pub mod samples;
pub mod source_data;
