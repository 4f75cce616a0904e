//! The first generation of packet definitions: identities with a network
//! type, blanking sectors, and where a packet lives in an HDF5 archive.

use vstd::prelude::*;
use crate::decimal::{decimal, decimal_string, lemma_decimal_injective};

verus! {

/// Network type of a node.
#[derive(Debug, Clone, Copy, PartialEq, Eq, Structural)]
pub enum NetType {
    Server,
    Client,
    Archiver,
    Transformer,
}

/// Identity info contains the network type and server version.
#[derive(Debug, Clone)]
pub struct Identity {
    pub net_type: NetType,
    pub version: String,
}

/// Cryptographic information of a node; it carries nothing yet.
#[derive(Debug, Clone, Copy, PartialEq, Eq, Structural)]
pub struct CryptInfo {}

/// A blanking sector of the radar.
#[derive(Debug, Clone, Copy, PartialEq, Eq, Structural)]
pub struct Blanking {
    pub x: i64,
    pub y: i64,
}

/// The HDF5 group of a packet taken `secs` seconds and `nanos` nanoseconds
/// after the epoch, and its subgroup: the two numbers in base ten.
pub fn packet_group_names(secs: u64, nanos: u32) -> (names: (String, String))
    ensures
        names.0@ == decimal(secs as nat),
        names.1@ == decimal(nanos as nat),
{
    (decimal_string(secs), decimal_string(nanos as u64))
}

/// Two packets are stored in the same group and subgroup only if they were
/// taken at the same time.
pub proof fn lemma_group_names_identify_time(secs1: u64, nanos1: u32, secs2: u64, nanos2: u32)
    requires
        decimal(secs1 as nat) == decimal(secs2 as nat),
        decimal(nanos1 as nat) == decimal(nanos2 as nat),
    ensures
        secs1 == secs2,
        nanos1 == nanos2,
{
    lemma_decimal_injective(secs1 as nat, secs2 as nat);
    lemma_decimal_injective(nanos1 as nat, nanos2 as nat);
}

} // verus!
