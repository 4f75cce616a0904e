//! Ports, addresses and sizes that the server's nodes agree on.

use vstd::prelude::*;

verus! {

/// The client will be listening on port 5555.
pub const CLIENT_PORT: &'static str = "5555";

/// Control messages are sent on 5556.
pub const CONTROL_PORT: &'static str = "5556";

/// The server broadcasts on 5557.
pub const RADAR_PORT: &'static str = "5557";

/// The tcp address of the server, for the archiver to subscribe to.
pub const RADAR_ADDRESS: &'static str = "tcp://localhost:";

/// Broadcast address.
pub const WORLD_ADDRESS: &'static str = "tcp://*:";

/// The tcp address of the archiver, for the server to connect to for control packets.
pub const ARCHIVER_ADDRESS: &'static str = "tcp://localhost:";

/// Data should be stored and sourced from XDG_DATA regardless of where the program is.
pub const DATA_ARCHIVE_DIR: &'static str = ".local/share/radar-server/";

/// The chunk size for data stored in hdf5 files.
pub const DATA_CHUNK_SIZE: usize = 1024;

/// How many seconds of data to store in each file, one day.
pub const ARCHIVE_FILE_CHUNK_SIZE: i64 = 24 * 60 * 60;

/// The endpoint of a socket: an address followed by a port.
pub fn endpoint(address: &str, port: &str) -> (e: String)
    ensures
        e@ == address@ + port@,
{
    let mut e = String::from_str(address);
    e.append(port);
    e
}

} // verus!
