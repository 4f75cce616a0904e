# radar_server

Server for a radar viewer: a dummy server publishes radar packets over ZMQ,
and an archiver stores them in HDF5 and relays settings between servers and
clients.

- `src/` is the verified library (Verus):
  - `archiver.rs`: the archiver's control-channel rules as a state machine
    (known servers and clients, advertised settings, the actions taken for
    each control message) with its laws.
  - `plugins/radar_packet.rs`: identities and setting descriptors.
  - `plugins/samples.rs`: complex samples and their packet bytes.
  - `plugins/source_data.rs`: random dummy samples and demo playback
    (frames, playback position, delay).
  - `plugins/publish_data.rs`: framing of settings messages.
  - `plugins/defs.rs`: first-generation packet types and HDF5 group names.
  - `decimal.rs`, `consts.rs`: number rendering, ports and endpoints.
- `app/` is the program: argument handling, ZMQ sockets, serde and HDF5 I/O,
  and the floating-point antenna rate estimate.
- `tests/` exercises the library on concrete values.
