# packets

Packet-based TCP servers and clients. Each packet is sent as a frame: a
4-byte little-endian length, then the bincode-encoded packet.

- `src/` is the verified core: the frame codec (`frame`), the state machine
  that reads one frame off a stream (`reader`), the bounded wait for data
  (`watch`), the client's configuration and link status (`client`), and the
  server's configuration and connection table (`server`).
- `app/` drives that core with real sockets (`socket2`, `std::net`), clocks
  and `bincode`, and offers the `Client` and `Server` types.
- `tests/` exercise the core on concrete values.
