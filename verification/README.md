# dev_proxy

The verified core of a local SOCKS5 development proxy.

- `src/protocol/socks5.rs` reads the SOCKS5 greeting and CONNECT request as
  the server receives them, byte count by byte count, and drives the opening
  exchange (`Socks5Negotiation`). Its proofs show that a decided message stays
  decided whatever follows it, that every message is decided within a fixed
  number of bytes, and that a negotiation reads exactly one greeting and one
  request from the client's stream.
- `src/session_handler.rs` holds the session life cycle: what the run loop
  does in each state and how each outcome moves the session on.
- `src/address.rs` and `src/text.rs` render target addresses as text
  (`a.b.c.d:port`, `[ipv6]:port` with zero-run compression, `name:port`).
- `src/proxy_control.rs` is the registry of live connections;
  `src/session_manager.rs` and `src/proxy_server.rs` keep the session list and
  the server's run state. `src/tokio_handles.rs` declares the tokio handles
  these carry and the trusted wrappers around the calls made on them.
- `app/` is the program around it: sockets, tasks, logging and the commands
  of the desktop shell.
