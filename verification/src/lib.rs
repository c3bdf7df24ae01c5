//! Verified core of a local SOCKS5 development proxy: the wire codec, the
//! session life cycle, the connection registry and the server's run state.

pub mod address;
pub mod protocol;
pub mod text;
pub mod tokio_handles;
pub mod session_handler;
pub mod proxy_control;
pub mod session_manager;
pub mod proxy_server;
pub mod models;
