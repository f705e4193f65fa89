//! Core of an energy measurement service: sessions that sample a process, the entries they record,
//! and the rules by which a JSON-RPC server starts and stops them.
pub mod connection;
pub mod connection_laws;
pub mod entry;
pub mod error;
pub mod field_map;
pub mod handler_laws;
pub mod interleaving;
pub mod laws;
pub mod measurement_handler;
pub mod server;
pub mod server_laws;
pub mod session;
pub mod session_laws;
pub mod stop_channel;
pub mod text;
pub mod timestamp;
pub mod value_laws;
