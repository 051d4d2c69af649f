//! Command layer of a screen-mirroring application.

pub mod channel;
pub mod coordinator;
pub mod errors;
pub mod events;
pub mod flags;
pub mod mdns_reset;
pub mod mux;
pub mod nonce;
pub mod qsv_observation;
pub mod rebuild;
pub mod sender;
pub mod sender_build;
pub mod sender_drain;
pub mod sender_rebuild;
pub mod sender_signaling;
pub mod sender_transport;
pub mod smoke;
pub mod stream;
pub mod stream_build;
pub mod stream_drain;
pub mod stream_rebuild;
pub mod supervision;
pub mod text;
pub mod trace;
pub mod turns;
pub mod validation;
