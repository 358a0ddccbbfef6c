//! Server-side logic for Teltonika GPS trackers: decoding of the IMEI handshake
//! and of Codec 8 Extended AVL packets, the per-connection protocol decisions,
//! and the small text rules of the notification and webhook services.
pub mod parser;
pub mod text;
pub mod session;
pub mod notifications;
pub mod webhook;
pub mod config;
pub mod tunnel;
pub mod utils;
