//! An I2P client that routes envelopes as repliable datagrams through a
//! router's SAMv3 bridge, in one of three modes (`ra.i2p.mode`): `local`
//! attaches to a router running on this host, `embedded` starts a router in
//! process, `auto` picks `local` when a SAM bridge answers, else `embedded`.
//!
//! This crate holds the client's logic, verified: the SAM line protocol
//! (`sam`), the configuration and the steps of starting, stopping and sending
//! (`client`), the bootstrap of the embedded router (`embedded`), and the text
//! handling they rest on (`text`, `map`). Sockets,
//! files and the embedded router are the caller's: each start step names the
//! outside work to do next and takes back what it produced.

pub mod client;
pub mod detector;
pub mod embedded;
pub mod map;
pub mod sam;
pub mod text;

pub use client::{
    status_from_u8, status_to_u8, Backend, Envelope, I2pClient, Mode, SendAction, StartAction,
    StartEvent, Status, LOCAL_REPROBE_INTERVAL_MS,
};
pub use detector::{LocalRouterDetector, DEFAULT_SAM_HOST, DEFAULT_SAM_PORT};
pub use map::StringMap;
pub use sam::{SamError, SamErrorKind, SigType, DEFAULT_SAM_TCP, DEFAULT_SAM_UDP};
