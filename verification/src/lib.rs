//! Telephone-exchange game core: wire protocol framing, story graphs,
//! authored stories, switchboard rules and the cabinet demonstration core.

pub mod cabinet;
pub mod cabinet_wire;
pub mod config;
pub mod debug_http;
pub mod exchange;
pub mod protocol;
pub mod framing;
pub mod hardware;
pub mod ports;
pub mod rtp;
pub mod scan;
pub mod stories;
pub mod story;
pub mod text;
pub mod voice;
pub mod walk;
