//! Local-transport communication layer between a control front-end and a
//! proxy-core process: connection pool, request forwarding decisions,
//! mutation permit and streaming subscription registry; and the answers to
//! the front-end's system and configuration requests, built from the
//! outcome of the operating-system or engine call behind each of them.

pub mod classify;
pub mod forward;
pub mod gate;
pub mod logging;
pub mod loopback;
pub mod netinfo;
pub mod overrides;
pub mod pool;
pub mod signals;
pub mod stream;
pub mod system;
pub mod text;
