//! Verified core of a local workspace bridge: configuration defaults,
//! path confinement, request dispatch and log bookkeeping.
pub mod config;
pub mod text;
pub mod paths;
pub mod pattern;
pub mod server;
pub mod rpc;
