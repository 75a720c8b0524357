//! Control-plane logic of a mesh daemon that bridges iroh peer identities to a
//! WireGuard IP overlay: deterministic overlay addressing, the peer table, the
//! handshake and discovery decisions, the local IPC protocol, tunnel command
//! plans, provisioning bundles and the operator CLI's rendering.

pub mod text;
pub mod endpoint;
pub mod overlay_ip;
pub mod peer;
pub mod protocol;
pub mod discovery;
pub mod ipc;
pub mod spire;
pub mod wireguard;
pub mod zenoh_fabric;
pub mod bundle;
pub mod cli;
pub mod daemon;
