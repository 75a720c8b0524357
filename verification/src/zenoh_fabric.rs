//! The data fabric's configuration and topic namespace.
//!
//! Topics follow `{site}/{node-role}/{data-type}/{instance}`, for example
//! `alpha/sensor/eo-ir/01`. Sessions, publishing and subscribing are stubs in
//! this phase: they accept every call.

use vstd::prelude::*;
use crate::overlay_ip::Ipv4Addr;

verus! {

/// Failures of the data fabric.
#[derive(Debug)]
pub enum FabricError {
    /// No fabric session could be used.
    SessionUnavailable,
}

/// The data fabric configuration of a node.
#[derive(Debug, Clone)]
pub struct FabricConfig {
    /// Site name (such as `alpha`).
    pub site: String,
    /// Node role (such as `cp`, `mft`, `sensor`).
    pub role: String,
    /// Instance identifier (such as `01`).
    pub instance: String,
    /// Overlay address the fabric runs over.
    pub overlay_ip: Ipv4Addr,
    /// Whether the node runs a router (command post) or a client.
    pub is_router: bool,
}

/// The topic key `{site}/{role}/{data_type}/{instance}`.
pub open spec fn topic_key(
    site: Seq<char>,
    role: Seq<char>,
    data_type: Seq<char>,
    instance: Seq<char>,
) -> Seq<char> {
    site + "/"@ + role + "/"@ + data_type + "/"@ + instance
}

impl FabricConfig {
    /// The topic key for data of type `data_type` published by this node.
    pub fn topic(&self, data_type: &str) -> (t: String)
        ensures
            t@ == topic_key(self.site@, self.role@, data_type@, self.instance@),
    {
        let mut t = self.site.clone();
        t.append("/");
        t.append(self.role.as_str());
        t.append("/");
        t.append(data_type);
        t.append("/");
        t.append(self.instance.as_str());
        t
    }
}

/// Starts the node's part of the fabric, as a router or as a client. In this
/// phase it succeeds without opening a session.
pub fn init_fabric(_config: &FabricConfig) -> (r: Result<(), FabricError>)
    ensures
        r is Ok,
{
    Ok(())
}

/// Publishes `data` on `topic`. In this phase it succeeds without sending.
pub fn publish(_topic: &str, _data: &[u8]) -> (r: Result<(), FabricError>)
    ensures
        r is Ok,
{
    Ok(())
}

/// Subscribes to `topic`. In this phase it succeeds without subscribing.
pub fn subscribe(_topic: &str) -> (r: Result<(), FabricError>)
    ensures
        r is Ok,
{
    Ok(())
}

} // verus!
