//! Workload identity checks against the local SPIRE agent.
//!
//! A peer presenting tunnel keys must also hold a valid SPIRE-issued SVID, so
//! that a stolen transport keypair alone cannot join the overlay. In this
//! phase validation is a stub: it accepts every peer, and fetching this
//! node's own SVID yields nothing.

use vstd::prelude::*;

verus! {

/// The default path of the SPIRE agent's Workload API socket.
pub const DEFAULT_AGENT_SOCKET: &'static str = "/tmp/spire-agent/public/api.sock";

/// Failures of workload identity checks.
#[derive(Debug)]
pub enum SpireError {
    AgentNotAvailable { path: String },
    SvidInvalid { peer_id: String, reason: String },
    TrustBundleUnavailable { domain: String },
}

impl SpireError {
    /// The human-readable description of the failure.
    pub fn message(&self) -> (m: String)
        ensures
            m@ == (match self {
                SpireError::AgentNotAvailable { path } => "SPIRE agent not available at "@ + path@,
                SpireError::SvidInvalid { peer_id, reason } => "SVID validation failed for peer "@
                    + peer_id@ + ": "@ + reason@,
                SpireError::TrustBundleUnavailable { domain } =>
                    "trust bundle not available for domain "@ + domain@,
            }),
    {
        match self {
            SpireError::AgentNotAvailable { path } => {
                let mut m = String::from_str("SPIRE agent not available at ");
                m.append(path.as_str());
                m
            },
            SpireError::SvidInvalid { peer_id, reason } => {
                let mut m = String::from_str("SVID validation failed for peer ");
                m.append(peer_id.as_str());
                m.append(": ");
                m.append(reason.as_str());
                m
            },
            SpireError::TrustBundleUnavailable { domain } => {
                let mut m = String::from_str("trust bundle not available for domain ");
                m.append(domain.as_str());
                m
            },
        }
    }
}

/// A client of the local SPIRE agent.
#[derive(Debug, Clone)]
pub struct SpireClient {
    /// Path to the agent's Workload API socket.
    socket_path: String,
    /// Whether validation is enabled.
    enabled: bool,
}

impl SpireClient {
    /// The path of the agent's socket.
    pub closed spec fn agent_socket(self) -> Seq<char> {
        self.socket_path@
    }

    /// Whether validation is enabled.
    pub closed spec fn enabled(self) -> bool {
        self.enabled
    }

    /// A copy of the client, with the same socket path and the same
    /// enabled flag.
    pub fn duplicate(&self) -> (c: SpireClient)
        ensures
            c.agent_socket() == self.agent_socket(),
            c.enabled() == self.enabled(),
    {
        SpireClient { socket_path: self.socket_path.clone(), enabled: self.enabled }
    }

    /// A client for the agent at `socket_path`. Validation is enabled exactly
    /// when the agent's socket exists; without it the node runs in
    /// development mode.
    pub fn new(socket_path: &str, agent_socket_exists: bool) -> (c: SpireClient)
        ensures
            c.agent_socket() == socket_path@,
            c.enabled() == agent_socket_exists,
    {
        SpireClient { socket_path: String::from_str(socket_path), enabled: agent_socket_exists }
    }

    /// Checks that the peer `peer_id` holds a valid SPIRE-issued SVID. In
    /// this phase every peer is accepted, with validation enabled or not.
    pub fn validate_peer(&self, _peer_id: &str) -> (r: Result<(), SpireError>)
        ensures
            r is Ok,
    {
        Ok(())
    }

    /// This node's own X.509-SVID from the agent. In this phase there is
    /// none, with validation enabled or not.
    pub fn fetch_svid(&self) -> (r: Option<Vec<u8>>)
        ensures
            r is None,
    {
        None
    }

    /// Whether validation is active.
    pub fn is_enabled(&self) -> (r: bool)
        ensures
            r == self.enabled(),
    {
        self.enabled
    }
}

} // verus!
