//! The answers of a node's peer-to-peer RPC interface.
//!
//! The aggregator hands these records on as it got them. It never looks
//! into one, so they are plain data.

use std::collections::BTreeMap;
use vstd::prelude::*;

verus! {

/// RPC method that asks a node for its own [`PeerInfo`].
pub const RPC_METHOD_INFO: &'static str = "opp2p_self";

/// RPC method that asks a node for its [`PeerDump`].
pub const RPC_METHOD_PEERS: &'static str = "opp2p_peers";

/// RPC method that asks a node for its [`PeerStats`].
pub const RPC_METHOD_STATS: &'static str = "opp2p_peerStats";

/// A score as a node reported it: an IEEE 754 double, held by its bits.
#[derive(Debug, Clone, Copy, PartialEq, Eq, Structural)]
pub struct Score {
    pub bits: u64,
}

/// What a node says of itself, or of one of its peers.
#[derive(Debug, Clone, PartialEq)]
pub struct PeerInfo {
    pub peer_id: String,
    pub node_id: String,
    pub user_agent: String,
    pub protocol_version: String,
    pub enr: String,
    pub addresses: Vec<String>,
    pub protocols: Option<Vec<String>>,
    pub connectedness: i32,
    pub direction: i32,
    pub protected: bool,
    pub chain_id: u64,
    pub latency: u64,
    pub gossip_blocks: bool,
    pub peer_scores: PeerScore,
}

/// The scores a node keeps of a peer.
#[derive(Debug, Clone, Copy, PartialEq, Eq, Structural)]
pub struct PeerScore {
    pub gossip: GossipScores,
    pub req_resp: ReqRespScores,
}

/// Scores from gossip.
#[derive(Debug, Clone, Copy, PartialEq, Eq, Structural)]
pub struct GossipScores {
    pub total: Score,
    pub blocks: TopicScores,
    pub ip_colocation_factor: Score,
    pub behavioral_penalty: Score,
}

/// Scores of one gossip topic.
#[derive(Debug, Clone, Copy, PartialEq, Eq, Structural)]
pub struct TopicScores {
    pub time_in_mesh: Score,
    pub first_message_deliveries: Score,
    pub mesh_message_deliveries: Score,
    pub invalid_message_deliveries: Score,
}

/// Scores from the request/response protocol.
#[derive(Debug, Clone, Copy, PartialEq, Eq, Structural)]
pub struct ReqRespScores {
    pub valid_responses: Score,
    pub error_responses: Score,
    pub rejected_payloads: Score,
}

/// A node's table of peers: how many are connected, and each peer under
/// its identifier.
#[derive(Debug, Clone, PartialEq)]
pub struct PeerDump {
    pub total_connected: u64,
    pub peers: BTreeMap<String, PeerInfo>,
}

/// A node's peer counters.
#[derive(Debug, Clone, PartialEq, Eq, Structural)]
pub struct PeerStats {
    pub connected: u64,
    pub table: u64,
    pub blocks_topic: u64,
    pub blocks_topic_v2: u64,
    pub blocks_topic_v3: u64,
    pub blocks_topic_v4: u64,
    pub banned: u64,
    pub known: u64,
}

} // verus!
