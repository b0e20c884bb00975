//! Nodes and the statistics aggregated over them.

use std::collections::HashMap;
use std::sync::atomic::AtomicBool;
use std::sync::Arc;
use vstd::prelude::*;

verus! {

/// A running node as the control plane tracks it.
#[derive(Clone)]
pub struct Node {
    pub head_id: Option<String>,
    pub stats: NodeStats,
    pub stats_file: Option<String>,
    pub region: String,
    pub max_players: usize,
    pub persisted: bool,
    pub reserved: bool,
    /// Shared flag, set while the node answers.
    pub online: Arc<AtomicBool>,
}

/// A node as listed in summaries.
pub struct NodeSummary(pub Node);

/// Game statistics of one node, or aggregated over several.
#[derive(Clone)]
pub struct NodeStats {
    pub online_nodes: usize,
    pub offline_nodes: usize,
    pub total_games: u64,
    pub active_games: usize,
    pub transactions: u64,
    pub bytes: u64,
    pub kills: HashMap<String, u64>,
    pub total_kills: u64,
    pub kills_leaderboard: Vec<LeaderboardEntry>,
    pub items: HashMap<String, u64>,
    pub total_items: u64,
    pub items_leaderboard: Vec<LeaderboardEntry>,
    pub secrets: HashMap<String, u64>,
    pub total_secrets: u64,
    pub secrets_leaderboard: Vec<LeaderboardEntry>,
    pub player_play_time: HashMap<String, Vec<u128>>,
    pub total_play_time: u128,
    /// Updates seen but not yet confirmed, keyed by transaction id.
    pub pending_transactions: HashMap<Vec<u8>, StateUpdate>,
}

/// A player and their score.
#[derive(PartialEq, Eq, Clone)]
pub struct LeaderboardEntry(String, u64);

/// One player's contribution carried by a transaction.
#[derive(Clone, Debug)]
pub struct StateUpdate {
    pub player: String,
    pub bytes: u64,
    pub kills: u64,
    pub items: u64,
    pub secrets: u64,
    pub time: Vec<u128>,
}

} // verus!
