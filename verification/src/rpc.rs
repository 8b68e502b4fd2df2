//! Snapshots returned by the remote status client, and the vocabulary the
//! collector and its driver exchange: one request per remote query, one
//! event per reply.
//!
//! Every snapshot is a read-only value captured for one scrape and discarded
//! after use. The remote transport decodes the node's replies into these
//! plain values; readings the node reports in binary64 are carried as raw
//! bit patterns (`*_bits` fields), opaque to this library.

use vstd::prelude::*;

verus! {

/// The node's warnings field, which is polymorphic over a single string and
/// a list of strings. The two shapes carry different counter semantics: a
/// single non-empty string counts as one warning, a list counts as its
/// length.
pub enum Warnings {
    Single(String),
    List(Vec<String>),
}

/// Snapshot of the node's network state.
pub struct NetworkInfo {
    pub version: u64,
    pub protocol_version: u64,
    /// Total peer count.
    pub connections: u64,
    /// Inbound peer count; absent when the node does not know it.
    pub connections_in: Option<u64>,
    /// Outbound peer count; absent when the node does not know it.
    pub connections_out: Option<u64>,
    pub warnings: Warnings,
}

/// Snapshot of the node's chain state.
pub struct BlockchainInfo {
    pub blocks: u64,
    /// Raw bit pattern of the node's binary64 difficulty reading.
    pub difficulty_bits: u64,
    pub size_on_disk: u64,
    /// Raw bit pattern of the node's binary64 verification progress reading.
    pub verification_progress_bits: u64,
    /// The chain's short name, e.g. `main`.
    pub chain: String,
    /// Hash of the current best block, hex-encoded.
    pub best_block_hash: String,
}

/// Per-block statistics for one block.
pub struct BlockStats {
    pub total_size: u64,
    pub txs: u64,
    pub height: u64,
    pub total_weight: u64,
    pub ins: u64,
    pub outs: u64,
    /// Total output value, in the smallest currency unit.
    pub total_out_sats: u64,
    /// Total fee, in the smallest currency unit.
    pub total_fee_sats: u64,
}

/// One entry of the node's ban list.
pub struct BanEntry {
    pub address: String,
    /// Creation time of the ban, as a unix timestamp.
    pub ban_created: u64,
    /// Expiry time of the ban, as a unix timestamp.
    pub banned_until: u64,
}

/// One known chain tip.
pub struct ChainTip {
    pub height: u64,
}

/// Snapshot of the node's mempool state.
pub struct MempoolInfo {
    pub bytes: u64,
    pub size: u64,
    pub usage: u64,
    /// Count of unbroadcast transactions; older nodes omit the field
    /// entirely, which legitimately means zero.
    pub unbroadcast_count: Option<u64>,
}

/// The node's traffic totals.
pub struct NetTotals {
    pub total_bytes_recv: u64,
    pub total_bytes_sent: u64,
}

/// Identity of one remote operation, carried by a failure report.
#[derive(Clone, Copy, Debug, PartialEq, Eq, Structural)]
pub enum RpcOp {
    GetNetworkInfo,
    GetBlockchainInfo,
    Uptime,
    GetBlockInfo,
    GetBlockStats,
    EstimateSmartFee,
    GetNetworkHashPs,
    ListBanned,
    GetChainTips,
    GetMempoolInfo,
    GetNetTotals,
}

/// A failed remote call: the operation that failed and the underlying
/// cause's display text, surfaced verbatim to the scrape client.
pub struct RpcError {
    pub op: RpcOp,
    pub message: String,
}

impl RpcError {
    /// The failure's description, as the scrape response body shows it.
    pub fn describe(&self) -> (r: String)
        ensures
            r@ == self.message@,
    {
        self.message.clone()
    }
}

/// One remote query the collector asks its driver to perform.
pub enum RpcRequest {
    GetNetworkInfo,
    GetBlockchainInfo,
    Uptime,
    GetBlockInfo { block_hash: String },
    GetBlockStats { height: u64 },
    EstimateSmartFee { conf_target: u16 },
    GetNetworkHashPs { nblocks: u64 },
    ListBanned,
    GetChainTips,
    GetMempoolInfo,
    GetNetTotals,
}

/// The driver's answer to one request: the decoded reply, or the failure of
/// the call. A missing fee estimate is a valid reply, not a failure.
pub enum RpcEvent {
    NetworkInfo(NetworkInfo),
    BlockchainInfo(BlockchainInfo),
    Uptime(u64),
    /// The resolved height of the block a `GetBlockInfo` request named.
    BlockInfo { height: u64 },
    BlockStats(BlockStats),
    /// A fee estimate, in the smallest currency unit; `None` when the node
    /// has too little data for the horizon.
    SmartFee { fee_rate_sats: Option<u64> },
    /// Raw bit pattern of the node's binary64 hash-rate reading.
    NetworkHashPs { rate_bits: u64 },
    Banned(Vec<BanEntry>),
    ChainTips(Vec<ChainTip>),
    MempoolInfo(MempoolInfo),
    NetTotals(NetTotals),
    /// The call failed; the payload is the cause's display text.
    Failed { message: String },
}

} // verus!
