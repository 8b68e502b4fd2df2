//! The collector: one invocation per scrape, producing one consistent
//! snapshot of metrics, short-circuiting on the first failed remote call.
//!
//! The collector is a state machine. Each state waits for the reply to one
//! remote query; the driver performs the query, hands the reply back as an
//! [`RpcEvent`], and receives the next query to perform. On each reply the
//! collector writes the extracted readings into the metric sink. On the
//! first failure it stops: no further samples are written and no further
//! query is requested, while samples already applied stay in the sink (no
//! rollback).

use vstd::prelude::*;

use crate::metrics::{GaugeId, MetricSink, Sample, SampleV, SeriesKey, SeriesKeyV};
use crate::rpc::{
    BanEntry, BlockStats, BlockchainInfo, ChainTip, MempoolInfo, NetTotals, NetworkInfo, RpcError,
    RpcEvent, RpcOp, RpcRequest, Warnings,
};

verus! {

broadcast use
    crate::metrics::lemma_append_empty,
    crate::metrics::lemma_append_push,
    crate::metrics::lemma_append_assoc;

/// The collector's position in the fixed sequence of remote queries.
///
/// Each `Fetch*` state waits for the reply to the query of the same name.
/// `Done` and `Failed` are the two terminal outcomes of an invocation.
pub enum Collector {
    FetchNetworkInfo,
    FetchBlockchainInfo { net: NetworkInfo },
    FetchUptime { net: NetworkInfo, chain: String, best_block_hash: String },
    FetchBlockInfo { net: NetworkInfo },
    FetchBlockStats { net: NetworkInfo },
    FetchFee2,
    FetchFee3,
    FetchFee5,
    FetchFee20,
    FetchHashPs120,
    FetchHashPs1,
    FetchBanned,
    FetchChainTips,
    FetchMempool,
    FetchNetTotals,
    Done,
    Failed { error: RpcError },
}

/// The remote operation a fetching state waits on. Immaterial for the two
/// terminal states, which wait on nothing.
pub open spec fn pending_op(c: Collector) -> RpcOp {
    match c {
        Collector::FetchNetworkInfo => RpcOp::GetNetworkInfo,
        Collector::FetchBlockchainInfo { .. } => RpcOp::GetBlockchainInfo,
        Collector::FetchUptime { .. } => RpcOp::Uptime,
        Collector::FetchBlockInfo { .. } => RpcOp::GetBlockInfo,
        Collector::FetchBlockStats { .. } => RpcOp::GetBlockStats,
        Collector::FetchFee2 => RpcOp::EstimateSmartFee,
        Collector::FetchFee3 => RpcOp::EstimateSmartFee,
        Collector::FetchFee5 => RpcOp::EstimateSmartFee,
        Collector::FetchFee20 => RpcOp::EstimateSmartFee,
        Collector::FetchHashPs120 => RpcOp::GetNetworkHashPs,
        Collector::FetchHashPs1 => RpcOp::GetNetworkHashPs,
        Collector::FetchBanned => RpcOp::ListBanned,
        Collector::FetchChainTips => RpcOp::GetChainTips,
        Collector::FetchMempool => RpcOp::GetMempoolInfo,
        Collector::FetchNetTotals => RpcOp::GetNetTotals,
        Collector::Done => RpcOp::GetNetworkInfo,
        Collector::Failed { .. } => RpcOp::GetNetworkInfo,
    }
}

/// Whether an event answers what the state waits for: the reply matching
/// the pending query, or the failure of any pending query. Terminal states
/// expect nothing.
pub open spec fn expects(c: Collector, e: RpcEvent) -> bool {
    match (c, e) {
        (Collector::Done, _) => false,
        (Collector::Failed { .. }, _) => false,
        (_, RpcEvent::Failed { .. }) => true,
        (Collector::FetchNetworkInfo, RpcEvent::NetworkInfo(_)) => true,
        (Collector::FetchBlockchainInfo { .. }, RpcEvent::BlockchainInfo(_)) => true,
        (Collector::FetchUptime { .. }, RpcEvent::Uptime(_)) => true,
        (Collector::FetchBlockInfo { .. }, RpcEvent::BlockInfo { .. }) => true,
        (Collector::FetchBlockStats { .. }, RpcEvent::BlockStats(_)) => true,
        (Collector::FetchFee2, RpcEvent::SmartFee { .. }) => true,
        (Collector::FetchFee3, RpcEvent::SmartFee { .. }) => true,
        (Collector::FetchFee5, RpcEvent::SmartFee { .. }) => true,
        (Collector::FetchFee20, RpcEvent::SmartFee { .. }) => true,
        (Collector::FetchHashPs120, RpcEvent::NetworkHashPs { .. }) => true,
        (Collector::FetchHashPs1, RpcEvent::NetworkHashPs { .. }) => true,
        (Collector::FetchBanned, RpcEvent::Banned(_)) => true,
        (Collector::FetchChainTips, RpcEvent::ChainTips(_)) => true,
        (Collector::FetchMempool, RpcEvent::MempoolInfo(_)) => true,
        (Collector::FetchNetTotals, RpcEvent::NetTotals(_)) => true,
        _ => false,
    }
}

/// The state after answering `c` with `e`.
pub open spec fn next_state(c: Collector, e: RpcEvent) -> Collector
    recommends
        expects(c, e),
{
    match (c, e) {
        (c0, RpcEvent::Failed { message }) => Collector::Failed {
            error: RpcError { op: pending_op(c0), message },
        },
        (Collector::FetchNetworkInfo, RpcEvent::NetworkInfo(net)) => Collector::FetchBlockchainInfo { net },
        (Collector::FetchBlockchainInfo { net }, RpcEvent::BlockchainInfo(info)) => Collector::FetchUptime {
            net,
            chain: info.chain,
            best_block_hash: info.best_block_hash,
        },
        (Collector::FetchUptime { net, .. }, RpcEvent::Uptime(_)) => Collector::FetchBlockInfo { net },
        (Collector::FetchBlockInfo { net }, RpcEvent::BlockInfo { .. }) => Collector::FetchBlockStats { net },
        (Collector::FetchBlockStats { .. }, RpcEvent::BlockStats(_)) => Collector::FetchFee2,
        (Collector::FetchFee2, RpcEvent::SmartFee { .. }) => Collector::FetchFee3,
        (Collector::FetchFee3, RpcEvent::SmartFee { .. }) => Collector::FetchFee5,
        (Collector::FetchFee5, RpcEvent::SmartFee { .. }) => Collector::FetchFee20,
        (Collector::FetchFee20, RpcEvent::SmartFee { .. }) => Collector::FetchHashPs120,
        (Collector::FetchHashPs120, RpcEvent::NetworkHashPs { .. }) => Collector::FetchHashPs1,
        (Collector::FetchHashPs1, RpcEvent::NetworkHashPs { .. }) => Collector::FetchBanned,
        (Collector::FetchBanned, RpcEvent::Banned(_)) => Collector::FetchChainTips,
        (Collector::FetchChainTips, RpcEvent::ChainTips(_)) => Collector::FetchMempool,
        (Collector::FetchMempool, RpcEvent::MempoolInfo(_)) => Collector::FetchNetTotals,
        (Collector::FetchNetTotals, RpcEvent::NetTotals(_)) => Collector::Done,
        (c0, _) => c0,
    }
}

/// The query the collector hands back together with the state change:
/// nothing after a failure and nothing once the sequence is complete.
pub open spec fn next_request(c: Collector, e: RpcEvent) -> Option<RpcRequest>
    recommends
        expects(c, e),
{
    match (c, e) {
        (_, RpcEvent::Failed { .. }) => None,
        (Collector::FetchNetworkInfo, RpcEvent::NetworkInfo(_)) => Some(RpcRequest::GetBlockchainInfo),
        (Collector::FetchBlockchainInfo { .. }, RpcEvent::BlockchainInfo(_)) => Some(RpcRequest::Uptime),
        (Collector::FetchUptime { best_block_hash, .. }, RpcEvent::Uptime(_)) => Some(
            RpcRequest::GetBlockInfo { block_hash: best_block_hash },
        ),
        (Collector::FetchBlockInfo { .. }, RpcEvent::BlockInfo { height }) => Some(
            RpcRequest::GetBlockStats { height },
        ),
        (Collector::FetchBlockStats { .. }, RpcEvent::BlockStats(_)) => Some(
            RpcRequest::EstimateSmartFee { conf_target: 2 },
        ),
        (Collector::FetchFee2, RpcEvent::SmartFee { .. }) => Some(
            RpcRequest::EstimateSmartFee { conf_target: 3 },
        ),
        (Collector::FetchFee3, RpcEvent::SmartFee { .. }) => Some(
            RpcRequest::EstimateSmartFee { conf_target: 5 },
        ),
        (Collector::FetchFee5, RpcEvent::SmartFee { .. }) => Some(
            RpcRequest::EstimateSmartFee { conf_target: 20 },
        ),
        (Collector::FetchFee20, RpcEvent::SmartFee { .. }) => Some(
            RpcRequest::GetNetworkHashPs { nblocks: 120 },
        ),
        (Collector::FetchHashPs120, RpcEvent::NetworkHashPs { .. }) => Some(
            RpcRequest::GetNetworkHashPs { nblocks: 1 },
        ),
        (Collector::FetchHashPs1, RpcEvent::NetworkHashPs { .. }) => Some(RpcRequest::ListBanned),
        (Collector::FetchBanned, RpcEvent::Banned(_)) => Some(RpcRequest::GetChainTips),
        (Collector::FetchChainTips, RpcEvent::ChainTips(_)) => Some(RpcRequest::GetMempoolInfo),
        (Collector::FetchMempool, RpcEvent::MempoolInfo(_)) => Some(RpcRequest::GetNetTotals),
        (Collector::FetchNetTotals, RpcEvent::NetTotals(_)) => None,
        _ => None,
    }
}

/// An overwrite of a fixed gauge series.
pub open spec fn set_sample(g: GaugeId, value: u64) -> SampleV {
    SampleV::SetGauge { series: SeriesKeyV::Plain(g), value }
}

/// The constant reason label attached to every ban-list series.
pub open spec fn ban_reason() -> Seq<char> {
    "manually added"@
}

/// Samples extracted from the chain snapshot.
pub open spec fn chain_info_samples(info: BlockchainInfo) -> Seq<SampleV> {
    Seq::empty()
        .push(set_sample(GaugeId::Blocks, info.blocks))
        .push(set_sample(GaugeId::Difficulty, info.difficulty_bits))
        .push(set_sample(GaugeId::SizeOnDisk, info.size_on_disk))
        .push(set_sample(GaugeId::VerificationProgress, info.verification_progress_bits))
}

/// The uptime reading, on the series labelled by client version, protocol
/// version and chain name. The label triple changes only on client upgrade
/// or chain switch, so its cardinality stays bounded.
pub open spec fn uptime_samples(
    version: u64,
    protocol_version: u64,
    chain: Seq<char>,
    uptime: u64,
) -> Seq<SampleV> {
    Seq::empty().push(
        SampleV::SetGauge {
            series: SeriesKeyV::Uptime { version, protocol_version, chain },
            value: uptime,
        },
    )
}

/// Samples extracted from the best block's statistics.
pub open spec fn block_stats_samples(bs: BlockStats) -> Seq<SampleV> {
    Seq::empty()
        .push(set_sample(GaugeId::LatestBlockSize, bs.total_size))
        .push(set_sample(GaugeId::LatestBlockTxs, bs.txs))
        .push(set_sample(GaugeId::LatestBlockHeight, bs.height))
        .push(set_sample(GaugeId::LatestBlockWeight, bs.total_weight))
        .push(set_sample(GaugeId::LatestBlockInputs, bs.ins))
        .push(set_sample(GaugeId::LatestBlockOutputs, bs.outs))
        .push(set_sample(GaugeId::LatestBlockValue, bs.total_out_sats))
        .push(set_sample(GaugeId::LatestBlockFee, bs.total_fee_sats))
}

/// Peer-count samples: the total is always set; the inbound and outbound
/// series are set only when the node reports them, since absence means
/// "unknown" and must not read as zero.
pub open spec fn peer_samples(net: NetworkInfo) -> Seq<SampleV> {
    let s = Seq::empty().push(set_sample(GaugeId::Peers, net.connections));
    let s = match net.connections_in {
        Some(v) => s.push(set_sample(GaugeId::ConnectionsIn, v)),
        None => s,
    };
    match net.connections_out {
        Some(v) => s.push(set_sample(GaugeId::ConnectionsOut, v)),
        None => s,
    }
}

/// How many warnings one snapshot contributes to the lifetime counter: a
/// single non-empty string counts one, a list counts its length, an empty
/// single string counts nothing.
pub open spec fn warnings_delta(w: Warnings) -> u64 {
    match w {
        Warnings::Single(s) => if s@.len() == 0 {
            0u64
        } else {
            1u64
        },
        Warnings::List(l) => l@.len() as u64,
    }
}

/// The counter increment for one warnings snapshot. An empty single string
/// contributes no sample at all; a list always contributes one increment,
/// of its length.
pub open spec fn warnings_samples(w: Warnings) -> Seq<SampleV> {
    match w {
        Warnings::Single(s) => if s@.len() == 0 {
            Seq::empty()
        } else {
            Seq::empty().push(SampleV::IncWarnings { by: 1 })
        },
        Warnings::List(l) => Seq::empty().push(SampleV::IncWarnings { by: l@.len() as u64 }),
    }
}

/// A fee-estimate sample for one horizon: present estimates overwrite the
/// horizon's gauge; a missing estimate writes nothing, leaving any prior
/// value in place.
pub open spec fn fee_samples(g: GaugeId, fee_rate_sats: Option<u64>) -> Seq<SampleV> {
    match fee_rate_sats {
        Some(v) => Seq::empty().push(set_sample(g, v)),
        None => Seq::empty(),
    }
}

/// The two timestamp samples for one ban entry, labelled by the banned
/// address and the constant reason.
pub open spec fn ban_entry_samples(b: BanEntry) -> Seq<SampleV> {
    Seq::empty()
        .push(
            SampleV::SetGauge {
                series: SeriesKeyV::BanCreated { address: b.address@, reason: ban_reason() },
                value: b.ban_created,
            },
        )
        .push(
            SampleV::SetGauge {
                series: SeriesKeyV::BannedUntil { address: b.address@, reason: ban_reason() },
                value: b.banned_until,
            },
        )
}

/// The ban-list samples: two per entry, in list order.
pub open spec fn ban_samples(bans: Seq<BanEntry>) -> Seq<SampleV>
    decreases bans.len(),
{
    if bans.len() == 0 {
        Seq::empty()
    } else {
        ban_samples(bans.drop_last()) + ban_entry_samples(bans.last())
    }
}

/// The chain-tip sample: the count of tips, not the tips themselves.
pub open spec fn chain_tips_samples(tips: Seq<ChainTip>) -> Seq<SampleV> {
    Seq::empty().push(set_sample(GaugeId::NumChainTips, tips.len() as u64))
}

/// Samples extracted from the mempool snapshot. An absent unbroadcast count
/// legitimately means zero: older nodes omit the field entirely.
pub open spec fn mempool_samples(m: MempoolInfo) -> Seq<SampleV> {
    Seq::empty()
        .push(set_sample(GaugeId::MempoolBytes, m.bytes))
        .push(set_sample(GaugeId::MempoolSize, m.size))
        .push(set_sample(GaugeId::MempoolUsage, m.usage))
        .push(
            set_sample(
                GaugeId::MempoolUnbroadcast,
                match m.unbroadcast_count {
                    Some(v) => v,
                    None => 0u64,
                },
            ),
        )
}

/// Samples extracted from the traffic totals.
pub open spec fn net_totals_samples(t: NetTotals) -> Seq<SampleV> {
    Seq::empty()
        .push(set_sample(GaugeId::TotalBytesRecv, t.total_bytes_recv))
        .push(set_sample(GaugeId::TotalBytesSent, t.total_bytes_sent))
}

/// Everything one step writes into the sink: nothing on failure, and the
/// step's extracted readings otherwise. The peer counts and the warnings
/// increment are applied together with the block statistics, after the
/// block queries, as the collection order has it.
pub open spec fn step_samples(c: Collector, e: RpcEvent) -> Seq<SampleV>
    recommends
        expects(c, e),
{
    match (c, e) {
        (_, RpcEvent::Failed { .. }) => Seq::empty(),
        (Collector::FetchNetworkInfo, RpcEvent::NetworkInfo(_)) => Seq::empty(),
        (Collector::FetchBlockchainInfo { .. }, RpcEvent::BlockchainInfo(info)) => chain_info_samples(
            info,
        ),
        (Collector::FetchUptime { net, chain, .. }, RpcEvent::Uptime(u)) => uptime_samples(
            net.version,
            net.protocol_version,
            chain@,
            u,
        ),
        (Collector::FetchBlockInfo { .. }, RpcEvent::BlockInfo { .. }) => Seq::empty(),
        (Collector::FetchBlockStats { net }, RpcEvent::BlockStats(bs)) => block_stats_samples(bs)
            + peer_samples(net) + warnings_samples(net.warnings),
        (Collector::FetchFee2, RpcEvent::SmartFee { fee_rate_sats }) => fee_samples(
            GaugeId::SmartFee2,
            fee_rate_sats,
        ),
        (Collector::FetchFee3, RpcEvent::SmartFee { fee_rate_sats }) => fee_samples(
            GaugeId::SmartFee3,
            fee_rate_sats,
        ),
        (Collector::FetchFee5, RpcEvent::SmartFee { fee_rate_sats }) => fee_samples(
            GaugeId::SmartFee5,
            fee_rate_sats,
        ),
        (Collector::FetchFee20, RpcEvent::SmartFee { fee_rate_sats }) => fee_samples(
            GaugeId::SmartFee20,
            fee_rate_sats,
        ),
        (Collector::FetchHashPs120, RpcEvent::NetworkHashPs { rate_bits }) => Seq::empty().push(
            set_sample(GaugeId::HashPs120, rate_bits),
        ),
        (Collector::FetchHashPs1, RpcEvent::NetworkHashPs { rate_bits }) => Seq::empty().push(
            set_sample(GaugeId::HashPs1, rate_bits),
        ),
        (Collector::FetchBanned, RpcEvent::Banned(bans)) => ban_samples(bans@),
        (Collector::FetchChainTips, RpcEvent::ChainTips(tips)) => chain_tips_samples(tips@),
        (Collector::FetchMempool, RpcEvent::MempoolInfo(m)) => mempool_samples(m),
        (Collector::FetchNetTotals, RpcEvent::NetTotals(t)) => net_totals_samples(t),
        _ => Seq::empty(),
    }
}

/// Write the chain snapshot's gauges: height, difficulty, disk size and
/// verification progress.
pub fn apply_chain_info(sink: &mut MetricSink, info: &BlockchainInfo)
    ensures
        final(sink)@ == old(sink)@ + chain_info_samples(*info),
{
    sink.apply(Sample::SetGauge { series: SeriesKey::Plain(GaugeId::Blocks), value: info.blocks });
    sink.apply(
        Sample::SetGauge {
            series: SeriesKey::Plain(GaugeId::Difficulty),
            value: info.difficulty_bits,
        },
    );
    sink.apply(
        Sample::SetGauge {
            series: SeriesKey::Plain(GaugeId::SizeOnDisk),
            value: info.size_on_disk,
        },
    );
    sink.apply(
        Sample::SetGauge {
            series: SeriesKey::Plain(GaugeId::VerificationProgress),
            value: info.verification_progress_bits,
        },
    );
}

/// Write the uptime reading on its labelled series.
pub fn apply_uptime(
    sink: &mut MetricSink,
    version: u64,
    protocol_version: u64,
    chain: String,
    uptime: u64,
)
    ensures
        final(sink)@ == old(sink)@ + uptime_samples(version, protocol_version, chain@, uptime),
{
    sink.apply(
        Sample::SetGauge {
            series: SeriesKey::Uptime { version, protocol_version, chain },
            value: uptime,
        },
    );
}

/// Write the best block's statistics gauges.
pub fn apply_block_stats(sink: &mut MetricSink, bs: &BlockStats)
    ensures
        final(sink)@ == old(sink)@ + block_stats_samples(*bs),
{
    sink.apply(
        Sample::SetGauge {
            series: SeriesKey::Plain(GaugeId::LatestBlockSize),
            value: bs.total_size,
        },
    );
    sink.apply(
        Sample::SetGauge { series: SeriesKey::Plain(GaugeId::LatestBlockTxs), value: bs.txs },
    );
    sink.apply(
        Sample::SetGauge { series: SeriesKey::Plain(GaugeId::LatestBlockHeight), value: bs.height },
    );
    sink.apply(
        Sample::SetGauge {
            series: SeriesKey::Plain(GaugeId::LatestBlockWeight),
            value: bs.total_weight,
        },
    );
    sink.apply(
        Sample::SetGauge { series: SeriesKey::Plain(GaugeId::LatestBlockInputs), value: bs.ins },
    );
    sink.apply(
        Sample::SetGauge { series: SeriesKey::Plain(GaugeId::LatestBlockOutputs), value: bs.outs },
    );
    sink.apply(
        Sample::SetGauge {
            series: SeriesKey::Plain(GaugeId::LatestBlockValue),
            value: bs.total_out_sats,
        },
    );
    sink.apply(
        Sample::SetGauge {
            series: SeriesKey::Plain(GaugeId::LatestBlockFee),
            value: bs.total_fee_sats,
        },
    );
}

/// Write the peer-count gauges. The total is always written; the inbound
/// and outbound series only when the node reports them, since an absent
/// count means "unknown" and must not read as zero.
pub fn apply_peer_info(sink: &mut MetricSink, net: &NetworkInfo)
    ensures
        final(sink)@ == old(sink)@ + peer_samples(*net),
{
    sink.apply(
        Sample::SetGauge { series: SeriesKey::Plain(GaugeId::Peers), value: net.connections },
    );
    match net.connections_in {
        Some(v) => {
            sink.apply(
                Sample::SetGauge { series: SeriesKey::Plain(GaugeId::ConnectionsIn), value: v },
            );
        },
        None => {},
    }
    match net.connections_out {
        Some(v) => {
            sink.apply(
                Sample::SetGauge { series: SeriesKey::Plain(GaugeId::ConnectionsOut), value: v },
            );
        },
        None => {},
    }
}

/// Advance the lifetime warnings counter by the snapshot's contribution: one
/// for a single non-empty string, the length for a list, nothing for an
/// empty single string.
pub fn apply_warnings(sink: &mut MetricSink, w: Warnings)
    ensures
        final(sink)@ == old(sink)@ + warnings_samples(w),
{
    match w {
        Warnings::Single(s) => {
            if !s.as_str().is_empty() {
                sink.apply(Sample::IncWarnings { by: 1 });
            }
        },
        Warnings::List(l) => {
            let n: u64 = l.len() as u64;
            sink.apply(Sample::IncWarnings { by: n });
        },
    }
}

/// Write one fee-estimate gauge, when an estimate is present. A missing
/// estimate writes nothing, so the horizon's prior value stays in place.
pub fn apply_fee(sink: &mut MetricSink, g: GaugeId, fee_rate_sats: Option<u64>)
    ensures
        final(sink)@ == old(sink)@ + fee_samples(g, fee_rate_sats),
{
    match fee_rate_sats {
        Some(v) => {
            sink.apply(Sample::SetGauge { series: SeriesKey::Plain(g), value: v });
        },
        None => {},
    }
}

/// Write the two ban-timestamp gauges for every entry of the ban list, in
/// list order, each labelled by the entry's address and the constant
/// reason.
pub fn apply_bans(sink: &mut MetricSink, bans: &Vec<BanEntry>)
    ensures
        final(sink)@ == old(sink)@ + ban_samples(bans@),
{
    let ghost base = sink@;
    let mut i: usize = 0;
    proof {
        assert(bans@.subrange(0, 0) =~= Seq::<BanEntry>::empty());
    }
    while i < bans.len()
        invariant
            i <= bans.len(),
            sink@ == base + ban_samples(bans@.subrange(0, i as int)),
        decreases bans.len() - i,
    {
        let entry = &bans[i];
        sink.apply(
            Sample::SetGauge {
                series: SeriesKey::BanCreated {
                    address: entry.address.clone(),
                    reason: "manually added".to_owned(),
                },
                value: entry.ban_created,
            },
        );
        sink.apply(
            Sample::SetGauge {
                series: SeriesKey::BannedUntil {
                    address: entry.address.clone(),
                    reason: "manually added".to_owned(),
                },
                value: entry.banned_until,
            },
        );
        proof {
            assert(bans@.subrange(0, i as int + 1).drop_last() =~= bans@.subrange(0, i as int));
            assert(bans@.subrange(0, i as int + 1).last() == bans@[i as int]);
        }
        i = i + 1;
    }
    proof {
        assert(bans@.subrange(0, bans@.len() as int) =~= bans@);
    }
}

/// Write the mempool gauges. An absent unbroadcast count is written as
/// zero: older nodes omit the field entirely, which legitimately means
/// there is nothing unbroadcast.
pub fn apply_mempool(sink: &mut MetricSink, m: &MempoolInfo)
    ensures
        final(sink)@ == old(sink)@ + mempool_samples(*m),
{
    sink.apply(Sample::SetGauge { series: SeriesKey::Plain(GaugeId::MempoolBytes), value: m.bytes });
    sink.apply(Sample::SetGauge { series: SeriesKey::Plain(GaugeId::MempoolSize), value: m.size });
    sink.apply(Sample::SetGauge { series: SeriesKey::Plain(GaugeId::MempoolUsage), value: m.usage });
    let unbroadcast: u64 = match m.unbroadcast_count {
        Some(v) => v,
        None => 0,
    };
    sink.apply(
        Sample::SetGauge {
            series: SeriesKey::Plain(GaugeId::MempoolUnbroadcast),
            value: unbroadcast,
        },
    );
}

/// Write the traffic-total gauges.
pub fn apply_net_totals(sink: &mut MetricSink, t: &NetTotals)
    ensures
        final(sink)@ == old(sink)@ + net_totals_samples(*t),
{
    sink.apply(
        Sample::SetGauge {
            series: SeriesKey::Plain(GaugeId::TotalBytesRecv),
            value: t.total_bytes_recv,
        },
    );
    sink.apply(
        Sample::SetGauge {
            series: SeriesKey::Plain(GaugeId::TotalBytesSent),
            value: t.total_bytes_sent,
        },
    );
}

impl Collector {
    /// A fresh invocation. The collector starts by asking for the network
    /// snapshot; every other query of the sequence follows from the reply
    /// to the previous one.
    pub fn new() -> (r: (Collector, RpcRequest))
        ensures
            r.0 == Collector::FetchNetworkInfo,
            r.1 == RpcRequest::GetNetworkInfo,
    {
        (Collector::FetchNetworkInfo, RpcRequest::GetNetworkInfo)
    }

    /// The remote operation this state waits on.
    fn current_op(&self) -> (r: RpcOp)
        ensures
            r == pending_op(*self),
    {
        match self {
            Collector::FetchNetworkInfo => RpcOp::GetNetworkInfo,
            Collector::FetchBlockchainInfo { .. } => RpcOp::GetBlockchainInfo,
            Collector::FetchUptime { .. } => RpcOp::Uptime,
            Collector::FetchBlockInfo { .. } => RpcOp::GetBlockInfo,
            Collector::FetchBlockStats { .. } => RpcOp::GetBlockStats,
            Collector::FetchFee2 => RpcOp::EstimateSmartFee,
            Collector::FetchFee3 => RpcOp::EstimateSmartFee,
            Collector::FetchFee5 => RpcOp::EstimateSmartFee,
            Collector::FetchFee20 => RpcOp::EstimateSmartFee,
            Collector::FetchHashPs120 => RpcOp::GetNetworkHashPs,
            Collector::FetchHashPs1 => RpcOp::GetNetworkHashPs,
            Collector::FetchBanned => RpcOp::ListBanned,
            Collector::FetchChainTips => RpcOp::GetChainTips,
            Collector::FetchMempool => RpcOp::GetMempoolInfo,
            Collector::FetchNetTotals => RpcOp::GetNetTotals,
            Collector::Done => RpcOp::GetNetworkInfo,
            Collector::Failed { .. } => RpcOp::GetNetworkInfo,
        }
    }

    /// Whether the invocation has reached one of its two terminal
    /// outcomes.
    pub fn is_terminal(&self) -> (r: bool)
        ensures
            r == (*self is Done || *self is Failed),
    {
        match self {
            Collector::Done => true,
            Collector::Failed { .. } => true,
            _ => false,
        }
    }

    /// The invocation's outcome: completed, or the first failed remote
    /// call.
    pub fn into_outcome(self) -> (r: Result<(), RpcError>)
        requires
            self is Done || self is Failed,
        ensures
            self is Done ==> r == Ok::<(), RpcError>(()),
            self is Failed ==> r == Err::<(), RpcError>(self->error),
    {
        match self {
            Collector::Done => Ok(()),
            Collector::Failed { error } => Err(error),
            _ => {
                proof {
                    assert(false);
                }
                Ok(())
            },
        }
    }

    /// Answer the pending query with the driver's reply: the collector
    /// writes the step's readings into the sink and hands back the next
    /// query, or nothing once the sequence is complete or a call has
    /// failed. A failure writes nothing — samples applied by earlier steps
    /// stay, later steps never run.
    pub fn on_event(self, sink: &mut MetricSink, event: RpcEvent) -> (r: (Collector, Option<
        RpcRequest,
    >))
        requires
            expects(self, event),
        ensures
            r.0 == next_state(self, event),
            r.1 == next_request(self, event),
            final(sink)@ == old(sink)@ + step_samples(self, event),
    {
        match (self, event) {
            (c0, RpcEvent::Failed { message }) => {
                let op = c0.current_op();
                (Collector::Failed { error: RpcError { op, message } }, None)
            },
            (Collector::FetchNetworkInfo, RpcEvent::NetworkInfo(net)) => (
                Collector::FetchBlockchainInfo { net },
                Some(RpcRequest::GetBlockchainInfo),
            ),
            (Collector::FetchBlockchainInfo { net }, RpcEvent::BlockchainInfo(info)) => {
                apply_chain_info(sink, &info);
                let BlockchainInfo { chain, best_block_hash, .. } = info;
                (Collector::FetchUptime { net, chain, best_block_hash }, Some(RpcRequest::Uptime))
            },
            (Collector::FetchUptime { net, chain, best_block_hash }, RpcEvent::Uptime(u)) => {
                apply_uptime(sink, net.version, net.protocol_version, chain, u);
                (
                    Collector::FetchBlockInfo { net },
                    Some(RpcRequest::GetBlockInfo { block_hash: best_block_hash }),
                )
            },
            (Collector::FetchBlockInfo { net }, RpcEvent::BlockInfo { height }) => (
                Collector::FetchBlockStats { net },
                Some(RpcRequest::GetBlockStats { height }),
            ),
            (Collector::FetchBlockStats { net }, RpcEvent::BlockStats(bs)) => {
                apply_block_stats(sink, &bs);
                apply_peer_info(sink, &net);
                apply_warnings(sink, net.warnings);
                (Collector::FetchFee2, Some(RpcRequest::EstimateSmartFee { conf_target: 2 }))
            },
            (Collector::FetchFee2, RpcEvent::SmartFee { fee_rate_sats }) => {
                apply_fee(sink, GaugeId::SmartFee2, fee_rate_sats);
                (Collector::FetchFee3, Some(RpcRequest::EstimateSmartFee { conf_target: 3 }))
            },
            (Collector::FetchFee3, RpcEvent::SmartFee { fee_rate_sats }) => {
                apply_fee(sink, GaugeId::SmartFee3, fee_rate_sats);
                (Collector::FetchFee5, Some(RpcRequest::EstimateSmartFee { conf_target: 5 }))
            },
            (Collector::FetchFee5, RpcEvent::SmartFee { fee_rate_sats }) => {
                apply_fee(sink, GaugeId::SmartFee5, fee_rate_sats);
                (Collector::FetchFee20, Some(RpcRequest::EstimateSmartFee { conf_target: 20 }))
            },
            (Collector::FetchFee20, RpcEvent::SmartFee { fee_rate_sats }) => {
                apply_fee(sink, GaugeId::SmartFee20, fee_rate_sats);
                (Collector::FetchHashPs120, Some(RpcRequest::GetNetworkHashPs { nblocks: 120 }))
            },
            (Collector::FetchHashPs120, RpcEvent::NetworkHashPs { rate_bits }) => {
                sink.apply(
                    Sample::SetGauge { series: SeriesKey::Plain(GaugeId::HashPs120), value: rate_bits },
                );
                (Collector::FetchHashPs1, Some(RpcRequest::GetNetworkHashPs { nblocks: 1 }))
            },
            (Collector::FetchHashPs1, RpcEvent::NetworkHashPs { rate_bits }) => {
                sink.apply(
                    Sample::SetGauge { series: SeriesKey::Plain(GaugeId::HashPs1), value: rate_bits },
                );
                (Collector::FetchBanned, Some(RpcRequest::ListBanned))
            },
            (Collector::FetchBanned, RpcEvent::Banned(bans)) => {
                apply_bans(sink, &bans);
                (Collector::FetchChainTips, Some(RpcRequest::GetChainTips))
            },
            (Collector::FetchChainTips, RpcEvent::ChainTips(tips)) => {
                let n: u64 = tips.len() as u64;
                sink.apply(
                    Sample::SetGauge { series: SeriesKey::Plain(GaugeId::NumChainTips), value: n },
                );
                (Collector::FetchMempool, Some(RpcRequest::GetMempoolInfo))
            },
            (Collector::FetchMempool, RpcEvent::MempoolInfo(m)) => {
                apply_mempool(sink, &m);
                (Collector::FetchNetTotals, Some(RpcRequest::GetNetTotals))
            },
            (Collector::FetchNetTotals, RpcEvent::NetTotals(t)) => {
                apply_net_totals(sink, &t);
                (Collector::Done, None)
            },
            _ => {
                proof {
                    assert(false);
                }
                (Collector::Done, None)
            },
        }
    }
}

} // verus!
