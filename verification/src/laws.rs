//! Properties of a whole collector invocation.
//!
//! The collector is driven one event at a time; the functions here describe
//! complete runs: what a run that answers every query writes into the sink,
//! and how a run that hits a failure stops.

use vstd::prelude::*;

use crate::collector::{
    ban_reason, ban_samples, block_stats_samples, chain_info_samples, chain_tips_samples, expects,
    fee_samples, mempool_samples, net_totals_samples, next_request, next_state, peer_samples,
    pending_op, set_sample, step_samples, uptime_samples, warnings_delta, warnings_samples,
    Collector,
};
use crate::metrics::{
    counter_total, gauge_value, sets_of, GaugeId, SampleV, SeriesKeyV,
};
use crate::rpc::{
    BanEntry, BlockStats, BlockchainInfo, ChainTip, MempoolInfo, NetTotals, NetworkInfo, RpcError,
    RpcEvent,
};

verus! {

// Ambient lemmas are brought in per proof: the journal-evaluation lemmas
// expand push chains eagerly, and a proof that reasons over whole-run
// concatenations must not pay for that expansion.

/// The collector's state after answering a whole sequence of events.
pub open spec fn run_state(c: Collector, events: Seq<RpcEvent>) -> Collector
    decreases events.len(),
{
    if events.len() == 0 {
        c
    } else {
        next_state(run_state(c, events.drop_last()), events.last())
    }
}

/// Everything a whole sequence of events writes into the sink, in order.
pub open spec fn run_samples(c: Collector, events: Seq<RpcEvent>) -> Seq<SampleV>
    decreases events.len(),
{
    if events.len() == 0 {
        Seq::empty()
    } else {
        run_samples(c, events.drop_last()) + step_samples(
            run_state(c, events.drop_last()),
            events.last(),
        )
    }
}

/// Whether each event of the sequence answers what the collector then
/// waits for.
pub open spec fn run_expected(c: Collector, events: Seq<RpcEvent>) -> bool
    decreases events.len(),
{
    events.len() == 0 || (run_expected(c, events.drop_last()) && expects(
        run_state(c, events.drop_last()),
        events.last(),
    ))
}

pub broadcast proof fn lemma_run_state_push(c: Collector, events: Seq<RpcEvent>, e: RpcEvent)
    ensures
        #[trigger] run_state(c, events.push(e)) == next_state(run_state(c, events), e),
{
    assert(events.push(e).drop_last() =~= events);
    assert(events.push(e).last() == e);
}

pub broadcast proof fn lemma_run_samples_push(c: Collector, events: Seq<RpcEvent>, e: RpcEvent)
    ensures
        #[trigger] run_samples(c, events.push(e)) == run_samples(c, events) + step_samples(
            run_state(c, events),
            e,
        ),
{
    assert(events.push(e).drop_last() =~= events);
    assert(events.push(e).last() == e);
}

pub broadcast proof fn lemma_run_expected_push(c: Collector, events: Seq<RpcEvent>, e: RpcEvent)
    ensures
        #[trigger] run_expected(c, events.push(e)) == (run_expected(c, events) && expects(
            run_state(c, events),
            e,
        )),
{
    assert(events.push(e).drop_last() =~= events);
    assert(events.push(e).last() == e);
}

/// The full set of replies for one scrape on which every remote call
/// succeeds.
pub struct Responses {
    pub net: NetworkInfo,
    pub chain: BlockchainInfo,
    pub uptime: u64,
    /// The height the best block's hash resolves to.
    pub best_height: u64,
    pub stats: BlockStats,
    pub fee2: Option<u64>,
    pub fee3: Option<u64>,
    pub fee5: Option<u64>,
    pub fee20: Option<u64>,
    pub hash120_bits: u64,
    pub hash1_bits: u64,
    pub bans: Vec<BanEntry>,
    pub tips: Vec<ChainTip>,
    pub mempool: MempoolInfo,
    pub totals: NetTotals,
}

/// The event sequence of a scrape on which every remote call succeeds, in
/// the order the collector asks.
pub open spec fn success_events(r: Responses) -> Seq<RpcEvent> {
    Seq::empty()
        .push(RpcEvent::NetworkInfo(r.net))
        .push(RpcEvent::BlockchainInfo(r.chain))
        .push(RpcEvent::Uptime(r.uptime))
        .push(RpcEvent::BlockInfo { height: r.best_height })
        .push(RpcEvent::BlockStats(r.stats))
        .push(RpcEvent::SmartFee { fee_rate_sats: r.fee2 })
        .push(RpcEvent::SmartFee { fee_rate_sats: r.fee3 })
        .push(RpcEvent::SmartFee { fee_rate_sats: r.fee5 })
        .push(RpcEvent::SmartFee { fee_rate_sats: r.fee20 })
        .push(RpcEvent::NetworkHashPs { rate_bits: r.hash120_bits })
        .push(RpcEvent::NetworkHashPs { rate_bits: r.hash1_bits })
        .push(RpcEvent::Banned(r.bans))
        .push(RpcEvent::ChainTips(r.tips))
        .push(RpcEvent::MempoolInfo(r.mempool))
        .push(RpcEvent::NetTotals(r.totals))
}

/// Everything a successful scrape writes, as one flat journal: the mapping
/// of every response field onto its series, in collection order.
pub open spec fn collected_samples(r: Responses) -> Seq<SampleV> {
    chain_info_samples(r.chain) + uptime_samples(
        r.net.version,
        r.net.protocol_version,
        r.chain.chain@,
        r.uptime,
    ) + block_stats_samples(r.stats) + peer_samples(r.net) + warnings_samples(r.net.warnings)
        + fee_samples(GaugeId::SmartFee2, r.fee2) + fee_samples(GaugeId::SmartFee3, r.fee3)
        + fee_samples(GaugeId::SmartFee5, r.fee5) + fee_samples(GaugeId::SmartFee20, r.fee20)
        + Seq::empty().push(set_sample(GaugeId::HashPs120, r.hash120_bits))
        + Seq::empty().push(set_sample(GaugeId::HashPs1, r.hash1_bits)) + ban_samples(r.bans@)
        + chain_tips_samples(r.tips@) + mempool_samples(r.mempool) + net_totals_samples(r.totals)
}

/// What a successful scrape writes, as the machine writes it.
pub open spec fn success_trace(r: Responses) -> Seq<SampleV> {
    run_samples(Collector::FetchNetworkInfo, success_events(r))
}

/// A run over the success events is accepted step by step, ends in the
/// completed state, and writes exactly the flat mapping of the responses.
pub proof fn lemma_success_run(r: Responses)
    ensures
        run_expected(Collector::FetchNetworkInfo, success_events(r)),
        run_state(Collector::FetchNetworkInfo, success_events(r)) == Collector::Done,
        success_trace(r) == collected_samples(r),
{
    broadcast use
        lemma_run_state_push,
        lemma_run_samples_push,
        lemma_run_expected_push,
        crate::metrics::lemma_append_assoc;

}

/// Whether the response data carries a value for a fixed gauge. Only the
/// optional fields can leave one uncovered: the inbound/outbound peer
/// counts and the four fee estimates.
pub open spec fn covers(r: Responses, g: GaugeId) -> bool {
    match g {
        GaugeId::ConnectionsIn => r.net.connections_in is Some,
        GaugeId::ConnectionsOut => r.net.connections_out is Some,
        GaugeId::SmartFee2 => r.fee2 is Some,
        GaugeId::SmartFee3 => r.fee3 is Some,
        GaugeId::SmartFee5 => r.fee5 is Some,
        GaugeId::SmartFee20 => r.fee20 is Some,
        _ => true,
    }
}

/// The reading a fixed gauge shows after a successful collection over `r`.
/// The unbroadcast count reads zero when the field is absent; every other
/// optional gauge is meaningful only where `covers` holds.
pub open spec fn reading_of(r: Responses, g: GaugeId) -> u64
    recommends
        covers(r, g),
{
    match g {
        GaugeId::Blocks => r.chain.blocks,
        GaugeId::Difficulty => r.chain.difficulty_bits,
        GaugeId::SizeOnDisk => r.chain.size_on_disk,
        GaugeId::VerificationProgress => r.chain.verification_progress_bits,
        GaugeId::LatestBlockSize => r.stats.total_size,
        GaugeId::LatestBlockTxs => r.stats.txs,
        GaugeId::LatestBlockHeight => r.stats.height,
        GaugeId::LatestBlockWeight => r.stats.total_weight,
        GaugeId::LatestBlockInputs => r.stats.ins,
        GaugeId::LatestBlockOutputs => r.stats.outs,
        GaugeId::LatestBlockValue => r.stats.total_out_sats,
        GaugeId::LatestBlockFee => r.stats.total_fee_sats,
        GaugeId::Peers => r.net.connections,
        GaugeId::ConnectionsIn => match r.net.connections_in {
            Some(v) => v,
            None => 0u64,
        },
        GaugeId::ConnectionsOut => match r.net.connections_out {
            Some(v) => v,
            None => 0u64,
        },
        GaugeId::SmartFee2 => match r.fee2 {
            Some(v) => v,
            None => 0u64,
        },
        GaugeId::SmartFee3 => match r.fee3 {
            Some(v) => v,
            None => 0u64,
        },
        GaugeId::SmartFee5 => match r.fee5 {
            Some(v) => v,
            None => 0u64,
        },
        GaugeId::SmartFee20 => match r.fee20 {
            Some(v) => v,
            None => 0u64,
        },
        GaugeId::HashPs120 => r.hash120_bits,
        GaugeId::HashPs1 => r.hash1_bits,
        GaugeId::NumChainTips => r.tips@.len() as u64,
        GaugeId::MempoolBytes => r.mempool.bytes,
        GaugeId::MempoolSize => r.mempool.size,
        GaugeId::MempoolUsage => r.mempool.usage,
        GaugeId::MempoolUnbroadcast => match r.mempool.unbroadcast_count {
            Some(v) => v,
            None => 0u64,
        },
        GaugeId::TotalBytesRecv => r.totals.total_bytes_recv,
        GaugeId::TotalBytesSent => r.totals.total_bytes_sent,
    }
}

/// The ban list contributes two samples per entry and never touches the
/// warnings counter.
pub proof fn lemma_ban_samples_len(bans: Seq<BanEntry>)
    ensures
        ban_samples(bans).len() == 2 * bans.len(),
        counter_total(ban_samples(bans)) == 0,
    decreases bans.len(),
{
    broadcast use
        crate::metrics::lemma_counter_total_empty,
        crate::metrics::lemma_counter_total_push,
        crate::metrics::lemma_counter_total_concat;

    if bans.len() > 0 {
        lemma_ban_samples_len(bans.drop_last());
    }
}

/// The ban list writes only ban-timestamp series: any other series is
/// untouched by it.
pub proof fn lemma_ban_samples_other_keys(bans: Seq<BanEntry>, key: SeriesKeyV)
    requires
        !(key is BanCreated),
        !(key is BannedUntil),
    ensures
        sets_of(ban_samples(bans), key) == 0,
        gauge_value(ban_samples(bans), key) is None,
    decreases bans.len(),
{
    broadcast use
        crate::metrics::lemma_sets_of_empty,
        crate::metrics::lemma_sets_of_push,
        crate::metrics::lemma_sets_of_concat,
        crate::metrics::lemma_gauge_value_empty,
        crate::metrics::lemma_gauge_value_push,
        crate::metrics::lemma_gauge_value_concat;

    if bans.len() > 0 {
        lemma_ban_samples_other_keys(bans.drop_last(), key);
    }
}

/// Ban series for an address that is not in the list are untouched by the
/// list's samples.
pub proof fn lemma_ban_samples_fresh_address(bans: Seq<BanEntry>, address: Seq<char>)
    requires
        forall|j: int| 0 <= j < bans.len() ==> bans[j].address@ != address,
    ensures
        sets_of(ban_samples(bans), SeriesKeyV::BanCreated { address, reason: ban_reason() }) == 0,
        sets_of(ban_samples(bans), SeriesKeyV::BannedUntil { address, reason: ban_reason() }) == 0,
        gauge_value(ban_samples(bans), SeriesKeyV::BanCreated { address, reason: ban_reason() })
            is None,
        gauge_value(ban_samples(bans), SeriesKeyV::BannedUntil { address, reason: ban_reason() })
            is None,
    decreases bans.len(),
{
    broadcast use
        crate::metrics::lemma_sets_of_empty,
        crate::metrics::lemma_sets_of_push,
        crate::metrics::lemma_sets_of_concat,
        crate::metrics::lemma_gauge_value_empty,
        crate::metrics::lemma_gauge_value_push,
        crate::metrics::lemma_gauge_value_concat;

    if bans.len() > 0 {
        lemma_ban_samples_fresh_address(bans.drop_last(), address);
        assert(bans[bans.len() - 1].address@ != address);
    }
}

/// How the fixed gauge `g` fares under this component of the flat
/// mapping.
proof fn lemma_chain_part(r: Responses, g: GaugeId)
    ensures
        sets_of(chain_info_samples(r.chain), SeriesKeyV::Plain(g)) == (if g == GaugeId::Blocks || g == GaugeId::Difficulty || g == GaugeId::SizeOnDisk || g == GaugeId::VerificationProgress { 1nat } else { 0nat }),
        gauge_value(chain_info_samples(r.chain), SeriesKeyV::Plain(g)) == (if g == GaugeId::Blocks { Some(r.chain.blocks) } else if g == GaugeId::Difficulty { Some(r.chain.difficulty_bits) } else if g == GaugeId::SizeOnDisk { Some(r.chain.size_on_disk) } else if g == GaugeId::VerificationProgress { Some(r.chain.verification_progress_bits) } else { None::<u64> }),
{
    broadcast use
        crate::metrics::lemma_sets_of_empty,
        crate::metrics::lemma_sets_of_push,
        crate::metrics::lemma_gauge_value_empty,
        crate::metrics::lemma_gauge_value_push;

}

/// How the fixed gauge `g` fares under this component of the flat
/// mapping.
proof fn lemma_uptime_part(r: Responses, g: GaugeId)
    ensures
        sets_of(uptime_samples(r.net.version, r.net.protocol_version, r.chain.chain@, r.uptime), SeriesKeyV::Plain(g)) == (0nat),
        gauge_value(uptime_samples(r.net.version, r.net.protocol_version, r.chain.chain@, r.uptime), SeriesKeyV::Plain(g)) == (None::<u64>),
{
    broadcast use
        crate::metrics::lemma_sets_of_empty,
        crate::metrics::lemma_sets_of_push,
        crate::metrics::lemma_gauge_value_empty,
        crate::metrics::lemma_gauge_value_push;

}

/// How the fixed gauge `g` fares under this component of the flat
/// mapping.
proof fn lemma_block_stats_part(r: Responses, g: GaugeId)
    ensures
        sets_of(block_stats_samples(r.stats), SeriesKeyV::Plain(g)) == (if g == GaugeId::LatestBlockSize || g == GaugeId::LatestBlockTxs || g == GaugeId::LatestBlockHeight || g == GaugeId::LatestBlockWeight || g == GaugeId::LatestBlockInputs || g == GaugeId::LatestBlockOutputs || g == GaugeId::LatestBlockValue || g == GaugeId::LatestBlockFee { 1nat } else { 0nat }),
        gauge_value(block_stats_samples(r.stats), SeriesKeyV::Plain(g)) == (if g == GaugeId::LatestBlockSize { Some(r.stats.total_size) } else if g == GaugeId::LatestBlockTxs { Some(r.stats.txs) } else if g == GaugeId::LatestBlockHeight { Some(r.stats.height) } else if g == GaugeId::LatestBlockWeight { Some(r.stats.total_weight) } else if g == GaugeId::LatestBlockInputs { Some(r.stats.ins) } else if g == GaugeId::LatestBlockOutputs { Some(r.stats.outs) } else if g == GaugeId::LatestBlockValue { Some(r.stats.total_out_sats) } else if g == GaugeId::LatestBlockFee { Some(r.stats.total_fee_sats) } else { None::<u64> }),
{
    broadcast use
        crate::metrics::lemma_sets_of_empty,
        crate::metrics::lemma_sets_of_push,
        crate::metrics::lemma_gauge_value_empty,
        crate::metrics::lemma_gauge_value_push;

}

/// How the fixed gauge `g` fares under this component of the flat
/// mapping.
proof fn lemma_peer_part(r: Responses, g: GaugeId)
    ensures
        sets_of(peer_samples(r.net), SeriesKeyV::Plain(g)) == (if g == GaugeId::Peers || (g == GaugeId::ConnectionsIn && r.net.connections_in is Some) || (g == GaugeId::ConnectionsOut && r.net.connections_out is Some) { 1nat } else { 0nat }),
        gauge_value(peer_samples(r.net), SeriesKeyV::Plain(g)) == (if g == GaugeId::Peers { Some(r.net.connections) } else if g == GaugeId::ConnectionsIn { r.net.connections_in } else if g == GaugeId::ConnectionsOut { r.net.connections_out } else { None::<u64> }),
{
    broadcast use
        crate::metrics::lemma_sets_of_empty,
        crate::metrics::lemma_sets_of_push,
        crate::metrics::lemma_gauge_value_empty,
        crate::metrics::lemma_gauge_value_push;

}

/// How the fixed gauge `g` fares under this component of the flat
/// mapping.
proof fn lemma_warnings_part(r: Responses, g: GaugeId)
    ensures
        sets_of(warnings_samples(r.net.warnings), SeriesKeyV::Plain(g)) == (0nat),
        gauge_value(warnings_samples(r.net.warnings), SeriesKeyV::Plain(g)) == (None::<u64>),
{
    broadcast use
        crate::metrics::lemma_sets_of_empty,
        crate::metrics::lemma_sets_of_push,
        crate::metrics::lemma_gauge_value_empty,
        crate::metrics::lemma_gauge_value_push;

}

/// How the fixed gauge `g` fares under this component of the flat
/// mapping.
proof fn lemma_fee2_part(r: Responses, g: GaugeId)
    ensures
        sets_of(fee_samples(GaugeId::SmartFee2, r.fee2), SeriesKeyV::Plain(g)) == (if g == GaugeId::SmartFee2 && r.fee2 is Some { 1nat } else { 0nat }),
        gauge_value(fee_samples(GaugeId::SmartFee2, r.fee2), SeriesKeyV::Plain(g)) == (if g == GaugeId::SmartFee2 { r.fee2 } else { None::<u64> }),
{
    broadcast use
        crate::metrics::lemma_sets_of_empty,
        crate::metrics::lemma_sets_of_push,
        crate::metrics::lemma_gauge_value_empty,
        crate::metrics::lemma_gauge_value_push;

}

/// How the fixed gauge `g` fares under this component of the flat
/// mapping.
proof fn lemma_fee3_part(r: Responses, g: GaugeId)
    ensures
        sets_of(fee_samples(GaugeId::SmartFee3, r.fee3), SeriesKeyV::Plain(g)) == (if g == GaugeId::SmartFee3 && r.fee3 is Some { 1nat } else { 0nat }),
        gauge_value(fee_samples(GaugeId::SmartFee3, r.fee3), SeriesKeyV::Plain(g)) == (if g == GaugeId::SmartFee3 { r.fee3 } else { None::<u64> }),
{
    broadcast use
        crate::metrics::lemma_sets_of_empty,
        crate::metrics::lemma_sets_of_push,
        crate::metrics::lemma_gauge_value_empty,
        crate::metrics::lemma_gauge_value_push;

}

/// How the fixed gauge `g` fares under this component of the flat
/// mapping.
proof fn lemma_fee5_part(r: Responses, g: GaugeId)
    ensures
        sets_of(fee_samples(GaugeId::SmartFee5, r.fee5), SeriesKeyV::Plain(g)) == (if g == GaugeId::SmartFee5 && r.fee5 is Some { 1nat } else { 0nat }),
        gauge_value(fee_samples(GaugeId::SmartFee5, r.fee5), SeriesKeyV::Plain(g)) == (if g == GaugeId::SmartFee5 { r.fee5 } else { None::<u64> }),
{
    broadcast use
        crate::metrics::lemma_sets_of_empty,
        crate::metrics::lemma_sets_of_push,
        crate::metrics::lemma_gauge_value_empty,
        crate::metrics::lemma_gauge_value_push;

}

/// How the fixed gauge `g` fares under this component of the flat
/// mapping.
proof fn lemma_fee20_part(r: Responses, g: GaugeId)
    ensures
        sets_of(fee_samples(GaugeId::SmartFee20, r.fee20), SeriesKeyV::Plain(g)) == (if g == GaugeId::SmartFee20 && r.fee20 is Some { 1nat } else { 0nat }),
        gauge_value(fee_samples(GaugeId::SmartFee20, r.fee20), SeriesKeyV::Plain(g)) == (if g == GaugeId::SmartFee20 { r.fee20 } else { None::<u64> }),
{
    broadcast use
        crate::metrics::lemma_sets_of_empty,
        crate::metrics::lemma_sets_of_push,
        crate::metrics::lemma_gauge_value_empty,
        crate::metrics::lemma_gauge_value_push;

}

/// How the fixed gauge `g` fares under this component of the flat
/// mapping.
proof fn lemma_hash120_part(r: Responses, g: GaugeId)
    ensures
        sets_of(Seq::empty().push(set_sample(GaugeId::HashPs120, r.hash120_bits)), SeriesKeyV::Plain(g)) == (if g == GaugeId::HashPs120 { 1nat } else { 0nat }),
        gauge_value(Seq::empty().push(set_sample(GaugeId::HashPs120, r.hash120_bits)), SeriesKeyV::Plain(g)) == (if g == GaugeId::HashPs120 { Some(r.hash120_bits) } else { None::<u64> }),
{
    broadcast use
        crate::metrics::lemma_sets_of_empty,
        crate::metrics::lemma_sets_of_push,
        crate::metrics::lemma_gauge_value_empty,
        crate::metrics::lemma_gauge_value_push;

}

/// How the fixed gauge `g` fares under this component of the flat
/// mapping.
proof fn lemma_hash1_part(r: Responses, g: GaugeId)
    ensures
        sets_of(Seq::empty().push(set_sample(GaugeId::HashPs1, r.hash1_bits)), SeriesKeyV::Plain(g)) == (if g == GaugeId::HashPs1 { 1nat } else { 0nat }),
        gauge_value(Seq::empty().push(set_sample(GaugeId::HashPs1, r.hash1_bits)), SeriesKeyV::Plain(g)) == (if g == GaugeId::HashPs1 { Some(r.hash1_bits) } else { None::<u64> }),
{
    broadcast use
        crate::metrics::lemma_sets_of_empty,
        crate::metrics::lemma_sets_of_push,
        crate::metrics::lemma_gauge_value_empty,
        crate::metrics::lemma_gauge_value_push;

}

/// How the fixed gauge `g` fares under this component of the flat
/// mapping.
proof fn lemma_tips_part(r: Responses, g: GaugeId)
    ensures
        sets_of(chain_tips_samples(r.tips@), SeriesKeyV::Plain(g)) == (if g == GaugeId::NumChainTips { 1nat } else { 0nat }),
        gauge_value(chain_tips_samples(r.tips@), SeriesKeyV::Plain(g)) == (if g == GaugeId::NumChainTips { Some(r.tips@.len() as u64) } else { None::<u64> }),
{
    broadcast use
        crate::metrics::lemma_sets_of_empty,
        crate::metrics::lemma_sets_of_push,
        crate::metrics::lemma_gauge_value_empty,
        crate::metrics::lemma_gauge_value_push;

}

/// How the fixed gauge `g` fares under this component of the flat
/// mapping.
proof fn lemma_mempool_part(r: Responses, g: GaugeId)
    ensures
        sets_of(mempool_samples(r.mempool), SeriesKeyV::Plain(g)) == (if g == GaugeId::MempoolBytes || g == GaugeId::MempoolSize || g == GaugeId::MempoolUsage || g == GaugeId::MempoolUnbroadcast { 1nat } else { 0nat }),
        gauge_value(mempool_samples(r.mempool), SeriesKeyV::Plain(g)) == (if g == GaugeId::MempoolBytes { Some(r.mempool.bytes) } else if g == GaugeId::MempoolSize { Some(r.mempool.size) } else if g == GaugeId::MempoolUsage { Some(r.mempool.usage) } else if g == GaugeId::MempoolUnbroadcast { Some(match r.mempool.unbroadcast_count { Some(v) => v, None => 0u64 }) } else { None::<u64> }),
{
    broadcast use
        crate::metrics::lemma_sets_of_empty,
        crate::metrics::lemma_sets_of_push,
        crate::metrics::lemma_gauge_value_empty,
        crate::metrics::lemma_gauge_value_push;

}

/// How the fixed gauge `g` fares under this component of the flat
/// mapping.
proof fn lemma_totals_part(r: Responses, g: GaugeId)
    ensures
        sets_of(net_totals_samples(r.totals), SeriesKeyV::Plain(g)) == (if g == GaugeId::TotalBytesRecv || g == GaugeId::TotalBytesSent { 1nat } else { 0nat }),
        gauge_value(net_totals_samples(r.totals), SeriesKeyV::Plain(g)) == (if g == GaugeId::TotalBytesRecv { Some(r.totals.total_bytes_recv) } else if g == GaugeId::TotalBytesSent { Some(r.totals.total_bytes_sent) } else { None::<u64> }),
{
    broadcast use
        crate::metrics::lemma_sets_of_empty,
        crate::metrics::lemma_sets_of_push,
        crate::metrics::lemma_gauge_value_empty,
        crate::metrics::lemma_gauge_value_push;

}

/// How each fixed gauge reads after the flat mapping alone: covered gauges
/// read their mapped field, uncovered ones are never written.
#[verifier::rlimit(100)]
proof fn lemma_collected_gauge(r: Responses, g: GaugeId)
    ensures
        sets_of(collected_samples(r), SeriesKeyV::Plain(g)) == (if covers(r, g) {
            1nat
        } else {
            0nat
        }),
        gauge_value(collected_samples(r), SeriesKeyV::Plain(g)) == (if covers(r, g) {
            Some(reading_of(r, g))
        } else {
            None::<u64>
        }),
{
    broadcast use
        crate::metrics::lemma_sets_of_concat,
        crate::metrics::lemma_gauge_value_concat;

    lemma_ban_samples_other_keys(r.bans@, SeriesKeyV::Plain(g));
    lemma_chain_part(r, g);
    lemma_uptime_part(r, g);
    lemma_block_stats_part(r, g);
    lemma_peer_part(r, g);
    lemma_warnings_part(r, g);
    lemma_fee2_part(r, g);
    lemma_fee3_part(r, g);
    lemma_fee5_part(r, g);
    lemma_fee20_part(r, g);
    lemma_hash120_part(r, g);
    lemma_hash1_part(r, g);
    lemma_tips_part(r, g);
    lemma_mempool_part(r, g);
    lemma_totals_part(r, g);
}

/// On a successful collection, every fixed gauge the response data covers
/// is written exactly once and thereafter reads the mapped field's value;
/// a gauge the data does not cover is not written at all and keeps
/// whatever value it had before the invocation.
pub proof fn lemma_gauge_mapping(r: Responses, prior: Seq<SampleV>, g: GaugeId)
    ensures
        covers(r, g) ==> sets_of(success_trace(r), SeriesKeyV::Plain(g)) == 1,
        covers(r, g) ==> gauge_value(prior + success_trace(r), SeriesKeyV::Plain(g)) == Some(
            reading_of(r, g),
        ),
        !covers(r, g) ==> sets_of(success_trace(r), SeriesKeyV::Plain(g)) == 0,
        !covers(r, g) ==> gauge_value(prior + success_trace(r), SeriesKeyV::Plain(g))
            == gauge_value(prior, SeriesKeyV::Plain(g)),
{
    broadcast use
        crate::metrics::lemma_sets_of_concat,
        crate::metrics::lemma_gauge_value_concat;

    lemma_success_run(r);
    lemma_collected_gauge(r, g);
}

/// On a successful collection the uptime series labelled by the client
/// version, the protocol version and the chain name is written exactly
/// once, with the uptime reading.
#[verifier::rlimit(80)]
pub proof fn lemma_uptime_mapping(r: Responses, prior: Seq<SampleV>)
    ensures
        sets_of(
            success_trace(r),
            SeriesKeyV::Uptime {
                version: r.net.version,
                protocol_version: r.net.protocol_version,
                chain: r.chain.chain@,
            },
        ) == 1,
        gauge_value(
            prior + success_trace(r),
            SeriesKeyV::Uptime {
                version: r.net.version,
                protocol_version: r.net.protocol_version,
                chain: r.chain.chain@,
            },
        ) == Some(r.uptime),
{
    broadcast use
        crate::metrics::lemma_sets_of_empty,
        crate::metrics::lemma_sets_of_push,
        crate::metrics::lemma_sets_of_concat,
        crate::metrics::lemma_gauge_value_empty,
        crate::metrics::lemma_gauge_value_push,
        crate::metrics::lemma_gauge_value_concat;

    lemma_success_run(r);
    lemma_ban_samples_other_keys(
        r.bans@,
        SeriesKeyV::Uptime {
            version: r.net.version,
            protocol_version: r.net.protocol_version,
            chain: r.chain.chain@,
        },
    );
}

/// One successful collection advances the warnings counter by exactly the
/// snapshot's warning count: nothing for an empty single string, one for a
/// non-empty single string, the length for a list. Monotonicity across
/// invocations is `crate::metrics::lemma_counter_monotonic`.
#[verifier::rlimit(80)]
pub proof fn lemma_warnings_mapping(r: Responses, prior: Seq<SampleV>)
    ensures
        counter_total(success_trace(r)) == warnings_delta(r.net.warnings),
        counter_total(prior + success_trace(r)) == counter_total(prior) + warnings_delta(
            r.net.warnings,
        ),
{
    broadcast use
        crate::metrics::lemma_counter_total_empty,
        crate::metrics::lemma_counter_total_push,
        crate::metrics::lemma_counter_total_concat;

    lemma_success_run(r);
    lemma_ban_samples_len(r.bans@);
    assert(counter_total(chain_info_samples(r.chain)) == 0);
    assert(counter_total(
        uptime_samples(r.net.version, r.net.protocol_version, r.chain.chain@, r.uptime),
    ) == 0);
    assert(counter_total(block_stats_samples(r.stats)) == 0);
    assert(counter_total(peer_samples(r.net)) == 0);
    assert(counter_total(warnings_samples(r.net.warnings)) == warnings_delta(r.net.warnings));
    assert(counter_total(fee_samples(GaugeId::SmartFee2, r.fee2)) == 0);
    assert(counter_total(fee_samples(GaugeId::SmartFee3, r.fee3)) == 0);
    assert(counter_total(fee_samples(GaugeId::SmartFee5, r.fee5)) == 0);
    assert(counter_total(fee_samples(GaugeId::SmartFee20, r.fee20)) == 0);
    assert(counter_total(Seq::empty().push(set_sample(GaugeId::HashPs120, r.hash120_bits)))
        == 0);
    assert(counter_total(Seq::empty().push(set_sample(GaugeId::HashPs1, r.hash1_bits))) == 0);
    assert(counter_total(chain_tips_samples(r.tips@)) == 0);
    assert(counter_total(mempool_samples(r.mempool)) == 0);
    assert(counter_total(net_totals_samples(r.totals)) == 0);
}

/// The ban-list mapping: a list of N entries with pairwise distinct
/// addresses yields exactly 2N samples, and for each entry the two series
/// labelled by its address and the constant reason are each written exactly
/// once, with the entry's creation and expiry timestamps.
pub proof fn lemma_ban_mapping(bans: Seq<BanEntry>, i: int)
    requires
        0 <= i < bans.len(),
        forall|j: int, k: int| 0 <= j < k < bans.len() ==> bans[j].address@ != bans[k].address@,
    ensures
        ban_samples(bans).len() == 2 * bans.len(),
        sets_of(
            ban_samples(bans),
            SeriesKeyV::BanCreated { address: bans[i].address@, reason: ban_reason() },
        ) == 1,
        sets_of(
            ban_samples(bans),
            SeriesKeyV::BannedUntil { address: bans[i].address@, reason: ban_reason() },
        ) == 1,
        gauge_value(
            ban_samples(bans),
            SeriesKeyV::BanCreated { address: bans[i].address@, reason: ban_reason() },
        ) == Some(bans[i].ban_created),
        gauge_value(
            ban_samples(bans),
            SeriesKeyV::BannedUntil { address: bans[i].address@, reason: ban_reason() },
        ) == Some(bans[i].banned_until),
    decreases bans.len(),
{
    broadcast use
        crate::metrics::lemma_sets_of_empty,
        crate::metrics::lemma_sets_of_push,
        crate::metrics::lemma_sets_of_concat,
        crate::metrics::lemma_gauge_value_empty,
        crate::metrics::lemma_gauge_value_push,
        crate::metrics::lemma_gauge_value_concat;

    lemma_ban_samples_len(bans);
    if i == bans.len() - 1 {
        lemma_ban_samples_fresh_address(bans.drop_last(), bans[i].address@);
    } else {
        lemma_ban_mapping(bans.drop_last(), i);
        assert(bans.drop_last()[i] == bans[i]);
        assert(bans[bans.len() - 1].address@ != bans[i].address@);
    }
}

/// Failure short-circuit: answering any pending query with a failure
/// writes nothing into the sink, moves the collector to the failed outcome
/// carrying the failed operation and its cause verbatim, asks for no
/// further query, and the failed collector accepts no further reply — so
/// no later step's series can change in that invocation.
pub proof fn lemma_failure_short_circuit(c: Collector, message: String, later: RpcEvent)
    requires
        expects(c, RpcEvent::Failed { message }),
    ensures
        step_samples(c, RpcEvent::Failed { message }) == Seq::<SampleV>::empty(),
        next_state(c, RpcEvent::Failed { message }) == (Collector::Failed {
            error: RpcError { op: pending_op(c), message },
        }),
        next_request(c, RpcEvent::Failed { message }) is None,
        !expects(next_state(c, RpcEvent::Failed { message }), later),
{
}

/// A completed invocation asks for nothing further and accepts no further
/// reply; the next scrape is a fully independent invocation.
pub proof fn lemma_done_is_terminal(e: RpcEvent)
    ensures
        !expects(Collector::Done, e),
{
}

} // verus!
