use bitcoind_exporter::collector::Collector;
use bitcoind_exporter::metrics::{GaugeId, MetricSink, SeriesKey};
use bitcoind_exporter::rpc::{
    BanEntry, BlockStats, BlockchainInfo, ChainTip, MempoolInfo, NetTotals, NetworkInfo, RpcError,
    RpcEvent, RpcOp, RpcRequest, Warnings,
};

struct Script {
    net: NetworkInfo,
    chain: BlockchainInfo,
    uptime: u64,
    best_height: u64,
    stats: BlockStats,
    fee2: Option<u64>,
    fee3: Option<u64>,
    fee5: Option<u64>,
    fee20: Option<u64>,
    hash120_bits: u64,
    hash1_bits: u64,
    bans: Vec<BanEntry>,
    tips: Vec<ChainTip>,
    mempool: MempoolInfo,
    totals: NetTotals,
}

fn default_script() -> Script {
    Script {
        net: NetworkInfo {
            version: 270000,
            protocol_version: 70016,
            connections: 12,
            connections_in: Some(5),
            connections_out: Some(7),
            warnings: Warnings::Single(String::new()),
        },
        chain: BlockchainInfo {
            blocks: 840000,
            difficulty_bits: 4710267429473925f64.to_bits(),
            size_on_disk: 600123456789,
            verification_progress_bits: 0.9999f64.to_bits(),
            chain: "main".to_string(),
            best_block_hash: "deadbeef".to_string(),
        },
        uptime: 98765,
        best_height: 840000,
        stats: BlockStats {
            total_size: 1_500_000,
            txs: 3000,
            height: 840000,
            total_weight: 3_999_000,
            ins: 7000,
            outs: 9000,
            total_out_sats: 123_456_789_000,
            total_fee_sats: 12_345_678,
        },
        fee2: Some(2100),
        fee3: Some(1800),
        fee5: Some(1500),
        fee20: Some(1000),
        hash120_bits: 6.1e20f64.to_bits(),
        hash1_bits: 5.9e20f64.to_bits(),
        bans: vec![],
        tips: vec![ChainTip { height: 840000 }],
        mempool: MempoolInfo { bytes: 50_000_000, size: 40_000, usage: 90_000_000, unbroadcast_count: Some(3) },
        totals: NetTotals { total_bytes_recv: 111_222_333, total_bytes_sent: 99_888_777 },
    }
}

fn clone_bans(bans: &[BanEntry]) -> Vec<BanEntry> {
    bans.iter()
        .map(|b| BanEntry {
            address: b.address.clone(),
            ban_created: b.ban_created,
            banned_until: b.banned_until,
        })
        .collect()
}

fn respond(req: &RpcRequest, s: &Script) -> RpcEvent {
    match req {
        RpcRequest::GetNetworkInfo => RpcEvent::NetworkInfo(NetworkInfo {
            version: s.net.version,
            protocol_version: s.net.protocol_version,
            connections: s.net.connections,
            connections_in: s.net.connections_in,
            connections_out: s.net.connections_out,
            warnings: match &s.net.warnings {
                Warnings::Single(w) => Warnings::Single(w.clone()),
                Warnings::List(l) => Warnings::List(l.clone()),
            },
        }),
        RpcRequest::GetBlockchainInfo => RpcEvent::BlockchainInfo(BlockchainInfo {
            blocks: s.chain.blocks,
            difficulty_bits: s.chain.difficulty_bits,
            size_on_disk: s.chain.size_on_disk,
            verification_progress_bits: s.chain.verification_progress_bits,
            chain: s.chain.chain.clone(),
            best_block_hash: s.chain.best_block_hash.clone(),
        }),
        RpcRequest::Uptime => RpcEvent::Uptime(s.uptime),
        RpcRequest::GetBlockInfo { block_hash } => {
            assert_eq!(*block_hash, s.chain.best_block_hash);
            RpcEvent::BlockInfo { height: s.best_height }
        }
        RpcRequest::GetBlockStats { height } => {
            assert_eq!(*height, s.best_height);
            RpcEvent::BlockStats(BlockStats {
                total_size: s.stats.total_size,
                txs: s.stats.txs,
                height: s.stats.height,
                total_weight: s.stats.total_weight,
                ins: s.stats.ins,
                outs: s.stats.outs,
                total_out_sats: s.stats.total_out_sats,
                total_fee_sats: s.stats.total_fee_sats,
            })
        }
        RpcRequest::EstimateSmartFee { conf_target } => RpcEvent::SmartFee {
            fee_rate_sats: match conf_target {
                2 => s.fee2,
                3 => s.fee3,
                5 => s.fee5,
                20 => s.fee20,
                other => panic!("unexpected fee horizon {other}"),
            },
        },
        RpcRequest::GetNetworkHashPs { nblocks } => RpcEvent::NetworkHashPs {
            rate_bits: match nblocks {
                120 => s.hash120_bits,
                1 => s.hash1_bits,
                other => panic!("unexpected hash-rate window {other}"),
            },
        },
        RpcRequest::ListBanned => RpcEvent::Banned(clone_bans(&s.bans)),
        RpcRequest::GetChainTips => {
            RpcEvent::ChainTips(s.tips.iter().map(|t| ChainTip { height: t.height }).collect())
        }
        RpcRequest::GetMempoolInfo => RpcEvent::MempoolInfo(MempoolInfo {
            bytes: s.mempool.bytes,
            size: s.mempool.size,
            usage: s.mempool.usage,
            unbroadcast_count: s.mempool.unbroadcast_count,
        }),
        RpcRequest::GetNetTotals => RpcEvent::NetTotals(NetTotals {
            total_bytes_recv: s.totals.total_bytes_recv,
            total_bytes_sent: s.totals.total_bytes_sent,
        }),
    }
}

fn run_collection(sink: &mut MetricSink, s: &Script) -> Result<(), RpcError> {
    let (mut c, first) = Collector::new();
    let mut pending = Some(first);
    let mut steps = 0u32;
    while let Some(req) = pending {
        let ev = respond(&req, s);
        let (next, nreq) = c.on_event(sink, ev);
        c = next;
        pending = nreq;
        steps += 1;
        assert!(steps <= 15, "collection did not terminate");
    }
    assert!(c.is_terminal());
    c.into_outcome()
}

fn plain(sink: &MetricSink, g: GaugeId) -> Option<u64> {
    sink.gauge(&SeriesKey::Plain(g))
}

#[test]
fn success_sets_every_gauge() {
    let mut sink = MetricSink::new();
    let s = default_script();
    assert!(run_collection(&mut sink, &s).is_ok());
    assert_eq!(plain(&sink, GaugeId::Blocks), Some(840000));
    assert_eq!(plain(&sink, GaugeId::Difficulty), Some(4710267429473925f64.to_bits()));
    assert_eq!(plain(&sink, GaugeId::SizeOnDisk), Some(600123456789));
    assert_eq!(plain(&sink, GaugeId::VerificationProgress), Some(0.9999f64.to_bits()));
    assert_eq!(plain(&sink, GaugeId::LatestBlockSize), Some(1_500_000));
    assert_eq!(plain(&sink, GaugeId::LatestBlockTxs), Some(3000));
    assert_eq!(plain(&sink, GaugeId::LatestBlockHeight), Some(840000));
    assert_eq!(plain(&sink, GaugeId::LatestBlockWeight), Some(3_999_000));
    assert_eq!(plain(&sink, GaugeId::LatestBlockInputs), Some(7000));
    assert_eq!(plain(&sink, GaugeId::LatestBlockOutputs), Some(9000));
    assert_eq!(plain(&sink, GaugeId::LatestBlockValue), Some(123_456_789_000));
    assert_eq!(plain(&sink, GaugeId::LatestBlockFee), Some(12_345_678));
    assert_eq!(plain(&sink, GaugeId::Peers), Some(12));
    assert_eq!(plain(&sink, GaugeId::ConnectionsIn), Some(5));
    assert_eq!(plain(&sink, GaugeId::ConnectionsOut), Some(7));
    assert_eq!(plain(&sink, GaugeId::SmartFee2), Some(2100));
    assert_eq!(plain(&sink, GaugeId::SmartFee3), Some(1800));
    assert_eq!(plain(&sink, GaugeId::SmartFee5), Some(1500));
    assert_eq!(plain(&sink, GaugeId::SmartFee20), Some(1000));
    assert_eq!(plain(&sink, GaugeId::HashPs120), Some(6.1e20f64.to_bits()));
    assert_eq!(plain(&sink, GaugeId::HashPs1), Some(5.9e20f64.to_bits()));
    assert_eq!(plain(&sink, GaugeId::NumChainTips), Some(1));
    assert_eq!(plain(&sink, GaugeId::MempoolBytes), Some(50_000_000));
    assert_eq!(plain(&sink, GaugeId::MempoolSize), Some(40_000));
    assert_eq!(plain(&sink, GaugeId::MempoolUsage), Some(90_000_000));
    assert_eq!(plain(&sink, GaugeId::MempoolUnbroadcast), Some(3));
    assert_eq!(plain(&sink, GaugeId::TotalBytesRecv), Some(111_222_333));
    assert_eq!(plain(&sink, GaugeId::TotalBytesSent), Some(99_888_777));
    let uptime_key = SeriesKey::Uptime {
        version: 270000,
        protocol_version: 70016,
        chain: "main".to_string(),
    };
    assert_eq!(sink.gauge(&uptime_key), Some(98765));
}

#[test]
fn warnings_empty_string_adds_nothing() {
    let mut sink = MetricSink::new();
    let s = default_script();
    assert!(run_collection(&mut sink, &s).is_ok());
    assert_eq!(sink.warnings_reading(), 0);
}

#[test]
fn warnings_single_string_adds_one() {
    let mut sink = MetricSink::new();
    let mut s = default_script();
    s.net.warnings = Warnings::Single("x".to_string());
    assert!(run_collection(&mut sink, &s).is_ok());
    assert_eq!(sink.warnings_reading(), 1);
}

#[test]
fn warnings_list_adds_its_length() {
    let mut sink = MetricSink::new();
    let mut s = default_script();
    s.net.warnings = Warnings::List(vec![
        "a".to_string(),
        "b".to_string(),
        "c".to_string(),
    ]);
    assert!(run_collection(&mut sink, &s).is_ok());
    assert_eq!(sink.warnings_reading(), 3);
}

#[test]
fn warnings_counter_is_monotonic_across_scrapes() {
    let mut sink = MetricSink::new();
    let mut s = default_script();
    s.net.warnings = Warnings::List(vec!["a".to_string(), "b".to_string()]);
    assert!(run_collection(&mut sink, &s).is_ok());
    assert_eq!(sink.warnings_reading(), 2);
    s.net.warnings = Warnings::Single("w".to_string());
    assert!(run_collection(&mut sink, &s).is_ok());
    assert_eq!(sink.warnings_reading(), 3);
    s.net.warnings = Warnings::List(vec![]);
    assert!(run_collection(&mut sink, &s).is_ok());
    assert_eq!(sink.warnings_reading(), 3);
}

#[test]
fn absent_connection_counts_leave_series_unset() {
    let mut sink = MetricSink::new();
    let mut s = default_script();
    s.net.connections_in = None;
    s.net.connections_out = None;
    assert!(run_collection(&mut sink, &s).is_ok());
    assert_eq!(plain(&sink, GaugeId::ConnectionsIn), None);
    assert_eq!(plain(&sink, GaugeId::ConnectionsOut), None);
    assert_eq!(plain(&sink, GaugeId::Peers), Some(12));
}

#[test]
fn absent_unbroadcast_count_reads_zero() {
    let mut sink = MetricSink::new();
    let mut s = default_script();
    s.mempool.unbroadcast_count = None;
    assert!(run_collection(&mut sink, &s).is_ok());
    assert_eq!(plain(&sink, GaugeId::MempoolUnbroadcast), Some(0));
}

#[test]
fn ban_list_yields_two_series_per_entry() {
    let mut sink = MetricSink::new();
    let mut s = default_script();
    s.bans = vec![
        BanEntry { address: "192.0.2.1/32".to_string(), ban_created: 100, banned_until: 200 },
        BanEntry { address: "198.51.100.7/32".to_string(), ban_created: 300, banned_until: 400 },
    ];
    assert!(run_collection(&mut sink, &s).is_ok());
    let reason = "manually added".to_string();
    let k1 = SeriesKey::BanCreated { address: "192.0.2.1/32".to_string(), reason: reason.clone() };
    let k2 = SeriesKey::BannedUntil { address: "192.0.2.1/32".to_string(), reason: reason.clone() };
    let k3 = SeriesKey::BanCreated { address: "198.51.100.7/32".to_string(), reason: reason.clone() };
    let k4 = SeriesKey::BannedUntil { address: "198.51.100.7/32".to_string(), reason: reason.clone() };
    assert_eq!(sink.gauge(&k1), Some(100));
    assert_eq!(sink.gauge(&k2), Some(200));
    assert_eq!(sink.gauge(&k3), Some(300));
    assert_eq!(sink.gauge(&k4), Some(400));
    let other_reason = SeriesKey::BanCreated {
        address: "192.0.2.1/32".to_string(),
        reason: "automatically added".to_string(),
    };
    assert_eq!(sink.gauge(&other_reason), None);
}

#[test]
fn empty_ban_list_yields_no_series() {
    let mut sink = MetricSink::new();
    let s = default_script();
    assert!(run_collection(&mut sink, &s).is_ok());
    let k = SeriesKey::BanCreated {
        address: "192.0.2.1/32".to_string(),
        reason: "manually added".to_string(),
    };
    assert_eq!(sink.gauge(&k), None);
}

#[test]
fn missing_fee_estimate_retains_prior_value() {
    let mut sink = MetricSink::new();
    let mut s = default_script();
    s.fee2 = Some(2100);
    s.fee3 = Some(1800);
    assert!(run_collection(&mut sink, &s).is_ok());
    assert_eq!(plain(&sink, GaugeId::SmartFee2), Some(2100));
    assert_eq!(plain(&sink, GaugeId::SmartFee3), Some(1800));
    s.fee2 = Some(2500);
    s.fee3 = None;
    assert!(run_collection(&mut sink, &s).is_ok());
    assert_eq!(plain(&sink, GaugeId::SmartFee2), Some(2500));
    assert_eq!(plain(&sink, GaugeId::SmartFee3), Some(1800));
}

#[test]
fn missing_fee_estimate_starts_unset() {
    let mut sink = MetricSink::new();
    let mut s = default_script();
    s.fee20 = None;
    assert!(run_collection(&mut sink, &s).is_ok());
    assert_eq!(plain(&sink, GaugeId::SmartFee20), None);
}

#[test]
fn failure_short_circuits_later_steps() {
    let mut sink = MetricSink::new();
    let (c, first) = Collector::new();
    assert!(matches!(first, RpcRequest::GetNetworkInfo));
    let s = default_script();
    let (c, req) = c.on_event(&mut sink, respond(&first, &s));
    assert!(matches!(req, Some(RpcRequest::GetBlockchainInfo)));
    let (c, req) = c.on_event(
        &mut sink,
        RpcEvent::Failed { message: "connection refused".to_string() },
    );
    assert!(req.is_none());
    assert!(c.is_terminal());
    let err = c.into_outcome().unwrap_err();
    assert_eq!(err.op, RpcOp::GetBlockchainInfo);
    assert_eq!(err.describe(), "connection refused".to_string());
    assert_eq!(plain(&sink, GaugeId::Blocks), None);
    assert_eq!(plain(&sink, GaugeId::MempoolBytes), None);
    assert_eq!(plain(&sink, GaugeId::TotalBytesRecv), None);
    assert_eq!(sink.warnings_reading(), 0);
}

#[test]
fn failure_keeps_samples_already_applied() {
    let mut sink = MetricSink::new();
    let s = default_script();
    let (mut c, first) = Collector::new();
    let mut pending = Some(first);
    // answer every query until the mempool one, then fail it
    loop {
        let req = pending.expect("collection stopped early");
        if matches!(req, RpcRequest::GetMempoolInfo) {
            let (next, nreq) = c.on_event(
                &mut sink,
                RpcEvent::Failed { message: "timeout".to_string() },
            );
            assert!(nreq.is_none());
            let err = next.into_outcome().unwrap_err();
            assert_eq!(err.op, RpcOp::GetMempoolInfo);
            break;
        }
        let ev = respond(&req, &s);
        let (next, nreq) = c.on_event(&mut sink, ev);
        c = next;
        pending = nreq;
    }
    // earlier steps' samples stay applied; the failed step and later ones
    // never wrote
    assert_eq!(plain(&sink, GaugeId::Blocks), Some(840000));
    assert_eq!(plain(&sink, GaugeId::NumChainTips), Some(1));
    assert_eq!(plain(&sink, GaugeId::MempoolBytes), None);
    assert_eq!(plain(&sink, GaugeId::TotalBytesRecv), None);
}

#[test]
fn request_order_follows_the_dependency_chain() {
    let mut sink = MetricSink::new();
    let s = default_script();
    let (mut c, first) = Collector::new();
    let mut seen = vec![format!("{:?}", op_name(&first))];
    let mut pending = Some(first);
    while let Some(req) = pending {
        let ev = respond(&req, &s);
        let (next, nreq) = c.on_event(&mut sink, ev);
        if let Some(ref q) = nreq {
            seen.push(format!("{:?}", op_name(q)));
        }
        c = next;
        pending = nreq;
    }
    assert_eq!(
        seen,
        vec![
            "GetNetworkInfo".to_string(),
            "GetBlockchainInfo".to_string(),
            "Uptime".to_string(),
            "GetBlockInfo".to_string(),
            "GetBlockStats".to_string(),
            "EstimateSmartFee".to_string(),
            "EstimateSmartFee".to_string(),
            "EstimateSmartFee".to_string(),
            "EstimateSmartFee".to_string(),
            "GetNetworkHashPs".to_string(),
            "GetNetworkHashPs".to_string(),
            "ListBanned".to_string(),
            "GetChainTips".to_string(),
            "GetMempoolInfo".to_string(),
            "GetNetTotals".to_string(),
        ]
    );
}

fn op_name(req: &RpcRequest) -> RpcOp {
    match req {
        RpcRequest::GetNetworkInfo => RpcOp::GetNetworkInfo,
        RpcRequest::GetBlockchainInfo => RpcOp::GetBlockchainInfo,
        RpcRequest::Uptime => RpcOp::Uptime,
        RpcRequest::GetBlockInfo { .. } => RpcOp::GetBlockInfo,
        RpcRequest::GetBlockStats { .. } => RpcOp::GetBlockStats,
        RpcRequest::EstimateSmartFee { .. } => RpcOp::EstimateSmartFee,
        RpcRequest::GetNetworkHashPs { .. } => RpcOp::GetNetworkHashPs,
        RpcRequest::ListBanned => RpcOp::ListBanned,
        RpcRequest::GetChainTips => RpcOp::GetChainTips,
        RpcRequest::GetMempoolInfo => RpcOp::GetMempoolInfo,
        RpcRequest::GetNetTotals => RpcOp::GetNetTotals,
    }
}
