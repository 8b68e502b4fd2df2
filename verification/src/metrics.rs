//! The metric sink model.
//!
//! A sink is a collection of named metric series fed by samples. A gauge
//! series holds the latest value written to it (overwrite semantics); the
//! warnings counter holds a monotonically non-decreasing accumulator
//! (increment semantics, reset only at process restart). The sink is modelled
//! as the journal of applied samples; the current value of a series is a
//! function of that journal. The embedding replays each applied sample into
//! the real registry and owns the textual exposition format.

use vstd::prelude::*;

verus! {

/// The fixed, label-free gauge series the collector writes.
///
/// Values are plain `u64` readings except where noted:
/// - `Difficulty`, `VerificationProgress`, `HashPs120` and `HashPs1` carry
///   the raw bit pattern of the node's binary64 reading, opaque to this
///   library; the embedding decodes it when rendering.
/// - `LatestBlockValue` and `LatestBlockFee` carry amounts in the smallest
///   currency unit; the embedding converts to the decimal unit when
///   rendering.
#[derive(Clone, Copy, Debug, PartialEq, Eq, Structural)]
pub enum GaugeId {
    Blocks,
    Difficulty,
    SizeOnDisk,
    VerificationProgress,
    LatestBlockSize,
    LatestBlockTxs,
    LatestBlockHeight,
    LatestBlockWeight,
    LatestBlockInputs,
    LatestBlockOutputs,
    LatestBlockValue,
    LatestBlockFee,
    Peers,
    ConnectionsIn,
    ConnectionsOut,
    SmartFee2,
    SmartFee3,
    SmartFee5,
    SmartFee20,
    HashPs120,
    HashPs1,
    NumChainTips,
    MempoolBytes,
    MempoolSize,
    MempoolUsage,
    MempoolUnbroadcast,
    TotalBytesRecv,
    TotalBytesSent,
}

/// Identity of one gauge series: either a fixed series, or one of the
/// dynamically labelled families (uptime labelled by client version,
/// protocol version and chain name; ban timestamps labelled by banned
/// address and ban reason).
pub enum SeriesKey {
    Plain(GaugeId),
    Uptime { version: u64, protocol_version: u64, chain: String },
    BanCreated { address: String, reason: String },
    BannedUntil { address: String, reason: String },
}

/// Mathematical identity of a gauge series: labels compare by content.
pub enum SeriesKeyV {
    Plain(GaugeId),
    Uptime { version: u64, protocol_version: u64, chain: Seq<char> },
    BanCreated { address: Seq<char>, reason: Seq<char> },
    BannedUntil { address: Seq<char>, reason: Seq<char> },
}

impl View for SeriesKey {
    type V = SeriesKeyV;

    open spec fn view(&self) -> SeriesKeyV {
        match self {
            SeriesKey::Plain(g) => SeriesKeyV::Plain(*g),
            SeriesKey::Uptime { version, protocol_version, chain } => SeriesKeyV::Uptime {
                version: *version,
                protocol_version: *protocol_version,
                chain: chain@,
            },
            SeriesKey::BanCreated { address, reason } => SeriesKeyV::BanCreated {
                address: address@,
                reason: reason@,
            },
            SeriesKey::BannedUntil { address, reason } => SeriesKeyV::BannedUntil {
                address: address@,
                reason: reason@,
            },
        }
    }
}

impl SeriesKey {
    /// Whether two keys name the same series, that is, their label contents
    /// agree.
    pub fn matches(&self, other: &SeriesKey) -> (r: bool)
        ensures
            r == (self@ == other@),
    {
        match (self, other) {
            (SeriesKey::Plain(a), SeriesKey::Plain(b)) => *a == *b,
            (
                SeriesKey::Uptime { version: v1, protocol_version: p1, chain: c1 },
                SeriesKey::Uptime { version: v2, protocol_version: p2, chain: c2 },
            ) => *v1 == *v2 && *p1 == *p2 && *c1 == *c2,
            (
                SeriesKey::BanCreated { address: a1, reason: r1 },
                SeriesKey::BanCreated { address: a2, reason: r2 },
            ) => *a1 == *a2 && *r1 == *r2,
            (
                SeriesKey::BannedUntil { address: a1, reason: r1 },
                SeriesKey::BannedUntil { address: a2, reason: r2 },
            ) => *a1 == *a2 && *r1 == *r2,
            _ => false,
        }
    }
}

/// One write into the sink: overwrite a gauge series, or advance the
/// warnings counter.
pub enum Sample {
    SetGauge { series: SeriesKey, value: u64 },
    IncWarnings { by: u64 },
}

/// Mathematical form of a sample.
pub enum SampleV {
    SetGauge { series: SeriesKeyV, value: u64 },
    IncWarnings { by: u64 },
}

impl View for Sample {
    type V = SampleV;

    open spec fn view(&self) -> SampleV {
        match self {
            Sample::SetGauge { series, value } => SampleV::SetGauge {
                series: series@,
                value: *value,
            },
            Sample::IncWarnings { by } => SampleV::IncWarnings { by: *by },
        }
    }
}

/// The current value of a gauge series after a journal of samples: the value
/// of the last overwrite addressed to it, or nothing if it was never set.
pub open spec fn gauge_value(log: Seq<SampleV>, key: SeriesKeyV) -> Option<u64>
    decreases log.len(),
{
    if log.len() == 0 {
        None
    } else {
        match log.last() {
            SampleV::SetGauge { series, value } => if series == key {
                Some(value)
            } else {
                gauge_value(log.drop_last(), key)
            },
            SampleV::IncWarnings { .. } => gauge_value(log.drop_last(), key),
        }
    }
}

/// How much one sample advances the warnings counter.
pub open spec fn inc_of(s: SampleV) -> nat {
    match s {
        SampleV::IncWarnings { by } => by as nat,
        SampleV::SetGauge { .. } => 0,
    }
}

/// The accumulated warnings counter after a journal of samples.
pub open spec fn counter_total(log: Seq<SampleV>) -> nat
    decreases log.len(),
{
    if log.len() == 0 {
        0
    } else {
        counter_total(log.drop_last()) + inc_of(log.last())
    }
}

/// How many overwrites a journal addresses to one gauge series.
pub open spec fn sets_of(log: Seq<SampleV>, key: SeriesKeyV) -> nat
    decreases log.len(),
{
    if log.len() == 0 {
        0
    } else {
        sets_of(log.drop_last(), key) + (match log.last() {
            SampleV::SetGauge { series, .. } => if series == key {
                1nat
            } else {
                0nat
            },
            SampleV::IncWarnings { .. } => 0nat,
        })
    }
}

pub broadcast proof fn lemma_append_empty<A>(a: Seq<A>)
    ensures
        #[trigger] (a + Seq::<A>::empty()) == a,
{
    assert(a + Seq::<A>::empty() =~= a);
}

pub broadcast proof fn lemma_append_push<A>(a: Seq<A>, b: Seq<A>, x: A)
    ensures
        #[trigger] (a + b.push(x)) == (a + b).push(x),
{
    assert(a + b.push(x) =~= (a + b).push(x));
}

pub broadcast proof fn lemma_append_assoc<A>(a: Seq<A>, b: Seq<A>, c: Seq<A>)
    ensures
        #![trigger (a + b) + c]
        #![trigger a + (b + c)]
        (a + b) + c == a + (b + c),
{
    assert((a + b) + c =~= a + (b + c));
}

pub broadcast proof fn lemma_gauge_value_empty(key: SeriesKeyV)
    ensures
        #[trigger] gauge_value(Seq::<SampleV>::empty(), key) == None::<u64>,
{
}

pub broadcast proof fn lemma_gauge_value_push(log: Seq<SampleV>, s: SampleV, key: SeriesKeyV)
    ensures
        #[trigger] gauge_value(log.push(s), key) == (match s {
            SampleV::SetGauge { series, value } => if series == key {
                Some(value)
            } else {
                gauge_value(log, key)
            },
            SampleV::IncWarnings { .. } => gauge_value(log, key),
        }),
{
    assert(log.push(s).drop_last() =~= log);
    assert(log.push(s).last() == s);
}

pub broadcast proof fn lemma_counter_total_empty()
    ensures
        #[trigger] counter_total(Seq::<SampleV>::empty()) == 0,
{
}

pub broadcast proof fn lemma_counter_total_push(log: Seq<SampleV>, s: SampleV)
    ensures
        #[trigger] counter_total(log.push(s)) == counter_total(log) + inc_of(s),
{
    assert(log.push(s).drop_last() =~= log);
    assert(log.push(s).last() == s);
}

pub broadcast proof fn lemma_sets_of_empty(key: SeriesKeyV)
    ensures
        #[trigger] sets_of(Seq::<SampleV>::empty(), key) == 0,
{
}

pub broadcast proof fn lemma_sets_of_push(log: Seq<SampleV>, s: SampleV, key: SeriesKeyV)
    ensures
        #[trigger] sets_of(log.push(s), key) == sets_of(log, key) + (match s {
            SampleV::SetGauge { series, .. } => if series == key {
                1nat
            } else {
                0nat
            },
            SampleV::IncWarnings { .. } => 0nat,
        }),
{
    assert(log.push(s).drop_last() =~= log);
    assert(log.push(s).last() == s);
}

/// A gauge's value after two journals in sequence: the later journal wins
/// where it writes the series, and the earlier journal shows through where
/// it does not.
pub broadcast proof fn lemma_gauge_value_concat(a: Seq<SampleV>, b: Seq<SampleV>, key: SeriesKeyV)
    ensures
        #[trigger] gauge_value(a + b, key) == (match gauge_value(b, key) {
            Some(v) => Some(v),
            None => gauge_value(a, key),
        }),
    decreases b.len(),
{
    if b.len() == 0 {
        assert(a + b =~= a);
    } else {
        lemma_gauge_value_concat(a, b.drop_last(), key);
        assert((a + b).drop_last() =~= a + b.drop_last());
        assert((a + b).last() == b.last());
    }
}

/// The warnings counter sums over journals in sequence.
pub broadcast proof fn lemma_counter_total_concat(a: Seq<SampleV>, b: Seq<SampleV>)
    ensures
        #[trigger] counter_total(a + b) == counter_total(a) + counter_total(b),
    decreases b.len(),
{
    if b.len() == 0 {
        assert(a + b =~= a);
    } else {
        lemma_counter_total_concat(a, b.drop_last());
        assert((a + b).drop_last() =~= a + b.drop_last());
        assert((a + b).last() == b.last());
    }
}

/// Overwrite counts sum over journals in sequence.
pub broadcast proof fn lemma_sets_of_concat(a: Seq<SampleV>, b: Seq<SampleV>, key: SeriesKeyV)
    ensures
        #[trigger] sets_of(a + b, key) == sets_of(a, key) + sets_of(b, key),
    decreases b.len(),
{
    if b.len() == 0 {
        assert(a + b =~= a);
    } else {
        lemma_sets_of_concat(a, b.drop_last(), key);
        assert((a + b).drop_last() =~= a + b.drop_last());
        assert((a + b).last() == b.last());
    }
}

/// A journal that never overwrites a series leaves that series without a
/// value of its own.
pub proof fn lemma_no_sets_no_value(log: Seq<SampleV>, key: SeriesKeyV)
    requires
        sets_of(log, key) == 0,
    ensures
        gauge_value(log, key) is None,
    decreases log.len(),
{
    if log.len() > 0 {
        lemma_no_sets_no_value(log.drop_last(), key);
    }
}

/// A journal extension that never overwrites a series leaves the series'
/// prior value untouched.
pub proof fn lemma_untouched_series_retained(a: Seq<SampleV>, b: Seq<SampleV>, key: SeriesKeyV)
    requires
        sets_of(b, key) == 0,
    ensures
        gauge_value(a + b, key) == gauge_value(a, key),
{
    lemma_no_sets_no_value(b, key);
    lemma_gauge_value_concat(a, b, key);
}

/// The warnings counter never decreases as the journal grows.
pub proof fn lemma_counter_monotonic(a: Seq<SampleV>, b: Seq<SampleV>)
    ensures
        counter_total(a) <= counter_total(a + b),
{
    lemma_counter_total_concat(a, b);
}

/// The warnings counter reading that fits the sink's word size: the exact
/// total, saturating at the largest representable value.
pub open spec fn counter_reading(log: Seq<SampleV>) -> u64 {
    if counter_total(log) > u64::MAX {
        u64::MAX
    } else {
        counter_total(log) as u64
    }
}

/// The metric sink: the journal of samples applied so far, oldest first.
///
/// Series identified by a dynamic label set (a banned peer's address) stay
/// in the journal after the identity disappears from later collections;
/// such stale series keep their last value, which mirrors the registry the
/// embedding maintains.
pub struct MetricSink {
    log: Vec<Sample>,
}

impl View for MetricSink {
    type V = Seq<SampleV>;

    closed spec fn view(&self) -> Seq<SampleV> {
        self.log@.map_values(|s: Sample| s@)
    }
}

impl MetricSink {
    /// A sink holding no samples.
    pub fn new() -> (s: MetricSink)
        ensures
            s@ == Seq::<SampleV>::empty(),
    {
        let s = MetricSink { log: Vec::new() };
        proof {
            assert(s@ =~= Seq::<SampleV>::empty());
        }
        s
    }

    /// Append one sample to the journal.
    pub fn apply(&mut self, sample: Sample)
        ensures
            final(self)@ == old(self)@.push(sample@),
    {
        let ghost prev = self@;
        let ghost sv = sample@;
        self.log.push(sample);
        proof {
            assert(self@ =~= prev.push(sv));
        }
    }

    /// How many samples the journal holds.
    pub fn sample_count(&self) -> (n: usize)
        ensures
            n == self@.len(),
    {
        self.log.len()
    }

    /// The journal's sample at one position, oldest first. The embedding
    /// replays each sample into the registry it renders from.
    pub fn sample_at(&self, i: usize) -> (s: &Sample)
        requires
            i < self@.len(),
        ensures
            s@ == self@[i as int],
    {
        &self.log[i]
    }

    /// The current value of a gauge series, if it was ever set.
    pub fn gauge(&self, key: &SeriesKey) -> (r: Option<u64>)
        ensures
            r == gauge_value(self@, key@),
    {
        let mut i: usize = self.log.len();
        proof {
            assert(self@.subrange(0, i as int) =~= self@);
        }
        while i > 0
            invariant
                i <= self.log.len(),
                self@.len() == self.log.len(),
                gauge_value(self@, key@) == gauge_value(self@.subrange(0, i as int), key@),
            decreases i,
        {
            i = i - 1;
            proof {
                assert(self@.subrange(0, i as int + 1).drop_last() =~= self@.subrange(0, i as int));
                assert(self@.subrange(0, i as int + 1).last() == self@[i as int]);
            }
            match &self.log[i] {
                Sample::SetGauge { series, value } => {
                    if series.matches(key) {
                        return Some(*value);
                    }
                },
                Sample::IncWarnings { .. } => {},
            }
        }
        proof {
            assert(self@.subrange(0, 0) =~= Seq::<SampleV>::empty());
        }
        None
    }

    /// The warnings counter's current reading.
    pub fn warnings_reading(&self) -> (r: u64)
        ensures
            r == counter_reading(self@),
    {
        let mut total: u64 = 0;
        let mut i: usize = 0;
        proof {
            assert(self@.subrange(0, 0) =~= Seq::<SampleV>::empty());
        }
        while i < self.log.len()
            invariant
                i <= self.log.len(),
                self@.len() == self.log.len(),
                total == counter_reading(self@.subrange(0, i as int)),
            decreases self.log.len() - i,
        {
            proof {
                assert(self@.subrange(0, i as int + 1).drop_last() =~= self@.subrange(0, i as int));
                assert(self@.subrange(0, i as int + 1).last() == self@[i as int]);
            }
            match &self.log[i] {
                Sample::IncWarnings { by } => {
                    if total > u64::MAX - *by {
                        total = u64::MAX;
                    } else {
                        total = total + *by;
                    }
                },
                Sample::SetGauge { .. } => {},
            }
            i = i + 1;
        }
        proof {
            assert(self@.subrange(0, self@.len() as int) =~= self@);
        }
        total
    }
}

} // verus!
