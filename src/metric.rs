//! Metric resolution: one windowed query per cluster, reduced to at most one
//! representative sample.

use crate::timestamp::{parse_rfc3339, rfc3339_timestamp, Timestamp};
use vstd::prelude::*;

verus! {

/// One sample as the monitoring backend returned it; either part may be absent.
#[derive(Clone, Debug)]
pub struct MetricSample<V> {
    /// The sample's time, as RFC 3339 text.
    pub timestamp: Option<String>,
    pub value: Option<V>,
}

/// A sample whose time was read successfully.
#[derive(Clone, Copy, Debug, PartialEq)]
pub struct MetricPoint<V> {
    pub at: Timestamp,
    pub value: V,
}

/// A non-fatal condition met while resolving one cluster's metric.
#[derive(Clone, Debug, PartialEq, Eq)]
pub enum Diagnostic {
    /// A sample lacked its time or its value.
    MissingData,
    /// A sample's time text did not parse; the text is kept.
    UnparsableTimestamp(String),
    /// The query itself failed; the backend's message is kept.
    QueryFailed(String),
}

/// What one sample amounts to once its time has been read.
#[derive(Clone, Debug, PartialEq)]
pub enum SampleReading<V> {
    Missing,
    Unparsable(String),
    Valid(MetricPoint<V>),
}

/// The outcome of resolving one cluster's metric.
#[derive(Clone, Debug)]
pub struct Resolution<V> {
    /// The representative sample, or `None` when the metric is not available.
    pub metric: Option<MetricPoint<V>>,
    /// Conditions met on the way, in the order they arose.
    pub diagnostics: Vec<Diagnostic>,
}

/// The reading of a sample whose time text parsed (or not) to `parsed`.
pub open spec fn reading_from<V>(s: MetricSample<V>, parsed: Option<Timestamp>) -> SampleReading<V> {
    match (s.timestamp, s.value) {
        (Some(text), Some(value)) => match parsed {
            Some(at) => SampleReading::Valid(MetricPoint { at, value }),
            None => SampleReading::Unparsable(text),
        },
        _ => SampleReading::Missing,
    }
}

/// The reading of a sample, its time parsed as RFC 3339.
pub open spec fn reading_of<V>(s: MetricSample<V>) -> SampleReading<V> {
    match s.timestamp {
        Some(text) => reading_from(s, rfc3339_timestamp(text@)),
        None => SampleReading::Missing,
    }
}

/// The diagnostic that a reading gives rise to, if any.
pub open spec fn diagnostic_of<V>(r: SampleReading<V>) -> Option<Diagnostic> {
    match r {
        SampleReading::Missing => Some(Diagnostic::MissingData),
        SampleReading::Unparsable(text) => Some(Diagnostic::UnparsableTimestamp(text)),
        SampleReading::Valid(_) => None,
    }
}

/// The last valid reading of the sequence, in sequence order (not by time).
pub open spec fn last_valid<V>(rs: Seq<SampleReading<V>>) -> Option<MetricPoint<V>>
    decreases rs.len(),
{
    if rs.len() == 0 {
        None
    } else {
        match rs.last() {
            SampleReading::Valid(p) => Some(p),
            _ => last_valid(rs.drop_last()),
        }
    }
}

/// The diagnostics of the readings, in sequence order.
pub open spec fn diagnostics_of<V>(rs: Seq<SampleReading<V>>) -> Seq<Diagnostic>
    decreases rs.len(),
{
    if rs.len() == 0 {
        Seq::empty()
    } else {
        match diagnostic_of(rs.last()) {
            Some(d) => diagnostics_of(rs.drop_last()).push(d),
            None => diagnostics_of(rs.drop_last()),
        }
    }
}

/// The readings of a sequence of samples.
pub open spec fn readings_of<V>(samples: Seq<MetricSample<V>>) -> Seq<SampleReading<V>> {
    samples.map_values(|s: MetricSample<V>| reading_of(s))
}

/// The metric that a query response resolves to.
pub open spec fn resolved_metric<V>(response: Result<Vec<MetricSample<V>>, String>) -> Option<MetricPoint<V>> {
    match response {
        Ok(samples) => last_valid(readings_of(samples@)),
        Err(_) => None,
    }
}

/// The diagnostics that a query response gives rise to.
pub open spec fn resolved_diagnostics<V>(response: Result<Vec<MetricSample<V>>, String>) -> Seq<Diagnostic> {
    match response {
        Ok(samples) => diagnostics_of(readings_of(samples@)),
        Err(message) => seq![Diagnostic::QueryFailed(message)],
    }
}

/// Reads one sample whose time text, if both parts are present, parsed to `parsed`.
pub fn reading_with<V: Copy>(s: &MetricSample<V>, parsed: Option<Timestamp>) -> (r: SampleReading<V>)
    ensures
        r == reading_from(*s, parsed),
{
    match (&s.timestamp, &s.value) {
        (Some(text), Some(value)) => match parsed {
            Some(at) => SampleReading::Valid(MetricPoint { at, value: *value }),
            None => SampleReading::Unparsable(text.clone()),
        },
        _ => SampleReading::Missing,
    }
}

/// Reads one sample, parsing its time as RFC 3339 when both parts are present.
pub fn read_sample<V: Copy>(s: &MetricSample<V>) -> (r: SampleReading<V>)
    ensures
        r == reading_of(*s),
{
    match (&s.timestamp, &s.value) {
        (Some(text), Some(_)) => {
            let parsed = parse_rfc3339(text.as_str());
            reading_with(s, parsed)
        },
        _ => reading_with(s, None),
    }
}

/// Reduces readings to the last valid one in sequence order (last wins, even
/// when an earlier reading is later in time), collecting one diagnostic per
/// missing or unparsable reading.
pub fn reduce_readings<V: Copy>(readings: &Vec<SampleReading<V>>) -> (r: Resolution<V>)
    ensures
        r.metric == last_valid(readings@),
        r.diagnostics@ == diagnostics_of(readings@),
{
    let mut metric: Option<MetricPoint<V>> = None;
    let mut diagnostics: Vec<Diagnostic> = Vec::new();
    let mut i: usize = 0;
    while i < readings.len()
        invariant
            0 <= i <= readings@.len(),
            metric == last_valid(readings@.subrange(0, i as int)),
            diagnostics@ == diagnostics_of(readings@.subrange(0, i as int)),
        decreases readings@.len() - i,
    {
        proof {
            assert(readings@.subrange(0, i + 1).drop_last() =~= readings@.subrange(0, i as int));
        }
        match &readings[i] {
            SampleReading::Missing => diagnostics.push(Diagnostic::MissingData),
            SampleReading::Unparsable(text) => diagnostics.push(
                Diagnostic::UnparsableTimestamp(text.clone()),
            ),
            SampleReading::Valid(p) => metric = Some(*p),
        }
        i += 1;
    }
    proof {
        assert(readings@.subrange(0, readings@.len() as int) =~= readings@);
    }
    Resolution { metric, diagnostics }
}

/// Resolves the samples of one successful query.
pub fn resolve_samples<V: Copy>(samples: &Vec<MetricSample<V>>) -> (r: Resolution<V>)
    ensures
        r.metric == last_valid(readings_of(samples@)),
        r.diagnostics@ == diagnostics_of(readings_of(samples@)),
{
    let mut readings: Vec<SampleReading<V>> = Vec::new();
    let mut i: usize = 0;
    while i < samples.len()
        invariant
            0 <= i <= samples@.len(),
            readings@ == readings_of(samples@.subrange(0, i as int)),
        decreases samples@.len() - i,
    {
        let reading = read_sample(&samples[i]);
        readings.push(reading);
        proof {
            assert(readings_of(samples@.subrange(0, i + 1)) =~= readings_of(
                samples@.subrange(0, i as int),
            ).push(reading_of(samples@[i as int])));
        }
        i += 1;
    }
    proof {
        assert(samples@.subrange(0, samples@.len() as int) =~= samples@);
    }
    reduce_readings(&readings)
}

/// Resolves one query response; a failed query is not fatal: the metric is
/// then not available and the failure is kept as a diagnostic.
pub fn resolve_response<V: Copy>(response: &Result<Vec<MetricSample<V>>, String>) -> (r: Resolution<V>)
    ensures
        r.metric == resolved_metric(*response),
        r.diagnostics@ == resolved_diagnostics(*response),
{
    match response {
        Ok(samples) => resolve_samples(samples),
        Err(message) => {
            let mut diagnostics: Vec<Diagnostic> = Vec::new();
            diagnostics.push(Diagnostic::QueryFailed(message.clone()));
            proof {
                assert(diagnostics@ =~= seq![Diagnostic::QueryFailed(*message)]);
            }
            Resolution { metric: None, diagnostics }
        },
    }
}

/// The span of a query window, and its aggregation period, in seconds.
pub const WINDOW_SECONDS: i64 = 300;

/// The aggregation period of a query, in seconds.
pub const PERIOD_SECONDS: i32 = 300;

/// The dimension by which a query is filtered to one cluster.
pub const CLUSTER_DIMENSION: &'static str = "DBClusterIdentifier";

/// The aggregation applied to raw samples within each period.
#[derive(Clone, Copy, Debug, PartialEq, Eq, Structural)]
pub enum Statistic {
    Average,
}

/// A time window over which one statistic is requested, in epoch seconds.
#[derive(Clone, Copy, Debug, PartialEq, Eq, Structural)]
pub struct MetricWindow {
    pub start_seconds: i64,
    pub end_seconds: i64,
    pub period_seconds: i32,
    pub statistic: Statistic,
}

impl MetricWindow {
    /// The window is not empty and its period is positive.
    pub open spec fn wf(&self) -> bool {
        self.start_seconds < self.end_seconds && self.period_seconds > 0
    }

    /// The window of averages over the span that ends at `now_seconds`.
    pub fn preceding(now_seconds: i64) -> (w: MetricWindow)
        requires
            now_seconds >= i64::MIN + WINDOW_SECONDS,
        ensures
            w.wf(),
            w.end_seconds == now_seconds,
            w.start_seconds == now_seconds - WINDOW_SECONDS,
            w.period_seconds == PERIOD_SECONDS,
            w.statistic == Statistic::Average,
    {
        MetricWindow {
            start_seconds: now_seconds - WINDOW_SECONDS,
            end_seconds: now_seconds,
            period_seconds: PERIOD_SECONDS,
            statistic: Statistic::Average,
        }
    }
}

/// A windowed statistic query for one measurement stream of one cluster.
#[derive(Clone, Debug)]
pub struct MetricQuery {
    pub namespace: String,
    pub metric_name: String,
    pub dimension_name: String,
    pub dimension_value: String,
    pub window: MetricWindow,
}

impl MetricQuery {
    /// The query for `metric_name` in `namespace`, filtered to the cluster
    /// `cluster_identifier`, over the window that ends at `now_seconds`.
    pub fn new(cluster_identifier: &str, metric_name: &str, namespace: &str, now_seconds: i64) -> (q: MetricQuery)
        requires
            now_seconds >= i64::MIN + WINDOW_SECONDS,
        ensures
            q.namespace@ == namespace@,
            q.metric_name@ == metric_name@,
            q.dimension_name@ == CLUSTER_DIMENSION@,
            q.dimension_value@ == cluster_identifier@,
            q.window.start_seconds == now_seconds - WINDOW_SECONDS,
            q.window.end_seconds == now_seconds,
            q.window.period_seconds == PERIOD_SECONDS,
            q.window.statistic == Statistic::Average,
            q.window.wf(),
    {
        MetricQuery {
            namespace: String::from_str(namespace),
            metric_name: String::from_str(metric_name),
            dimension_name: String::from_str(CLUSTER_DIMENSION),
            dimension_value: String::from_str(cluster_identifier),
            window: MetricWindow::preceding(now_seconds),
        }
    }
}

/// A query that returned no samples resolves to no metric, with no diagnostic.
pub proof fn no_samples_resolve_to_nothing<V>(samples: Vec<MetricSample<V>>)
    requires
        samples@.len() == 0,
    ensures
        resolved_metric(Ok::<Vec<MetricSample<V>>, String>(samples)) is None,
        resolved_diagnostics(Ok::<Vec<MetricSample<V>>, String>(samples)).len() == 0,
{
    assert(readings_of(samples@) =~= Seq::<SampleReading<V>>::empty());
}

/// Of two valid samples, the second is the resolved one, whichever of the two
/// is later in time.
pub proof fn last_of_two_valid_wins<V>(first: MetricSample<V>, second: MetricSample<V>)
    requires
        reading_of(first) is Valid,
        reading_of(second) is Valid,
    ensures
        last_valid(readings_of(seq![first, second])) == Some(reading_of(second)->Valid_0),
{
    assert(readings_of(seq![first, second]).last() == reading_of(second));
}

/// A sample whose value is present but whose time does not parse is passed
/// over: the samples before it resolve as they did without it.
pub proof fn unparsable_sample_changes_nothing<V>(before: Seq<MetricSample<V>>, sample: MetricSample<V>)
    requires
        sample.timestamp is Some,
        sample.value is Some,
        rfc3339_timestamp(sample.timestamp->Some_0@) is None,
    ensures
        last_valid(readings_of(before.push(sample))) == last_valid(readings_of(before)),
        reading_of(sample) == SampleReading::<V>::Unparsable(sample.timestamp->Some_0),
{
    assert(readings_of(before.push(sample)).drop_last() =~= readings_of(before));
}

} // verus!
