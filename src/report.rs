//! Report assembly: one entry per cluster, in the order the clusters were listed.

use crate::metric::{
    no_samples_resolve_to_nothing, resolve_response, resolved_diagnostics, resolved_metric,
    Diagnostic, MetricPoint, MetricQuery, MetricSample, Statistic, CLUSTER_DIMENSION,
    PERIOD_SECONDS, WINDOW_SECONDS,
};
use vstd::prelude::*;

verus! {

/// The namespace of the cluster metrics.
pub const NEPTUNE_NAMESPACE: &'static str = "AWS/Neptune";

/// The metric that each report entry carries.
pub const CPU_METRIC: &'static str = "CPUUtilization";

/// The console link up to the region.
pub const CONSOLE_LINK_HEAD: &'static str = "https://console.aws.amazon.com/neptune/home?region=";

/// The console link between the region and the cluster identifier.
pub const CONSOLE_LINK_MIDDLE: &'static str = "#database:id=";

/// The console link after the cluster identifier.
pub const CONSOLE_LINK_TAIL: &'static str = ";is-cluster=true";

/// The envelope around an upstream cluster-listing failure.
pub const LISTING_FAILED_PREFIX: &'static str = "Failed to describe clusters: ";

/// The message of a run without a configured region.
pub const REGION_UNAVAILABLE_MESSAGE: &'static str = "No region is configured";

/// Metadata of one cluster as the inventory listing returned it.
#[derive(Clone, Debug)]
pub struct ClusterInfo {
    pub identifier: Option<String>,
    pub status: Option<String>,
    pub endpoint: Option<String>,
    pub member_count: usize,
}

/// The renderer-ready record for one cluster.
#[derive(Clone, Debug)]
pub struct ReportEntry<V> {
    pub identifier: String,
    pub status: String,
    pub endpoint: String,
    pub member_count: usize,
    /// The resolved metric; `None` renders as "not available".
    pub metric: Option<MetricPoint<V>>,
    pub console_link: String,
    /// Non-fatal conditions met while resolving the metric.
    pub diagnostics: Vec<Diagnostic>,
}

/// A failure that aborts the whole report.
#[derive(Clone, Debug, PartialEq, Eq)]
pub enum ReportError {
    /// The cluster listing failed; the upstream message is kept.
    ListingFailed(String),
    /// No region is known, so no console link can be built.
    RegionUnavailable,
}

/// The text of an optional field, empty where it is absent.
pub open spec fn text_or_empty(o: Option<String>) -> Seq<char> {
    match o {
        Some(s) => s@,
        None => Seq::empty(),
    }
}

/// The console link of a cluster in a region.
pub open spec fn console_link_text(region: Seq<char>, identifier: Seq<char>) -> Seq<char> {
    CONSOLE_LINK_HEAD@ + region + CONSOLE_LINK_MIDDLE@ + identifier + CONSOLE_LINK_TAIL@
}

/// `e` is the entry of `cluster` in `region`, given its metric query response.
pub open spec fn is_entry_of<V>(
    e: ReportEntry<V>,
    cluster: ClusterInfo,
    region: Seq<char>,
    response: Result<Vec<MetricSample<V>>, String>,
) -> bool {
    &&& e.identifier@ == text_or_empty(cluster.identifier)
    &&& e.status@ == text_or_empty(cluster.status)
    &&& e.endpoint@ == text_or_empty(cluster.endpoint)
    &&& e.member_count == cluster.member_count
    &&& e.metric == resolved_metric(response)
    &&& e.console_link@ == console_link_text(region, text_or_empty(cluster.identifier))
    &&& e.diagnostics@ == resolved_diagnostics(response)
}

/// `entries` holds exactly one entry per cluster, in cluster order.
pub open spec fn is_report_of<V>(
    entries: Seq<ReportEntry<V>>,
    clusters: Seq<ClusterInfo>,
    region: Seq<char>,
    responses: Seq<Result<Vec<MetricSample<V>>, String>>,
) -> bool {
    &&& entries.len() == clusters.len()
    &&& forall|i: int|
        0 <= i < entries.len() ==> #[trigger] is_entry_of(
            entries[i],
            clusters[i],
            region,
            responses[i],
        )
}

impl ReportError {
    /// The message of the error, for the user.
    pub open spec fn message_text(&self) -> Seq<char> {
        match self {
            ReportError::ListingFailed(m) => LISTING_FAILED_PREFIX@ + m@,
            ReportError::RegionUnavailable => REGION_UNAVAILABLE_MESSAGE@,
        }
    }

    /// The message of the error; a listing failure keeps the upstream message verbatim.
    pub fn message(&self) -> (r: String)
        ensures
            r@ == self.message_text(),
    {
        match self {
            ReportError::ListingFailed(m) => {
                let mut r = String::from_str(LISTING_FAILED_PREFIX);
                r.append(m.as_str());
                r
            },
            ReportError::RegionUnavailable => String::from_str(REGION_UNAVAILABLE_MESSAGE),
        }
    }
}

/// The text of an optional field, empty where it is absent.
pub fn field_text(o: &Option<String>) -> (r: String)
    ensures
        r@ == text_or_empty(*o),
{
    match o {
        Some(s) => s.clone(),
        None => String::new(),
    }
}

/// The management-console link of the cluster `identifier` in `region`.
pub fn console_link(region: &str, identifier: &str) -> (r: String)
    ensures
        r@ == console_link_text(region@, identifier@),
{
    let mut r = String::from_str(CONSOLE_LINK_HEAD);
    r.append(region);
    r.append(CONSOLE_LINK_MIDDLE);
    r.append(identifier);
    r.append(CONSOLE_LINK_TAIL);
    r
}

/// Builds the entry of one cluster from its metadata and its metric query
/// response; absent metadata fields become empty text.
pub fn build_entry<V: Copy>(
    cluster: &ClusterInfo,
    region: &str,
    response: &Result<Vec<MetricSample<V>>, String>,
) -> (e: ReportEntry<V>)
    ensures
        is_entry_of(e, *cluster, region@, *response),
{
    let identifier = field_text(&cluster.identifier);
    let console_link = console_link(region, identifier.as_str());
    let resolution = resolve_response(response);
    ReportEntry {
        identifier,
        status: field_text(&cluster.status),
        endpoint: field_text(&cluster.endpoint),
        member_count: cluster.member_count,
        metric: resolution.metric,
        console_link,
        diagnostics: resolution.diagnostics,
    }
}

/// Builds one entry per cluster, in cluster order, from the metric query
/// response of each.
pub fn assemble_entries<V: Copy>(
    clusters: &Vec<ClusterInfo>,
    region: &str,
    responses: &Vec<Result<Vec<MetricSample<V>>, String>>,
) -> (entries: Vec<ReportEntry<V>>)
    requires
        responses@.len() == clusters@.len(),
    ensures
        is_report_of(entries@, clusters@, region@, responses@),
{
    let mut entries: Vec<ReportEntry<V>> = Vec::new();
    let mut i: usize = 0;
    while i < clusters.len()
        invariant
            0 <= i <= clusters@.len(),
            responses@.len() == clusters@.len(),
            entries@.len() == i,
            forall|j: int|
                0 <= j < i ==> #[trigger] is_entry_of(
                    entries@[j],
                    clusters@[j],
                    region@,
                    responses@[j],
                ),
        decreases clusters@.len() - i,
    {
        let e = build_entry(&clusters[i], region, &responses[i]);
        entries.push(e);
        i += 1;
    }
    entries
}

/// Assembles the report. A failed listing fails the whole run with its
/// message; otherwise a missing region fails it; otherwise every cluster gets
/// its entry, in listing order.
pub fn assemble<V: Copy>(
    listing: &Result<Vec<ClusterInfo>, String>,
    region: &Option<String>,
    responses: &Vec<Result<Vec<MetricSample<V>>, String>>,
) -> (r: Result<Vec<ReportEntry<V>>, ReportError>)
    requires
        listing is Ok && region is Some ==> responses@.len() == listing->Ok_0@.len(),
    ensures
        listing is Err ==> r == Err::<Vec<ReportEntry<V>>, ReportError>(
            ReportError::ListingFailed(listing->Err_0),
        ),
        listing is Ok && region is None ==> r == Err::<Vec<ReportEntry<V>>, ReportError>(
            ReportError::RegionUnavailable,
        ),
        listing is Ok && region is Some ==> r is Ok && is_report_of(
            r->Ok_0@,
            listing->Ok_0@,
            region->Some_0@,
            responses@,
        ),
{
    match listing {
        Err(message) => Err(ReportError::ListingFailed(message.clone())),
        Ok(clusters) => match region {
            None => Err(ReportError::RegionUnavailable),
            Some(region) => Ok(assemble_entries(clusters, region.as_str(), responses)),
        },
    }
}

/// The metric query for the cluster's CPU utilisation over the window that
/// ends at `now_seconds`.
pub fn cluster_query(cluster: &ClusterInfo, now_seconds: i64) -> (q: MetricQuery)
    requires
        now_seconds >= i64::MIN + WINDOW_SECONDS,
    ensures
        q.namespace@ == NEPTUNE_NAMESPACE@,
        q.metric_name@ == CPU_METRIC@,
        q.dimension_name@ == CLUSTER_DIMENSION@,
        q.dimension_value@ == text_or_empty(cluster.identifier),
        q.window.start_seconds == now_seconds - WINDOW_SECONDS,
        q.window.end_seconds == now_seconds,
        q.window.period_seconds == PERIOD_SECONDS,
        q.window.statistic == Statistic::Average,
{
    let identifier = field_text(&cluster.identifier);
    MetricQuery::new(identifier.as_str(), CPU_METRIC, NEPTUNE_NAMESPACE, now_seconds)
}

/// An assembled report has one entry per listed cluster, in listing order.
pub proof fn report_follows_listing<V>(
    entries: Seq<ReportEntry<V>>,
    clusters: Seq<ClusterInfo>,
    region: Seq<char>,
    responses: Seq<Result<Vec<MetricSample<V>>, String>>,
)
    requires
        is_report_of(entries, clusters, region, responses),
    ensures
        entries.len() == clusters.len(),
        forall|i: int|
            0 <= i < clusters.len() ==> (#[trigger] entries[i]).identifier@ == text_or_empty(
                clusters[i].identifier,
            ) && entries[i].member_count == clusters[i].member_count,
{
    assert forall|i: int| 0 <= i < clusters.len() implies (#[trigger] entries[i]).identifier@
        == text_or_empty(clusters[i].identifier) && entries[i].member_count
        == clusters[i].member_count by {
        assert(is_entry_of(entries[i], clusters[i], region, responses[i]));
    }
}

/// A cluster whose query returned no samples has no metric in the report, and
/// every other cluster's metric is the one its own response resolves to.
pub proof fn empty_response_touches_one_entry<V>(
    entries: Seq<ReportEntry<V>>,
    clusters: Seq<ClusterInfo>,
    region: Seq<char>,
    responses: Seq<Result<Vec<MetricSample<V>>, String>>,
    k: int,
)
    requires
        is_report_of(entries, clusters, region, responses),
        0 <= k < clusters.len(),
        responses[k] is Ok,
        responses[k]->Ok_0@.len() == 0,
    ensures
        entries[k].metric is None,
        entries[k].diagnostics@.len() == 0,
        forall|j: int|
            0 <= j < clusters.len() && j != k ==> (#[trigger] entries[j]).metric
                == resolved_metric(responses[j]),
{
    assert(is_entry_of(entries[k], clusters[k], region, responses[k]));
    no_samples_resolve_to_nothing(responses[k]->Ok_0);
    assert forall|j: int| 0 <= j < clusters.len() && j != k implies (#[trigger] entries[j]).metric
        == resolved_metric(responses[j]) by {
        assert(is_entry_of(entries[j], clusters[j], region, responses[j]));
    }
}

/// The message of a listing failure ends with the upstream message, verbatim.
pub proof fn listing_failure_keeps_message(message: String)
    ensures
        ReportError::ListingFailed(message).message_text().len() == LISTING_FAILED_PREFIX@.len()
            + message@.len(),
        ReportError::ListingFailed(message).message_text().subrange(
            LISTING_FAILED_PREFIX@.len() as int,
            (LISTING_FAILED_PREFIX@.len() + message@.len()) as int,
        ) == message@,
{
    let t = ReportError::ListingFailed(message).message_text();
    assert(t.subrange(LISTING_FAILED_PREFIX@.len() as int, t.len() as int) =~= message@);
}

} // verus!
