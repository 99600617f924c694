use neptune_report::metric::{Diagnostic, MetricPoint, MetricSample};
use neptune_report::report::{
    assemble, assemble_entries, build_entry, cluster_query, console_link, field_text,
    ClusterInfo, ReportError,
};
use neptune_report::timestamp::Timestamp;

fn cluster(id: &str, status: &str, endpoint: &str, members: usize) -> ClusterInfo {
    ClusterInfo {
        identifier: Some(id.to_string()),
        status: Some(status.to_string()),
        endpoint: Some(endpoint.to_string()),
        member_count: members,
    }
}

fn samples(list: &[(&str, f64)]) -> Result<Vec<MetricSample<f64>>, String> {
    Ok(list
        .iter()
        .map(|(t, v)| MetricSample { timestamp: Some(t.to_string()), value: Some(*v) })
        .collect())
}

#[test]
fn console_link_names_region_and_cluster() {
    assert_eq!(
        console_link("eu-west-1", "db1"),
        "https://console.aws.amazon.com/neptune/home?region=eu-west-1#database:id=db1;is-cluster=true"
    );
}

#[test]
fn absent_fields_become_empty_text() {
    assert_eq!(field_text(&None), "");
    assert_eq!(field_text(&Some("x".to_string())), "x");
    let bare = ClusterInfo { identifier: None, status: None, endpoint: None, member_count: 0 };
    let e = build_entry(&bare, "us-east-1", &samples(&[]));
    assert_eq!(e.identifier, "");
    assert_eq!(e.status, "");
    assert_eq!(e.endpoint, "");
    assert_eq!(
        e.console_link,
        "https://console.aws.amazon.com/neptune/home?region=us-east-1#database:id=;is-cluster=true"
    );
}

#[test]
fn available_cluster_with_one_sample() {
    let clusters = vec![cluster("db1", "available", "db1.end", 2)];
    let r = assemble(&Ok(clusters), &Some("us-east-1".to_string()), &vec![samples(&[(
        "2024-05-06T13:07:00Z",
        12.345,
    )])])
    .unwrap();
    assert_eq!(r.len(), 1);
    let e = &r[0];
    assert_eq!(e.identifier, "db1");
    assert_eq!(e.status, "available");
    assert_eq!(e.endpoint, "db1.end");
    assert_eq!(e.member_count, 2);
    let at = Timestamp {
        year: 2024,
        month: 5,
        day: 6,
        hour: 13,
        minute: 7,
        second: 0,
        utc_offset_seconds: 0,
    };
    assert_eq!(e.metric, Some(MetricPoint { at, value: 12.345 }));
    assert!(e.diagnostics.is_empty());
}

#[test]
fn creating_cluster_with_failed_query() {
    let clusters = vec![cluster("db2", "creating", "", 0)];
    let r = assemble::<f64>(
        &Ok(clusters),
        &Some("us-east-1".to_string()),
        &vec![Err("throttled".to_string())],
    )
    .unwrap();
    assert_eq!(r.len(), 1);
    assert_eq!(r[0].identifier, "db2");
    assert_eq!(r[0].status, "creating");
    assert_eq!(r[0].endpoint, "");
    assert_eq!(r[0].member_count, 0);
    assert_eq!(r[0].metric, None);
    assert_eq!(r[0].diagnostics, vec![Diagnostic::QueryFailed("throttled".to_string())]);
}

#[test]
fn entries_follow_listing_order() {
    let clusters = vec![cluster("c", "s", "e", 3), cluster("a", "s", "e", 1), cluster("b", "s", "e", 2)];
    let responses = vec![samples(&[]), samples(&[("2024-05-06T13:07:00Z", 1.0)]), samples(&[])];
    let r = assemble_entries(&clusters, "r", &responses);
    let ids: Vec<&str> = r.iter().map(|e| e.identifier.as_str()).collect();
    assert_eq!(ids, vec!["c", "a", "b"]);
    assert_eq!(r[0].metric, None);
    assert!(r[1].metric.is_some());
    assert_eq!(r[2].metric, None);
}

#[test]
fn empty_listing_gives_empty_report() {
    let r = assemble::<f64>(&Ok(Vec::new()), &Some("r".to_string()), &Vec::new()).unwrap();
    assert!(r.is_empty());
}

#[test]
fn missing_region_fails_the_run() {
    let clusters = vec![cluster("db1", "available", "db1.end", 2)];
    let r = assemble::<f64>(&Ok(clusters), &None, &vec![samples(&[])]);
    assert_eq!(r.unwrap_err(), ReportError::RegionUnavailable);
    assert_eq!(ReportError::RegionUnavailable.message(), "No region is configured");
}

#[test]
fn listing_failure_fails_the_run_with_its_message() {
    let r = assemble::<f64>(&Err("service unavailable".to_string()), &Some("r".to_string()), &Vec::new());
    let e = r.unwrap_err();
    assert_eq!(e, ReportError::ListingFailed("service unavailable".to_string()));
    assert_eq!(e.message(), "Failed to describe clusters: service unavailable");
}

#[test]
fn listing_failure_wins_over_missing_region() {
    let r = assemble::<f64>(&Err("down".to_string()), &None, &Vec::new());
    assert_eq!(r.unwrap_err(), ReportError::ListingFailed("down".to_string()));
}

#[test]
fn cluster_query_asks_for_cpu_average() {
    let q = cluster_query(&cluster("db1", "available", "db1.end", 2), 10_000);
    assert_eq!(q.namespace, "AWS/Neptune");
    assert_eq!(q.metric_name, "CPUUtilization");
    assert_eq!(q.dimension_value, "db1");
    assert_eq!(q.window.start_seconds, 9_700);
    assert_eq!(q.window.end_seconds, 10_000);
}
