use rustack::cloudwatch_metrics::{sort_dimensions, DataPoint, MetricKey, MetricStore, StatisticSet};
use rustack::cloudwatch_model::{Dimension, InsightRule, StandardUnit};
use rustack::cloudwatch_router::{
    resolve_operation, CloudWatchError, CloudWatchErrorCode, CloudWatchOperation,
};
use rustack::cloudwatch_stores::{DashboardRecord, DashboardStore, InsightStore};

fn test_key(namespace: &str, name: &str) -> MetricKey {
    MetricKey::new(namespace.to_owned(), name.to_owned(), vec![])
}

fn test_data_point(ts: i64, value: f64) -> DataPoint {
    DataPoint {
        timestamp_ms: ts,
        value: Some(value.to_bits()),
        statistic_values: None,
        values: vec![],
        counts: vec![],
        unit: None,
    }
}

fn dim(name: &str, value: &str) -> Dimension {
    Dimension { name: name.to_owned(), value: value.to_owned() }
}

fn make_dashboard(name: &str) -> DashboardRecord {
    DashboardRecord {
        dashboard_name: name.to_owned(),
        dashboard_arn: format!("arn:aws:cloudwatch::000000000000:dashboard/{name}"),
        dashboard_body: r#"{"widgets":[]}"#.to_owned(),
        last_modified: 1_234_567_890.0f64.to_bits(),
        size: 15,
    }
}

fn params_with_action(action: &str) -> Vec<(String, String)> {
    vec![("Action".to_owned(), action.to_owned())]
}

// ---------------------------------------------------------------------------
// Metric store
// ---------------------------------------------------------------------------

#[test]
fn test_should_insert_and_retrieve_data_point() {
    let mut store = MetricStore::new(100_000);
    let key = test_key("MyApp", "RequestCount");
    store.insert(key.clone(), test_data_point(1000, 42.0));

    let series = store.get(&key).unwrap();
    assert_eq!(series.data_points.len(), 1);
    assert_eq!(series.data_points[0].0, 1000);
    assert_eq!(series.data_points[0].1[0].value, Some(42.0f64.to_bits()));
}

#[test]
fn test_should_normalize_dimension_order() {
    let key1 = MetricKey::new(
        "ns".to_owned(),
        "m".to_owned(),
        vec![dim("B", "2"), dim("A", "1")],
    );
    let key2 = MetricKey::new(
        "ns".to_owned(),
        "m".to_owned(),
        vec![dim("A", "1"), dim("B", "2")],
    );
    assert_eq!(key1, key2);
}

#[test]
fn test_should_enforce_max_points() {
    let mut store = MetricStore::new(5);
    let key = test_key("ns", "m");
    for i in 0..10 {
        store.insert(key.clone(), test_data_point(i, i as f64));
    }
    let series = store.get(&key).unwrap();
    let total: usize = series.data_points.iter().map(|g| g.1.len()).sum();
    assert!(total <= 5);
}

#[test]
fn metric_key_sorts_dimensions_by_name() {
    let key = MetricKey::new(
        "ns".to_owned(),
        "m".to_owned(),
        vec![dim("zeta", "1"), dim("alpha", "2"), dim("Mid", "3")],
    );
    let names: Vec<&str> = key.dimensions.iter().map(|d| d.name.as_str()).collect();
    assert_eq!(names, vec!["Mid", "alpha", "zeta"]);
    assert_eq!(key.dimensions[1].value, "2");
}

#[test]
fn metric_store_cap_keeps_newest_points() {
    let mut store = MetricStore::new(3);
    let key = test_key("ns", "m");
    for i in 0..6 {
        store.insert(key.clone(), test_data_point(i, i as f64));
    }
    let series = store.get(&key).unwrap();
    let stamps: Vec<i64> = series.data_points.iter().map(|g| g.0).collect();
    assert_eq!(stamps, vec![3, 4, 5]);
}

#[test]
fn metric_store_groups_points_by_timestamp_in_order() {
    let mut store = MetricStore::new(100);
    let key = test_key("ns", "m");
    store.insert(key.clone(), test_data_point(20, 1.0));
    store.insert(key.clone(), test_data_point(10, 2.0));
    store.insert(key.clone(), test_data_point(20, 3.0));
    let series = store.get(&key).unwrap();
    assert_eq!(series.data_points.len(), 2);
    assert_eq!(series.data_points[0].0, 10);
    assert_eq!(series.data_points[1].0, 20);
    assert_eq!(series.data_points[1].1.len(), 2);
    assert_eq!(series.data_points[1].1[1].value, Some(3.0f64.to_bits()));
}

#[test]
fn metric_series_takes_unit_of_first_point_with_one() {
    let mut store = MetricStore::new(100);
    let key = test_key("ns", "m");
    store.insert(key.clone(), test_data_point(1, 1.0));
    let mut p = test_data_point(2, 2.0);
    p.unit = Some(StandardUnit::Seconds);
    store.insert(key.clone(), p);
    let mut q = test_data_point(3, 3.0);
    q.unit = Some(StandardUnit::Bytes);
    q.statistic_values = Some(StatisticSet { sample_count: 1, sum: 2, minimum: 3, maximum: 4 });
    store.insert(key.clone(), q);
    let series = store.get(&key).unwrap();
    assert_eq!(series.unit, Some(StandardUnit::Seconds));
}

#[test]
fn metric_store_keys_and_len() {
    let mut store = MetricStore::new(10);
    assert!(store.is_empty());
    store.insert(test_key("a", "x"), test_data_point(1, 1.0));
    store.insert(test_key("b", "y"), test_data_point(1, 1.0));
    store.insert(test_key("a", "x"), test_data_point(2, 1.0));
    assert_eq!(store.len(), 2);
    assert!(!store.is_empty());
    let keys = store.keys();
    assert_eq!(keys, vec![test_key("a", "x"), test_key("b", "y")]);
    assert!(store.get(&test_key("c", "z")).is_none());
}

// ---------------------------------------------------------------------------
// Dashboards and insight rules
// ---------------------------------------------------------------------------

#[test]
fn test_should_store_and_retrieve_dashboard() {
    let mut store = DashboardStore::new();
    store.put(make_dashboard("test"));
    let d = store.get("test").unwrap();
    assert_eq!(d.dashboard_name, "test");
}

#[test]
fn test_should_delete_dashboards() {
    let mut store = DashboardStore::new();
    store.put(make_dashboard("a"));
    store.put(make_dashboard("b"));
    let _ = store.delete(&["a".to_owned()]);
    assert!(store.get("a").is_none());
    assert!(store.get("b").is_some());
}

#[test]
fn test_should_list_with_prefix() {
    let mut store = DashboardStore::new();
    store.put(make_dashboard("prod-api"));
    store.put(make_dashboard("prod-web"));
    store.put(make_dashboard("dev-api"));
    let prod = store.list(Some("prod-"));
    assert_eq!(prod.len(), 2);
}

#[test]
fn dashboard_put_replaces_same_name() {
    let mut store = DashboardStore::new();
    store.put(make_dashboard("a"));
    let mut again = make_dashboard("a");
    again.size = 99;
    store.put(again);
    assert_eq!(store.list(None).len(), 1);
    assert_eq!(store.get("a").unwrap().size, 99);
}

#[test]
fn dashboard_delete_reports_existing_names() {
    let mut store = DashboardStore::new();
    store.put(make_dashboard("a"));
    store.put(make_dashboard("b"));
    let gone = store.delete(&["b".to_owned(), "missing".to_owned()]);
    assert_eq!(gone, vec!["b".to_owned()]);
    assert_eq!(store.list(None).len(), 1);
}

#[test]
fn dashboard_list_holds_each_matching_name_once() {
    let mut store = DashboardStore::new();
    store.put(make_dashboard("prod-api"));
    store.put(make_dashboard("prod-web"));
    store.put(make_dashboard("dev-api"));
    store.put(make_dashboard("prod-api"));
    let mut names: Vec<String> = store
        .list(Some("prod-"))
        .into_iter()
        .map(|d| d.dashboard_name)
        .collect();
    names.sort();
    assert_eq!(names, vec!["prod-api".to_owned(), "prod-web".to_owned()]);
    assert_eq!(store.list(None).len(), 3);
    assert!(store.list(Some("qa-")).is_empty());
}

#[test]
fn insight_store_put_delete_list() {
    let mut store = InsightStore::new();
    let rule = |name: &str| InsightRule {
        apply_on_transformed_logs: None,
        definition: "{}".to_owned(),
        managed_rule: Some(false),
        name: name.to_owned(),
        schema: "CloudWatchLogRule/1".to_owned(),
        state: "ENABLED".to_owned(),
    };
    store.put(rule("r1"));
    store.put(rule("r2"));
    store.delete(&["r1".to_owned()]);
    let names: Vec<String> = store.list().into_iter().map(|r| r.name).collect();
    assert_eq!(names, vec!["r2".to_owned()]);
}

// ---------------------------------------------------------------------------
// Router
// ---------------------------------------------------------------------------

#[test]
fn test_should_resolve_put_metric_data() {
    let params = params_with_action("PutMetricData");
    let op = resolve_operation(&params).unwrap();
    assert_eq!(op, CloudWatchOperation::PutMetricData);
}

#[test]
fn test_should_resolve_describe_alarms() {
    let params = params_with_action("DescribeAlarms");
    let op = resolve_operation(&params).unwrap();
    assert_eq!(op, CloudWatchOperation::DescribeAlarms);
}

#[test]
fn test_should_error_on_missing_action() {
    let params: Vec<(String, String)> = vec![];
    let err = resolve_operation(&params).unwrap_err();
    assert_eq!(err.code, CloudWatchErrorCode::MissingAction);
}

#[test]
fn router_test_should_error_on_unknown_operation() {
    let params = params_with_action("NonExistentOperation");
    let err = resolve_operation(&params).unwrap_err();
    assert_eq!(err.code, CloudWatchErrorCode::InvalidAction);
}

#[test]
fn router_error_messages_and_status() {
    let err = resolve_operation(&params_with_action("Nope")).unwrap_err();
    assert_eq!(err.message, "Operation Nope is not supported.");
    assert_eq!(err.status_code, 400);
    let err = resolve_operation(&[("Other".to_owned(), "x".to_owned())]).unwrap_err();
    assert_eq!(err.message, "Missing required parameter: Action");
    assert_eq!(err.status_code, 400);
}

#[test]
fn router_uses_first_action_parameter() {
    let params = vec![
        ("Version".to_owned(), "2010-08-01".to_owned()),
        ("Action".to_owned(), "ListMetrics".to_owned()),
        ("Action".to_owned(), "Bogus".to_owned()),
    ];
    assert_eq!(resolve_operation(&params).unwrap(), CloudWatchOperation::ListMetrics);
}

#[test]
fn operation_names_round_trip() {
    for name in ["PutMetricData", "GetMetricData", "DescribeAlarms", "PutDashboard", "TagResource"] {
        let op = CloudWatchOperation::from_name(name).unwrap();
        assert_eq!(op.as_str(), name);
    }
    assert!(CloudWatchOperation::from_name("putmetricdata").is_none());
}

#[test]
fn error_codes_have_statuses() {
    assert_eq!(CloudWatchErrorCode::ResourceNotFound.default_status_code(), 404);
    assert_eq!(CloudWatchErrorCode::InternalServiceError.default_status_code(), 500);
    assert_eq!(CloudWatchErrorCode::MissingParameter.default_status_code(), 400);
    let e = CloudWatchError::with_message(CloudWatchErrorCode::ResourceNotFound, "gone".to_owned());
    assert_eq!(e.status_code, 404);
    assert_eq!(e.message, "gone");
}

#[test]
fn sorting_dimensions_keeps_equal_names_in_order() {
    let d = |n: &str, v: &str| Dimension { name: n.to_string(), value: v.to_string() };
    let sorted = sort_dimensions(vec![d("b", "1"), d("a", "x"), d("b", "2"), d("a", "y"), d("c", "0")]);
    let pairs: Vec<(String, String)> = sorted.into_iter().map(|x| (x.name, x.value)).collect();
    let want: Vec<(String, String)> = [("a", "x"), ("a", "y"), ("b", "1"), ("b", "2"), ("c", "0")]
        .iter()
        .map(|(n, v)| (n.to_string(), v.to_string()))
        .collect();
    assert_eq!(pairs, want);
}
