use holter::metrics_middleware::{
    metric_event, status_label, status_text, MetricEvent, MetricsLayer, FAILURE_STATUS,
    REQUEST_COUNT_METRIC, REQUEST_DURATION_METRIC,
};
use holter::server::{metrics_handler, HolterServerBuilder};
use metrics::{Key, Label, Level, Metadata, Recorder};
use metrics_exporter_prometheus::{PrometheusBuilder, PrometheusRecorder};

fn record(recorder: &PrometheusRecorder, event: &MetricEvent) {
    let labels: Vec<Label> = event
        .labels()
        .into_iter()
        .map(|(k, v)| Label::new(k, v))
        .collect();
    let meta = Metadata::new("holter", Level::INFO, None);
    let count_key = Key::from_parts(REQUEST_COUNT_METRIC, labels.clone());
    recorder.register_counter(&count_key, &meta).increment(1);
    let duration_key = Key::from_parts(REQUEST_DURATION_METRIC, labels);
    recorder
        .register_histogram(&duration_key, &meta)
        .record(event.latency_nanos as f64 / 1e9);
}

fn value_of(text: &str, series: &str) -> Option<f64> {
    text.lines()
        .find(|l| l.starts_with(series) && l[series.len()..].starts_with(' '))
        .map(|l| l[series.len() + 1..].trim().parse::<f64>().unwrap())
}

fn event(route: Option<&str>, status: Option<u16>, nanos: u64) -> Option<MetricEvent> {
    metric_event("GET".to_string(), route.map(|r| r.to_string()), status, nanos)
}

#[test]
fn status_text_is_decimal() {
    assert_eq!(status_text(0), "0");
    assert_eq!(status_text(7), "7");
    assert_eq!(status_text(200), "200");
    assert_eq!(status_text(404), "404");
    assert_eq!(status_text(65535), "65535");
}

#[test]
fn failed_inner_handler_is_labelled_500() {
    assert_eq!(status_label(None), FAILURE_STATUS);
    assert_eq!(status_label(None), 500);
    assert_eq!(status_label(Some(404)), 404);
}

#[test]
fn unmatched_request_records_nothing() {
    assert!(event(None, Some(200), 10).is_none());
    assert!(event(None, None, 10).is_none());
}

#[test]
fn matched_request_event_has_its_labels() {
    let e = event(Some("/items/{id}"), None, 1_500).unwrap();
    assert_eq!(e.method, "GET");
    assert_eq!(e.route, "/items/{id}");
    assert_eq!(e.status, 500);
    assert_eq!(e.latency_nanos, 1_500);
    let labels = e.labels();
    assert_eq!(
        labels,
        vec![
            ("method".to_string(), "GET".to_string()),
            ("path".to_string(), "/items/{id}".to_string()),
            ("status".to_string(), "500".to_string()),
        ]
    );
}

#[test]
fn layer_keeps_the_inner_handler() {
    let svc = MetricsLayer.layer(41u32);
    assert_eq!(*svc.inner(), 41);
    assert_eq!(svc.clone().into_inner(), 41);
}

#[test]
fn counter_increments_accumulate_per_series() {
    let recorder = PrometheusBuilder::new().build_recorder();
    for _ in 0..5 {
        record(&recorder, &event(Some("/a"), Some(200), 1_000).unwrap());
    }
    record(&recorder, &event(Some("/a"), Some(201), 1_000).unwrap());
    record(&recorder, &event(Some("/b"), Some(200), 1_000).unwrap());
    let text = recorder.handle().render();
    let a200 = "http_request_count{method=\"GET\",path=\"/a\",status=\"200\"}";
    let a201 = "http_request_count{method=\"GET\",path=\"/a\",status=\"201\"}";
    let b200 = "http_request_count{method=\"GET\",path=\"/b\",status=\"200\"}";
    assert_eq!(value_of(&text, a200), Some(5.0));
    assert_eq!(value_of(&text, a201), Some(1.0));
    assert_eq!(value_of(&text, b200), Some(1.0));
}

#[test]
fn histogram_count_and_sum_follow_observations() {
    let recorder = PrometheusBuilder::new().build_recorder();
    for nanos in [10_000_000u64, 20_000_000, 30_000_000] {
        record(&recorder, &event(Some("/h"), Some(200), nanos).unwrap());
    }
    let text = recorder.handle().render();
    let labels = "{method=\"GET\",path=\"/h\",status=\"200\"}";
    let count = value_of(&text, &format!("http_request_duration_count{}", labels)).unwrap();
    let sum = value_of(&text, &format!("http_request_duration_sum{}", labels)).unwrap();
    assert_eq!(count, 3.0);
    assert!((sum - 0.06).abs() < 1e-9);
}

#[test]
fn unmatched_requests_never_reach_the_registry() {
    let recorder = PrometheusBuilder::new().build_recorder();
    let paths = ["/secret", "/random/123"];
    for p in paths {
        let e = metric_event("GET".to_string(), None, Some(404), 5);
        assert!(e.is_none(), "{}", p);
        if let Some(e) = e {
            record(&recorder, &e);
        }
    }
    record(&recorder, &event(Some("/known"), Some(200), 5).unwrap());
    let text = recorder.handle().render();
    assert!(!text.contains("/secret"));
    assert!(!text.contains("/random/123"));
    assert!(text.contains("path=\"/known\""));
}

#[test]
fn three_requests_scenario() {
    let recorder = PrometheusBuilder::new().build_recorder();
    let server = HolterServerBuilder::<u32>::new()
        .build_with(Ok(recorder.handle()))
        .unwrap();
    let route = "/items/{id}";
    let requests = [(10_000_000u64, 200u16), (20_000_000, 200), (30_000_000, 404)];
    for (nanos, status) in requests {
        record(&recorder, &event(Some(route), Some(status), nanos).unwrap());
    }
    let text = metrics_handler(server.state());
    let l200 = "{method=\"GET\",path=\"/items/{id}\",status=\"200\"}";
    let l404 = "{method=\"GET\",path=\"/items/{id}\",status=\"404\"}";
    assert_eq!(value_of(&text, &format!("http_request_count{}", l200)), Some(2.0));
    assert_eq!(value_of(&text, &format!("http_request_count{}", l404)), Some(1.0));
    let c200 = value_of(&text, &format!("http_request_duration_count{}", l200)).unwrap();
    let c404 = value_of(&text, &format!("http_request_duration_count{}", l404)).unwrap();
    assert_eq!(c200 + c404, 3.0);
    let s200 = value_of(&text, &format!("http_request_duration_sum{}", l200)).unwrap();
    let s404 = value_of(&text, &format!("http_request_duration_sum{}", l404)).unwrap();
    assert!((s200 + s404 - 0.06).abs() < 1e-9);
    assert_eq!(holter::server::health_handler(server.state(), None), 200);
}

#[test]
fn distinct_tuples_give_distinct_labels() {
    let a = event(Some("/x"), Some(20), 1).unwrap();
    let b = event(Some("/x"), Some(200), 2).unwrap();
    let c = event(Some("/x"), Some(20), 3).unwrap();
    assert_ne!(a.labels(), b.labels());
    assert_eq!(a.labels(), c.labels());
}
