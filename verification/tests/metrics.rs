use deli::config::{MonitorProviderConfig, MonitorProviderKind};
use deli::gnuplot::DataPoint;
use deli::metrics::{
    opentsdb_frame, opentsdb_query_body, opentsdb_query_url, prometheus_frame, prometheus_query_url,
    LabelledSeries, OpenTsdbMonitorProvider, PrometheusMonitorProvider, TaggedSeries,
};
use deli::error::DeliErrorKind;

fn http_config(kind: MonitorProviderKind, endpoint: Option<&str>, step: u64, lookback: u64) -> MonitorProviderConfig {
    MonitorProviderConfig {
        name: "metrics".into(),
        kind: Some(kind),
        command: None,
        endpoint: endpoint.map(Into::into),
        query: None,
        query_presets: vec![],
        step_seconds: step,
        lookback_minutes: lookback,
    }
}

fn point(timestamp: i64, value: &str) -> DataPoint {
    DataPoint {
        timestamp,
        value: value.into(),
    }
}

#[test]
fn prometheus_http_provider_fetches_range_query() {
    let config = http_config(MonitorProviderKind::Prometheus, Some("http://127.0.0.1:9090/"), 60, 15);
    let provider = PrometheusMonitorProvider::new(&config, "Prometheus").unwrap();
    let url = prometheus_query_url(&provider, "up{job=\"api\"}", 1_712_300_900).unwrap();
    assert_eq!(
        url,
        "http://127.0.0.1:9090/api/v1/query_range?query=up%7Bjob%3D%22api%22%7D&start=1712300000&end=1712300900&step=60"
    );
    let frame = prometheus_frame(
        &provider,
        "up{job=\"api\"}",
        "success",
        &vec![LabelledSeries {
            labels: vec![("__name__".into(), "up".into()), ("job".into(), "api".into())],
            points: vec![point(1_712_300_000, "1"), point(1_712_300_060, "1")],
        }],
    )
    .unwrap();
    assert_eq!(frame.series.len(), 1);
    assert_eq!(frame.title, "Prometheus: up{job=\"api\"}");
    assert_eq!(frame.series[0].name, "__name__=up,job=api");
    assert_eq!(frame.series[0].points.len(), 2);
}

#[test]
fn victoriametrics_http_provider_uses_prometheus_compatible_api() {
    let config = http_config(MonitorProviderKind::VictoriaMetrics, Some("http://vm:8428"), 60, 60);
    let provider = PrometheusMonitorProvider::new(&config, "VictoriaMetrics").unwrap();
    let url = prometheus_query_url(&provider, "rate(http_requests_total[5m])", 3_600).unwrap();
    assert!(url.starts_with("http://vm:8428/api/v1/query_range?"));
    assert!(url.contains("query=rate%28http_requests_total%5B5m%5D%29"));
    assert!(url.contains("&start=0&end=3600&step=60"));
    let frame = prometheus_frame(
        &provider,
        "rate(http_requests_total[5m])",
        "success",
        &vec![LabelledSeries {
            labels: vec![],
            points: vec![point(1_712_300_000, "42.5"), point(1_712_300_060, "44")],
        }],
    )
    .unwrap();
    assert_eq!(frame.series[0].points[0].value, "42.5");
    assert_eq!(frame.series[0].name, "rate(http_requests_total[5m])");
}

#[test]
fn http_metrics_failures_are_reported() {
    let missing = PrometheusMonitorProvider::new(&http_config(MonitorProviderKind::Prometheus, None, 60, 15), "Prometheus")
        .unwrap_err();
    assert_eq!(missing.kind, DeliErrorKind::Configuration);
    assert_eq!(missing.message, "Prometheus provider 'metrics' is missing endpoint");
    let bad = PrometheusMonitorProvider::new(
        &http_config(MonitorProviderKind::Prometheus, Some("not a url"), 60, 15),
        "Prometheus",
    )
    .unwrap();
    let error = prometheus_query_url(&bad, "up", 1_000).unwrap_err();
    assert_eq!(error.message, "invalid Prometheus endpoint: relative URL without a base");
    let failed = prometheus_frame(&bad, "up", "error", &vec![]).unwrap_err();
    assert_eq!(failed.message, "Prometheus query failed with status error");
    let tsdb = OpenTsdbMonitorProvider::new(&http_config(MonitorProviderKind::OpenTsdb, None, 30, 10)).unwrap_err();
    assert_eq!(tsdb.message, "OpenTSDB provider 'metrics' is missing endpoint");
}

#[test]
fn opentsdb_http_provider_posts_query_payload() {
    let config = http_config(MonitorProviderKind::OpenTsdb, Some("http://tsdb:4242/"), 30, 10);
    let provider = OpenTsdbMonitorProvider::new(&config).unwrap();
    assert_eq!(opentsdb_query_url(&provider), "http://tsdb:4242/api/query");
    let body = opentsdb_query_body(&provider, "sys.cpu.user", 1_712_300_600);
    assert_eq!(
        body,
        "{\"start\":1712300000,\"end\":1712300600,\"queries\":[{\"aggregator\":\"avg\",\"metric\":\"sys.cpu.user\",\"downsample\":\"30s-avg\"}]}"
    );
    assert!(body.contains("\"metric\":\"sys.cpu.user\""));
    assert!(body.contains("\"downsample\":\"30s-avg\""));
    let frame = opentsdb_frame(
        "sys.cpu.user",
        &vec![TaggedSeries {
            metric: "sys.cpu.user".into(),
            series: LabelledSeries {
                labels: vec![("host".into(), "api-0".into()), ("env".into(), "prod".into())],
                points: vec![point(1_712_300_000, "12.1"), point(1_712_300_060, "15.4")],
            },
        }],
    );
    assert_eq!(frame.title, "OpenTSDB: sys.cpu.user");
    assert_eq!(frame.series[0].name, "sys.cpu.user{host=api-0,env=prod}");
    assert_eq!(frame.series[0].points.len(), 2);
}
