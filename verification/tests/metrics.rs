use rustify::metrics::influx::{InfluxClient, InfluxError};
use rustify::metrics::influx_collector::influx_points;
use rustify::metrics::prometheus::{MetricKind, PrometheusClient, PrometheusError, PrometheusMetrics};
use rustify::metrics::prometheus_collector::{gauge_updates, CollectedStats, Gauge};

#[test]
fn test_new_valid_url() {
    let client = PrometheusClient::new(
        "http://localhost:9091",
        "test_job",
        "test_instance",
        None,
        None,
    );
    assert!(client.is_ok());
}

#[test]
fn test_new_invalid_url() {
    let client = PrometheusClient::new("not-a-url", "test_job", "test_instance", None, None);
    assert!(client.is_err());
}

#[test]
fn test_new_with_auth() {
    let client = PrometheusClient::new(
        "http://localhost:9091",
        "test_job",
        "test_instance",
        Some("user"),
        Some("pass"),
    );
    assert!(client.is_ok());
    let client = client.unwrap();
    assert!(client.basic_auth.is_some());
}

#[test]
fn prometheus_client_fields() {
    let client = PrometheusClient::new("http://localhost:9091", "job", "inst", Some("u"), None).unwrap();
    // the url crate normalizes the URL: an empty path becomes "/"
    assert_eq!(client.url, "http://localhost:9091/");
    assert_eq!(client.job, "job");
    assert_eq!(client.instance, "inst");
    assert_eq!(client.basic_auth, Some(("u".to_string(), String::new())));
    assert_eq!(client.namespace, "rustify");
    assert_eq!(client.const_labels, vec![("app".to_string(), "rustify".to_string())]);
    let no_auth = PrometheusClient::new("http://localhost:9091", "job", "inst", None, Some("p")).unwrap();
    assert_eq!(no_auth.basic_auth, None);
}

#[test]
fn prometheus_invalid_url_error() {
    let err = PrometheusClient::new("not-a-url", "job", "inst", None, None).unwrap_err();
    assert!(matches!(err, PrometheusError::InvalidUrl(url::ParseError::RelativeUrlWithoutBase)));
}

#[test]
fn prometheus_metric_definitions() {
    let m = PrometheusMetrics::new();
    assert_eq!(m.track_status.name, "track_status_total");
    assert_eq!(m.track_status.labels, vec!["status".to_string()]);
    assert_eq!(m.track_status.kind, MetricKind::IntGaugeVec);
    assert_eq!(m.process_duration.name, "process_duration_seconds");
    assert_eq!(m.process_duration.kind, MetricKind::Histogram);
    assert_eq!(m.spotify_rate_limit_errors.name, "errors_spotify_rate_limit_total");
    assert_eq!(m.uptime.help, "Application uptime in seconds");
    assert!(m.uptime.labels.is_empty());
    assert_eq!(m.tracks_by_language.labels, vec!["language".to_string()]);
}

fn stats() -> CollectedStats {
    CollectedStats {
        disliked: 3,
        ignored: u64::MAX,
        skipped: 7,
        removed_collection: 1,
        removed_playlists: 2,
        lyrics_checked: 10,
        lyrics_found: 9,
        lyrics_profane: 4,
        lyrics_genius: 5,
        lyrics_musixmatch: 2,
        lyrics_lrclib: 2,
        lyrics_analyzed: 1,
        ticks_total: 6,
        ticks_unhealthy: 1,
        ticks_lagging: 0,
        spotify_429: 12,
        uptime_secs: 3600,
        users_by_status: vec![("active".to_string(), 20), ("blocked".to_string(), 3)],
        tracks_by_language: vec![(Some("eng".to_string()), 40), (None, 2)],
    }
}

#[test]
fn gauge_updates_in_order() {
    let u = gauge_updates(&stats());
    assert_eq!(u.len(), 17 + 2 + 2);
    assert_eq!(u[0].gauge, Gauge::TrackStatus);
    assert_eq!(u[0].label.as_deref(), Some("disliked"));
    assert_eq!(u[0].value, 3);
    // u64::MAX read as a signed number
    assert_eq!(u[1].value, -1);
    assert_eq!(u[12].gauge, Gauge::Ticks);
    assert_eq!(u[12].value, 6);
    assert_eq!(u[16].gauge, Gauge::Uptime);
    assert_eq!(u[16].value, 3600);
    assert_eq!(u[17].gauge, Gauge::UsersByStatus);
    assert_eq!(u[17].label.as_deref(), Some("active"));
    assert_eq!(u[20].gauge, Gauge::TracksByLanguage);
    assert_eq!(u[20].label.as_deref(), Some("none"));
    assert_eq!(u[20].value, 2);
}

#[test]
fn influx_client_settings() {
    let c = InfluxClient::new("http://influx:8086/api/v2", "b", "o", "tok", None).unwrap();
    assert_eq!(c.url, "http://influx:8086/api/v2?bucket=b&org=o");
    assert_eq!(c.auth_header, "Token tok");
    assert_eq!(c.instance_tag, "unknown");
    assert_eq!(c.write_url().as_deref(), Some("http://influx:8086/api/v2/write?bucket=b&org=o"));
    let tags = c.point_tags();
    assert_eq!(tags, vec![("app".to_string(), "rustify".to_string()), ("instance".to_string(), "unknown".to_string())]);
    assert!(!InfluxClient::can_write(0));
    assert!(InfluxClient::can_write(1));
}

#[test]
fn influx_client_errors() {
    assert!(matches!(
        InfluxClient::new("http://influx", "b", "o", "bad\ntoken", Some("i")),
        Err(InfluxError::InvalidToken)
    ));
    assert!(matches!(
        InfluxClient::new("influx", "b", "o", "t", Some("i")),
        Err(InfluxError::InvalidUrl(_))
    ));
    assert!(matches!(
        InfluxClient::new("mailto:me@example.com", "b", "o", "t", Some("i")),
        Err(InfluxError::NotABase)
    ));
}

#[test]
fn influx_points_in_order() {
    let mut s = stats();
    s.removed_playlists = -1;
    s.tracks_by_language.push((Some("deu".to_string()), -3));
    let p = influx_points(&s);
    assert_eq!(p.len(), 5 + 2 + 3);
    assert_eq!(p[0].measurement, "track_status");
    assert_eq!(p[0].fields[4], ("removed_playlists".to_string(), u64::MAX));
    assert_eq!(p[1].fields[0], ("checked".to_string(), 10));
    assert_eq!(p[4].fields, vec![("secs_elapsed".to_string(), 3600)]);
    assert_eq!(p[5].tags, vec![("status".to_string(), "active".to_string())]);
    assert_eq!(p[8].tags, vec![("language".to_string(), "none".to_string())]);
    assert_eq!(p[9].fields, vec![("count".to_string(), 0)]);
}
