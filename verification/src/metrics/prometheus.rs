//! The metrics pushed to a Prometheus Pushgateway: where they go, and the
//! definition of each metric.
//!
//! The definitions are data; registering them with a Prometheus registry and
//! pushing the gathered values is done by the caller.  The buckets of the
//! duration histogram are fractional seconds and are kept by the caller too.
use vstd::prelude::*;

use crate::text::strings_view;
use crate::urls::{url_parse, url_parse_spec};

verus! {

/// The kind of a metric.
#[derive(PartialEq, Eq, Structural, Clone, Copy, Debug)]
pub enum MetricKind {
    IntGauge,
    IntGaugeVec,
    IntCounter,
    Gauge,
    Histogram,
}

/// The definition of one metric: its name, help text, kind and label names.
#[derive(Debug, Clone)]
pub struct MetricDef {
    pub name: String,
    pub help: String,
    pub kind: MetricKind,
    pub labels: Vec<String>,
}

/// A definition as plain values.
pub open spec fn def_view(d: MetricDef) -> (Seq<char>, Seq<char>, MetricKind, Seq<Seq<char>>) {
    (d.name@, d.help@, d.kind, strings_view(d.labels@))
}

fn def(name: &str, help: &str, kind: MetricKind, label: Option<&str>) -> (d: MetricDef)
    ensures
        d.name@ == name@,
        d.help@ == help@,
        d.kind == kind,
        strings_view(d.labels@) == match label {
            Some(l) => seq![l@],
            None => Seq::<Seq<char>>::empty(),
        },
{
    let mut labels: Vec<String> = Vec::new();
    match label {
        Some(l) => labels.push(l.to_owned()),
        None => {},
    }
    let d = MetricDef { name: name.to_owned(), help: help.to_owned(), kind, labels };
    assert(strings_view(d.labels@) =~= match label {
        Some(l) => seq![l@],
        None => Seq::<Seq<char>>::empty(),
    });
    d
}

/// The metrics of the bot.
#[derive(Debug, Clone)]
pub struct PrometheusMetrics {
    pub track_status: MetricDef,
    pub lyrics_checked: MetricDef,
    pub lyrics_analyzed: MetricDef,
    pub lyrics_found: MetricDef,
    pub lyrics_profane: MetricDef,
    pub lyrics_source: MetricDef,
    pub process_duration: MetricDef,
    pub process_check_interval_seconds: MetricDef,
    pub process_users_checked: MetricDef,
    pub process_users_processed: MetricDef,
    pub process_parallel_threads: MetricDef,
    pub ticks: MetricDef,
    pub ticks_unhealthy: MetricDef,
    pub ticks_lagging: MetricDef,
    pub spotify_rate_limit_errors: MetricDef,
    pub users_by_status: MetricDef,
    pub tracks_by_language: MetricDef,
    pub uptime: MetricDef,
}

/// The definitions of [`PrometheusMetrics`], field by field, as plain values.
pub open spec fn metrics_view(m: PrometheusMetrics) -> Seq<(Seq<char>, Seq<char>, MetricKind, Seq<Seq<char>>)> {
    seq![
        def_view(m.track_status),
        def_view(m.lyrics_checked),
        def_view(m.lyrics_analyzed),
        def_view(m.lyrics_found),
        def_view(m.lyrics_profane),
        def_view(m.lyrics_source),
        def_view(m.process_duration),
        def_view(m.process_check_interval_seconds),
        def_view(m.process_users_checked),
        def_view(m.process_users_processed),
        def_view(m.process_parallel_threads),
        def_view(m.ticks),
        def_view(m.ticks_unhealthy),
        def_view(m.ticks_lagging),
        def_view(m.spotify_rate_limit_errors),
        def_view(m.users_by_status),
        def_view(m.tracks_by_language),
        def_view(m.uptime),
    ]
}

/// The metrics the bot defines, in the order of [`PrometheusMetrics`]' fields.
pub open spec fn metric_table() -> Seq<(Seq<char>, Seq<char>, MetricKind, Seq<Seq<char>>)> {
    seq![
        ("track_status_total"@, "Total tracks by status"@, MetricKind::IntGaugeVec, seq!["status"@]),
        ("lyrics_checked_total"@, "Total lyrics checked"@, MetricKind::IntGauge, Seq::empty()),
        ("lyrics_analyzed_total"@, "Total lyrics analyzed"@, MetricKind::IntGauge, Seq::empty()),
        ("lyrics_found_total"@, "Total lyrics found"@, MetricKind::IntGauge, Seq::empty()),
        ("lyrics_profane_total"@, "Total profane lyrics"@, MetricKind::IntGauge, Seq::empty()),
        ("lyrics_source_total"@, "Lyrics by source"@, MetricKind::IntGaugeVec, seq!["source"@]),
        ("process_duration_seconds"@, "Processing duration in seconds"@, MetricKind::Histogram, Seq::empty()),
        ("process_check_interval_seconds"@, "Interval between user check cycles in seconds"@, MetricKind::Gauge, Seq::empty()),
        ("process_users_checked_total"@, "Number of users checked"@, MetricKind::IntCounter, Seq::empty()),
        ("process_users_processed_total"@, "Total users processed"@, MetricKind::IntCounter, Seq::empty()),
        ("process_parallel_threads"@, "Number of parallel processing threads"@, MetricKind::IntGauge, Seq::empty()),
        ("ticks"@, "Total number of active ticks"@, MetricKind::IntGauge, Seq::empty()),
        ("ticks_unhealthy"@, "Unhealthy tick count"@, MetricKind::IntGauge, Seq::empty()),
        ("ticks_lagging"@, "Lagging tick count"@, MetricKind::IntGauge, Seq::empty()),
        ("errors_spotify_rate_limit_total"@, "Total Spotify 429 rate limit errors"@, MetricKind::IntGauge, Seq::empty()),
        ("users_by_status_total"@, "Users by status"@, MetricKind::IntGaugeVec, seq!["status"@]),
        ("tracks_by_language_total"@, "Tracks by language"@, MetricKind::IntGaugeVec, seq!["language"@]),
        ("uptime_seconds"@, "Application uptime in seconds"@, MetricKind::IntGauge, Seq::empty()),
    ]
}

impl PrometheusMetrics {
    /// The definitions of [`metric_table`].
    pub fn new() -> (m: Self)
        ensures
            metrics_view(m) == metric_table(),
    {
        let m = PrometheusMetrics {
            track_status: def("track_status_total", "Total tracks by status", MetricKind::IntGaugeVec, Some("status")),
            lyrics_checked: def("lyrics_checked_total", "Total lyrics checked", MetricKind::IntGauge, None),
            lyrics_analyzed: def("lyrics_analyzed_total", "Total lyrics analyzed", MetricKind::IntGauge, None),
            lyrics_found: def("lyrics_found_total", "Total lyrics found", MetricKind::IntGauge, None),
            lyrics_profane: def("lyrics_profane_total", "Total profane lyrics", MetricKind::IntGauge, None),
            lyrics_source: def("lyrics_source_total", "Lyrics by source", MetricKind::IntGaugeVec, Some("source")),
            process_duration: def("process_duration_seconds", "Processing duration in seconds", MetricKind::Histogram, None),
            process_check_interval_seconds: def("process_check_interval_seconds", "Interval between user check cycles in seconds", MetricKind::Gauge, None),
            process_users_checked: def("process_users_checked_total", "Number of users checked", MetricKind::IntCounter, None),
            process_users_processed: def("process_users_processed_total", "Total users processed", MetricKind::IntCounter, None),
            process_parallel_threads: def("process_parallel_threads", "Number of parallel processing threads", MetricKind::IntGauge, None),
            ticks: def("ticks", "Total number of active ticks", MetricKind::IntGauge, None),
            ticks_unhealthy: def("ticks_unhealthy", "Unhealthy tick count", MetricKind::IntGauge, None),
            ticks_lagging: def("ticks_lagging", "Lagging tick count", MetricKind::IntGauge, None),
            spotify_rate_limit_errors: def("errors_spotify_rate_limit_total", "Total Spotify 429 rate limit errors", MetricKind::IntGauge, None),
            users_by_status: def("users_by_status_total", "Users by status", MetricKind::IntGaugeVec, Some("status")),
            tracks_by_language: def("tracks_by_language_total", "Tracks by language", MetricKind::IntGaugeVec, Some("language")),
            uptime: def("uptime_seconds", "Application uptime in seconds", MetricKind::IntGauge, None),
        };
        assert(metrics_view(m) =~= metric_table());
        m
    }
}

/// Why a client could not be made.
#[derive(Debug)]
pub enum PrometheusError {
    /// The Pushgateway URL is no URL ("Invalid Pushgateway URL format").
    InvalidUrl(url::ParseError),
}

/// Where and as what the metrics are pushed, and the metrics themselves.
#[derive(Debug)]
pub struct PrometheusClient {
    /// The Pushgateway URL, as the `url` crate serializes it.
    pub url: String,
    pub job: String,
    pub instance: String,
    /// User name and password, when the Pushgateway wants them.
    pub basic_auth: Option<(String, String)>,
    /// The prefix of every metric name.
    pub namespace: String,
    /// The label that every metric carries.
    pub const_labels: Vec<(String, String)>,
    pub metrics: PrometheusMetrics,
}

impl PrometheusClient {
    /// A client for the given Pushgateway; fails exactly when its URL does not
    /// parse.  A user name brings basic authentication, with the password or
    /// an empty one.
    pub fn new(
        pushgateway_url: &str,
        job: &str,
        instance: &str,
        username: Option<&str>,
        password: Option<&str>,
    ) -> (res: Result<Self, PrometheusError>)
        ensures
            url_parse_spec(pushgateway_url@) is None <==> res is Err,
            res matches Ok(c) ==> {
                &&& Some(c.url@) == url_parse_spec(pushgateway_url@)
                &&& c.job@ == job@
                &&& c.instance@ == instance@
                &&& match username {
                    Some(u) => c.basic_auth matches Some(ba) && ba.0@ == u@ && ba.1@ == match password {
                        Some(p) => p@,
                        None => Seq::<char>::empty(),
                    },
                    None => c.basic_auth is None,
                }
                &&& c.namespace@ == "rustify"@
                &&& c.const_labels@.len() == 1
                &&& c.const_labels@[0].0@ == "app"@
                &&& c.const_labels@[0].1@ == "rustify"@
                &&& metrics_view(c.metrics) == metric_table()
            },
    {
        let url = match url_parse(pushgateway_url) {
            Ok(u) => u,
            Err(e) => {
                return Err(PrometheusError::InvalidUrl(e));
            },
        };
        let basic_auth = match username {
            Some(u) => Some(
                (
                    u.to_owned(),
                    match password {
                        Some(p) => p.to_owned(),
                        None => String::new(),
                    },
                ),
            ),
            None => None,
        };
        let mut const_labels: Vec<(String, String)> = Vec::new();
        const_labels.push((String::from_str("app"), String::from_str("rustify")));
        Ok(PrometheusClient {
            url,
            job: job.to_owned(),
            instance: instance.to_owned(),
            basic_auth,
            namespace: String::from_str("rustify"),
            const_labels,
            metrics: PrometheusMetrics::new(),
        })
    }

    /// The metrics to register and update.
    pub fn metrics(&self) -> (res: &PrometheusMetrics)
        ensures
            metrics_view(*res) == metrics_view(self.metrics),
    {
        &self.metrics
    }
}

} // verus!
