//! Metrics from Prometheus-style and OpenTSDB HTTP endpoints: the requests
//! for a query over the lookback window, and the series their replies give.
use vstd::prelude::*;

use crate::config::MonitorProviderConfig;
use crate::error::{error_with_detail, DeliError, DeliErrorKind};
use crate::feishu::{url_with_pairs_of, url_with_query_pairs};
use crate::gnuplot::{DataPoint, Series, TimeSeriesFrame};
use crate::json::{json_string, json_string_of};
use crate::panels::pairs_view;
use crate::text::{
    concat, i64_text, int_text, join, join_strings, nat_digits, owned, string_of,
    trim_end_char_seq, trim_end_slashes, u64_text,
};

verus! {

/// A Prometheus or VictoriaMetrics endpoint, asked for range queries.
#[derive(Debug, Clone)]
pub struct PrometheusMonitorProvider {
    pub name: String,
    pub product_name: String,
    pub endpoint: String,
    pub step_seconds: u64,
    pub lookback_minutes: u64,
}

/// An OpenTSDB endpoint, asked with query bodies.
#[derive(Debug, Clone)]
pub struct OpenTsdbMonitorProvider {
    pub name: String,
    pub endpoint: String,
    pub step_seconds: u64,
    pub lookback_minutes: u64,
}

/// The error for an HTTP metrics provider without an endpoint: "<product>
/// provider '<name>' is missing endpoint".
pub open spec fn is_missing_endpoint_error(e: DeliError, product: Seq<char>, name: Seq<char>) -> bool {
    e.kind == DeliErrorKind::Configuration && e.message@ == product + " provider '"@ + name
        + "' is missing endpoint"@ && e.retry_hint is None
}

/// The error for an HTTP metrics provider without an endpoint.
fn missing_endpoint(product: &str, name: &String) -> (res: DeliError)
    ensures
        is_missing_endpoint_error(res, product@, name@),
{
    let mut msg = owned(product);
    msg.append(" provider '");
    msg.append(name.as_str());
    msg.append("' is missing endpoint");
    DeliError::new(DeliErrorKind::Configuration, msg)
}

impl PrometheusMonitorProvider {
    /// A provider from its configuration, which must name an endpoint.
    pub fn new(config: &MonitorProviderConfig, product_name: &str) -> (res: Result<Self, DeliError>)
        ensures
            match config.endpoint {
                Some(e) => res matches Ok(p) && p.name == config.name && p.product_name@
                    == product_name@ && p.endpoint == e && p.step_seconds == config.step_seconds
                    && p.lookback_minutes == config.lookback_minutes,
                None => res matches Err(e) && is_missing_endpoint_error(
                    e,
                    product_name@,
                    config.name@,
                ),
            },
    {
        match &config.endpoint {
            Some(e) => Ok(
                PrometheusMonitorProvider {
                    name: config.name.clone(),
                    product_name: owned(product_name),
                    endpoint: e.clone(),
                    step_seconds: config.step_seconds,
                    lookback_minutes: config.lookback_minutes,
                },
            ),
            None => Err(missing_endpoint(product_name, &config.name)),
        }
    }
}

impl OpenTsdbMonitorProvider {
    /// A provider from its configuration, which must name an endpoint.
    pub fn new(config: &MonitorProviderConfig) -> (res: Result<Self, DeliError>)
        ensures
            match config.endpoint {
                Some(e) => res matches Ok(p) && p.name == config.name && p.endpoint == e
                    && p.step_seconds == config.step_seconds && p.lookback_minutes
                    == config.lookback_minutes,
                None => res matches Err(e) && is_missing_endpoint_error(
                    e,
                    "OpenTSDB"@,
                    config.name@,
                ),
            },
    {
        match &config.endpoint {
            Some(e) => Ok(
                OpenTsdbMonitorProvider {
                    name: config.name.clone(),
                    endpoint: e.clone(),
                    step_seconds: config.step_seconds,
                    lookback_minutes: config.lookback_minutes,
                },
            ),
            None => Err(missing_endpoint("OpenTSDB", &config.name)),
        }
    }
}

/// The first second of the query window: `now` less the lookback, kept at
/// or above the smallest `i64`.
pub open spec fn window_start(now: i64, lookback_minutes: u64) -> int {
    let s = now - lookback_minutes * 60;
    if s < i64::MIN {
        i64::MIN as int
    } else {
        s
    }
}

/// The first second of the query window (see `window_start`).
fn window_start_exec(now: i64, lookback_minutes: u64) -> (res: i64)
    ensures
        res == window_start(now, lookback_minutes),
{
    let back: i128 = lookback_minutes as i128 * 60;
    let s: i128 = now as i128 - back;
    if s < i64::MIN as i128 {
        i64::MIN
    } else {
        s as i64
    }
}

/// The query pairs of a range query: the query, the window's start and end
/// (`now`) in seconds, and the step.
pub open spec fn range_pairs(query: Seq<char>, start: int, now: i64, step: u64) -> Seq<
    (Seq<char>, Seq<char>),
> {
    seq![
        ("query"@, query),
        ("start"@, int_text(start)),
        ("end"@, int_text(now as int)),
        ("step"@, nat_digits(step as nat)),
    ]
}

/// The range query URL for a query at `now`: the endpoint (without
/// trailing slashes) and `/api/v1/query_range`, with the query pairs (see
/// `range_pairs`) form-encoded by the url crate; an endpoint that does not
/// parse gives "invalid <product> endpoint: <parse error>".
pub fn prometheus_query_url(provider: &PrometheusMonitorProvider, query: &str, now: i64) -> (res:
    Result<String, DeliError>)
    ensures
        ({
            let base = trim_end_char_seq(provider.endpoint@, '/') + "/api/v1/query_range"@;
            let pairs = range_pairs(
                query@,
                window_start(now, provider.lookback_minutes),
                now,
                provider.step_seconds,
            );
            match url_with_pairs_of(base, pairs) {
                Ok(u) => res matches Ok(r) && r@ == u,
                Err(e) => res matches Err(err) && err.kind == DeliErrorKind::Configuration
                    && err.message@ == "invalid "@ + provider.product_name@ + " endpoint: "@ + e
                    && err.retry_hint is None,
            }
        }),
{
    let trimmed = trim_end_slashes(provider.endpoint.as_str());
    let mut base = string_of(&trimmed);
    base.append("/api/v1/query_range");
    let start = window_start_exec(now, provider.lookback_minutes);
    let mut pairs: Vec<(String, String)> = Vec::new();
    pairs.push((owned("query"), owned(query)));
    pairs.push((owned("start"), i64_text(start)));
    pairs.push((owned("end"), i64_text(now)));
    pairs.push((owned("step"), u64_text(provider.step_seconds)));
    assert(pairs_view(pairs@) =~= range_pairs(
        query@,
        window_start(now, provider.lookback_minutes),
        now,
        provider.step_seconds,
    ));
    match url_with_query_pairs(base.as_str(), &pairs) {
        Ok(u) => Ok(u),
        Err(e) => {
            let prefix = concat("invalid ", provider.product_name.as_str());
            let mut head = prefix;
            head.append(" endpoint: ");
            Err(error_with_detail(DeliErrorKind::Configuration, head.as_str(), e.as_str()))
        },
    }
}

/// One series of a reply: its labels (or tags), in the reply's order, and
/// its samples.
#[derive(Debug, Clone)]
pub struct LabelledSeries {
    pub labels: Vec<(String, String)>,
    pub points: Vec<DataPoint>,
}

/// Labels as `name=value`, joined with commas.
pub open spec fn labels_text(labels: Seq<(String, String)>) -> Seq<char> {
    join(labels.map_values(|l: (String, String)| l.0@ + "="@ + l.1@), ","@)
}

/// Labels as `name=value`, joined with commas (see `labels_text`).
fn labels_exec(labels: &Vec<(String, String)>) -> (res: String)
    ensures
        res@ == labels_text(labels@),
{
    let mut parts: Vec<String> = Vec::new();
    let mut i: usize = 0;
    while i < labels.len()
        invariant
            i <= labels.len(),
            parts.len() == i,
            forall|j: int|
                0 <= j < i ==> (#[trigger] parts@[j])@ == labels@[j].0@ + "="@ + labels@[j].1@,
        decreases labels.len() - i,
    {
        let mut part = labels[i].0.clone();
        part.append("=");
        part.append(labels[i].1.as_str());
        parts.push(part);
        i += 1;
    }
    assert(parts@.map_values(|p: String| p@) =~= labels@.map_values(
        |l: (String, String)| l.0@ + "="@ + l.1@,
    ));
    join_strings(&parts, ",")
}

/// A copy of some samples.
fn copy_points(points: &Vec<DataPoint>) -> (res: Vec<DataPoint>)
    ensures
        res@ == points@,
{
    let mut out: Vec<DataPoint> = Vec::new();
    let mut i: usize = 0;
    while i < points.len()
        invariant
            i <= points.len(),
            out@ == points@.take(i as int),
        decreases points.len() - i,
    {
        out.push(DataPoint { timestamp: points[i].timestamp, value: points[i].value.clone() });
        assert(points@.take(i + 1) =~= points@.take(i as int).push(points@[i as int]));
        i += 1;
    }
    assert(points@.take(points.len() as int) =~= points@);
    out
}

/// The name of a Prometheus series: its labels (see `labels_text`), or the
/// query when it has none.
pub open spec fn prometheus_series_name(labels: Seq<(String, String)>, query: Seq<char>) -> Seq<char> {
    if labels.len() == 0 {
        query
    } else {
        labels_text(labels)
    }
}

/// Whether `s` is the series a reply's series gives, named `name`.
pub open spec fn is_series_of(s: Series, from: LabelledSeries, name: Seq<char>) -> bool {
    s.name@ == name && s.unit is None && s.points@ == from.points@
}

/// The metrics a Prometheus-style reply gives for a query: with the status
/// "success", a frame titled "<product>: <query>" with one series per
/// result, named by its labels (see `prometheus_series_name`); any other
/// status fails with "<product> query failed with status <status>".
pub fn prometheus_frame(
    provider: &PrometheusMonitorProvider,
    query: &str,
    status: &str,
    results: &Vec<LabelledSeries>,
) -> (res: Result<TimeSeriesFrame, DeliError>)
    ensures
        status@ != "success"@ ==> (res matches Err(e) && e.kind == DeliErrorKind::Provider
            && e.message@ == provider.product_name@ + " query failed with status "@ + status@
            && e.retry_hint is None),
        status@ == "success"@ ==> (res matches Ok(f) && f.title@ == provider.product_name@ + ": "@
            + query@ && f.series.len() == results.len() && forall|i: int|
            0 <= i < results.len() ==> is_series_of(
                #[trigger] f.series@[i],
                results@[i],
                prometheus_series_name(results@[i].labels@, query@),
            )),
{
    if owned(status) != owned("success") {
        let mut head = provider.product_name.clone();
        head.append(" query failed with status ");
        return Err(error_with_detail(DeliErrorKind::Provider, head.as_str(), status));
    }
    let mut series: Vec<Series> = Vec::new();
    let mut i: usize = 0;
    while i < results.len()
        invariant
            i <= results.len(),
            series.len() == i,
            forall|j: int|
                0 <= j < i ==> is_series_of(
                    #[trigger] series@[j],
                    results@[j],
                    prometheus_series_name(results@[j].labels@, query@),
                ),
        decreases results.len() - i,
    {
        let name = if results[i].labels.len() == 0 {
            owned(query)
        } else {
            labels_exec(&results[i].labels)
        };
        series.push(Series { name, unit: None, points: copy_points(&results[i].points) });
        i += 1;
    }
    let mut title = provider.product_name.clone();
    title.append(": ");
    title.append(query);
    Ok(TimeSeriesFrame { title, series })
}

/// The query URL of an OpenTSDB endpoint: the endpoint (without trailing
/// slashes) and `/api/query`.
pub fn opentsdb_query_url(provider: &OpenTsdbMonitorProvider) -> (res: String)
    ensures
        res@ == trim_end_char_seq(provider.endpoint@, '/') + "/api/query"@,
{
    let trimmed = trim_end_slashes(provider.endpoint.as_str());
    let mut out = string_of(&trimmed);
    out.append("/api/query");
    out
}

/// The body of an OpenTSDB query at `now`: the window's start and end, and
/// one query of the metric averaged, downsampled to the step.
pub open spec fn opentsdb_body_text(query: Seq<char>, start: int, now: i64, step: u64) -> Seq<char> {
    "{\"start\":"@ + int_text(start) + ",\"end\":"@ + int_text(now as int)
        + ",\"queries\":[{\"aggregator\":\"avg\",\"metric\":"@ + json_string_of(query)
        + ",\"downsample\":\""@ + nat_digits(step as nat) + "s-avg\"}]}"@
}

/// The body of an OpenTSDB query (see `opentsdb_body_text`).
pub fn opentsdb_query_body(provider: &OpenTsdbMonitorProvider, query: &str, now: i64) -> (res: String)
    ensures
        res@ == opentsdb_body_text(
            query@,
            window_start(now, provider.lookback_minutes),
            now,
            provider.step_seconds,
        ),
{
    let start = window_start_exec(now, provider.lookback_minutes);
    let mut out = owned("{\"start\":");
    out.append(i64_text(start).as_str());
    out.append(",\"end\":");
    out.append(i64_text(now).as_str());
    out.append(",\"queries\":[{\"aggregator\":\"avg\",\"metric\":");
    out.append(json_string(query).as_str());
    out.append(",\"downsample\":\"");
    out.append(u64_text(provider.step_seconds).as_str());
    out.append("s-avg\"}]}");
    out
}

/// A series of an OpenTSDB reply: its metric, tags and samples.
#[derive(Debug, Clone)]
pub struct TaggedSeries {
    pub metric: String,
    pub series: LabelledSeries,
}

/// The name of an OpenTSDB series: its metric, followed by its tags in
/// braces when it has any.
pub open spec fn opentsdb_series_name(metric: Seq<char>, tags: Seq<(String, String)>) -> Seq<char> {
    if tags.len() == 0 {
        metric
    } else {
        metric + "{"@ + labels_text(tags) + "}"@
    }
}

/// The metrics an OpenTSDB reply gives for a query: a frame titled
/// "OpenTSDB: <query>" with one series per result, named by its metric and
/// tags (see `opentsdb_series_name`).
pub fn opentsdb_frame(query: &str, results: &Vec<TaggedSeries>) -> (res: TimeSeriesFrame)
    ensures
        res.title@ == "OpenTSDB: "@ + query@,
        res.series.len() == results.len(),
        forall|i: int|
            0 <= i < results.len() ==> is_series_of(
                #[trigger] res.series@[i],
                results@[i].series,
                opentsdb_series_name(results@[i].metric@, results@[i].series.labels@),
            ),
{
    let mut series: Vec<Series> = Vec::new();
    let mut i: usize = 0;
    while i < results.len()
        invariant
            i <= results.len(),
            series.len() == i,
            forall|j: int|
                0 <= j < i ==> is_series_of(
                    #[trigger] series@[j],
                    results@[j].series,
                    opentsdb_series_name(results@[j].metric@, results@[j].series.labels@),
                ),
        decreases results.len() - i,
    {
        let mut name = results[i].metric.clone();
        if results[i].series.labels.len() > 0 {
            name.append("{");
            name.append(labels_exec(&results[i].series.labels).as_str());
            name.append("}");
        }
        series.push(
            Series { name, unit: None, points: copy_points(&results[i].series.points) },
        );
        i += 1;
    }
    TimeSeriesFrame { title: concat("OpenTSDB: ", query), series }
}

} // verus!
