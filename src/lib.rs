//! A client library for the HTTP query API of a Prometheus server.
//!
//! The library turns the JSON documents that the server answers with into a
//! typed model: the success/error envelope, the result-type dispatch of
//! expression queries, and the entities of the metadata endpoints. Value
//! parsers for durations, quoted floats and build dates are part of it, as is
//! the checking of query parameters before a request is sent.
use vstd::prelude::*;

pub mod client;
pub mod duration;
pub mod envelope;
pub mod error;
pub mod fields;
pub mod float;
pub mod json;
pub mod labels;
pub mod metadata;
pub mod query;
pub mod rules;
pub mod server;
pub mod targets;
pub mod text;
pub mod timestamp;

pub use client::{instant_query, range_query, validate_duration, InstantQuery, RangeQuery, Scheme};
pub use duration::{parse_duration, Duration, DurationError, DURATION_GRAMMAR};
pub use envelope::{decode_envelope, decode_query_response, parse_query_response};
pub use error::{Error, PrometheusError, PrometheusErrorType};
pub use float::{parse_float, FloatValue};
pub use json::{parse_json, DecodeError, Json, JsonError};
pub use labels::Labels;
pub use metadata::{
    decode_alertmanagers, decode_metric_metadata_map, decode_target_metadata_list, Alertmanager,
    Alertmanagers, MetricMetadata, MetricType, TargetMetadata,
};
pub use query::{
    decode_data, decode_instant_vectors, decode_promql_result, decode_range_vectors, Data,
    InstantVector, PromqlResult, RangeVector, Sample, Samples, SamplesPerStep, Stats, Timings,
};
pub use rules::{
    decode_alerts, decode_rule_groups, Alert, AlertState, AlertingRule, RecordingRule, Rule,
    RuleGroup, RuleHealth,
};
pub use server::{
    decode_build_information, decode_runtime_information, decode_tsdb_statistics,
    decode_wal_replay_statistics, BuildInformation, HeadStatistics, RuntimeInformation,
    TsdbItemCount, TsdbStatistics, WalReplayState, WalReplayStatistics,
};
pub use targets::{decode_targets, ActiveTarget, DroppedTarget, TargetHealth, Targets};
pub use fields::{parse_url, Url};
pub use timestamp::{parse_build_date, parse_timestamp, BuildDate, Timestamp, BUILD_DATE_FORMAT};

verus! {

} // verus!
