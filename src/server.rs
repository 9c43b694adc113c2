//! What the server reports about itself: build and runtime information,
//! TSDB statistics and the state of the WAL replay.
use vstd::prelude::*;
use crate::duration::{duration_ms, Duration};
use crate::fields::{
    duration_member, duration_member_fault, timestamp_member, timestamp_member_fault, token_fault,
};
use crate::json::{
    at, bool_member, bool_member_fault, either, field_of, first_fault, i64_member, i64_member_fault,
    int_view, items, lemma_first_fault_prefix, lemma_first_fault_step, member_of, object_fault,
    present, required, required_member, str_member, str_member_fault, str_view, uint_view,
    usize_member, usize_member_fault, DecodeError, DecodeFault, Json,
};
use crate::text::text_eq;
use crate::timestamp::{
    build_year, is_build_date, parse_build_date, rfc3339_value, two_digits, BuildDate, Timestamp,
};

verus! {

/// `d` is the build date that the text `s` writes.
pub open spec fn build_date_of(s: Seq<char>, d: BuildDate) -> bool {
    &&& d.year == build_year(s)
    &&& d.month == two_digits(s, 4)
    &&& d.day == two_digits(s, 6)
    &&& d.hour == two_digits(s, 9)
    &&& d.minute == two_digits(s, 12)
    &&& d.second == two_digits(s, 15)
}

/// The fault of the value held by the field `key`; `None` where it decodes.
pub open spec fn build_date_member_fault(j: Json, key: Seq<char>) -> Option<DecodeFault> {
    required(j, key, token_fault(at(j, key), key, is_build_date(str_view(at(j, key)))))
}

/// Decodes the required member `key`, a build date.
pub fn build_date_member(m: &Vec<(String, Json)>, key: &str) -> (r: Result<BuildDate, DecodeError>)
    ensures
        match r {
            Ok(d) => build_date_member_fault(Json::Object(*m), key@) is None && build_date_of(
                str_view(at(Json::Object(*m), key@)),
                d,
            ),
            Err(e) => build_date_member_fault(Json::Object(*m), key@) == Some(e@),
        },
{
    match required_member(m, key)? {
        Json::Str(s) => match parse_build_date(s.as_str()) {
            Some(d) => Ok(d),
            None => Err(DecodeError::InvalidValue(key.to_string(), s.clone())),
        },
        _ => Err(DecodeError::InvalidType(key.to_string())),
    }
}

/// How the server was built.
#[derive(Debug, Clone, PartialEq, Eq)]
pub struct BuildInformation {
    pub version: String,
    pub revision: String,
    pub branch: String,
    pub build_user: String,
    pub build_date: BuildDate,
    pub go_version: String,
}

/// The first fault of the document, field by field in order; `None` where
/// it decodes.
pub open spec fn build_information_fault(j: Json) -> Option<DecodeFault> {
    let f = object_fault(j, "data"@);
    let f = either(f, str_member_fault(j, "version"@));
    let f = either(f, str_member_fault(j, "revision"@));
    let f = either(f, str_member_fault(j, "branch"@));
    let f = either(f, str_member_fault(j, "buildUser"@));
    let f = either(f, build_date_member_fault(j, "buildDate"@));
    let f = either(f, str_member_fault(j, "goVersion"@));
    f
}

/// `x` is the [`BuildInformation`] that `j` describes.
pub open spec fn build_information_matches(j: Json, x: BuildInformation) -> bool {
    &&& x.version@ == str_view(at(j, "version"@))
    &&& x.revision@ == str_view(at(j, "revision"@))
    &&& x.branch@ == str_view(at(j, "branch"@))
    &&& x.build_user@ == str_view(at(j, "buildUser"@))
    &&& build_date_of(str_view(at(j, "buildDate"@)), x.build_date)
    &&& x.go_version@ == str_view(at(j, "goVersion"@))
}

/// Decodes a [`BuildInformation`].
pub fn decode_build_information(j: &Json) -> (r: Result<BuildInformation, DecodeError>)
    ensures
        match r {
            Ok(x) => build_information_fault(*j) is None && build_information_matches(*j, x),
            Err(e) => build_information_fault(*j) == Some(e@),
        },
{
    match j {
        Json::Object(m) => {
            let version = str_member(m, "version")?;
            let revision = str_member(m, "revision")?;
            let branch = str_member(m, "branch")?;
            let build_user = str_member(m, "buildUser")?;
            let build_date = build_date_member(m, "buildDate")?;
            let go_version = str_member(m, "goVersion")?;
            Ok(BuildInformation { version, revision, branch, build_user, build_date, go_version })
        },
        _ => Err(DecodeError::InvalidType("data".to_string())),
    }
}

impl BuildInformation {
    /// The version of the server.
    pub fn version(&self) -> (r: &str)
        ensures
            r@ == self.version@,
    {
        self.version.as_str()
    }

    /// The revision the server was built from.
    pub fn revision(&self) -> (r: &str)
        ensures
            r@ == self.revision@,
    {
        self.revision.as_str()
    }

    /// The branch the server was built from.
    pub fn branch(&self) -> (r: &str)
        ensures
            r@ == self.branch@,
    {
        self.branch.as_str()
    }

    /// Who built the server.
    pub fn build_user(&self) -> (r: &str)
        ensures
            r@ == self.build_user@,
    {
        self.build_user.as_str()
    }

    /// When the server was built.
    pub fn build_date(&self) -> (r: &BuildDate)
        ensures
            *r == self.build_date,
    {
        &self.build_date
    }

    /// The Go version the server was built with.
    pub fn go_version(&self) -> (r: &str)
        ensures
            r@ == self.go_version@,
    {
        self.go_version.as_str()
    }
}

/// The state of the running server.
#[derive(Debug, Clone)]
pub struct RuntimeInformation {
    pub start_time: Timestamp,
    pub cwd: String,
    pub reload_config_success: bool,
    pub last_config_time: Timestamp,
    pub corruption_count: i64,
    pub goroutine_count: usize,
    pub go_max_procs: usize,
    pub go_gc: String,
    pub go_debug: String,
    pub storage_retention: Duration,
}

/// The first fault of the document, field by field in order; `None` where
/// it decodes.
pub open spec fn runtime_information_fault(j: Json) -> Option<DecodeFault> {
    let f = object_fault(j, "data"@);
    let f = either(f, timestamp_member_fault(j, "startTime"@));
    let f = either(f, str_member_fault(j, "CWD"@));
    let f = either(f, bool_member_fault(j, "reloadConfigSuccess"@));
    let f = either(f, timestamp_member_fault(j, "lastConfigTime"@));
    let f = either(f, i64_member_fault(j, "corruptionCount"@));
    let f = either(f, usize_member_fault(j, "goroutineCount"@));
    let f = either(f, usize_member_fault(j, "GOMAXPROCS"@));
    let f = either(f, str_member_fault(j, "GOGC"@));
    let f = either(f, str_member_fault(j, "GODEBUG"@));
    let f = either(f, duration_member_fault(j, "storageRetention"@));
    f
}

/// `x` is the [`RuntimeInformation`] that `j` describes.
pub open spec fn runtime_information_matches(j: Json, x: RuntimeInformation) -> bool {
    &&& rfc3339_value(str_view(at(j, "lastConfigTime"@))) == Some(x.last_config_time)
    &&& rfc3339_value(str_view(at(j, "startTime"@))) == Some(x.start_time)
    &&& x.cwd@ == str_view(at(j, "CWD"@))
    &&& at(j, "reloadConfigSuccess"@) == Json::Bool(x.reload_config_success)
    &&& x.corruption_count == int_view(at(j, "corruptionCount"@))
    &&& x.goroutine_count == uint_view(at(j, "goroutineCount"@))
    &&& x.go_max_procs == uint_view(at(j, "GOMAXPROCS"@))
    &&& x.go_gc@ == str_view(at(j, "GOGC"@))
    &&& x.go_debug@ == str_view(at(j, "GODEBUG"@))
    &&& duration_ms(str_view(at(j, "storageRetention"@))) == Some(x.storage_retention@)
}

/// Decodes a [`RuntimeInformation`].
pub fn decode_runtime_information(j: &Json) -> (r: Result<RuntimeInformation, DecodeError>)
    ensures
        match r {
            Ok(x) => runtime_information_fault(*j) is None && runtime_information_matches(*j, x),
            Err(e) => runtime_information_fault(*j) == Some(e@),
        },
{
    match j {
        Json::Object(m) => {
            let start_time = timestamp_member(m, "startTime")?;
            let cwd = str_member(m, "CWD")?;
            let reload_config_success = bool_member(m, "reloadConfigSuccess")?;
            let last_config_time = timestamp_member(m, "lastConfigTime")?;
            let corruption_count = i64_member(m, "corruptionCount")?;
            let goroutine_count = usize_member(m, "goroutineCount")?;
            let go_max_procs = usize_member(m, "GOMAXPROCS")?;
            let go_gc = str_member(m, "GOGC")?;
            let go_debug = str_member(m, "GODEBUG")?;
            let storage_retention = duration_member(m, "storageRetention")?;
            Ok(RuntimeInformation {
                start_time,
                cwd,
                reload_config_success,
                last_config_time,
                corruption_count,
                goroutine_count,
                go_max_procs,
                go_gc,
                go_debug,
                storage_retention,
            })
        },
        _ => Err(DecodeError::InvalidType("data".to_string())),
    }
}

impl RuntimeInformation {
    /// When the server started.
    pub fn start_time(&self) -> (r: &Timestamp)
        ensures
            *r == self.start_time,
    {
        &self.start_time
    }

    /// The working directory of the server.
    pub fn cwd(&self) -> (r: &str)
        ensures
            r@ == self.cwd@,
    {
        self.cwd.as_str()
    }

    /// Whether the last reload of the configuration succeeded.
    pub fn reload_config_success(&self) -> (r: bool)
        ensures
            r == self.reload_config_success,
    {
        self.reload_config_success
    }

    /// When the configuration was last loaded.
    pub fn last_config_time(&self) -> (r: &Timestamp)
        ensures
            *r == self.last_config_time,
    {
        &self.last_config_time
    }

    /// The number of corruptions found.
    pub fn corruption_count(&self) -> (r: i64)
        ensures
            r == self.corruption_count,
    {
        self.corruption_count
    }

    /// The number of goroutines.
    pub fn goroutine_count(&self) -> (r: usize)
        ensures
            r == self.goroutine_count,
    {
        self.goroutine_count
    }

    /// The value of GOMAXPROCS.
    pub fn go_max_procs(&self) -> (r: usize)
        ensures
            r == self.go_max_procs,
    {
        self.go_max_procs
    }

    /// The value of GOGC.
    pub fn go_gc(&self) -> (r: &str)
        ensures
            r@ == self.go_gc@,
    {
        self.go_gc.as_str()
    }

    /// The value of GODEBUG.
    pub fn go_debug(&self) -> (r: &str)
        ensures
            r@ == self.go_debug@,
    {
        self.go_debug.as_str()
    }

    /// How long data is retained.
    pub fn storage_retention(&self) -> (r: &Duration)
        ensures
            *r == self.storage_retention,
    {
        &self.storage_retention
    }
}

/// Statistics of the TSDB head block.
#[derive(Debug, Clone, Copy, PartialEq, Eq, Structural)]
pub struct HeadStatistics {
    pub num_series: usize,
    pub chunk_count: usize,
    pub min_time: i64,
    pub max_time: i64,
}

/// The first fault of the document, field by field in order; `None` where
/// it decodes.
pub open spec fn head_statistics_fault(j: Json) -> Option<DecodeFault> {
    let f = object_fault(j, "headStats"@);
    let f = either(f, usize_member_fault(j, "numSeries"@));
    let f = either(f, usize_member_fault(j, "chunkCount"@));
    let f = either(f, i64_member_fault(j, "minTime"@));
    let f = either(f, i64_member_fault(j, "maxTime"@));
    f
}

/// `x` is the [`HeadStatistics`] that `j` describes.
pub open spec fn head_statistics_matches(j: Json, x: HeadStatistics) -> bool {
    &&& x.num_series == uint_view(at(j, "numSeries"@))
    &&& x.chunk_count == uint_view(at(j, "chunkCount"@))
    &&& x.min_time == int_view(at(j, "minTime"@))
    &&& x.max_time == int_view(at(j, "maxTime"@))
}

/// Decodes a [`HeadStatistics`].
pub fn decode_head_statistics(j: &Json) -> (r: Result<HeadStatistics, DecodeError>)
    ensures
        match r {
            Ok(x) => head_statistics_fault(*j) is None && head_statistics_matches(*j, x),
            Err(e) => head_statistics_fault(*j) == Some(e@),
        },
{
    match j {
        Json::Object(m) => {
            let num_series = usize_member(m, "numSeries")?;
            let chunk_count = usize_member(m, "chunkCount")?;
            let min_time = i64_member(m, "minTime")?;
            let max_time = i64_member(m, "maxTime")?;
            Ok(HeadStatistics { num_series, chunk_count, min_time, max_time })
        },
        _ => Err(DecodeError::InvalidType("headStats".to_string())),
    }
}

impl HeadStatistics {
    /// The number of series.
    pub fn num_series(&self) -> (r: usize)
        ensures
            r == self.num_series,
    {
        self.num_series
    }

    /// The number of chunks.
    pub fn chunk_count(&self) -> (r: usize)
        ensures
            r == self.chunk_count,
    {
        self.chunk_count
    }

    /// The smallest timestamp, in milliseconds.
    pub fn min_time(&self) -> (r: i64)
        ensures
            r == self.min_time,
    {
        self.min_time
    }

    /// The largest timestamp, in milliseconds.
    pub fn max_time(&self) -> (r: i64)
        ensures
            r == self.max_time,
    {
        self.max_time
    }
}

/// A count of one TSDB item.
#[derive(Debug, Clone, PartialEq, Eq)]
pub struct TsdbItemCount {
    pub name: String,
    pub value: usize,
}

/// The first fault of the document, field by field in order; `None` where
/// it decodes.
pub open spec fn tsdb_item_count_fault(j: Json) -> Option<DecodeFault> {
    let f = object_fault(j, "data"@);
    let f = either(f, str_member_fault(j, "name"@));
    let f = either(f, usize_member_fault(j, "value"@));
    f
}

/// `x` is the [`TsdbItemCount`] that `j` describes.
pub open spec fn tsdb_item_count_matches(j: Json, x: TsdbItemCount) -> bool {
    &&& x.name@ == str_view(at(j, "name"@))
    &&& x.value == uint_view(at(j, "value"@))
}

/// Decodes a [`TsdbItemCount`].
pub fn decode_tsdb_item_count(j: &Json) -> (r: Result<TsdbItemCount, DecodeError>)
    ensures
        match r {
            Ok(x) => tsdb_item_count_fault(*j) is None && tsdb_item_count_matches(*j, x),
            Err(e) => tsdb_item_count_fault(*j) == Some(e@),
        },
{
    match j {
        Json::Object(m) => {
            let name = str_member(m, "name")?;
            let value = usize_member(m, "value")?;
            Ok(TsdbItemCount { name, value })
        },
        _ => Err(DecodeError::InvalidType("data".to_string())),
    }
}

impl TsdbItemCount {
    /// The item counted: a metric name, a label name or a label pair.
    pub fn name(&self) -> (r: &str)
        ensures
            r@ == self.name@,
    {
        self.name.as_str()
    }

    /// The count.
    pub fn value(&self) -> (r: usize)
        ensures
            r == self.value,
    {
        self.value
    }
}

/// The fault of an array held by the field `key`: the fault of its first
/// item that has one.
pub open spec fn tsdb_item_count_list_fault(j: Json, key: Seq<char>) -> Option<DecodeFault> {
    if j is Array {
        first_fault(items(j), |x: Json| tsdb_item_count_fault(x))
    } else {
        Some(DecodeFault::InvalidType(key))
    }
}

/// `v` holds, in order, the [`TsdbItemCount`] items that the array `j` describes.
pub open spec fn tsdb_item_count_list_match(j: Json, v: Seq<TsdbItemCount>) -> bool {
    &&& v.len() == items(j).len()
    &&& forall|i: int| 0 <= i < v.len() ==> tsdb_item_count_matches(#[trigger] items(j)[i], v[i])
}

/// Decodes a list of [`TsdbItemCount`] held by the field `key`, keeping its order.
pub fn decode_tsdb_item_count_list(j: &Json, key: &str) -> (r: Result<Vec<TsdbItemCount>, DecodeError>)
    ensures
        match r {
            Ok(v) => tsdb_item_count_list_fault(*j, key@) is None && tsdb_item_count_list_match(*j, v@),
            Err(e) => tsdb_item_count_list_fault(*j, key@) == Some(e@),
        },
{
    let ghost f = |x: Json| tsdb_item_count_fault(x);
    match j {
        Json::Array(a) => {
            let mut out: Vec<TsdbItemCount> = Vec::new();
            let mut i: usize = 0;
            while i < a.len()
                invariant
                    *j == Json::Array(*a),
                    f == (|x: Json| tsdb_item_count_fault(x)),
                    i <= a@.len(),
                    first_fault(a@.take(i as int), f) is None,
                    out@.len() == i,
                    forall|k: int| 0 <= k < i ==> tsdb_item_count_matches(#[trigger] a@[k], out@[k]),
                decreases a@.len() - i,
            {
                proof {
                    lemma_first_fault_step(a@, i as int, f);
                }
                match decode_tsdb_item_count(&a[i]) {
                    Ok(s) => out.push(s),
                    Err(e) => {
                        proof {
                            lemma_first_fault_prefix(a@, i + 1, f);
                        }
                        return Err(e);
                    },
                }
                i = i + 1;
            }
            proof {
                assert(a@.take(a@.len() as int) =~= a@);
            }
            Ok(out)
        },
        _ => Err(DecodeError::InvalidType(key.to_string())),
    }
}

/// Statistics of the TSDB.
#[derive(Debug, Clone, PartialEq, Eq)]
pub struct TsdbStatistics {
    pub head_stats: HeadStatistics,
    pub series_count_by_metric_name: Vec<TsdbItemCount>,
    pub label_value_count_by_label_name: Vec<TsdbItemCount>,
    pub memory_in_bytes_by_label_name: Vec<TsdbItemCount>,
    pub series_count_by_label_value_pair: Vec<TsdbItemCount>,
}

/// The first fault of the document, field by field in order; `None` where
/// it decodes.
pub open spec fn tsdb_statistics_fault(j: Json) -> Option<DecodeFault> {
    let f = object_fault(j, "data"@);
    let f = either(f, required(j, "headStats"@, head_statistics_fault(at(j, "headStats"@))));
    let f = either(f, required(j, "seriesCountByMetricName"@, tsdb_item_count_list_fault(at(j, "seriesCountByMetricName"@), "seriesCountByMetricName"@)));
    let f = either(f, required(j, "labelValueCountByLabelName"@, tsdb_item_count_list_fault(at(j, "labelValueCountByLabelName"@), "labelValueCountByLabelName"@)));
    let f = either(f, required(j, "memoryInBytesByLabelName"@, tsdb_item_count_list_fault(at(j, "memoryInBytesByLabelName"@), "memoryInBytesByLabelName"@)));
    let f = either(f, required(j, "seriesCountByLabelValuePair"@, tsdb_item_count_list_fault(at(j, "seriesCountByLabelValuePair"@), "seriesCountByLabelValuePair"@)));
    f
}

/// `x` is the [`TsdbStatistics`] that `j` describes.
pub open spec fn tsdb_statistics_matches(j: Json, x: TsdbStatistics) -> bool {
    &&& head_statistics_matches(at(j, "headStats"@), x.head_stats)
    &&& tsdb_item_count_list_match(at(j, "seriesCountByMetricName"@), x.series_count_by_metric_name@)
    &&& tsdb_item_count_list_match(at(j, "labelValueCountByLabelName"@), x.label_value_count_by_label_name@)
    &&& tsdb_item_count_list_match(at(j, "memoryInBytesByLabelName"@), x.memory_in_bytes_by_label_name@)
    &&& tsdb_item_count_list_match(at(j, "seriesCountByLabelValuePair"@), x.series_count_by_label_value_pair@)
}

/// Decodes a [`TsdbStatistics`].
pub fn decode_tsdb_statistics(j: &Json) -> (r: Result<TsdbStatistics, DecodeError>)
    ensures
        match r {
            Ok(x) => tsdb_statistics_fault(*j) is None && tsdb_statistics_matches(*j, x),
            Err(e) => tsdb_statistics_fault(*j) == Some(e@),
        },
{
    match j {
        Json::Object(m) => {
            let head_stats = decode_head_statistics(required_member(m, "headStats")?)?;
            let series_count_by_metric_name = decode_tsdb_item_count_list(required_member(m, "seriesCountByMetricName")?, "seriesCountByMetricName")?;
            let label_value_count_by_label_name = decode_tsdb_item_count_list(required_member(m, "labelValueCountByLabelName")?, "labelValueCountByLabelName")?;
            let memory_in_bytes_by_label_name = decode_tsdb_item_count_list(required_member(m, "memoryInBytesByLabelName")?, "memoryInBytesByLabelName")?;
            let series_count_by_label_value_pair = decode_tsdb_item_count_list(required_member(m, "seriesCountByLabelValuePair")?, "seriesCountByLabelValuePair")?;
            Ok(TsdbStatistics {
                head_stats,
                series_count_by_metric_name,
                label_value_count_by_label_name,
                memory_in_bytes_by_label_name,
                series_count_by_label_value_pair,
            })
        },
        _ => Err(DecodeError::InvalidType("data".to_string())),
    }
}

impl TsdbStatistics {
    /// The statistics of the head block.
    pub fn head_stats(&self) -> (r: HeadStatistics)
        ensures
            r == self.head_stats,
    {
        self.head_stats
    }

    /// Metric names with their series count.
    pub fn series_count_by_metric_name(&self) -> (r: &[TsdbItemCount])
        ensures
            r@ == self.series_count_by_metric_name@,
    {
        self.series_count_by_metric_name.as_slice()
    }

    /// Label names with their value count.
    pub fn label_value_count_by_label_name(&self) -> (r: &[TsdbItemCount])
        ensures
            r@ == self.label_value_count_by_label_name@,
    {
        self.label_value_count_by_label_name.as_slice()
    }

    /// Label names with the memory they use, in bytes.
    pub fn memory_in_bytes_by_label_name(&self) -> (r: &[TsdbItemCount])
        ensures
            r@ == self.memory_in_bytes_by_label_name@,
    {
        self.memory_in_bytes_by_label_name.as_slice()
    }

    /// Label pairs with their series count.
    pub fn series_count_by_label_value_pair(&self) -> (r: &[TsdbItemCount])
        ensures
            r@ == self.series_count_by_label_value_pair@,
    {
        self.series_count_by_label_value_pair.as_slice()
    }
}

/// The state of the WAL replay.
#[derive(Debug, Clone, Copy, PartialEq, Eq, Structural)]
pub enum WalReplayState {
    Waiting,
    InProgress,
    Done,
}

/// The tokens that name a [`WalReplayState`].
pub open spec fn is_wal_replay_state(s: Seq<char>) -> bool {
    s == "waiting"@ || s == "in progress"@ || s == "done"@
}

/// `v` is the value that the token `s` names.
pub open spec fn wal_replay_state_named(v: WalReplayState, s: Seq<char>) -> bool {
    match v {
        WalReplayState::Waiting => s == "waiting"@,
        WalReplayState::InProgress => s == "in progress"@,
        WalReplayState::Done => s == "done"@,
    }
}

/// The fault of the value held by the field `key`; `None` where it decodes.
pub open spec fn wal_replay_state_fault(j: Json, key: Seq<char>) -> Option<DecodeFault> {
    token_fault(j, key, is_wal_replay_state(str_view(j)))
}

/// Decodes a [`WalReplayState`] token held by the field `key`; any other token is refused.
pub fn decode_wal_replay_state(j: &Json, key: &str) -> (r: Result<WalReplayState, DecodeError>)
    ensures
        match r {
            Ok(v) => wal_replay_state_fault(*j, key@) is None && wal_replay_state_named(v, str_view(*j)),
            Err(e) => wal_replay_state_fault(*j, key@) == Some(e@),
        },
{
    match j {
        Json::Str(s) => {
            if text_eq(s.as_str(), "waiting") {
                Ok(WalReplayState::Waiting)
            } else if text_eq(s.as_str(), "in progress") {
                Ok(WalReplayState::InProgress)
            } else if text_eq(s.as_str(), "done") {
                Ok(WalReplayState::Done)
            } else {
                Err(DecodeError::InvalidValue(key.to_string(), s.clone()))
            }
        },
        _ => Err(DecodeError::InvalidType(key.to_string())),
    }
}

impl WalReplayState {
    pub fn is_waiting(&self) -> (r: bool)
        ensures
            r == (*self == WalReplayState::Waiting),
    {
        match self {
            WalReplayState::Waiting => true,
            _ => false,
        }
    }

    pub fn is_in_progress(&self) -> (r: bool)
        ensures
            r == (*self == WalReplayState::InProgress),
    {
        match self {
            WalReplayState::InProgress => true,
            _ => false,
        }
    }

    pub fn is_done(&self) -> (r: bool)
        ensures
            r == (*self == WalReplayState::Done),
    {
        match self {
            WalReplayState::Done => true,
            _ => false,
        }
    }
}

/// The progress of the WAL replay.
#[derive(Debug, Clone, Copy, PartialEq, Eq, Structural)]
pub struct WalReplayStatistics {
    pub min: usize,
    pub max: usize,
    pub current: usize,
    pub state: Option<WalReplayState>,
}

/// The first fault of the document, field by field in order; `None` where
/// it decodes.
pub open spec fn wal_replay_statistics_fault(j: Json) -> Option<DecodeFault> {
    let f = object_fault(j, "data"@);
    let f = either(f, usize_member_fault(j, "min"@));
    let f = either(f, usize_member_fault(j, "max"@));
    let f = either(f, usize_member_fault(j, "current"@));
    let f = either(f, if present(field_of(j, "state"@)) {
            wal_replay_state_fault(at(j, "state"@), "state"@)
        } else {
            None
        });
    f
}

/// `x` is the [`WalReplayStatistics`] that `j` describes.
pub open spec fn wal_replay_statistics_matches(j: Json, x: WalReplayStatistics) -> bool {
    &&& x.min == uint_view(at(j, "min"@))
    &&& x.max == uint_view(at(j, "max"@))
    &&& x.current == uint_view(at(j, "current"@))
    &&& if present(field_of(j, "state"@)) {
        (x.state matches Some(v) && wal_replay_state_named(v, str_view(at(j, "state"@))))
    } else {
        x.state is None
    }
}

/// Decodes a [`WalReplayStatistics`].
pub fn decode_wal_replay_statistics(j: &Json) -> (r: Result<WalReplayStatistics, DecodeError>)
    ensures
        match r {
            Ok(x) => wal_replay_statistics_fault(*j) is None && wal_replay_statistics_matches(*j, x),
            Err(e) => wal_replay_statistics_fault(*j) == Some(e@),
        },
{
    match j {
        Json::Object(m) => {
            let min = usize_member(m, "min")?;
            let max = usize_member(m, "max")?;
            let current = usize_member(m, "current")?;
            let state = match member_of(m, "state") {
                None => None,
                Some(Json::Null) => None,
                Some(x) => Some(decode_wal_replay_state(x, "state")?),
            };
            Ok(WalReplayStatistics { min, max, current, state })
        },
        _ => Err(DecodeError::InvalidType("data".to_string())),
    }
}

impl WalReplayStatistics {
    /// The first segment.
    pub fn min(&self) -> (r: usize)
        ensures
            r == self.min,
    {
        self.min
    }

    /// The last segment.
    pub fn max(&self) -> (r: usize)
        ensures
            r == self.max,
    {
        self.max
    }

    /// The segment being replayed.
    pub fn current(&self) -> (r: usize)
        ensures
            r == self.current,
    {
        self.current
    }

    /// The state of the replay, where the server sent it.
    pub fn state(&self) -> (r: Option<WalReplayState>)
        ensures
            r == self.state,
    {
        self.state
    }
}

} // verus!
