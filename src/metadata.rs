//! Metric metadata, per target and per metric name, and the alertmanagers
//! that the server knows.
use vstd::prelude::*;
use crate::fields::{
    labels_member, labels_member_fault, labels_member_view, token_fault, url_member,
    url_member_fault, url_serialization, Url,
};
use crate::json::{
    at, either, field_of, first_fault, items, lemma_first_fault_prefix, lemma_first_fault_step,
    members, object_fault, opt_str_fault, opt_str_member, opt_str_view, required, required_member,
    str_member, str_member_fault, str_view, DecodeError, DecodeFault, Json,
};
use crate::labels::Labels;
use crate::text::text_eq;

verus! {

/// The type of a metric.
#[derive(Debug, Clone, Copy, PartialEq, Eq, Structural)]
pub enum MetricType {
    Counter,
    Gauge,
    Histogram,
    GaugeHistogram,
    Summary,
    Info,
    Stateset,
    Unknown,
}

/// The tokens that name a [`MetricType`].
pub open spec fn is_metric_type(s: Seq<char>) -> bool {
    s == "counter"@
        || s == "gauge"@
        || s == "histogram"@
        || s == "gaugehistogram"@
        || s == "summary"@
        || s == "info"@
        || s == "stateset"@
        || s == "unknown"@
}

/// `v` is the value that the token `s` names.
pub open spec fn metric_type_named(v: MetricType, s: Seq<char>) -> bool {
    match v {
        MetricType::Counter => s == "counter"@,
        MetricType::Gauge => s == "gauge"@,
        MetricType::Histogram => s == "histogram"@,
        MetricType::GaugeHistogram => s == "gaugehistogram"@,
        MetricType::Summary => s == "summary"@,
        MetricType::Info => s == "info"@,
        MetricType::Stateset => s == "stateset"@,
        MetricType::Unknown => s == "unknown"@,
    }
}

/// The fault of the value held by the field `key`; `None` where it decodes.
pub open spec fn metric_type_fault(j: Json, key: Seq<char>) -> Option<DecodeFault> {
    token_fault(j, key, is_metric_type(str_view(j)))
}

/// Decodes a [`MetricType`] token held by the field `key`; any other token is refused.
pub fn decode_metric_type(j: &Json, key: &str) -> (r: Result<MetricType, DecodeError>)
    ensures
        match r {
            Ok(v) => metric_type_fault(*j, key@) is None && metric_type_named(v, str_view(*j)),
            Err(e) => metric_type_fault(*j, key@) == Some(e@),
        },
{
    match j {
        Json::Str(s) => {
            if text_eq(s.as_str(), "counter") {
                Ok(MetricType::Counter)
            } else if text_eq(s.as_str(), "gauge") {
                Ok(MetricType::Gauge)
            } else if text_eq(s.as_str(), "histogram") {
                Ok(MetricType::Histogram)
            } else if text_eq(s.as_str(), "gaugehistogram") {
                Ok(MetricType::GaugeHistogram)
            } else if text_eq(s.as_str(), "summary") {
                Ok(MetricType::Summary)
            } else if text_eq(s.as_str(), "info") {
                Ok(MetricType::Info)
            } else if text_eq(s.as_str(), "stateset") {
                Ok(MetricType::Stateset)
            } else if text_eq(s.as_str(), "unknown") {
                Ok(MetricType::Unknown)
            } else {
                Err(DecodeError::InvalidValue(key.to_string(), s.clone()))
            }
        },
        _ => Err(DecodeError::InvalidType(key.to_string())),
    }
}

impl MetricType {
    pub fn is_counter(&self) -> (r: bool)
        ensures
            r == (*self == MetricType::Counter),
    {
        match self {
            MetricType::Counter => true,
            _ => false,
        }
    }

    pub fn is_gauge(&self) -> (r: bool)
        ensures
            r == (*self == MetricType::Gauge),
    {
        match self {
            MetricType::Gauge => true,
            _ => false,
        }
    }

    pub fn is_histogram(&self) -> (r: bool)
        ensures
            r == (*self == MetricType::Histogram),
    {
        match self {
            MetricType::Histogram => true,
            _ => false,
        }
    }

    pub fn is_gauge_histogram(&self) -> (r: bool)
        ensures
            r == (*self == MetricType::GaugeHistogram),
    {
        match self {
            MetricType::GaugeHistogram => true,
            _ => false,
        }
    }

    pub fn is_summary(&self) -> (r: bool)
        ensures
            r == (*self == MetricType::Summary),
    {
        match self {
            MetricType::Summary => true,
            _ => false,
        }
    }

    pub fn is_info(&self) -> (r: bool)
        ensures
            r == (*self == MetricType::Info),
    {
        match self {
            MetricType::Info => true,
            _ => false,
        }
    }

    pub fn is_stateset(&self) -> (r: bool)
        ensures
            r == (*self == MetricType::Stateset),
    {
        match self {
            MetricType::Stateset => true,
            _ => false,
        }
    }

    pub fn is_unknown(&self) -> (r: bool)
        ensures
            r == (*self == MetricType::Unknown),
    {
        match self {
            MetricType::Unknown => true,
            _ => false,
        }
    }
}

impl MetricType {
    /// The token that names this type.
    pub fn as_str(&self) -> (r: &'static str)
        ensures
            metric_type_named(*self, r@),
    {
        match self {
            MetricType::Counter => "counter",
            MetricType::Gauge => "gauge",
            MetricType::Histogram => "histogram",
            MetricType::GaugeHistogram => "gaugehistogram",
            MetricType::Summary => "summary",
            MetricType::Info => "info",
            MetricType::Stateset => "stateset",
            MetricType::Unknown => "unknown",
        }
    }
}

/// The metadata of a metric of a target.
#[derive(Debug, Clone)]
pub struct TargetMetadata {
    pub target: Labels,
    pub metric_type: MetricType,
    pub metric: Option<String>,
    pub help: String,
    pub unit: String,
}

/// The first fault of the document, field by field in order; `None` where
/// it decodes.
pub open spec fn target_metadata_fault(j: Json) -> Option<DecodeFault> {
    let f = object_fault(j, "data"@);
    let f = either(f, labels_member_fault(j, "target"@));
    let f = either(f, required(j, "type"@, metric_type_fault(at(j, "type"@), "type"@)));
    let f = either(f, opt_str_fault(field_of(j, "metric"@), "metric"@));
    let f = either(f, str_member_fault(j, "help"@));
    let f = either(f, str_member_fault(j, "unit"@));
    f
}

/// `x` is the [`TargetMetadata`] that `j` describes.
pub open spec fn target_metadata_matches(j: Json, x: TargetMetadata) -> bool {
    &&& x.target@ == labels_member_view(j, "target"@)
    &&& metric_type_named(x.metric_type, str_view(at(j, "type"@)))
    &&& match x.metric {
        Some(s) => opt_str_view(field_of(j, "metric"@)) == Some(s@),
        None => opt_str_view(field_of(j, "metric"@)) is None,
    }
    &&& x.help@ == str_view(at(j, "help"@))
    &&& x.unit@ == str_view(at(j, "unit"@))
}

/// Decodes a [`TargetMetadata`].
pub fn decode_target_metadata(j: &Json) -> (r: Result<TargetMetadata, DecodeError>)
    ensures
        match r {
            Ok(x) => target_metadata_fault(*j) is None && target_metadata_matches(*j, x),
            Err(e) => target_metadata_fault(*j) == Some(e@),
        },
{
    match j {
        Json::Object(m) => {
            let target = labels_member(m, "target")?;
            let metric_type = decode_metric_type(required_member(m, "type")?, "type")?;
            let metric = opt_str_member(m, "metric")?;
            let help = str_member(m, "help")?;
            let unit = str_member(m, "unit")?;
            Ok(TargetMetadata { target, metric_type, metric, help, unit })
        },
        _ => Err(DecodeError::InvalidType("data".to_string())),
    }
}

impl TargetMetadata {
    /// The labels of the target.
    pub fn target(&self) -> (r: &Labels)
        ensures
            *r == self.target,
    {
        &self.target
    }

    /// The type of the metric.
    pub fn metric_type(&self) -> (r: MetricType)
        ensures
            r == self.metric_type,
    {
        self.metric_type
    }

    /// The name of the metric, where the server sent it.
    pub fn metric(&self) -> (r: Option<&str>)
        ensures
            match self.metric {
                Some(s) => r matches Some(v) && v@ == s@,
                None => r is None,
            },
    {
        match &self.metric {
            Some(s) => Some(s.as_str()),
            None => None,
        }
    }

    /// The help text of the metric.
    pub fn help(&self) -> (r: &str)
        ensures
            r@ == self.help@,
    {
        self.help.as_str()
    }

    /// The unit of the metric.
    pub fn unit(&self) -> (r: &str)
        ensures
            r@ == self.unit@,
    {
        self.unit.as_str()
    }
}

/// The fault of an array held by the field `key`: the fault of its first
/// item that has one.
pub open spec fn target_metadata_list_fault(j: Json, key: Seq<char>) -> Option<DecodeFault> {
    if j is Array {
        first_fault(items(j), |x: Json| target_metadata_fault(x))
    } else {
        Some(DecodeFault::InvalidType(key))
    }
}

/// `v` holds, in order, the [`TargetMetadata`] items that the array `j` describes.
pub open spec fn target_metadata_list_match(j: Json, v: Seq<TargetMetadata>) -> bool {
    &&& v.len() == items(j).len()
    &&& forall|i: int| 0 <= i < v.len() ==> target_metadata_matches(#[trigger] items(j)[i], v[i])
}

/// Decodes a list of [`TargetMetadata`] held by the field `key`, keeping its order.
pub fn decode_target_metadata_list(j: &Json, key: &str) -> (r: Result<Vec<TargetMetadata>, DecodeError>)
    ensures
        match r {
            Ok(v) => target_metadata_list_fault(*j, key@) is None && target_metadata_list_match(*j, v@),
            Err(e) => target_metadata_list_fault(*j, key@) == Some(e@),
        },
{
    let ghost f = |x: Json| target_metadata_fault(x);
    match j {
        Json::Array(a) => {
            let mut out: Vec<TargetMetadata> = Vec::new();
            let mut i: usize = 0;
            while i < a.len()
                invariant
                    *j == Json::Array(*a),
                    f == (|x: Json| target_metadata_fault(x)),
                    i <= a@.len(),
                    first_fault(a@.take(i as int), f) is None,
                    out@.len() == i,
                    forall|k: int| 0 <= k < i ==> target_metadata_matches(#[trigger] a@[k], out@[k]),
                decreases a@.len() - i,
            {
                proof {
                    lemma_first_fault_step(a@, i as int, f);
                }
                match decode_target_metadata(&a[i]) {
                    Ok(s) => out.push(s),
                    Err(e) => {
                        proof {
                            lemma_first_fault_prefix(a@, i + 1, f);
                        }
                        return Err(e);
                    },
                }
                i = i + 1;
            }
            proof {
                assert(a@.take(a@.len() as int) =~= a@);
            }
            Ok(out)
        },
        _ => Err(DecodeError::InvalidType(key.to_string())),
    }
}

/// The metadata of a metric.
#[derive(Debug, Clone, PartialEq, Eq)]
pub struct MetricMetadata {
    pub metric_type: MetricType,
    pub help: String,
    pub unit: String,
}

/// The first fault of the document, field by field in order; `None` where
/// it decodes.
pub open spec fn metric_metadata_fault(j: Json) -> Option<DecodeFault> {
    let f = object_fault(j, "data"@);
    let f = either(f, required(j, "type"@, metric_type_fault(at(j, "type"@), "type"@)));
    let f = either(f, str_member_fault(j, "help"@));
    let f = either(f, str_member_fault(j, "unit"@));
    f
}

/// `x` is the [`MetricMetadata`] that `j` describes.
pub open spec fn metric_metadata_matches(j: Json, x: MetricMetadata) -> bool {
    &&& metric_type_named(x.metric_type, str_view(at(j, "type"@)))
    &&& x.help@ == str_view(at(j, "help"@))
    &&& x.unit@ == str_view(at(j, "unit"@))
}

/// Decodes a [`MetricMetadata`].
pub fn decode_metric_metadata(j: &Json) -> (r: Result<MetricMetadata, DecodeError>)
    ensures
        match r {
            Ok(x) => metric_metadata_fault(*j) is None && metric_metadata_matches(*j, x),
            Err(e) => metric_metadata_fault(*j) == Some(e@),
        },
{
    match j {
        Json::Object(m) => {
            let metric_type = decode_metric_type(required_member(m, "type")?, "type")?;
            let help = str_member(m, "help")?;
            let unit = str_member(m, "unit")?;
            Ok(MetricMetadata { metric_type, help, unit })
        },
        _ => Err(DecodeError::InvalidType("data".to_string())),
    }
}

impl MetricMetadata {
    /// The type of the metric.
    pub fn metric_type(&self) -> (r: MetricType)
        ensures
            r == self.metric_type,
    {
        self.metric_type
    }

    /// The help text of the metric.
    pub fn help(&self) -> (r: &str)
        ensures
            r@ == self.help@,
    {
        self.help.as_str()
    }

    /// The unit of the metric.
    pub fn unit(&self) -> (r: &str)
        ensures
            r@ == self.unit@,
    {
        self.unit.as_str()
    }
}

/// The fault of an array held by the field `key`: the fault of its first
/// item that has one.
pub open spec fn metric_metadata_list_fault(j: Json, key: Seq<char>) -> Option<DecodeFault> {
    if j is Array {
        first_fault(items(j), |x: Json| metric_metadata_fault(x))
    } else {
        Some(DecodeFault::InvalidType(key))
    }
}

/// `v` holds, in order, the [`MetricMetadata`] items that the array `j` describes.
pub open spec fn metric_metadata_list_match(j: Json, v: Seq<MetricMetadata>) -> bool {
    &&& v.len() == items(j).len()
    &&& forall|i: int| 0 <= i < v.len() ==> metric_metadata_matches(#[trigger] items(j)[i], v[i])
}

/// Decodes a list of [`MetricMetadata`] held by the field `key`, keeping its order.
pub fn decode_metric_metadata_list(j: &Json, key: &str) -> (r: Result<Vec<MetricMetadata>, DecodeError>)
    ensures
        match r {
            Ok(v) => metric_metadata_list_fault(*j, key@) is None && metric_metadata_list_match(*j, v@),
            Err(e) => metric_metadata_list_fault(*j, key@) == Some(e@),
        },
{
    let ghost f = |x: Json| metric_metadata_fault(x);
    match j {
        Json::Array(a) => {
            let mut out: Vec<MetricMetadata> = Vec::new();
            let mut i: usize = 0;
            while i < a.len()
                invariant
                    *j == Json::Array(*a),
                    f == (|x: Json| metric_metadata_fault(x)),
                    i <= a@.len(),
                    first_fault(a@.take(i as int), f) is None,
                    out@.len() == i,
                    forall|k: int| 0 <= k < i ==> metric_metadata_matches(#[trigger] a@[k], out@[k]),
                decreases a@.len() - i,
            {
                proof {
                    lemma_first_fault_step(a@, i as int, f);
                }
                match decode_metric_metadata(&a[i]) {
                    Ok(s) => out.push(s),
                    Err(e) => {
                        proof {
                            lemma_first_fault_prefix(a@, i + 1, f);
                        }
                        return Err(e);
                    },
                }
                i = i + 1;
            }
            proof {
                assert(a@.take(a@.len() as int) =~= a@);
            }
            Ok(out)
        },
        _ => Err(DecodeError::InvalidType(key.to_string())),
    }
}

/// The first fault of the document, field by field in order; `None` where
/// it decodes.
pub open spec fn metric_metadata_map_fault(j: Json) -> Option<DecodeFault> {
    either(object_fault(j, "data"@), metadata_members_fault(members(j)))
}

/// The fault of the first member whose list does not decode.
pub open spec fn metadata_members_fault(m: Seq<(String, Json)>) -> Option<DecodeFault>
    decreases m.len(),
{
    if m.len() == 0 {
        None
    } else {
        either(metadata_members_fault(m.drop_last()), metric_metadata_list_fault(m.last().1, m.last().0@))
    }
}

/// `v` lists the members of `j` in order, each name with its metadata.
pub open spec fn metric_metadata_map_match(j: Json, v: Seq<(String, Vec<MetricMetadata>)>) -> bool {
    &&& v.len() == members(j).len()
    &&& forall|i: int|
        0 <= i < v.len() ==> {
            &&& (#[trigger] v[i]).0@ == members(j)[i].0@
            &&& metric_metadata_list_match(members(j)[i].1, v[i].1@)
        }
}

/// Decodes the payload of the metric metadata endpoint: an object from metric
/// names to lists of metadata, in the order received.
pub fn decode_metric_metadata_map(j: &Json) -> (r: Result<Vec<(String, Vec<MetricMetadata>)>, DecodeError>)
    ensures
        match r {
            Ok(v) => metric_metadata_map_fault(*j) is None && metric_metadata_map_match(*j, v@),
            Err(e) => metric_metadata_map_fault(*j) == Some(e@),
        },
{
    match j {
        Json::Object(m) => {
            let mut out: Vec<(String, Vec<MetricMetadata>)> = Vec::new();
            let mut i: usize = 0;
            while i < m.len()
                invariant
                    *j == Json::Object(*m),
                    i <= m@.len(),
                    metadata_members_fault(m@.take(i as int)) is None,
                    out@.len() == i,
                    forall|k: int|
                        0 <= k < i ==> {
                            &&& (#[trigger] out@[k]).0@ == m@[k].0@
                            &&& metric_metadata_list_match(m@[k].1, out@[k].1@)
                        },
                decreases m@.len() - i,
            {
                proof {
                    assert(m@.take(i + 1).drop_last() =~= m@.take(i as int));
                }
                match decode_metric_metadata_list(&m[i].1, m[i].0.as_str()) {
                    Ok(list) => out.push((m[i].0.clone(), list)),
                    Err(e) => {
                        proof {
                            lemma_metadata_prefix(m@, i + 1);
                        }
                        return Err(e);
                    },
                }
                i = i + 1;
            }
            proof {
                assert(m@.take(m@.len() as int) =~= m@);
            }
            Ok(out)
        },
        _ => Err(DecodeError::InvalidType("data".to_string())),
    }
}

proof fn lemma_metadata_prefix(m: Seq<(String, Json)>, n: int)
    requires
        0 <= n <= m.len(),
        metadata_members_fault(m.take(n)) is Some,
    ensures
        metadata_members_fault(m) == metadata_members_fault(m.take(n)),
    decreases m.len(),
{
    if m.len() > n {
        assert(m.drop_last().take(n) =~= m.take(n));
        lemma_metadata_prefix(m.drop_last(), n);
    } else {
        assert(m.take(n) =~= m);
    }
}

/// An alertmanager.
#[derive(Debug, Clone)]
pub struct Alertmanager {
    pub url: Url,
}

/// The first fault of the document, field by field in order; `None` where
/// it decodes.
pub open spec fn alertmanager_fault(j: Json) -> Option<DecodeFault> {
    let f = object_fault(j, "activeAlertmanagers"@);
    let f = either(f, url_member_fault(j, "url"@));
    f
}

/// `x` is the [`Alertmanager`] that `j` describes.
pub open spec fn alertmanager_matches(j: Json, x: Alertmanager) -> bool {
    &&& url_serialization(str_view(at(j, "url"@))) == Some(x.url@)
}

/// Decodes a [`Alertmanager`].
pub fn decode_alertmanager(j: &Json) -> (r: Result<Alertmanager, DecodeError>)
    ensures
        match r {
            Ok(x) => alertmanager_fault(*j) is None && alertmanager_matches(*j, x),
            Err(e) => alertmanager_fault(*j) == Some(e@),
        },
{
    match j {
        Json::Object(m) => {
            let url = url_member(m, "url")?;
            Ok(Alertmanager { url })
        },
        _ => Err(DecodeError::InvalidType("activeAlertmanagers".to_string())),
    }
}

impl Alertmanager {
    /// The URL of this alertmanager.
    pub fn url(&self) -> (r: &Url)
        ensures
            *r == self.url,
    {
        &self.url
    }
}

/// The fault of an array held by the field `key`: the fault of its first
/// item that has one.
pub open spec fn alertmanager_list_fault(j: Json, key: Seq<char>) -> Option<DecodeFault> {
    if j is Array {
        first_fault(items(j), |x: Json| alertmanager_fault(x))
    } else {
        Some(DecodeFault::InvalidType(key))
    }
}

/// `v` holds, in order, the [`Alertmanager`] items that the array `j` describes.
pub open spec fn alertmanager_list_match(j: Json, v: Seq<Alertmanager>) -> bool {
    &&& v.len() == items(j).len()
    &&& forall|i: int| 0 <= i < v.len() ==> alertmanager_matches(#[trigger] items(j)[i], v[i])
}

/// Decodes a list of [`Alertmanager`] held by the field `key`, keeping its order.
pub fn decode_alertmanager_list(j: &Json, key: &str) -> (r: Result<Vec<Alertmanager>, DecodeError>)
    ensures
        match r {
            Ok(v) => alertmanager_list_fault(*j, key@) is None && alertmanager_list_match(*j, v@),
            Err(e) => alertmanager_list_fault(*j, key@) == Some(e@),
        },
{
    let ghost f = |x: Json| alertmanager_fault(x);
    match j {
        Json::Array(a) => {
            let mut out: Vec<Alertmanager> = Vec::new();
            let mut i: usize = 0;
            while i < a.len()
                invariant
                    *j == Json::Array(*a),
                    f == (|x: Json| alertmanager_fault(x)),
                    i <= a@.len(),
                    first_fault(a@.take(i as int), f) is None,
                    out@.len() == i,
                    forall|k: int| 0 <= k < i ==> alertmanager_matches(#[trigger] a@[k], out@[k]),
                decreases a@.len() - i,
            {
                proof {
                    lemma_first_fault_step(a@, i as int, f);
                }
                match decode_alertmanager(&a[i]) {
                    Ok(s) => out.push(s),
                    Err(e) => {
                        proof {
                            lemma_first_fault_prefix(a@, i + 1, f);
                        }
                        return Err(e);
                    },
                }
                i = i + 1;
            }
            proof {
                assert(a@.take(a@.len() as int) =~= a@);
            }
            Ok(out)
        },
        _ => Err(DecodeError::InvalidType(key.to_string())),
    }
}

/// The active and the dropped alertmanagers of the server.
#[derive(Debug, Clone)]
pub struct Alertmanagers {
    pub active: Vec<Alertmanager>,
    pub dropped: Vec<Alertmanager>,
}

/// The first fault of the document, field by field in order; `None` where
/// it decodes.
pub open spec fn alertmanagers_fault(j: Json) -> Option<DecodeFault> {
    let f = object_fault(j, "data"@);
    let f = either(f, required(j, "activeAlertmanagers"@, alertmanager_list_fault(at(j, "activeAlertmanagers"@), "activeAlertmanagers"@)));
    let f = either(f, required(j, "droppedAlertmanagers"@, alertmanager_list_fault(at(j, "droppedAlertmanagers"@), "droppedAlertmanagers"@)));
    f
}

/// `x` is the [`Alertmanagers`] that `j` describes.
pub open spec fn alertmanagers_matches(j: Json, x: Alertmanagers) -> bool {
    &&& alertmanager_list_match(at(j, "activeAlertmanagers"@), x.active@)
    &&& alertmanager_list_match(at(j, "droppedAlertmanagers"@), x.dropped@)
}

/// Decodes a [`Alertmanagers`].
pub fn decode_alertmanagers(j: &Json) -> (r: Result<Alertmanagers, DecodeError>)
    ensures
        match r {
            Ok(x) => alertmanagers_fault(*j) is None && alertmanagers_matches(*j, x),
            Err(e) => alertmanagers_fault(*j) == Some(e@),
        },
{
    match j {
        Json::Object(m) => {
            let active = decode_alertmanager_list(required_member(m, "activeAlertmanagers")?, "activeAlertmanagers")?;
            let dropped = decode_alertmanager_list(required_member(m, "droppedAlertmanagers")?, "droppedAlertmanagers")?;
            Ok(Alertmanagers { active, dropped })
        },
        _ => Err(DecodeError::InvalidType("data".to_string())),
    }
}

impl Alertmanagers {
    /// The alertmanagers in use.
    pub fn active(&self) -> (r: &[Alertmanager])
        ensures
            r@ == self.active@,
    {
        self.active.as_slice()
    }

    /// The alertmanagers that were dropped.
    pub fn dropped(&self) -> (r: &[Alertmanager])
        ensures
            r@ == self.dropped@,
    {
        self.dropped.as_slice()
    }
}

} // verus!
