//! The results of expression queries: the result-type dispatch between
//! instant vectors, range vectors and scalars, and the optional statistics.
use vstd::prelude::*;
use crate::float::FloatValue;
use crate::json::{
    at, either, field_of, float_member, float_member_fault, i64_member, i64_member_fault,
    object_fault, str_member, str_member_fault, first_fault, items, lemma_first_fault_prefix,
    lemma_first_fault_step, member_of, members, number_float_fault, number_float_value, number_view,
    present, quoted_float_fault, quoted_float_value, required, required_member, str_view,
    uint_fault, uint_view, usize_value, int_view, DecodeError, DecodeFault, Json,
};
use crate::labels::{decode_labels, first_members, labels_fault, Labels};
use crate::text::text_eq;

verus! {

/// A single data point: a timestamp in seconds since the epoch and a value.
#[derive(Debug, Clone, PartialEq, Eq)]
pub struct Sample {
    pub timestamp: FloatValue,
    pub value: FloatValue,
}

impl Sample {
    /// The timestamp of this sample.
    pub fn timestamp(&self) -> (r: &FloatValue)
        ensures
            *r == self.timestamp,
    {
        &self.timestamp
    }

    /// The value of this sample.
    pub fn value(&self) -> (r: &FloatValue)
        ensures
            *r == self.value,
    {
        &self.value
    }
}

/// The fault of a sample: a pair of a numeric timestamp and a quoted value.
pub open spec fn sample_fault(j: Json, key: Seq<char>) -> Option<DecodeFault> {
    if j is Array && items(j).len() == 2 {
        either(number_float_fault(items(j)[0], key), quoted_float_fault(items(j)[1], key))
    } else {
        Some(DecodeFault::InvalidType(key))
    }
}

/// `s` is the sample that `j` holds.
pub open spec fn sample_matches(j: Json, s: Sample) -> bool {
    &&& s.timestamp@ == number_view(items(j)[0])
    &&& s.value@ == str_view(items(j)[1])
}

/// Decodes a `[timestamp, "value"]` pair, held by the field `key`.
pub fn decode_sample(j: &Json, key: &str) -> (r: Result<Sample, DecodeError>)
    ensures
        match r {
            Ok(s) => sample_fault(*j, key@) is None && sample_matches(*j, s),
            Err(e) => sample_fault(*j, key@) == Some(e@),
        },
{
    match j {
        Json::Array(a) => {
            if a.len() != 2 {
                return Err(DecodeError::InvalidType(key.to_string()));
            }
            let timestamp = number_float_value(&a[0], key)?;
            let value = quoted_float_value(&a[1], key)?;
            Ok(Sample { timestamp, value })
        },
        _ => Err(DecodeError::InvalidType(key.to_string())),
    }
}

/// A time series with a single sample.
#[derive(Debug, Clone, PartialEq, Eq)]
pub struct InstantVector {
    pub metric: Labels,
    pub sample: Sample,
}

impl InstantVector {
    /// The labels of this series, the metric name under `__name__` among them.
    pub fn metric(&self) -> (r: &Labels)
        ensures
            *r == self.metric,
    {
        &self.metric
    }

    /// The sample of this series.
    pub fn sample(&self) -> (r: &Sample)
        ensures
            *r == self.sample,
    {
        &self.sample
    }

    /// The labels and the sample, by value.
    pub fn into_inner(self) -> (r: (Labels, Sample))
        ensures
            r == (self.metric, self.sample),
    {
        (self.metric, self.sample)
    }
}

/// The fault of the labels under `metric`.
pub open spec fn metric_fault(j: Json) -> Option<DecodeFault> {
    required(j, "metric"@, labels_fault(field_of(j, "metric"@)->0, "metric"@))
}

/// The labels under `metric`.
pub open spec fn metric_view(j: Json) -> Seq<(Seq<char>, Seq<char>)> {
    first_members(members(field_of(j, "metric"@)->0))
}

/// The fault of an instant vector: `{metric, value}`.
pub open spec fn instant_fault(j: Json) -> Option<DecodeFault> {
    either(
        object_fault(j, "result"@),
        either(
            metric_fault(j),
            required(j, "value"@, sample_fault(field_of(j, "value"@)->0, "value"@)),
        ),
    )
}

/// `v` is the instant vector that `j` describes.
pub open spec fn instant_matches(j: Json, v: InstantVector) -> bool {
    &&& v.metric@ == metric_view(j)
    &&& sample_matches(field_of(j, "value"@)->0, v.sample)
}

/// Decodes the labels under `metric`.
fn decode_metric(m: &Vec<(String, Json)>) -> (r: Result<Labels, DecodeError>)
    ensures
        match r {
            Ok(l) => metric_fault(Json::Object(*m)) is None && l@ == metric_view(Json::Object(*m)),
            Err(e) => metric_fault(Json::Object(*m)) == Some(e@),
        },
{
    let mj = required_member(m, "metric")?;
    decode_labels(mj, "metric")
}

/// Decodes an instant vector.
pub fn decode_instant_vector(j: &Json) -> (r: Result<InstantVector, DecodeError>)
    ensures
        match r {
            Ok(v) => instant_fault(*j) is None && instant_matches(*j, v),
            Err(e) => instant_fault(*j) == Some(e@),
        },
{
    match j {
        Json::Object(m) => {
            let metric = decode_metric(m)?;
            let vj = required_member(m, "value")?;
            let sample = decode_sample(vj, "value")?;
            Ok(InstantVector { metric, sample })
        },
        _ => Err(DecodeError::InvalidType("result".to_string())),
    }
}

/// A time series with a range of samples, in the order received.
#[derive(Debug, Clone, PartialEq, Eq)]
pub struct RangeVector {
    pub metric: Labels,
    pub samples: Vec<Sample>,
}

impl RangeVector {
    /// The labels of this series, the metric name under `__name__` among them.
    pub fn metric(&self) -> (r: &Labels)
        ensures
            *r == self.metric,
    {
        &self.metric
    }

    /// The samples of this series.
    pub fn samples(&self) -> (r: &[Sample])
        ensures
            r@ == self.samples@,
    {
        self.samples.as_slice()
    }

    /// The labels and the samples, by value.
    pub fn into_inner(self) -> (r: (Labels, Vec<Sample>))
        ensures
            r == (self.metric, self.samples),
    {
        (self.metric, self.samples)
    }
}

/// The fault of a list of samples held by the field `key`.
pub open spec fn samples_fault(j: Json, key: Seq<char>) -> Option<DecodeFault> {
    if j is Array {
        first_fault(items(j), |x: Json| sample_fault(x, key))
    } else {
        Some(DecodeFault::InvalidType(key))
    }
}

/// `s` holds, in order, the samples that the array `j` lists.
pub open spec fn samples_match(j: Json, s: Seq<Sample>) -> bool {
    &&& s.len() == items(j).len()
    &&& forall|i: int| 0 <= i < s.len() ==> sample_matches(#[trigger] items(j)[i], s[i])
}

/// Decodes a list of samples held by the field `key`, keeping their order.
pub fn decode_samples(j: &Json, key: &str) -> (r: Result<Vec<Sample>, DecodeError>)
    ensures
        match r {
            Ok(s) => samples_fault(*j, key@) is None && samples_match(*j, s@),
            Err(e) => samples_fault(*j, key@) == Some(e@),
        },
{
    let ghost f = |x: Json| sample_fault(x, key@);
    match j {
        Json::Array(a) => {
            let mut out: Vec<Sample> = Vec::new();
            let mut i: usize = 0;
            while i < a.len()
                invariant
                    *j == Json::Array(*a),
                    f == (|x: Json| sample_fault(x, key@)),
                    i <= a@.len(),
                    first_fault(a@.take(i as int), f) is None,
                    out@.len() == i,
                    forall|k: int| 0 <= k < i ==> sample_matches(#[trigger] a@[k], out@[k]),
                decreases a@.len() - i,
            {
                proof {
                    lemma_first_fault_step(a@, i as int, f);
                }
                match decode_sample(&a[i], key) {
                    Ok(s) => out.push(s),
                    Err(e) => {
                        proof {
                            lemma_first_fault_prefix(a@, i + 1, f);
                        }
                        return Err(e);
                    },
                }
                i = i + 1;
            }
            proof {
                assert(a@.take(a@.len() as int) =~= a@);
            }
            Ok(out)
        },
        _ => Err(DecodeError::InvalidType(key.to_string())),
    }
}

/// The fault of a range vector: `{metric, values}`.
pub open spec fn range_fault(j: Json) -> Option<DecodeFault> {
    either(
        object_fault(j, "result"@),
        either(
            metric_fault(j),
            required(j, "values"@, samples_fault(field_of(j, "values"@)->0, "values"@)),
        ),
    )
}

/// `v` is the range vector that `j` describes, its samples in the order given.
pub open spec fn range_matches(j: Json, v: RangeVector) -> bool {
    &&& v.metric@ == metric_view(j)
    &&& samples_match(field_of(j, "values"@)->0, v.samples@)
}

/// Decodes a range vector.
pub fn decode_range_vector(j: &Json) -> (r: Result<RangeVector, DecodeError>)
    ensures
        match r {
            Ok(v) => range_fault(*j) is None && range_matches(*j, v),
            Err(e) => range_fault(*j) == Some(e@),
        },
{
    match j {
        Json::Object(m) => {
            let metric = decode_metric(m)?;
            let vj = required_member(m, "values")?;
            let samples = decode_samples(vj, "values")?;
            Ok(RangeVector { metric, samples })
        },
        _ => Err(DecodeError::InvalidType("result".to_string())),
    }
}

} // verus!

verus! {

/// The fault of a list of instant vectors under `result`.
pub open spec fn vector_list_fault(r: Json) -> Option<DecodeFault> {
    if r is Array {
        first_fault(items(r), |x: Json| instant_fault(x))
    } else {
        Some(DecodeFault::InvalidType("result"@))
    }
}

/// The fault of a list of range vectors under `result`.
pub open spec fn matrix_list_fault(r: Json) -> Option<DecodeFault> {
    if r is Array {
        first_fault(items(r), |x: Json| range_fault(x))
    } else {
        Some(DecodeFault::InvalidType("result"@))
    }
}

/// Decodes a list of instant vectors, keeping their order.
pub fn decode_instant_vectors(j: &Json) -> (r: Result<Vec<InstantVector>, DecodeError>)
    ensures
        match r {
            Ok(v) => vector_list_fault(*j) is None && v@.len() == items(*j).len() && forall|i: int|
                0 <= i < v@.len() ==> instant_matches(#[trigger] items(*j)[i], v@[i]),
            Err(e) => vector_list_fault(*j) == Some(e@),
        },
{
    let ghost f = |x: Json| instant_fault(x);
    match j {
        Json::Array(a) => {
            let mut out: Vec<InstantVector> = Vec::new();
            let mut i: usize = 0;
            while i < a.len()
                invariant
                    *j == Json::Array(*a),
                    f == (|x: Json| instant_fault(x)),
                    i <= a@.len(),
                    first_fault(a@.take(i as int), f) is None,
                    out@.len() == i,
                    forall|k: int| 0 <= k < i ==> instant_matches(#[trigger] a@[k], out@[k]),
                decreases a@.len() - i,
            {
                proof {
                    lemma_first_fault_step(a@, i as int, f);
                }
                match decode_instant_vector(&a[i]) {
                    Ok(s) => out.push(s),
                    Err(e) => {
                        proof {
                            lemma_first_fault_prefix(a@, i + 1, f);
                        }
                        return Err(e);
                    },
                }
                i = i + 1;
            }
            proof {
                assert(a@.take(a@.len() as int) =~= a@);
            }
            Ok(out)
        },
        _ => Err(DecodeError::InvalidType("result".to_string())),
    }
}

/// Decodes a list of range vectors, keeping their order.
pub fn decode_range_vectors(j: &Json) -> (r: Result<Vec<RangeVector>, DecodeError>)
    ensures
        match r {
            Ok(v) => matrix_list_fault(*j) is None && v@.len() == items(*j).len() && forall|i: int|
                0 <= i < v@.len() ==> range_matches(#[trigger] items(*j)[i], v@[i]),
            Err(e) => matrix_list_fault(*j) == Some(e@),
        },
{
    let ghost f = |x: Json| range_fault(x);
    match j {
        Json::Array(a) => {
            let mut out: Vec<RangeVector> = Vec::new();
            let mut i: usize = 0;
            while i < a.len()
                invariant
                    *j == Json::Array(*a),
                    f == (|x: Json| range_fault(x)),
                    i <= a@.len(),
                    first_fault(a@.take(i as int), f) is None,
                    out@.len() == i,
                    forall|k: int| 0 <= k < i ==> range_matches(#[trigger] a@[k], out@[k]),
                decreases a@.len() - i,
            {
                proof {
                    lemma_first_fault_step(a@, i as int, f);
                }
                match decode_range_vector(&a[i]) {
                    Ok(s) => out.push(s),
                    Err(e) => {
                        proof {
                            lemma_first_fault_prefix(a@, i + 1, f);
                        }
                        return Err(e);
                    },
                }
                i = i + 1;
            }
            proof {
                assert(a@.take(a@.len() as int) =~= a@);
            }
            Ok(out)
        },
        _ => Err(DecodeError::InvalidType("result".to_string())),
    }
}

/// The result of an expression query, by result type.
#[derive(Debug, Clone, PartialEq, Eq)]
pub enum Data {
    Vector(Vec<InstantVector>),
    Matrix(Vec<RangeVector>),
    Scalar(Sample),
}

/// The name under `resultType`.
pub open spec fn result_type(j: Json) -> Seq<char> {
    str_view(at(j, "resultType"@))
}

/// The fault of the result of an expression query: `{resultType, result}`.
pub open spec fn data_fault(j: Json) -> Option<DecodeFault> {
    let head = either(object_fault(j, "data"@), str_member_fault(j, "resultType"@));
    if head is Some {
        head
    } else if result_type(j) == "vector"@ {
        required(j, "result"@, vector_list_fault(at(j, "result"@)))
    } else if result_type(j) == "matrix"@ {
        required(j, "result"@, matrix_list_fault(at(j, "result"@)))
    } else if result_type(j) == "scalar"@ {
        required(j, "result"@, sample_fault(at(j, "result"@), "result"@))
    } else {
        Some(DecodeFault::UnsupportedResultType(result_type(j)))
    }
}

/// `d` is the result that `j` describes, of the variant its `resultType` names.
pub open spec fn data_matches(j: Json, d: Data) -> bool {
    let r = at(j, "result"@);
    match d {
        Data::Vector(v) => {
            &&& result_type(j) == "vector"@
            &&& v@.len() == items(r).len()
            &&& forall|i: int| 0 <= i < v@.len() ==> instant_matches(#[trigger] items(r)[i], v@[i])
        },
        Data::Matrix(v) => {
            &&& result_type(j) == "matrix"@
            &&& v@.len() == items(r).len()
            &&& forall|i: int| 0 <= i < v@.len() ==> range_matches(#[trigger] items(r)[i], v@[i])
        },
        Data::Scalar(s) => result_type(j) == "scalar"@ && sample_matches(r, s),
    }
}

/// Decodes the result of an expression query by its `resultType`.
pub fn decode_data(j: &Json) -> (r: Result<Data, DecodeError>)
    ensures
        match r {
            Ok(d) => data_fault(*j) is None && data_matches(*j, d),
            Err(e) => data_fault(*j) == Some(e@),
        },
{
    match j {
        Json::Object(m) => {
            let tag = str_member(m, "resultType")?;
            if text_eq(tag.as_str(), "vector") {
                let rj = required_member(m, "result")?;
                Ok(Data::Vector(decode_instant_vectors(rj)?))
            } else if text_eq(tag.as_str(), "matrix") {
                let rj = required_member(m, "result")?;
                Ok(Data::Matrix(decode_range_vectors(rj)?))
            } else if text_eq(tag.as_str(), "scalar") {
                let rj = required_member(m, "result")?;
                Ok(Data::Scalar(decode_sample(rj, "result")?))
            } else {
                Err(DecodeError::UnsupportedResultType(tag))
            }
        },
        _ => Err(DecodeError::InvalidType("data".to_string())),
    }
}

impl Data {
    /// Whether the query returned no series; a scalar is never empty.
    pub fn is_empty(&self) -> (r: bool)
        ensures
            r == match self {
                Data::Vector(v) => v@.len() == 0,
                Data::Matrix(v) => v@.len() == 0,
                Data::Scalar(_) => false,
            },
    {
        match self {
            Data::Vector(v) => v.len() == 0,
            Data::Matrix(v) => v.len() == 0,
            Data::Scalar(_) => false,
        }
    }

    pub fn is_vector(&self) -> (r: bool)
        ensures
            r == self is Vector,
    {
        match self {
            Data::Vector(_) => true,
            _ => false,
        }
    }

    pub fn is_matrix(&self) -> (r: bool)
        ensures
            r == self is Matrix,
    {
        match self {
            Data::Matrix(_) => true,
            _ => false,
        }
    }

    pub fn is_scalar(&self) -> (r: bool)
        ensures
            r == self is Scalar,
    {
        match self {
            Data::Scalar(_) => true,
            _ => false,
        }
    }

    /// The instant vectors, where this is a vector result.
    pub fn as_vector(&self) -> (r: Option<&Vec<InstantVector>>)
        ensures
            match self {
                Data::Vector(v) => r == Some(v),
                _ => r is None,
            },
    {
        match self {
            Data::Vector(v) => Some(v),
            _ => None,
        }
    }

    /// The range vectors, where this is a matrix result.
    pub fn as_matrix(&self) -> (r: Option<&Vec<RangeVector>>)
        ensures
            match self {
                Data::Matrix(v) => r == Some(v),
                _ => r is None,
            },
    {
        match self {
            Data::Matrix(v) => Some(v),
            _ => None,
        }
    }

    /// The sample, where this is a scalar result.
    pub fn as_scalar(&self) -> (r: Option<&Sample>)
        ensures
            match self {
                Data::Scalar(s) => r == Some(s),
                _ => r is None,
            },
    {
        match self {
            Data::Scalar(s) => Some(s),
            _ => None,
        }
    }
}

} // verus!

verus! {

/// How long the phases of a query took, in seconds.
#[derive(Debug, Clone, PartialEq, Eq)]
pub struct Timings {
    pub eval_total_time: FloatValue,
    pub result_sort_time: FloatValue,
    pub query_preparation_time: FloatValue,
    pub inner_eval_time: FloatValue,
    pub exec_queue_time: FloatValue,
    pub exec_total_time: FloatValue,
}

/// The first fault of the document, field by field in order; `None` where
/// it decodes.
pub open spec fn timings_fault(j: Json) -> Option<DecodeFault> {
    let f = object_fault(j, "timings"@);
    let f = either(f, float_member_fault(j, "evalTotalTime"@));
    let f = either(f, float_member_fault(j, "resultSortTime"@));
    let f = either(f, float_member_fault(j, "queryPreparationTime"@));
    let f = either(f, float_member_fault(j, "innerEvalTime"@));
    let f = either(f, float_member_fault(j, "execQueueTime"@));
    let f = either(f, float_member_fault(j, "execTotalTime"@));
    f
}

/// `t` holds the timings that `j` lists.
pub open spec fn timings_match(j: Json, t: Timings) -> bool {
    &&& t.eval_total_time@ == number_view(at(j, "evalTotalTime"@))
    &&& t.result_sort_time@ == number_view(at(j, "resultSortTime"@))
    &&& t.query_preparation_time@ == number_view(at(j, "queryPreparationTime"@))
    &&& t.inner_eval_time@ == number_view(at(j, "innerEvalTime"@))
    &&& t.exec_queue_time@ == number_view(at(j, "execQueueTime"@))
    &&& t.exec_total_time@ == number_view(at(j, "execTotalTime"@))
}

pub fn decode_timings(j: &Json) -> (r: Result<Timings, DecodeError>)
    ensures
        match r {
            Ok(t) => timings_fault(*j) is None && timings_match(*j, t),
            Err(e) => timings_fault(*j) == Some(e@),
        },
{
    match j {
        Json::Object(m) => {
            let eval_total_time = float_member(m, "evalTotalTime")?;
            let result_sort_time = float_member(m, "resultSortTime")?;
            let query_preparation_time = float_member(m, "queryPreparationTime")?;
            let inner_eval_time = float_member(m, "innerEvalTime")?;
            let exec_queue_time = float_member(m, "execQueueTime")?;
            let exec_total_time = float_member(m, "execTotalTime")?;
            Ok(Timings {
                eval_total_time,
                result_sort_time,
                query_preparation_time,
                inner_eval_time,
                exec_queue_time,
                exec_total_time,
            })
        },
        _ => Err(DecodeError::InvalidType("timings".to_string())),
    }
}

impl Timings {
    pub fn eval_total_time(&self) -> (r: &FloatValue)
        ensures
            *r == self.eval_total_time,
    {
        &self.eval_total_time
    }

    pub fn result_sort_time(&self) -> (r: &FloatValue)
        ensures
            *r == self.result_sort_time,
    {
        &self.result_sort_time
    }

    pub fn query_preparation_time(&self) -> (r: &FloatValue)
        ensures
            *r == self.query_preparation_time,
    {
        &self.query_preparation_time
    }

    pub fn inner_eval_time(&self) -> (r: &FloatValue)
        ensures
            *r == self.inner_eval_time,
    {
        &self.inner_eval_time
    }

    pub fn exec_queue_time(&self) -> (r: &FloatValue)
        ensures
            *r == self.exec_queue_time,
    {
        &self.exec_queue_time
    }

    pub fn exec_total_time(&self) -> (r: &FloatValue)
        ensures
            *r == self.exec_total_time,
    {
        &self.exec_total_time
    }
}

/// The number of samples queried in one step.
#[derive(Debug, Clone, PartialEq, Eq)]
pub struct SamplesPerStep {
    pub timestamp: FloatValue,
    pub value: usize,
}

impl SamplesPerStep {
    /// The timestamp at the start of this step.
    pub fn timestamp(&self) -> (r: &FloatValue)
        ensures
            *r == self.timestamp,
    {
        &self.timestamp
    }

    /// The number of samples in this step.
    pub fn value(&self) -> (r: usize)
        ensures
            r == self.value,
    {
        self.value
    }
}

/// The fault of a step: a pair of a numeric timestamp and a count.
pub open spec fn step_fault(j: Json) -> Option<DecodeFault> {
    let key = "totalQueryableSamplesPerStep"@;
    if j is Array && items(j).len() == 2 {
        either(number_float_fault(items(j)[0], key), uint_fault(items(j)[1], key, usize::MAX as int))
    } else {
        Some(DecodeFault::InvalidType(key))
    }
}

/// `s` is the step that the pair `j` describes.
pub open spec fn step_matches(j: Json, s: SamplesPerStep) -> bool {
    &&& s.timestamp@ == number_view(items(j)[0])
    &&& s.value == uint_view(items(j)[1])
}

/// The first fault of the document, field by field in order; `None` where
/// it decodes.
pub open spec fn steps_fault(j: Json) -> Option<DecodeFault> {
    if j is Array {
        first_fault(items(j), |x: Json| step_fault(x))
    } else {
        Some(DecodeFault::InvalidType("totalQueryableSamplesPerStep"@))
    }
}

fn decode_step(j: &Json) -> (r: Result<SamplesPerStep, DecodeError>)
    ensures
        match r {
            Ok(s) => step_fault(*j) is None && step_matches(*j, s),
            Err(e) => step_fault(*j) == Some(e@),
        },
{
    match j {
        Json::Array(a) => {
            if a.len() != 2 {
                return Err(DecodeError::InvalidType("totalQueryableSamplesPerStep".to_string()));
            }
            let timestamp = number_float_value(&a[0], "totalQueryableSamplesPerStep")?;
            let value = usize_value(&a[1], "totalQueryableSamplesPerStep")?;
            Ok(SamplesPerStep { timestamp, value })
        },
        _ => Err(DecodeError::InvalidType("totalQueryableSamplesPerStep".to_string())),
    }
}

fn decode_steps(j: &Json) -> (r: Result<Vec<SamplesPerStep>, DecodeError>)
    ensures
        match r {
            Ok(v) => steps_fault(*j) is None && v@.len() == items(*j).len() && forall|i: int|
                0 <= i < v@.len() ==> step_matches(#[trigger] items(*j)[i], v@[i]),
            Err(e) => steps_fault(*j) == Some(e@),
        },
{
    let ghost f = |x: Json| step_fault(x);
    match j {
        Json::Array(a) => {
            let mut out: Vec<SamplesPerStep> = Vec::new();
            let mut i: usize = 0;
            while i < a.len()
                invariant
                    *j == Json::Array(*a),
                    f == (|x: Json| step_fault(x)),
                    i <= a@.len(),
                    first_fault(a@.take(i as int), f) is None,
                    out@.len() == i,
                    forall|k: int| 0 <= k < i ==> step_matches(#[trigger] a@[k], out@[k]),
                decreases a@.len() - i,
            {
                proof {
                    lemma_first_fault_step(a@, i as int, f);
                }
                match decode_step(&a[i]) {
                    Ok(s) => out.push(s),
                    Err(e) => {
                        proof {
                            lemma_first_fault_prefix(a@, i + 1, f);
                        }
                        return Err(e);
                    },
                }
                i = i + 1;
            }
            proof {
                assert(a@.take(a@.len() as int) =~= a@);
            }
            Ok(out)
        },
        _ => Err(DecodeError::InvalidType("totalQueryableSamplesPerStep".to_string())),
    }
}

/// Sample counts of a query.
#[derive(Debug, Clone, PartialEq, Eq)]
pub struct Samples {
    pub total_queryable_samples_per_step: Option<Vec<SamplesPerStep>>,
    pub total_queryable_samples: i64,
    pub peak_samples: i64,
}

impl Samples {
    /// The samples per step, where the server sent them.
    pub fn total_queryable_samples_per_step(&self) -> (r: Option<&Vec<SamplesPerStep>>)
        ensures
            match self.total_queryable_samples_per_step {
                Some(v) => r == Some(&v),
                None => r is None,
            },
    {
        match &self.total_queryable_samples_per_step {
            Some(v) => Some(v),
            None => None,
        }
    }

    pub fn total_queryable_samples(&self) -> (r: i64)
        ensures
            r == self.total_queryable_samples,
    {
        self.total_queryable_samples
    }

    pub fn peak_samples(&self) -> (r: i64)
        ensures
            r == self.peak_samples,
    {
        self.peak_samples
    }
}

/// The first fault of the document, field by field in order; `None` where
/// it decodes.
pub open spec fn sample_counts_fault(j: Json) -> Option<DecodeFault> {
    let k = "totalQueryableSamplesPerStep"@;
    either(
        object_fault(j, "samples"@),
        either(
            if present(field_of(j, k)) {
                steps_fault(at(j, k))
            } else {
                None
            },
            either(
                i64_member_fault(j, "totalQueryableSamples"@),
                i64_member_fault(j, "peakSamples"@),
            ),
        ),
    )
}

/// `s` holds the sample counts of `j`; the steps only where `j` has them.
pub open spec fn sample_counts_match(j: Json, s: Samples) -> bool {
    let k = "totalQueryableSamplesPerStep"@;
    &&& if present(field_of(j, k)) {
        (s.total_queryable_samples_per_step matches Some(v) && v@.len() == items(at(j, k)).len()
            && forall|i: int| 0 <= i < v@.len() ==> step_matches(#[trigger] items(at(j, k))[i], v@[i]))
    } else {
        s.total_queryable_samples_per_step is None
    }
    &&& s.total_queryable_samples == int_view(at(j, "totalQueryableSamples"@))
    &&& s.peak_samples == int_view(at(j, "peakSamples"@))
}

pub fn decode_sample_counts(j: &Json) -> (r: Result<Samples, DecodeError>)
    ensures
        match r {
            Ok(s) => sample_counts_fault(*j) is None && sample_counts_match(*j, s),
            Err(e) => sample_counts_fault(*j) == Some(e@),
        },
{
    match j {
        Json::Object(m) => {
            let per_step = match member_of(m, "totalQueryableSamplesPerStep") {
                None => None,
                Some(Json::Null) => None,
                Some(x) => Some(decode_steps(x)?),
            };
            let total_queryable_samples = i64_member(m, "totalQueryableSamples")?;
            let peak_samples = i64_member(m, "peakSamples")?;
            Ok(Samples {
                total_queryable_samples_per_step: per_step,
                total_queryable_samples,
                peak_samples,
            })
        },
        _ => Err(DecodeError::InvalidType("samples".to_string())),
    }
}

/// Statistics that the server gathered while it ran a query.
#[derive(Debug, Clone, PartialEq, Eq)]
pub struct Stats {
    pub timings: Timings,
    pub samples: Samples,
}

impl Stats {
    pub fn timings(&self) -> (r: &Timings)
        ensures
            *r == self.timings,
    {
        &self.timings
    }

    pub fn samples(&self) -> (r: &Samples)
        ensures
            *r == self.samples,
    {
        &self.samples
    }
}

/// The first fault of the document, field by field in order; `None` where
/// it decodes.
pub open spec fn stats_fault(j: Json) -> Option<DecodeFault> {
    either(
        object_fault(j, "stats"@),
        either(
            required(j, "timings"@, timings_fault(at(j, "timings"@))),
            required(j, "samples"@, sample_counts_fault(at(j, "samples"@))),
        ),
    )
}

/// `s` holds the statistics that `j` describes.
pub open spec fn stats_match(j: Json, s: Stats) -> bool {
    &&& timings_match(at(j, "timings"@), s.timings)
    &&& sample_counts_match(at(j, "samples"@), s.samples)
}

pub fn decode_stats(j: &Json) -> (r: Result<Stats, DecodeError>)
    ensures
        match r {
            Ok(s) => stats_fault(*j) is None && stats_match(*j, s),
            Err(e) => stats_fault(*j) == Some(e@),
        },
{
    match j {
        Json::Object(m) => {
            let timings = decode_timings(required_member(m, "timings")?)?;
            let samples = decode_sample_counts(required_member(m, "samples")?)?;
            Ok(Stats { timings, samples })
        },
        _ => Err(DecodeError::InvalidType("stats".to_string())),
    }
}

/// The result of an expression query with its statistics, where the server
/// sent them.
#[derive(Debug, Clone, PartialEq, Eq)]
pub struct PromqlResult {
    pub data: Data,
    pub stats: Option<Stats>,
}

/// The first fault of the document, field by field in order; `None` where
/// it decodes.
pub open spec fn promql_result_fault(j: Json) -> Option<DecodeFault> {
    either(
        data_fault(j),
        if present(field_of(j, "stats"@)) {
            stats_fault(at(j, "stats"@))
        } else {
            None
        },
    )
}

/// `r` is the query result that `j` describes; it holds statistics exactly
/// where `j` has a `stats` member that is not `null`.
pub open spec fn promql_result_matches(j: Json, r: PromqlResult) -> bool {
    &&& data_matches(j, r.data)
    &&& if present(field_of(j, "stats"@)) {
        (r.stats matches Some(s) && stats_match(at(j, "stats"@), s))
    } else {
        r.stats is None
    }
}

/// Decodes the result of an expression query: the result-type dispatch and
/// the statistics, where present.
pub fn decode_promql_result(j: &Json) -> (r: Result<PromqlResult, DecodeError>)
    ensures
        match r {
            Ok(v) => promql_result_fault(*j) is None && promql_result_matches(*j, v),
            Err(e) => promql_result_fault(*j) == Some(e@),
        },
{
    let data = decode_data(j)?;
    let stats = match j {
        Json::Object(m) => match member_of(m, "stats") {
            None => None,
            Some(Json::Null) => None,
            Some(x) => Some(decode_stats(x)?),
        },
        _ => None,
    };
    Ok(PromqlResult { data, stats })
}

impl PromqlResult {
    /// The result data.
    pub fn data(&self) -> (r: &Data)
        ensures
            *r == self.data,
    {
        &self.data
    }

    /// The statistics; `None` where the server did not send any.
    pub fn stats(&self) -> (r: Option<&Stats>)
        ensures
            match self.stats {
                Some(s) => r == Some(&s),
                None => r is None,
            },
    {
        match &self.stats {
            Some(s) => Some(s),
            None => None,
        }
    }

    /// The data and the statistics, by value.
    pub fn into_inner(self) -> (r: (Data, Option<Stats>))
        ensures
            r == (self.data, self.stats),
    {
        (self.data, self.stats)
    }
}

} // verus!

verus! {

/// A query result without `stats` decodes to a result without statistics,
/// never to zeroed ones.
pub proof fn lemma_absent_stats(j: Json, r: PromqlResult)
    requires
        promql_result_matches(j, r),
        !present(field_of(j, "stats"@)),
    ensures
        r.stats is None,
{
}

/// A decoded matrix keeps the document's series and samples as given: as
/// many series as the document lists, each with the labels of its `metric`
/// and with as many samples as its `values`, the `k`-th sample being the
/// document's `k`-th, with no re-sorting.
pub proof fn lemma_matrix_order(j: Json, r: PromqlResult, i: int, k: int)
    requires
        promql_result_matches(j, r),
        r.data is Matrix,
    ensures
        r.data->Matrix_0@.len() == items(at(j, "result"@)).len(),
        0 <= i < r.data->Matrix_0@.len() ==> ({
            let series = items(at(j, "result"@))[i];
            let values = items(at(series, "values"@));
            let v = r.data->Matrix_0@[i];
            &&& v.metric@ == first_members(members(at(series, "metric"@)))
            &&& v.samples@.len() == values.len()
            &&& 0 <= k < values.len() ==> {
                &&& v.samples@[k].timestamp@ == number_view(items(values[k])[0])
                &&& v.samples@[k].value@ == str_view(items(values[k])[1])
            }
        }),
{
    if 0 <= i < r.data->Matrix_0@.len() {
        let v = r.data->Matrix_0@[i];
        let series = items(at(j, "result"@))[i];
        assert(range_matches(series, v));
        if 0 <= k < v.samples@.len() {
            assert(sample_matches(items(at(series, "values"@))[k], v.samples@[k]));
        }
    }
}

} // verus!
