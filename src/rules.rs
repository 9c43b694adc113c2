//! Rule groups with their recording and alerting rules, and alerts.
use vstd::prelude::*;
use crate::fields::{
    labels_member, labels_member_fault, labels_member_view, quoted_float_member,
    quoted_float_member_fault, timestamp_member, timestamp_member_fault, token_fault,
};
use crate::float::FloatValue;
use crate::json::{
    at, either, field_of, first_fault, float_member, float_member_fault, items,
    lemma_first_fault_prefix, lemma_first_fault_step, member_of, number_view, object_fault,
    present, required, required_member, str_member, str_member_fault, str_view, uint_view,
    usize_member, usize_member_fault, DecodeError, DecodeFault, Json,
};
use crate::labels::{decode_labels, labels_fault, Labels};
use crate::text::text_eq;

use crate::timestamp::{rfc3339_value, Timestamp};

verus! {

/// The health of a rule.
#[derive(Debug, Clone, Copy, PartialEq, Eq, Structural)]
pub enum RuleHealth {
    Good,
    Bad,
    Unknown,
}

/// The tokens that name a [`RuleHealth`].
pub open spec fn is_rule_health(s: Seq<char>) -> bool {
    s == "ok"@ || s == "err"@ || s == "unknown"@
}

/// `v` is the value that the token `s` names.
pub open spec fn rule_health_named(v: RuleHealth, s: Seq<char>) -> bool {
    match v {
        RuleHealth::Good => s == "ok"@,
        RuleHealth::Bad => s == "err"@,
        RuleHealth::Unknown => s == "unknown"@,
    }
}

/// The fault of the value held by the field `key`; `None` where it decodes.
pub open spec fn rule_health_fault(j: Json, key: Seq<char>) -> Option<DecodeFault> {
    token_fault(j, key, is_rule_health(str_view(j)))
}

/// Decodes a [`RuleHealth`] token held by the field `key`; any other token is refused.
pub fn decode_rule_health(j: &Json, key: &str) -> (r: Result<RuleHealth, DecodeError>)
    ensures
        match r {
            Ok(v) => rule_health_fault(*j, key@) is None && rule_health_named(v, str_view(*j)),
            Err(e) => rule_health_fault(*j, key@) == Some(e@),
        },
{
    match j {
        Json::Str(s) => {
            if text_eq(s.as_str(), "ok") {
                Ok(RuleHealth::Good)
            } else if text_eq(s.as_str(), "err") {
                Ok(RuleHealth::Bad)
            } else if text_eq(s.as_str(), "unknown") {
                Ok(RuleHealth::Unknown)
            } else {
                Err(DecodeError::InvalidValue(key.to_string(), s.clone()))
            }
        },
        _ => Err(DecodeError::InvalidType(key.to_string())),
    }
}

impl RuleHealth {
    pub fn is_good(&self) -> (r: bool)
        ensures
            r == (*self == RuleHealth::Good),
    {
        match self {
            RuleHealth::Good => true,
            _ => false,
        }
    }

    pub fn is_bad(&self) -> (r: bool)
        ensures
            r == (*self == RuleHealth::Bad),
    {
        match self {
            RuleHealth::Bad => true,
            _ => false,
        }
    }

    pub fn is_unknown(&self) -> (r: bool)
        ensures
            r == (*self == RuleHealth::Unknown),
    {
        match self {
            RuleHealth::Unknown => true,
            _ => false,
        }
    }
}

/// The state of an alert.
#[derive(Debug, Clone, Copy, PartialEq, Eq, Structural)]
pub enum AlertState {
    Inactive,
    Pending,
    Firing,
}

/// The tokens that name a [`AlertState`].
pub open spec fn is_alert_state(s: Seq<char>) -> bool {
    s == "inactive"@ || s == "pending"@ || s == "firing"@
}

/// `v` is the value that the token `s` names.
pub open spec fn alert_state_named(v: AlertState, s: Seq<char>) -> bool {
    match v {
        AlertState::Inactive => s == "inactive"@,
        AlertState::Pending => s == "pending"@,
        AlertState::Firing => s == "firing"@,
    }
}

/// The fault of the value held by the field `key`; `None` where it decodes.
pub open spec fn alert_state_fault(j: Json, key: Seq<char>) -> Option<DecodeFault> {
    token_fault(j, key, is_alert_state(str_view(j)))
}

/// Decodes a [`AlertState`] token held by the field `key`; any other token is refused.
pub fn decode_alert_state(j: &Json, key: &str) -> (r: Result<AlertState, DecodeError>)
    ensures
        match r {
            Ok(v) => alert_state_fault(*j, key@) is None && alert_state_named(v, str_view(*j)),
            Err(e) => alert_state_fault(*j, key@) == Some(e@),
        },
{
    match j {
        Json::Str(s) => {
            if text_eq(s.as_str(), "inactive") {
                Ok(AlertState::Inactive)
            } else if text_eq(s.as_str(), "pending") {
                Ok(AlertState::Pending)
            } else if text_eq(s.as_str(), "firing") {
                Ok(AlertState::Firing)
            } else {
                Err(DecodeError::InvalidValue(key.to_string(), s.clone()))
            }
        },
        _ => Err(DecodeError::InvalidType(key.to_string())),
    }
}

impl AlertState {
    pub fn is_inactive(&self) -> (r: bool)
        ensures
            r == (*self == AlertState::Inactive),
    {
        match self {
            AlertState::Inactive => true,
            _ => false,
        }
    }

    pub fn is_pending(&self) -> (r: bool)
        ensures
            r == (*self == AlertState::Pending),
    {
        match self {
            AlertState::Pending => true,
            _ => false,
        }
    }

    pub fn is_firing(&self) -> (r: bool)
        ensures
            r == (*self == AlertState::Firing),
    {
        match self {
            AlertState::Firing => true,
            _ => false,
        }
    }
}

/// A single alert.
#[derive(Debug, Clone)]
pub struct Alert {
    pub active_at: Timestamp,
    pub annotations: Labels,
    pub labels: Labels,
    pub state: AlertState,
    pub value: FloatValue,
}

/// The first fault of the document, field by field in order; `None` where
/// it decodes.
pub open spec fn alert_fault(j: Json) -> Option<DecodeFault> {
    let f = object_fault(j, "alerts"@);
    let f = either(f, timestamp_member_fault(j, "activeAt"@));
    let f = either(f, labels_member_fault(j, "annotations"@));
    let f = either(f, labels_member_fault(j, "labels"@));
    let f = either(f, required(j, "state"@, alert_state_fault(at(j, "state"@), "state"@)));
    let f = either(f, quoted_float_member_fault(j, "value"@));
    f
}

/// `x` is the [`Alert`] that `j` describes.
pub open spec fn alert_matches(j: Json, x: Alert) -> bool {
    &&& rfc3339_value(str_view(at(j, "activeAt"@))) == Some(x.active_at)
    &&& x.annotations@ == labels_member_view(j, "annotations"@)
    &&& x.labels@ == labels_member_view(j, "labels"@)
    &&& alert_state_named(x.state, str_view(at(j, "state"@)))
    &&& x.value@ == str_view(at(j, "value"@))
}

/// Decodes a [`Alert`].
pub fn decode_alert(j: &Json) -> (r: Result<Alert, DecodeError>)
    ensures
        match r {
            Ok(x) => alert_fault(*j) is None && alert_matches(*j, x),
            Err(e) => alert_fault(*j) == Some(e@),
        },
{
    match j {
        Json::Object(m) => {
            let active_at = timestamp_member(m, "activeAt")?;
            let annotations = labels_member(m, "annotations")?;
            let labels = labels_member(m, "labels")?;
            let state = decode_alert_state(required_member(m, "state")?, "state")?;
            let value = quoted_float_member(m, "value")?;
            Ok(Alert { active_at, annotations, labels, state, value })
        },
        _ => Err(DecodeError::InvalidType("alerts".to_string())),
    }
}

impl Alert {
    /// When this alert became active.
    pub fn active_at(&self) -> (r: &Timestamp)
        ensures
            *r == self.active_at,
    {
        &self.active_at
    }

    /// The annotations of this alert.
    pub fn annotations(&self) -> (r: &Labels)
        ensures
            *r == self.annotations,
    {
        &self.annotations
    }

    /// The labels of this alert.
    pub fn labels(&self) -> (r: &Labels)
        ensures
            *r == self.labels,
    {
        &self.labels
    }

    /// The state of this alert.
    pub fn state(&self) -> (r: AlertState)
        ensures
            r == self.state,
    {
        self.state
    }

    /// The value of the expression that made this alert fire.
    pub fn value(&self) -> (r: &FloatValue)
        ensures
            *r == self.value,
    {
        &self.value
    }
}

/// The fault of an array held by the field `key`: the fault of its first
/// item that has one.
pub open spec fn alert_list_fault(j: Json, key: Seq<char>) -> Option<DecodeFault> {
    if j is Array {
        first_fault(items(j), |x: Json| alert_fault(x))
    } else {
        Some(DecodeFault::InvalidType(key))
    }
}

/// `v` holds, in order, the [`Alert`] items that the array `j` describes.
pub open spec fn alert_list_match(j: Json, v: Seq<Alert>) -> bool {
    &&& v.len() == items(j).len()
    &&& forall|i: int| 0 <= i < v.len() ==> alert_matches(#[trigger] items(j)[i], v[i])
}

/// Decodes a list of [`Alert`] held by the field `key`, keeping its order.
pub fn decode_alert_list(j: &Json, key: &str) -> (r: Result<Vec<Alert>, DecodeError>)
    ensures
        match r {
            Ok(v) => alert_list_fault(*j, key@) is None && alert_list_match(*j, v@),
            Err(e) => alert_list_fault(*j, key@) == Some(e@),
        },
{
    let ghost f = |x: Json| alert_fault(x);
    match j {
        Json::Array(a) => {
            let mut out: Vec<Alert> = Vec::new();
            let mut i: usize = 0;
            while i < a.len()
                invariant
                    *j == Json::Array(*a),
                    f == (|x: Json| alert_fault(x)),
                    i <= a@.len(),
                    first_fault(a@.take(i as int), f) is None,
                    out@.len() == i,
                    forall|k: int| 0 <= k < i ==> alert_matches(#[trigger] a@[k], out@[k]),
                decreases a@.len() - i,
            {
                proof {
                    lemma_first_fault_step(a@, i as int, f);
                }
                match decode_alert(&a[i]) {
                    Ok(s) => out.push(s),
                    Err(e) => {
                        proof {
                            lemma_first_fault_prefix(a@, i + 1, f);
                        }
                        return Err(e);
                    },
                }
                i = i + 1;
            }
            proof {
                assert(a@.take(a@.len() as int) =~= a@);
            }
            Ok(out)
        },
        _ => Err(DecodeError::InvalidType(key.to_string())),
    }
}

/// An alerting rule.
#[derive(Debug, Clone)]
pub struct AlertingRule {
    pub alerts: Vec<Alert>,
    pub annotations: Labels,
    pub duration: FloatValue,
    pub health: RuleHealth,
    pub labels: Labels,
    pub name: String,
    pub query: String,
    pub evaluation_time: FloatValue,
    pub last_evaluation: Timestamp,
    pub keep_firing_for: FloatValue,
}

/// The first fault of the document, field by field in order; `None` where
/// it decodes.
pub open spec fn alerting_rule_fault(j: Json) -> Option<DecodeFault> {
    let f = object_fault(j, "rules"@);
    let f = either(f, required(j, "alerts"@, alert_list_fault(at(j, "alerts"@), "alerts"@)));
    let f = either(f, labels_member_fault(j, "annotations"@));
    let f = either(f, float_member_fault(j, "duration"@));
    let f = either(f, required(j, "health"@, rule_health_fault(at(j, "health"@), "health"@)));
    let f = either(f, labels_member_fault(j, "labels"@));
    let f = either(f, str_member_fault(j, "name"@));
    let f = either(f, str_member_fault(j, "query"@));
    let f = either(f, float_member_fault(j, "evaluationTime"@));
    let f = either(f, timestamp_member_fault(j, "lastEvaluation"@));
    let f = either(f, float_member_fault(j, "keepFiringFor"@));
    f
}

/// `x` is the [`AlertingRule`] that `j` describes.
pub open spec fn alerting_rule_matches(j: Json, x: AlertingRule) -> bool {
    &&& rfc3339_value(str_view(at(j, "lastEvaluation"@))) == Some(x.last_evaluation)
    &&& alert_list_match(at(j, "alerts"@), x.alerts@)
    &&& x.annotations@ == labels_member_view(j, "annotations"@)
    &&& x.duration@ == number_view(at(j, "duration"@))
    &&& rule_health_named(x.health, str_view(at(j, "health"@)))
    &&& x.labels@ == labels_member_view(j, "labels"@)
    &&& x.name@ == str_view(at(j, "name"@))
    &&& x.query@ == str_view(at(j, "query"@))
    &&& x.evaluation_time@ == number_view(at(j, "evaluationTime"@))
    &&& x.keep_firing_for@ == number_view(at(j, "keepFiringFor"@))
}

/// Decodes a [`AlertingRule`].
pub fn decode_alerting_rule(j: &Json) -> (r: Result<AlertingRule, DecodeError>)
    ensures
        match r {
            Ok(x) => alerting_rule_fault(*j) is None && alerting_rule_matches(*j, x),
            Err(e) => alerting_rule_fault(*j) == Some(e@),
        },
{
    match j {
        Json::Object(m) => {
            let alerts = decode_alert_list(required_member(m, "alerts")?, "alerts")?;
            let annotations = labels_member(m, "annotations")?;
            let duration = float_member(m, "duration")?;
            let health = decode_rule_health(required_member(m, "health")?, "health")?;
            let labels = labels_member(m, "labels")?;
            let name = str_member(m, "name")?;
            let query = str_member(m, "query")?;
            let evaluation_time = float_member(m, "evaluationTime")?;
            let last_evaluation = timestamp_member(m, "lastEvaluation")?;
            let keep_firing_for = float_member(m, "keepFiringFor")?;
            Ok(AlertingRule {
                alerts,
                annotations,
                duration,
                health,
                labels,
                name,
                query,
                evaluation_time,
                last_evaluation,
                keep_firing_for,
            })
        },
        _ => Err(DecodeError::InvalidType("rules".to_string())),
    }
}

impl AlertingRule {
    /// The active alerts of this rule.
    pub fn alerts(&self) -> (r: &[Alert])
        ensures
            r@ == self.alerts@,
    {
        self.alerts.as_slice()
    }

    /// The annotations of this rule.
    pub fn annotations(&self) -> (r: &Labels)
        ensures
            *r == self.annotations,
    {
        &self.annotations
    }

    /// How long, in seconds, the condition must hold before the rule fires.
    pub fn duration(&self) -> (r: &FloatValue)
        ensures
            *r == self.duration,
    {
        &self.duration
    }

    /// The health of this rule.
    pub fn health(&self) -> (r: RuleHealth)
        ensures
            r == self.health,
    {
        self.health
    }

    /// The labels of this rule.
    pub fn labels(&self) -> (r: &Labels)
        ensures
            *r == self.labels,
    {
        &self.labels
    }

    /// The name of this rule.
    pub fn name(&self) -> (r: &str)
        ensures
            r@ == self.name@,
    {
        self.name.as_str()
    }

    /// The expression this rule evaluates.
    pub fn query(&self) -> (r: &str)
        ensures
            r@ == self.query@,
    {
        self.query.as_str()
    }

    /// How long, in seconds, the last evaluation took.
    pub fn evaluation_time(&self) -> (r: &FloatValue)
        ensures
            *r == self.evaluation_time,
    {
        &self.evaluation_time
    }

    /// When this rule was last evaluated.
    pub fn last_evaluation(&self) -> (r: &Timestamp)
        ensures
            *r == self.last_evaluation,
    {
        &self.last_evaluation
    }

    /// How long, in seconds, an alert keeps firing after its condition cleared.
    pub fn keep_firing_for(&self) -> (r: &FloatValue)
        ensures
            *r == self.keep_firing_for,
    {
        &self.keep_firing_for
    }
}

/// A recording rule.
#[derive(Debug, Clone)]
pub struct RecordingRule {
    pub health: RuleHealth,
    pub name: String,
    pub query: String,
    pub labels: Option<Labels>,
    pub evaluation_time: FloatValue,
    pub last_evaluation: Timestamp,
}

/// The first fault of the document, field by field in order; `None` where
/// it decodes.
pub open spec fn recording_rule_fault(j: Json) -> Option<DecodeFault> {
    let f = object_fault(j, "rules"@);
    let f = either(f, required(j, "health"@, rule_health_fault(at(j, "health"@), "health"@)));
    let f = either(f, str_member_fault(j, "name"@));
    let f = either(f, str_member_fault(j, "query"@));
    let f = either(f, if present(field_of(j, "labels"@)) {
            labels_fault(at(j, "labels"@), "labels"@)
        } else {
            None
        });
    let f = either(f, float_member_fault(j, "evaluationTime"@));
    let f = either(f, timestamp_member_fault(j, "lastEvaluation"@));
    f
}

/// `x` is the [`RecordingRule`] that `j` describes.
pub open spec fn recording_rule_matches(j: Json, x: RecordingRule) -> bool {
    &&& rfc3339_value(str_view(at(j, "lastEvaluation"@))) == Some(x.last_evaluation)
    &&& rule_health_named(x.health, str_view(at(j, "health"@)))
    &&& x.name@ == str_view(at(j, "name"@))
    &&& x.query@ == str_view(at(j, "query"@))
    &&& if present(field_of(j, "labels"@)) {
        (x.labels matches Some(l) && l@ == labels_member_view(j, "labels"@))
    } else {
        x.labels is None
    }
    &&& x.evaluation_time@ == number_view(at(j, "evaluationTime"@))
}

/// Decodes a [`RecordingRule`].
pub fn decode_recording_rule(j: &Json) -> (r: Result<RecordingRule, DecodeError>)
    ensures
        match r {
            Ok(x) => recording_rule_fault(*j) is None && recording_rule_matches(*j, x),
            Err(e) => recording_rule_fault(*j) == Some(e@),
        },
{
    match j {
        Json::Object(m) => {
            let health = decode_rule_health(required_member(m, "health")?, "health")?;
            let name = str_member(m, "name")?;
            let query = str_member(m, "query")?;
            let labels = match member_of(m, "labels") {
                None => None,
                Some(Json::Null) => None,
                Some(x) => Some(decode_labels(x, "labels")?),
            };
            let evaluation_time = float_member(m, "evaluationTime")?;
            let last_evaluation = timestamp_member(m, "lastEvaluation")?;
            Ok(RecordingRule { health, name, query, labels, evaluation_time, last_evaluation })
        },
        _ => Err(DecodeError::InvalidType("rules".to_string())),
    }
}

impl RecordingRule {
    /// The health of this rule.
    pub fn health(&self) -> (r: RuleHealth)
        ensures
            r == self.health,
    {
        self.health
    }

    /// The name of this rule.
    pub fn name(&self) -> (r: &str)
        ensures
            r@ == self.name@,
    {
        self.name.as_str()
    }

    /// The expression this rule evaluates.
    pub fn query(&self) -> (r: &str)
        ensures
            r@ == self.query@,
    {
        self.query.as_str()
    }

    /// The labels of this rule, where it has any.
    pub fn labels(&self) -> (r: &Option<Labels>)
        ensures
            *r == self.labels,
    {
        &self.labels
    }

    /// How long, in seconds, the last evaluation took.
    pub fn evaluation_time(&self) -> (r: &FloatValue)
        ensures
            *r == self.evaluation_time,
    {
        &self.evaluation_time
    }

    /// When this rule was last evaluated.
    pub fn last_evaluation(&self) -> (r: &Timestamp)
        ensures
            *r == self.last_evaluation,
    {
        &self.last_evaluation
    }
}

/// A rule, by its `type`.
#[derive(Debug, Clone)]
pub enum Rule {
    Recording(RecordingRule),
    Alerting(AlertingRule),
}

/// The value of `type`.
pub open spec fn rule_type(j: Json) -> Seq<char> {
    str_view(at(j, "type"@))
}

/// The first fault of the document, field by field in order; `None` where
/// it decodes.
pub open spec fn rule_fault(j: Json) -> Option<DecodeFault> {
    let head = either(object_fault(j, "rules"@), str_member_fault(j, "type"@));
    if head is Some {
        head
    } else if rule_type(j) == "recording"@ {
        recording_rule_fault(j)
    } else if rule_type(j) == "alerting"@ {
        alerting_rule_fault(j)
    } else {
        Some(DecodeFault::InvalidValue("type"@, rule_type(j)))
    }
}

/// `x` is the [`Rule`] that `j` describes.
pub open spec fn rule_matches(j: Json, x: Rule) -> bool {
    match x {
        Rule::Recording(r) => rule_type(j) == "recording"@ && recording_rule_matches(j, r),
        Rule::Alerting(a) => rule_type(j) == "alerting"@ && alerting_rule_matches(j, a),
    }
}

/// Decodes a rule by its `type`: `recording` or `alerting`.
pub fn decode_rule(j: &Json) -> (r: Result<Rule, DecodeError>)
    ensures
        match r {
            Ok(x) => rule_fault(*j) is None && rule_matches(*j, x),
            Err(e) => rule_fault(*j) == Some(e@),
        },
{
    match j {
        Json::Object(m) => {
            let t = str_member(m, "type")?;
            if text_eq(t.as_str(), "recording") {
                Ok(Rule::Recording(decode_recording_rule(j)?))
            } else if text_eq(t.as_str(), "alerting") {
                Ok(Rule::Alerting(decode_alerting_rule(j)?))
            } else {
                Err(DecodeError::InvalidValue("type".to_string(), t))
            }
        },
        _ => Err(DecodeError::InvalidType("rules".to_string())),
    }
}

impl Rule {
    /// The recording rule, where this is one.
    pub fn as_recording(&self) -> (r: Option<&RecordingRule>)
        ensures
            match self {
                Rule::Recording(x) => r == Some(x),
                _ => r is None,
            },
    {
        match self {
            Rule::Recording(x) => Some(x),
            _ => None,
        }
    }

    /// The alerting rule, where this is one.
    pub fn as_alerting(&self) -> (r: Option<&AlertingRule>)
        ensures
            match self {
                Rule::Alerting(x) => r == Some(x),
                _ => r is None,
            },
    {
        match self {
            Rule::Alerting(x) => Some(x),
            _ => None,
        }
    }
}

/// The fault of an array held by the field `key`: the fault of its first
/// item that has one.
pub open spec fn rule_list_fault(j: Json, key: Seq<char>) -> Option<DecodeFault> {
    if j is Array {
        first_fault(items(j), |x: Json| rule_fault(x))
    } else {
        Some(DecodeFault::InvalidType(key))
    }
}

/// `v` holds, in order, the [`Rule`] items that the array `j` describes.
pub open spec fn rule_list_match(j: Json, v: Seq<Rule>) -> bool {
    &&& v.len() == items(j).len()
    &&& forall|i: int| 0 <= i < v.len() ==> rule_matches(#[trigger] items(j)[i], v[i])
}

/// Decodes a list of [`Rule`] held by the field `key`, keeping its order.
pub fn decode_rule_list(j: &Json, key: &str) -> (r: Result<Vec<Rule>, DecodeError>)
    ensures
        match r {
            Ok(v) => rule_list_fault(*j, key@) is None && rule_list_match(*j, v@),
            Err(e) => rule_list_fault(*j, key@) == Some(e@),
        },
{
    let ghost f = |x: Json| rule_fault(x);
    match j {
        Json::Array(a) => {
            let mut out: Vec<Rule> = Vec::new();
            let mut i: usize = 0;
            while i < a.len()
                invariant
                    *j == Json::Array(*a),
                    f == (|x: Json| rule_fault(x)),
                    i <= a@.len(),
                    first_fault(a@.take(i as int), f) is None,
                    out@.len() == i,
                    forall|k: int| 0 <= k < i ==> rule_matches(#[trigger] a@[k], out@[k]),
                decreases a@.len() - i,
            {
                proof {
                    lemma_first_fault_step(a@, i as int, f);
                }
                match decode_rule(&a[i]) {
                    Ok(s) => out.push(s),
                    Err(e) => {
                        proof {
                            lemma_first_fault_prefix(a@, i + 1, f);
                        }
                        return Err(e);
                    },
                }
                i = i + 1;
            }
            proof {
                assert(a@.take(a@.len() as int) =~= a@);
            }
            Ok(out)
        },
        _ => Err(DecodeError::InvalidType(key.to_string())),
    }
}

/// A group of rules.
#[derive(Debug, Clone)]
pub struct RuleGroup {
    pub rules: Vec<Rule>,
    pub file: String,
    pub interval: FloatValue,
    pub name: String,
    pub evaluation_time: FloatValue,
    pub last_evaluation: Timestamp,
    pub limit: usize,
}

/// The first fault of the document, field by field in order; `None` where
/// it decodes.
pub open spec fn rule_group_fault(j: Json) -> Option<DecodeFault> {
    let f = object_fault(j, "groups"@);
    let f = either(f, required(j, "rules"@, rule_list_fault(at(j, "rules"@), "rules"@)));
    let f = either(f, str_member_fault(j, "file"@));
    let f = either(f, float_member_fault(j, "interval"@));
    let f = either(f, str_member_fault(j, "name"@));
    let f = either(f, float_member_fault(j, "evaluationTime"@));
    let f = either(f, timestamp_member_fault(j, "lastEvaluation"@));
    let f = either(f, usize_member_fault(j, "limit"@));
    f
}

/// `x` is the [`RuleGroup`] that `j` describes.
pub open spec fn rule_group_matches(j: Json, x: RuleGroup) -> bool {
    &&& rfc3339_value(str_view(at(j, "lastEvaluation"@))) == Some(x.last_evaluation)
    &&& rule_list_match(at(j, "rules"@), x.rules@)
    &&& x.file@ == str_view(at(j, "file"@))
    &&& x.interval@ == number_view(at(j, "interval"@))
    &&& x.name@ == str_view(at(j, "name"@))
    &&& x.evaluation_time@ == number_view(at(j, "evaluationTime"@))
    &&& x.limit == uint_view(at(j, "limit"@))
}

/// Decodes a [`RuleGroup`].
pub fn decode_rule_group(j: &Json) -> (r: Result<RuleGroup, DecodeError>)
    ensures
        match r {
            Ok(x) => rule_group_fault(*j) is None && rule_group_matches(*j, x),
            Err(e) => rule_group_fault(*j) == Some(e@),
        },
{
    match j {
        Json::Object(m) => {
            let rules = decode_rule_list(required_member(m, "rules")?, "rules")?;
            let file = str_member(m, "file")?;
            let interval = float_member(m, "interval")?;
            let name = str_member(m, "name")?;
            let evaluation_time = float_member(m, "evaluationTime")?;
            let last_evaluation = timestamp_member(m, "lastEvaluation")?;
            let limit = usize_member(m, "limit")?;
            Ok(RuleGroup { rules, file, interval, name, evaluation_time, last_evaluation, limit })
        },
        _ => Err(DecodeError::InvalidType("groups".to_string())),
    }
}

impl RuleGroup {
    /// The rules of this group.
    pub fn rules(&self) -> (r: &[Rule])
        ensures
            r@ == self.rules@,
    {
        self.rules.as_slice()
    }

    /// The file this group is defined in.
    pub fn file(&self) -> (r: &str)
        ensures
            r@ == self.file@,
    {
        self.file.as_str()
    }

    /// How often, in seconds, the rules are evaluated.
    pub fn interval(&self) -> (r: &FloatValue)
        ensures
            *r == self.interval,
    {
        &self.interval
    }

    /// The name of this group.
    pub fn name(&self) -> (r: &str)
        ensures
            r@ == self.name@,
    {
        self.name.as_str()
    }

    /// How long, in seconds, the last evaluation of the group took.
    pub fn evaluation_time(&self) -> (r: &FloatValue)
        ensures
            *r == self.evaluation_time,
    {
        &self.evaluation_time
    }

    /// When the group was last evaluated.
    pub fn last_evaluation(&self) -> (r: &Timestamp)
        ensures
            *r == self.last_evaluation,
    {
        &self.last_evaluation
    }

    /// How many alerts or series a rule of this group may produce; zero is no limit.
    pub fn limit(&self) -> (r: usize)
        ensures
            r == self.limit,
    {
        self.limit
    }
}

/// The fault of an array held by the field `key`: the fault of its first
/// item that has one.
pub open spec fn rule_group_list_fault(j: Json, key: Seq<char>) -> Option<DecodeFault> {
    if j is Array {
        first_fault(items(j), |x: Json| rule_group_fault(x))
    } else {
        Some(DecodeFault::InvalidType(key))
    }
}

/// `v` holds, in order, the [`RuleGroup`] items that the array `j` describes.
pub open spec fn rule_group_list_match(j: Json, v: Seq<RuleGroup>) -> bool {
    &&& v.len() == items(j).len()
    &&& forall|i: int| 0 <= i < v.len() ==> rule_group_matches(#[trigger] items(j)[i], v[i])
}

/// Decodes a list of [`RuleGroup`] held by the field `key`, keeping its order.
pub fn decode_rule_group_list(j: &Json, key: &str) -> (r: Result<Vec<RuleGroup>, DecodeError>)
    ensures
        match r {
            Ok(v) => rule_group_list_fault(*j, key@) is None && rule_group_list_match(*j, v@),
            Err(e) => rule_group_list_fault(*j, key@) == Some(e@),
        },
{
    let ghost f = |x: Json| rule_group_fault(x);
    match j {
        Json::Array(a) => {
            let mut out: Vec<RuleGroup> = Vec::new();
            let mut i: usize = 0;
            while i < a.len()
                invariant
                    *j == Json::Array(*a),
                    f == (|x: Json| rule_group_fault(x)),
                    i <= a@.len(),
                    first_fault(a@.take(i as int), f) is None,
                    out@.len() == i,
                    forall|k: int| 0 <= k < i ==> rule_group_matches(#[trigger] a@[k], out@[k]),
                decreases a@.len() - i,
            {
                proof {
                    lemma_first_fault_step(a@, i as int, f);
                }
                match decode_rule_group(&a[i]) {
                    Ok(s) => out.push(s),
                    Err(e) => {
                        proof {
                            lemma_first_fault_prefix(a@, i + 1, f);
                        }
                        return Err(e);
                    },
                }
                i = i + 1;
            }
            proof {
                assert(a@.take(a@.len() as int) =~= a@);
            }
            Ok(out)
        },
        _ => Err(DecodeError::InvalidType(key.to_string())),
    }
}

/// The first fault of the document, field by field in order; `None` where
/// it decodes.
pub open spec fn rule_groups_fault(j: Json) -> Option<DecodeFault> {
    either(object_fault(j, "data"@), required(j, "groups"@, rule_group_list_fault(at(j, "groups"@), "groups"@)))
}

/// Decodes the payload of the rules endpoint: `{groups}`.
pub fn decode_rule_groups(j: &Json) -> (r: Result<Vec<RuleGroup>, DecodeError>)
    ensures
        match r {
            Ok(v) => rule_groups_fault(*j) is None && rule_group_list_match(at(*j, "groups"@), v@),
            Err(e) => rule_groups_fault(*j) == Some(e@),
        },
{
    match j {
        Json::Object(m) => decode_rule_group_list(required_member(m, "groups")?, "groups"),
        _ => Err(DecodeError::InvalidType("data".to_string())),
    }
}

/// The first fault of the document, field by field in order; `None` where
/// it decodes.
pub open spec fn alerts_fault(j: Json) -> Option<DecodeFault> {
    either(object_fault(j, "data"@), required(j, "alerts"@, alert_list_fault(at(j, "alerts"@), "alerts"@)))
}

/// Decodes the payload of the alerts endpoint: `{alerts}`.
pub fn decode_alerts(j: &Json) -> (r: Result<Vec<Alert>, DecodeError>)
    ensures
        match r {
            Ok(v) => alerts_fault(*j) is None && alert_list_match(at(*j, "alerts"@), v@),
            Err(e) => alerts_fault(*j) == Some(e@),
        },
{
    match j {
        Json::Object(m) => decode_alert_list(required_member(m, "alerts")?, "alerts"),
        _ => Err(DecodeError::InvalidType("data".to_string())),
    }
}

} // verus!
