//! Scrape targets: the active ones with their scrape state, and the ones
//! that relabelling dropped.
use vstd::prelude::*;
use crate::duration::{duration_ms, Duration};
use crate::fields::{
    duration_member, duration_member_fault, labels_member, labels_member_fault, labels_member_view,
    timestamp_member, timestamp_member_fault, token_fault, url_member, url_member_fault,
    url_serialization, Url,
};
use crate::float::FloatValue;
use crate::json::{
    at, either, first_fault, float_member, float_member_fault, items, lemma_first_fault_prefix,
    lemma_first_fault_step, number_view, object_fault, required, required_member, str_member,
    str_member_fault, str_view, DecodeError, DecodeFault, Json,
};
use crate::labels::Labels;
use crate::text::text_eq;

use crate::timestamp::{rfc3339_value, Timestamp};

verus! {

/// The health of a scrape target.
#[derive(Debug, Clone, Copy, PartialEq, Eq, Structural)]
pub enum TargetHealth {
    Up,
    Down,
    Unknown,
}

/// The tokens that name a [`TargetHealth`].
pub open spec fn is_target_health(s: Seq<char>) -> bool {
    s == "up"@ || s == "down"@ || s == "unknown"@
}

/// `v` is the value that the token `s` names.
pub open spec fn target_health_named(v: TargetHealth, s: Seq<char>) -> bool {
    match v {
        TargetHealth::Up => s == "up"@,
        TargetHealth::Down => s == "down"@,
        TargetHealth::Unknown => s == "unknown"@,
    }
}

/// The fault of the value held by the field `key`; `None` where it decodes.
pub open spec fn target_health_fault(j: Json, key: Seq<char>) -> Option<DecodeFault> {
    token_fault(j, key, is_target_health(str_view(j)))
}

/// Decodes a [`TargetHealth`] token held by the field `key`; any other token is refused.
pub fn decode_target_health(j: &Json, key: &str) -> (r: Result<TargetHealth, DecodeError>)
    ensures
        match r {
            Ok(v) => target_health_fault(*j, key@) is None && target_health_named(v, str_view(*j)),
            Err(e) => target_health_fault(*j, key@) == Some(e@),
        },
{
    match j {
        Json::Str(s) => {
            if text_eq(s.as_str(), "up") {
                Ok(TargetHealth::Up)
            } else if text_eq(s.as_str(), "down") {
                Ok(TargetHealth::Down)
            } else if text_eq(s.as_str(), "unknown") {
                Ok(TargetHealth::Unknown)
            } else {
                Err(DecodeError::InvalidValue(key.to_string(), s.clone()))
            }
        },
        _ => Err(DecodeError::InvalidType(key.to_string())),
    }
}

impl TargetHealth {
    pub fn is_up(&self) -> (r: bool)
        ensures
            r == (*self == TargetHealth::Up),
    {
        match self {
            TargetHealth::Up => true,
            _ => false,
        }
    }

    pub fn is_down(&self) -> (r: bool)
        ensures
            r == (*self == TargetHealth::Down),
    {
        match self {
            TargetHealth::Down => true,
            _ => false,
        }
    }

    pub fn is_unknown(&self) -> (r: bool)
        ensures
            r == (*self == TargetHealth::Unknown),
    {
        match self {
            TargetHealth::Unknown => true,
            _ => false,
        }
    }
}

/// A target that the server scrapes.
#[derive(Debug, Clone)]
pub struct ActiveTarget {
    pub discovered_labels: Labels,
    pub labels: Labels,
    pub scrape_pool: String,
    pub scrape_url: Url,
    pub global_url: Url,
    pub last_error: String,
    pub last_scrape: Timestamp,
    pub last_scrape_duration: FloatValue,
    pub health: TargetHealth,
    pub scrape_interval: Duration,
    pub scrape_timeout: Duration,
}

/// The first fault of the document, field by field in order; `None` where
/// it decodes.
pub open spec fn active_target_fault(j: Json) -> Option<DecodeFault> {
    let f = object_fault(j, "activeTargets"@);
    let f = either(f, labels_member_fault(j, "discoveredLabels"@));
    let f = either(f, labels_member_fault(j, "labels"@));
    let f = either(f, str_member_fault(j, "scrapePool"@));
    let f = either(f, url_member_fault(j, "scrapeUrl"@));
    let f = either(f, url_member_fault(j, "globalUrl"@));
    let f = either(f, str_member_fault(j, "lastError"@));
    let f = either(f, timestamp_member_fault(j, "lastScrape"@));
    let f = either(f, float_member_fault(j, "lastScrapeDuration"@));
    let f = either(f, required(j, "health"@, target_health_fault(at(j, "health"@), "health"@)));
    let f = either(f, duration_member_fault(j, "scrapeInterval"@));
    let f = either(f, duration_member_fault(j, "scrapeTimeout"@));
    f
}

/// `x` is the [`ActiveTarget`] that `j` describes.
pub open spec fn active_target_matches(j: Json, x: ActiveTarget) -> bool {
    &&& rfc3339_value(str_view(at(j, "lastScrape"@))) == Some(x.last_scrape)
    &&& url_serialization(str_view(at(j, "globalUrl"@))) == Some(x.global_url@)
    &&& url_serialization(str_view(at(j, "scrapeUrl"@))) == Some(x.scrape_url@)
    &&& x.discovered_labels@ == labels_member_view(j, "discoveredLabels"@)
    &&& x.labels@ == labels_member_view(j, "labels"@)
    &&& x.scrape_pool@ == str_view(at(j, "scrapePool"@))
    &&& x.last_error@ == str_view(at(j, "lastError"@))
    &&& x.last_scrape_duration@ == number_view(at(j, "lastScrapeDuration"@))
    &&& target_health_named(x.health, str_view(at(j, "health"@)))
    &&& duration_ms(str_view(at(j, "scrapeInterval"@))) == Some(x.scrape_interval@)
    &&& duration_ms(str_view(at(j, "scrapeTimeout"@))) == Some(x.scrape_timeout@)
}

/// Decodes a [`ActiveTarget`].
pub fn decode_active_target(j: &Json) -> (r: Result<ActiveTarget, DecodeError>)
    ensures
        match r {
            Ok(x) => active_target_fault(*j) is None && active_target_matches(*j, x),
            Err(e) => active_target_fault(*j) == Some(e@),
        },
{
    match j {
        Json::Object(m) => {
            let discovered_labels = labels_member(m, "discoveredLabels")?;
            let labels = labels_member(m, "labels")?;
            let scrape_pool = str_member(m, "scrapePool")?;
            let scrape_url = url_member(m, "scrapeUrl")?;
            let global_url = url_member(m, "globalUrl")?;
            let last_error = str_member(m, "lastError")?;
            let last_scrape = timestamp_member(m, "lastScrape")?;
            let last_scrape_duration = float_member(m, "lastScrapeDuration")?;
            let health = decode_target_health(required_member(m, "health")?, "health")?;
            let scrape_interval = duration_member(m, "scrapeInterval")?;
            let scrape_timeout = duration_member(m, "scrapeTimeout")?;
            Ok(ActiveTarget {
                discovered_labels,
                labels,
                scrape_pool,
                scrape_url,
                global_url,
                last_error,
                last_scrape,
                last_scrape_duration,
                health,
                scrape_interval,
                scrape_timeout,
            })
        },
        _ => Err(DecodeError::InvalidType("activeTargets".to_string())),
    }
}

impl ActiveTarget {
    /// The labels as discovered, before relabelling.
    pub fn discovered_labels(&self) -> (r: &Labels)
        ensures
            *r == self.discovered_labels,
    {
        &self.discovered_labels
    }

    /// The labels after relabelling.
    pub fn labels(&self) -> (r: &Labels)
        ensures
            *r == self.labels,
    {
        &self.labels
    }

    /// The scrape pool of this target.
    pub fn scrape_pool(&self) -> (r: &str)
        ensures
            r@ == self.scrape_pool@,
    {
        self.scrape_pool.as_str()
    }

    /// The URL that this target is scraped at.
    pub fn scrape_url(&self) -> (r: &Url)
        ensures
            *r == self.scrape_url,
    {
        &self.scrape_url
    }

    /// The URL of this target as seen from outside.
    pub fn global_url(&self) -> (r: &Url)
        ensures
            *r == self.global_url,
    {
        &self.global_url
    }

    /// The error of the last scrape; empty where it succeeded.
    pub fn last_error(&self) -> (r: &str)
        ensures
            r@ == self.last_error@,
    {
        self.last_error.as_str()
    }

    /// When this target was last scraped.
    pub fn last_scrape(&self) -> (r: &Timestamp)
        ensures
            *r == self.last_scrape,
    {
        &self.last_scrape
    }

    /// How long the last scrape took, in seconds.
    pub fn last_scrape_duration(&self) -> (r: &FloatValue)
        ensures
            *r == self.last_scrape_duration,
    {
        &self.last_scrape_duration
    }

    /// The health of this target.
    pub fn health(&self) -> (r: TargetHealth)
        ensures
            r == self.health,
    {
        self.health
    }

    /// How often this target is scraped.
    pub fn scrape_interval(&self) -> (r: &Duration)
        ensures
            *r == self.scrape_interval,
    {
        &self.scrape_interval
    }

    /// How long a scrape of this target may take.
    pub fn scrape_timeout(&self) -> (r: &Duration)
        ensures
            *r == self.scrape_timeout,
    {
        &self.scrape_timeout
    }
}

/// The fault of an array held by the field `key`: the fault of its first
/// item that has one.
pub open spec fn active_target_list_fault(j: Json, key: Seq<char>) -> Option<DecodeFault> {
    if j is Array {
        first_fault(items(j), |x: Json| active_target_fault(x))
    } else {
        Some(DecodeFault::InvalidType(key))
    }
}

/// `v` holds, in order, the [`ActiveTarget`] items that the array `j` describes.
pub open spec fn active_target_list_match(j: Json, v: Seq<ActiveTarget>) -> bool {
    &&& v.len() == items(j).len()
    &&& forall|i: int| 0 <= i < v.len() ==> active_target_matches(#[trigger] items(j)[i], v[i])
}

/// Decodes a list of [`ActiveTarget`] held by the field `key`, keeping its order.
pub fn decode_active_target_list(j: &Json, key: &str) -> (r: Result<Vec<ActiveTarget>, DecodeError>)
    ensures
        match r {
            Ok(v) => active_target_list_fault(*j, key@) is None && active_target_list_match(*j, v@),
            Err(e) => active_target_list_fault(*j, key@) == Some(e@),
        },
{
    let ghost f = |x: Json| active_target_fault(x);
    match j {
        Json::Array(a) => {
            let mut out: Vec<ActiveTarget> = Vec::new();
            let mut i: usize = 0;
            while i < a.len()
                invariant
                    *j == Json::Array(*a),
                    f == (|x: Json| active_target_fault(x)),
                    i <= a@.len(),
                    first_fault(a@.take(i as int), f) is None,
                    out@.len() == i,
                    forall|k: int| 0 <= k < i ==> active_target_matches(#[trigger] a@[k], out@[k]),
                decreases a@.len() - i,
            {
                proof {
                    lemma_first_fault_step(a@, i as int, f);
                }
                match decode_active_target(&a[i]) {
                    Ok(s) => out.push(s),
                    Err(e) => {
                        proof {
                            lemma_first_fault_prefix(a@, i + 1, f);
                        }
                        return Err(e);
                    },
                }
                i = i + 1;
            }
            proof {
                assert(a@.take(a@.len() as int) =~= a@);
            }
            Ok(out)
        },
        _ => Err(DecodeError::InvalidType(key.to_string())),
    }
}

/// A target that relabelling dropped.
#[derive(Debug, Clone, PartialEq, Eq)]
pub struct DroppedTarget {
    pub discovered_labels: Labels,
}

/// The first fault of the document, field by field in order; `None` where
/// it decodes.
pub open spec fn dropped_target_fault(j: Json) -> Option<DecodeFault> {
    let f = object_fault(j, "droppedTargets"@);
    let f = either(f, labels_member_fault(j, "discoveredLabels"@));
    f
}

/// `x` is the [`DroppedTarget`] that `j` describes.
pub open spec fn dropped_target_matches(j: Json, x: DroppedTarget) -> bool {
    &&& x.discovered_labels@ == labels_member_view(j, "discoveredLabels"@)
}

/// Decodes a [`DroppedTarget`].
pub fn decode_dropped_target(j: &Json) -> (r: Result<DroppedTarget, DecodeError>)
    ensures
        match r {
            Ok(x) => dropped_target_fault(*j) is None && dropped_target_matches(*j, x),
            Err(e) => dropped_target_fault(*j) == Some(e@),
        },
{
    match j {
        Json::Object(m) => {
            let discovered_labels = labels_member(m, "discoveredLabels")?;
            Ok(DroppedTarget { discovered_labels })
        },
        _ => Err(DecodeError::InvalidType("droppedTargets".to_string())),
    }
}

impl DroppedTarget {
    /// The labels as discovered, before relabelling.
    pub fn discovered_labels(&self) -> (r: &Labels)
        ensures
            *r == self.discovered_labels,
    {
        &self.discovered_labels
    }
}

/// The fault of an array held by the field `key`: the fault of its first
/// item that has one.
pub open spec fn dropped_target_list_fault(j: Json, key: Seq<char>) -> Option<DecodeFault> {
    if j is Array {
        first_fault(items(j), |x: Json| dropped_target_fault(x))
    } else {
        Some(DecodeFault::InvalidType(key))
    }
}

/// `v` holds, in order, the [`DroppedTarget`] items that the array `j` describes.
pub open spec fn dropped_target_list_match(j: Json, v: Seq<DroppedTarget>) -> bool {
    &&& v.len() == items(j).len()
    &&& forall|i: int| 0 <= i < v.len() ==> dropped_target_matches(#[trigger] items(j)[i], v[i])
}

/// Decodes a list of [`DroppedTarget`] held by the field `key`, keeping its order.
pub fn decode_dropped_target_list(j: &Json, key: &str) -> (r: Result<Vec<DroppedTarget>, DecodeError>)
    ensures
        match r {
            Ok(v) => dropped_target_list_fault(*j, key@) is None && dropped_target_list_match(*j, v@),
            Err(e) => dropped_target_list_fault(*j, key@) == Some(e@),
        },
{
    let ghost f = |x: Json| dropped_target_fault(x);
    match j {
        Json::Array(a) => {
            let mut out: Vec<DroppedTarget> = Vec::new();
            let mut i: usize = 0;
            while i < a.len()
                invariant
                    *j == Json::Array(*a),
                    f == (|x: Json| dropped_target_fault(x)),
                    i <= a@.len(),
                    first_fault(a@.take(i as int), f) is None,
                    out@.len() == i,
                    forall|k: int| 0 <= k < i ==> dropped_target_matches(#[trigger] a@[k], out@[k]),
                decreases a@.len() - i,
            {
                proof {
                    lemma_first_fault_step(a@, i as int, f);
                }
                match decode_dropped_target(&a[i]) {
                    Ok(s) => out.push(s),
                    Err(e) => {
                        proof {
                            lemma_first_fault_prefix(a@, i + 1, f);
                        }
                        return Err(e);
                    },
                }
                i = i + 1;
            }
            proof {
                assert(a@.take(a@.len() as int) =~= a@);
            }
            Ok(out)
        },
        _ => Err(DecodeError::InvalidType(key.to_string())),
    }
}

/// The active and the dropped targets of the server.
#[derive(Debug, Clone)]
pub struct Targets {
    pub active: Vec<ActiveTarget>,
    pub dropped: Vec<DroppedTarget>,
}

/// The first fault of the document, field by field in order; `None` where
/// it decodes.
pub open spec fn targets_fault(j: Json) -> Option<DecodeFault> {
    let f = object_fault(j, "data"@);
    let f = either(f, required(j, "activeTargets"@, active_target_list_fault(at(j, "activeTargets"@), "activeTargets"@)));
    let f = either(f, required(j, "droppedTargets"@, dropped_target_list_fault(at(j, "droppedTargets"@), "droppedTargets"@)));
    f
}

/// `x` is the [`Targets`] that `j` describes.
pub open spec fn targets_matches(j: Json, x: Targets) -> bool {
    &&& active_target_list_match(at(j, "activeTargets"@), x.active@)
    &&& dropped_target_list_match(at(j, "droppedTargets"@), x.dropped@)
}

/// Decodes a [`Targets`].
pub fn decode_targets(j: &Json) -> (r: Result<Targets, DecodeError>)
    ensures
        match r {
            Ok(x) => targets_fault(*j) is None && targets_matches(*j, x),
            Err(e) => targets_fault(*j) == Some(e@),
        },
{
    match j {
        Json::Object(m) => {
            let active = decode_active_target_list(required_member(m, "activeTargets")?, "activeTargets")?;
            let dropped = decode_dropped_target_list(required_member(m, "droppedTargets")?, "droppedTargets")?;
            Ok(Targets { active, dropped })
        },
        _ => Err(DecodeError::InvalidType("data".to_string())),
    }
}

impl Targets {
    /// The targets that are scraped.
    pub fn active(&self) -> (r: &[ActiveTarget])
        ensures
            r@ == self.active@,
    {
        self.active.as_slice()
    }

    /// The targets that relabelling dropped.
    pub fn dropped(&self) -> (r: &[DroppedTarget])
        ensures
            r@ == self.dropped@,
    {
        self.dropped.as_slice()
    }
}

} // verus!
