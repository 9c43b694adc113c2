//! The parameters of expression queries, checked before anything is sent:
//! a malformed `step` or `timeout` fails without a round trip.
use vstd::prelude::*;
use crate::duration::{duration_ms, duration_rejects, parse_duration};
use crate::error::Error;

verus! {

/// The scheme of the connection to the server.
#[derive(Debug, Clone, Copy, PartialEq, Eq, Structural)]
pub enum Scheme {
    Http,
    Https,
}

impl Scheme {
    /// The scheme as it stands in a URL.
    pub fn as_str(&self) -> (r: &'static str)
        ensures
            r@ == match self {
                Scheme::Http => "http"@,
                Scheme::Https => "https"@,
            },
    {
        match self {
            Scheme::Http => "http",
            Scheme::Https => "https",
        }
    }
}

/// The text is a duration that fits in 64 bits of milliseconds.
pub open spec fn valid_duration(s: Seq<char>) -> bool {
    duration_ms(s) matches Some(v) && v <= i64::MAX
}

/// Checks a duration parameter.
pub fn validate_duration(text: &str) -> (r: Result<(), Error>)
    ensures
        match r {
            Ok(()) => valid_duration(text@),
            Err(Error::InvalidDuration(e)) => duration_rejects(text@, e),
            Err(_) => false,
        },
{
    match parse_duration(text) {
        Ok(_) => Ok(()),
        Err(e) => Err(Error::InvalidDuration(e)),
    }
}

/// The parameters of an instant query.
#[derive(Debug, Clone, PartialEq, Eq)]
pub struct InstantQuery {
    pub query: String,
    pub time: Option<i64>,
    pub timeout: Option<String>,
}

/// The parameters of an instant query at `time` (seconds since the epoch;
/// the server's present where absent), the timeout checked.
pub fn instant_query(query: String, time: Option<i64>, timeout: Option<&str>) -> (r: Result<InstantQuery, Error>)
    ensures
        match r {
            Ok(q) => {
                &&& q.query == query
                &&& q.time == time
                &&& match timeout {
                    Some(t) => valid_duration(t@) && (q.timeout matches Some(s) && s@ == t@),
                    None => q.timeout is None,
                }
            },
            Err(Error::InvalidDuration(e)) => timeout matches Some(t) && duration_rejects(t@, e),
            Err(_) => false,
        },
{
    let timeout = match timeout {
        Some(t) => {
            validate_duration(t)?;
            Some(t.to_string())
        },
        None => None,
    };
    Ok(InstantQuery { query, time, timeout })
}

/// The parameters of a range query.
#[derive(Debug, Clone, PartialEq, Eq)]
pub struct RangeQuery {
    pub query: String,
    pub start: i64,
    pub end: i64,
    pub step: String,
    pub timeout: Option<String>,
}

/// The parameters of a range query from `start` to `end` (seconds since the
/// epoch) at every `step`, the step and then the timeout checked.
pub fn range_query(query: String, start: i64, end: i64, step: &str, timeout: Option<&str>) -> (r: Result<RangeQuery, Error>)
    ensures
        match r {
            Ok(q) => {
                &&& q.query == query
                &&& q.start == start
                &&& q.end == end
                &&& valid_duration(step@)
                &&& q.step@ == step@
                &&& match timeout {
                    Some(t) => valid_duration(t@) && (q.timeout matches Some(s) && s@ == t@),
                    None => q.timeout is None,
                }
            },
            Err(Error::InvalidDuration(e)) => duration_rejects(step@, e) || (valid_duration(step@)
                && (timeout matches Some(t) && duration_rejects(t@, e))),
            Err(_) => false,
        },
{
    validate_duration(step)?;
    let timeout = match timeout {
        Some(t) => {
            validate_duration(t)?;
            Some(t.to_string())
        },
        None => None,
    };
    Ok(RangeQuery { query, start, end, step: step.to_string(), timeout })
}

} // verus!
