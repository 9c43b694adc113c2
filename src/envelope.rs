//! The envelope around every response: `status` is `success` with the
//! payload under `data`, or `error` with `errorType` and `error`.
use vstd::prelude::*;
use crate::error::{error_type_named, Error, PrometheusError, PrometheusErrorType};
use crate::json::{
    at, either, field_of, json_of, object_fault, parse_json, required, required_member, str_member,
    str_member_fault, str_view, DecodeError, DecodeFault, Json,
};
use crate::query::{decode_promql_result, promql_result_fault, promql_result_matches, PromqlResult};
use crate::text::text_eq;

verus! {

/// The value of `status`.
pub open spec fn status_of(j: Json) -> Seq<char> {
    str_view(at(j, "status"@))
}

/// The fault of an envelope: no object, no string `status`, a success
/// without `data`, or an error without string `errorType` and `error`.
pub open spec fn envelope_fault(j: Json) -> Option<DecodeFault> {
    let head = either(object_fault(j, "status"@), str_member_fault(j, "status"@));
    if head is Some {
        head
    } else if status_of(j) == "success"@ {
        required(j, "data"@, None)
    } else if status_of(j) == "error"@ {
        either(str_member_fault(j, "errorType"@), str_member_fault(j, "error"@))
    } else {
        None
    }
}

/// `p` is the error that an error envelope `j` reports.
pub open spec fn reported_error(j: Json, p: PrometheusError) -> bool {
    &&& error_type_named(p.error_type, str_view(at(j, "errorType"@)))
    &&& p.message@ == str_view(at(j, "error"@))
}

/// Opens the envelope: the payload of a success, the server's error for an
/// error, and an unknown-status error for any other status.
pub fn decode_envelope(j: &Json) -> (r: Result<&Json, Error>)
    ensures
        match r {
            Ok(d) => envelope_fault(*j) is None && status_of(*j) == "success"@ && at(*j, "data"@)
                == *d,
            Err(Error::Prometheus(p)) => envelope_fault(*j) is None && status_of(*j) == "error"@
                && reported_error(*j, p),
            Err(Error::UnknownResponseStatus(s)) => envelope_fault(*j) is None && status_of(*j)
                != "success"@ && status_of(*j) != "error"@ && s@ == status_of(*j),
            Err(Error::Decode(e)) => envelope_fault(*j) == Some(e@),
            Err(_) => false,
        },
{
    match j {
        Json::Object(m) => {
            let status = match str_member(m, "status") {
                Ok(s) => s,
                Err(e) => return Err(Error::Decode(e)),
            };
            if text_eq(status.as_str(), "success") {
                match required_member(m, "data") {
                    Ok(d) => Ok(d),
                    Err(e) => Err(Error::Decode(e)),
                }
            } else if text_eq(status.as_str(), "error") {
                let kind = match str_member(m, "errorType") {
                    Ok(s) => s,
                    Err(e) => return Err(Error::Decode(e)),
                };
                let message = match str_member(m, "error") {
                    Ok(s) => s,
                    Err(e) => return Err(Error::Decode(e)),
                };
                Err(
                    Error::Prometheus(
                        PrometheusError {
                            error_type: PrometheusErrorType::from_token(kind.as_str()),
                            message,
                        },
                    ),
                )
            } else {
                Err(Error::UnknownResponseStatus(status))
            }
        },
        _ => Err(Error::Decode(DecodeError::InvalidType("status".to_string()))),
    }
}

/// `r` is the outcome of decoding the response document `j` of an expression
/// query: the result that its payload describes, the server's error, an
/// unknown-status error, or the first fault of the envelope or of the payload.
pub open spec fn query_response_outcome(j: Json, r: Result<PromqlResult, Error>) -> bool {
    match r {
        Ok(v) => envelope_fault(j) is None && status_of(j) == "success"@ && promql_result_fault(
            at(j, "data"@),
        ) is None && promql_result_matches(at(j, "data"@), v),
        Err(Error::Prometheus(p)) => envelope_fault(j) is None && status_of(j) == "error"@
            && reported_error(j, p),
        Err(Error::UnknownResponseStatus(s)) => envelope_fault(j) is None && status_of(j)
            != "success"@ && status_of(j) != "error"@ && s@ == status_of(j),
        Err(Error::Decode(e)) => envelope_fault(j) == Some(e@) || (envelope_fault(j) is None
            && status_of(j) == "success"@ && promql_result_fault(at(j, "data"@)) == Some(e@)),
        Err(_) => false,
    }
}

/// Decodes the response to an expression query: the envelope, then the
/// result it carries.
pub fn decode_query_response(j: &Json) -> (r: Result<PromqlResult, Error>)
    ensures
        query_response_outcome(*j, r),
{
    let data = decode_envelope(j)?;
    match decode_promql_result(data) {
        Ok(v) => Ok(v),
        Err(e) => Err(Error::Decode(e)),
    }
}

/// Reads the body of a response to an expression query.
pub fn parse_query_response(text: &str) -> (r: Result<PromqlResult, Error>)
    ensures
        json_of(text@) is None <==> r matches Err(Error::Json(_)),
        json_of(text@) matches Some(j) ==> query_response_outcome(j, r),
{
    match parse_json(text) {
        Ok(j) => decode_query_response(&j),
        Err(e) => Err(Error::Json(e)),
    }
}

} // verus!

verus! {

/// Success and error fields do not mix: an envelope whose `status` is
/// `success` but that has no `data` is refused for want of `data`, whatever
/// `errorType` or `error` it carries.
pub proof fn lemma_success_needs_data(j: Json)
    requires
        j is Object,
        field_of(j, "status"@) matches Some(s) && s is Str,
        status_of(j) == "success"@,
        field_of(j, "data"@) is None,
    ensures
        envelope_fault(j) == Some(DecodeFault::MissingField("data"@)),
{
}

} // verus!
