use prometheus_http_query::{
    decode_alertmanagers, decode_build_information, decode_envelope, decode_query_response, decode_targets,
    decode_wal_replay_statistics, parse_json, parse_query_response, Data, DecodeError, Error,
    Json, JsonError, PrometheusErrorType, WalReplayState,
};

#[test]
fn scalar_success_decodes_to_sample() {
    let doc = r#"{"status":"success","data":{"resultType":"scalar","result":[0,"0.0"]}}"#;
    let result = parse_query_response(doc).unwrap();
    match result.data() {
        Data::Scalar(s) => {
            assert_eq!(s.timestamp().as_str().parse::<f64>().unwrap(), 0.0);
            assert_eq!(s.value().as_str().parse::<f64>().unwrap(), 0.0);
        }
        _ => panic!("not a scalar"),
    }
    assert!(result.stats().is_none());
}

#[test]
fn error_envelope_carries_kind_and_message() {
    let doc = r#"{"status":"error","errorType":"bad_data","error":"parse error"}"#;
    match parse_query_response(doc) {
        Err(Error::Prometheus(e)) => {
            assert_eq!(e.error_type, PrometheusErrorType::BadData);
            assert_eq!(e.message(), "parse error");
        }
        other => panic!("{:?}", other),
    }
}

#[test]
fn unknown_error_kind_is_kept() {
    let doc = r#"{"status":"error","errorType":"brand_new","error":"x"}"#;
    match parse_query_response(doc) {
        Err(Error::Prometheus(e)) => {
            assert_eq!(e.error_type, PrometheusErrorType::Other("brand_new".to_string()))
        }
        other => panic!("{:?}", other),
    }
}

#[test]
fn success_without_data_is_refused() {
    let doc = r#"{"status":"success","errorType":"bad_data","error":"parse error"}"#;
    assert_eq!(
        parse_query_response(doc).unwrap_err(),
        Error::Decode(DecodeError::MissingField("data".to_string()))
    );
}

#[test]
fn unknown_status_is_reported() {
    let doc = r#"{"status":"Success","data":{}}"#;
    assert_eq!(
        parse_query_response(doc).unwrap_err(),
        Error::UnknownResponseStatus("Success".to_string())
    );
    let doc = r#"{"data":{}}"#;
    assert_eq!(
        parse_query_response(doc).unwrap_err(),
        Error::Decode(DecodeError::MissingField("status".to_string()))
    );
}

#[test]
fn unsupported_result_type_is_named() {
    let doc = r#"{"status":"success","data":{"resultType":"string","result":[0,"a"]}}"#;
    assert_eq!(
        parse_query_response(doc).unwrap_err(),
        Error::Decode(DecodeError::UnsupportedResultType("string".to_string()))
    );
}

#[test]
fn malformed_sample_value_is_named() {
    let doc = r#"{"status":"success","data":{"resultType":"scalar","result":[0,"zero"]}}"#;
    assert_eq!(
        parse_query_response(doc).unwrap_err(),
        Error::Decode(DecodeError::InvalidValue("result".to_string(), "zero".to_string()))
    );
    let doc = r#"{"status":"success","data":{"resultType":"scalar","result":[0,1]}}"#;
    assert_eq!(
        parse_query_response(doc).unwrap_err(),
        Error::Decode(DecodeError::InvalidType("result".to_string()))
    );
}

#[test]
fn vector_result_keeps_series_and_labels() {
    let doc = r#"{"status":"success","data":{"resultType":"vector","result":[
        {"metric":{"__name__":"up","job":"a"},"value":[1.5,"1"]},
        {"metric":{"__name__":"up","job":"b"},"value":[1.5,"0"]}]}}"#;
    let result = parse_query_response(doc).unwrap();
    let v = result.data().as_vector().unwrap();
    assert_eq!(v.len(), 2);
    assert_eq!(v[1].metric().get("job"), Some("b"));
    assert_eq!(v[1].sample().value().as_str(), "0");
    assert_eq!(v[0].sample().timestamp().as_str().parse::<f64>().unwrap(), 1.5);
    assert!(!result.data().is_empty());
}

#[test]
fn matrix_keeps_sample_order() {
    let doc = r#"{"status":"success","data":{"resultType":"matrix","result":[
        {"metric":{"a":"1"},"values":[[4,"40"],[1,"10"],[3,"30"],[2,"20"]]}]}}"#;
    let json = parse_json(doc).unwrap();
    let result = decode_query_response(&json).unwrap();
    let m = result.data().as_matrix().unwrap();
    assert_eq!(m.len(), 1);
    assert_eq!(m[0].metric().len(), 1);
    let got: Vec<(&str, &str)> = m[0]
        .samples()
        .iter()
        .map(|s| (s.timestamp().as_str(), s.value().as_str()))
        .collect();
    assert_eq!(got, vec![("4", "40"), ("1", "10"), ("3", "30"), ("2", "20")]);
}

#[test]
fn empty_vector_is_empty() {
    let doc = r#"{"status":"success","data":{"resultType":"vector","result":[]}}"#;
    assert!(parse_query_response(doc).unwrap().data().is_empty());
}

#[test]
fn envelope_hands_out_data() {
    let json = parse_json(r#"{"status":"success","data":[1,2]}"#).unwrap();
    match decode_envelope(&json) {
        Ok(Json::Array(items)) => assert_eq!(items.len(), 2),
        other => panic!("{:?}", other),
    }
}

#[test]
fn reader_reports_syntax_errors() {
    assert!(matches!(parse_json("{\"a\":"), Err(JsonError::Syntax(_))));
    match parse_json(r#"{"b":[true,null,"x",-3]}"#).unwrap() {
        Json::Object(m) => {
            assert_eq!(m[0].0, "b");
            match &m[0].1 {
                Json::Array(a) => {
                    assert!(matches!(a[0], Json::Bool(true)));
                    assert!(matches!(a[1], Json::Null));
                    assert!(matches!(&a[2], Json::Str(s) if s == "x"));
                    assert!(matches!(&a[3], Json::Number(n) if n == "-3"));
                }
                _ => panic!("not an array"),
            }
        }
        _ => panic!("not an object"),
    }
}

const TARGET: &str = r#"{"activeTargets":[{"discoveredLabels":{},"labels":{},"scrapePool":"p",
  "scrapeUrl":"http://h:1/metrics","globalUrl":"http://g:1/metrics","lastError":"",
  "lastScrape":"2017-01-17T15:07:44.723715405+01:00","lastScrapeDuration":0.5,
  "health":"HEALTH","scrapeInterval":"1m","scrapeTimeout":"TIMEOUT"}],"droppedTargets":[]}"#;

fn target_doc(health: &str, timeout: &str) -> Json {
    parse_json(&TARGET.replace("HEALTH", health).replace("TIMEOUT", timeout)).unwrap()
}

#[test]
fn target_durations_and_health() {
    let t = decode_targets(&target_doc("up", "10s")).unwrap();
    let a = &t.active()[0];
    assert_eq!(a.scrape_interval().whole_seconds(), 60);
    assert_eq!(a.scrape_timeout().whole_seconds(), 10);
    assert!(a.health().is_up());
    assert!(decode_targets(&target_doc("down", "10s")).unwrap().active()[0].health().is_down());
}

#[test]
fn target_with_unknown_health_is_refused() {
    assert_eq!(
        decode_targets(&target_doc("sideways", "10s")).unwrap_err(),
        DecodeError::InvalidValue("health".to_string(), "sideways".to_string())
    );
    assert_eq!(
        decode_targets(&target_doc("up", "10")).unwrap_err(),
        DecodeError::InvalidValue("scrapeTimeout".to_string(), "10".to_string())
    );
}

#[test]
fn target_with_bad_url_is_refused() {
    let doc = TARGET.replace("HEALTH", "up").replace("TIMEOUT", "1s").replace("http://h:1/metrics", "not a url");
    assert_eq!(
        decode_targets(&parse_json(&doc).unwrap()).unwrap_err(),
        DecodeError::InvalidValue("scrapeUrl".to_string(), "not a url".to_string())
    );
}

#[test]
fn build_information_date() {
    let doc = r#"{"version":"2.13.1","revision":"r","branch":"master","buildUser":"u",
        "buildDate":"20191102-16:19:51","goVersion":"go1.13.1"}"#;
    let b = decode_build_information(&parse_json(doc).unwrap()).unwrap();
    assert_eq!(b.build_date().year(), 2019);
    assert_eq!(b.build_date().month(), 11);
    assert_eq!(b.build_date().second(), 51);
    let bad = doc.replace("20191102-16:19:51", "2019-11-02");
    assert_eq!(
        decode_build_information(&parse_json(&bad).unwrap()).unwrap_err(),
        DecodeError::InvalidValue("buildDate".to_string(), "2019-11-02".to_string())
    );
}

#[test]
fn wal_replay_state_is_optional() {
    let w = decode_wal_replay_statistics(
        &parse_json(r#"{"min":2,"max":5,"current":40,"state":"in progress"}"#).unwrap(),
    )
    .unwrap();
    assert_eq!(w.state(), Some(WalReplayState::InProgress));
    assert_eq!(w.current(), 40);
    let w = decode_wal_replay_statistics(&parse_json(r#"{"min":2,"max":5,"current":40}"#).unwrap())
        .unwrap();
    assert_eq!(w.state(), None);
    assert_eq!(
        decode_wal_replay_statistics(&parse_json(r#"{"min":-2,"max":5,"current":40}"#).unwrap())
            .unwrap_err(),
        DecodeError::InvalidValue("min".to_string(), "-2".to_string())
    );
    assert_eq!(
        decode_wal_replay_statistics(&parse_json(r#"{"min":2,"max":5}"#).unwrap()).unwrap_err(),
        DecodeError::MissingField("current".to_string())
    );
}

#[test]
fn execution_error_kind_in_both_spellings() {
    for token in ["execution", "exec"] {
        let doc = format!(r#"{{"status":"error","errorType":"{}","error":"x"}}"#, token);
        match parse_query_response(&doc) {
            Err(Error::Prometheus(e)) => assert_eq!(e.error_type, PrometheusErrorType::Execution),
            other => panic!("{:?}", other),
        }
    }
    let doc = r#"{"status":"error","errorType":"timeout","error":"x"}"#;
    assert!(matches!(
        parse_query_response(doc),
        Err(Error::Prometheus(e)) if e.error_type == PrometheusErrorType::Timeout
    ));
}

#[test]
fn text_that_is_not_json_is_a_json_error() {
    assert!(matches!(parse_query_response("{\"status\":"), Err(Error::Json(JsonError::Syntax(_)))));
    assert!(matches!(parse_query_response("not json"), Err(Error::Json(_))));
}

#[test]
fn alertmanager_urls_are_decoded() {
    let doc = r#"{"activeAlertmanagers":[{"url":"http://127.0.0.1:9090/api/v1/alerts"}],
        "droppedAlertmanagers":[{"url":"http://127.0.0.1:9093"}]}"#;
    let a = decode_alertmanagers(&parse_json(doc).unwrap()).unwrap();
    assert_eq!(a.active()[0].url().as_str(), "http://127.0.0.1:9090/api/v1/alerts");
    assert_eq!(a.dropped()[0].url().as_str(), "http://127.0.0.1:9093/");
}

#[test]
fn target_last_scrape_is_decoded() {
    let t = decode_targets(&target_doc("up", "10s")).unwrap();
    let s = t.active()[0].last_scrape();
    assert_eq!((s.year(), s.month(), s.day(), s.hour()), (2017, 1, 17, 15));
    assert_eq!(s.nanosecond(), 723715405);
    assert_eq!(s.offset_seconds(), 3600);
    assert_eq!(t.active()[0].scrape_url().as_str(), "http://h:1/metrics");
}
