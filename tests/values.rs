use prometheus_http_query::{
    instant_query, parse_build_date, parse_url, DURATION_GRAMMAR, parse_duration, parse_float, parse_timestamp, range_query,
    validate_duration, Duration, DurationError, Error, MetricType, Scheme,
};

fn ms(text: &str) -> i64 {
    parse_duration(text).unwrap().whole_milliseconds()
}

#[test]
fn duration_single_units() {
    assert_eq!(ms("1h"), 3_600_000);
    assert_eq!(ms("1d"), 86_400_000);
    assert_eq!(ms("1w"), 604_800_000);
    assert_eq!(ms("1y"), 31_536_000_000);
    assert_eq!(ms("1m"), 60_000);
    assert_eq!(ms("10s"), 10_000);
    assert_eq!(ms("15d"), 1_296_000_000);
}

#[test]
fn duration_ms_is_one_millisecond() {
    assert_eq!(ms("1ms"), 1);
    assert_eq!(ms("250ms"), 250);
    assert_eq!(ms("1m1ms"), 60_001);
}

#[test]
fn duration_composite_is_sum_of_parts() {
    assert_eq!(ms("1d12h10m"), ms("24h") + ms("12h") + ms("10m"));
    assert_eq!(ms("1d12h10m"), 130_200_000);
    assert_eq!(ms("1h30m"), 5_400_000);
}

#[test]
fn duration_repeated_units_add_up() {
    assert_eq!(ms("1h1h"), 7_200_000);
}

#[test]
fn duration_rejects_malformed_text() {
    assert_eq!(parse_duration(""), Err(DurationError::Empty));
    assert_eq!(parse_duration("5"), Err(DurationError::Syntax("5".to_string())));
    assert_eq!(parse_duration("5x"), Err(DurationError::Syntax("5x".to_string())));
    assert_eq!(parse_duration("h"), Err(DurationError::Syntax("h".to_string())));
    assert_eq!(parse_duration("1h5"), Err(DurationError::Syntax("1h5".to_string())));
    assert_eq!(parse_duration("-1h"), Err(DurationError::Syntax("-1h".to_string())));
}

#[test]
fn duration_overflow_is_refused() {
    assert_eq!(
        parse_duration("9999999999999999999y"),
        Err(DurationError::Overflow("9999999999999999999y".to_string()))
    );
    assert_eq!(parse_duration("300000000y"), Err(DurationError::Overflow("300000000y".to_string())));
    assert_eq!(ms("9223372036854775807ms"), i64::MAX);
}

#[test]
fn duration_seconds_constructor() {
    assert_eq!(Duration::seconds(60), parse_duration("1m").unwrap());
    assert_eq!(Duration::seconds(60).whole_seconds(), 60);
    assert_eq!(Duration::milliseconds(-1500).whole_seconds(), -1);
}

fn float(text: &str) -> f64 {
    parse_float(text).unwrap().as_str().parse::<f64>().unwrap()
}

#[test]
fn float_coercion_of_plain_numbers() {
    assert_eq!(float("1"), 1.0);
    assert_eq!(float("0.0"), 0.0);
    assert_eq!(float("1e+00"), 1.0);
    assert_eq!(float("-2.5E-3"), -0.0025);
    assert_eq!(float(".5"), 0.5);
    assert_eq!(float("5."), 5.0);
}

#[test]
fn float_coercion_of_special_tokens() {
    assert!(float("NaN").is_nan());
    assert_eq!(float("+Inf"), f64::INFINITY);
    assert_eq!(float("-Inf"), f64::NEG_INFINITY);
    assert_eq!(float("infinity"), f64::INFINITY);
}

#[test]
fn float_coercion_refuses_other_text() {
    assert!(parse_float("abc").is_none());
    assert!(parse_float("").is_none());
    assert!(parse_float("1e").is_none());
    assert!(parse_float(".").is_none());
    assert!(parse_float("+").is_none());
    assert!(parse_float("1.2.3").is_none());
    assert!(parse_float("infinit").is_none());
}

#[test]
fn build_date_fields() {
    let d = parse_build_date("20191102-16:19:51").unwrap();
    assert_eq!(d.year(), 2019);
    assert_eq!(d.month(), 11);
    assert_eq!(d.day(), 2);
    assert_eq!(d.hour(), 16);
    assert_eq!(d.minute(), 19);
    assert_eq!(d.second(), 51);
}

#[test]
fn build_date_refuses_other_shapes_and_days() {
    assert!(parse_build_date("2019-11-02T16:19:51").is_none());
    assert!(parse_build_date("20191102 16:19:51").is_none());
    assert!(parse_build_date("20190230-10:00:00").is_none());
    assert!(parse_build_date("20191102-24:00:00").is_none());
    assert!(parse_build_date("20191102-23:60:00").is_none());
    assert!(parse_build_date("20200229-00:00:00").is_some());
    assert!(parse_build_date("21000229-00:00:00").is_none());
}

#[test]
fn timestamp_keeps_offset_and_fraction() {
    let t = parse_timestamp("2017-01-17T15:07:44.723715405+01:00").unwrap();
    assert_eq!(t.offset_seconds(), 3600);
    assert_eq!((t.year(), t.month(), t.day()), (2017, 1, 17));
    assert_eq!((t.minute(), t.second()), (7, 44));
    assert_eq!(t.nanosecond(), 723715405);
    assert_eq!(t.hour(), 15);
    assert!(parse_timestamp("2017-01-17 15:07:44").is_none());
}

#[test]
fn metric_type_tokens() {
    assert_eq!(MetricType::GaugeHistogram.as_str(), "gaugehistogram");
    assert_eq!(MetricType::Counter.as_str(), "counter");
    assert!(MetricType::Stateset.is_stateset());
    assert!(!MetricType::Stateset.is_info());
}

#[test]
fn scheme_names() {
    assert_eq!(Scheme::Http.as_str(), "http");
    assert_eq!(Scheme::Https.as_str(), "https");
}

#[test]
fn query_parameters_are_checked_before_sending() {
    let q = instant_query("up".to_string(), Some(1_700_000_000), Some("30s")).unwrap();
    assert_eq!(q.timeout.as_deref(), Some("30s"));
    assert_eq!(q.time, Some(1_700_000_000));
    assert_eq!(
        instant_query("up".to_string(), None, Some("30")),
        Err(Error::InvalidDuration(DurationError::Syntax("30".to_string())))
    );
    let r = range_query("up".to_string(), 0, 600, "1m", None).unwrap();
    assert_eq!(r.step, "1m");
    assert_eq!(
        range_query("up".to_string(), 0, 600, "1q", Some("bad")),
        Err(Error::InvalidDuration(DurationError::Syntax("1q".to_string())))
    );
    assert_eq!(
        range_query("up".to_string(), 0, 600, "1m", Some("")),
        Err(Error::InvalidDuration(DurationError::Empty))
    );
    assert_eq!(validate_duration("5m"), Ok(()));
}

#[test]
fn url_is_kept_as_the_url_crate_writes_it() {
    assert_eq!(parse_url("http://127.0.0.1:9090").unwrap().as_str(), "http://127.0.0.1:9090/");
    assert_eq!(parse_url("HTTP://Example.com/a/../b").unwrap().as_str(), "http://example.com/b");
    assert!(parse_url("not a url").is_none());
}

#[test]
fn timestamp_with_negative_offset() {
    let t = parse_timestamp("2023-10-05T19:51:25.5-02:30").unwrap();
    assert_eq!(t.offset_seconds(), -9000);
    assert_eq!(t.nanosecond(), 500_000_000);
    assert_eq!(t.hour(), 19);
}

#[test]
fn duration_error_states_the_grammar() {
    let e = parse_duration("5x").unwrap_err();
    assert_eq!(e.expected(), DURATION_GRAMMAR);
    assert!(DURATION_GRAMMAR.contains("ms"));
}
