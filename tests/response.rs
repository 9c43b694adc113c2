use prometheus_http_query::{
    decode_alertmanagers, decode_alerts, decode_build_information, decode_envelope,
    decode_instant_vectors, decode_metric_metadata_map, decode_promql_result,
    decode_query_response, decode_range_vectors, decode_rule_groups, decode_runtime_information,
    decode_target_metadata_list, decode_targets, decode_tsdb_statistics,
    decode_wal_replay_statistics, parse_json, Duration, Error, FloatValue, PrometheusErrorType,
    RuleHealth, Timestamp,
};
use time::{Date, Month, OffsetDateTime, Time, UtcOffset};
use url::Url;

fn to_time(t: &Timestamp) -> OffsetDateTime {
    let date = Date::from_calendar_date(t.year(), Month::try_from(t.month()).unwrap(), t.day()).unwrap();
    let time = Time::from_hms_nano(t.hour(), t.minute(), t.second(), t.nanosecond()).unwrap();
    date.with_time(time).assume_offset(UtcOffset::from_whole_seconds(t.offset_seconds()).unwrap())
}

fn num(v: &FloatValue) -> f64 {
    v.as_str().parse::<f64>().unwrap()
}

#[allow(clippy::too_many_arguments)]
fn datetime(
    year: i32,
    month: Month,
    day: u8,
    hour: u8,
    minute: u8,
    second: u8,
    nanosecond: u32,
    offset_hours: i8,
) -> OffsetDateTime {
    let date = Date::from_calendar_date(year, month, day).unwrap();
    let time = Time::from_hms_nano(hour, minute, second, nanosecond).unwrap();
    date.with_time(time).assume_offset(UtcOffset::from_hms(offset_hours, 0, 0).unwrap())
}

#[test]
fn test_api_error_deserialization() {
    let data = r#"
{
  "status": "error",
  "data": null,
  "errorType": "bad_data",
  "error": "1:14: parse error: unexpected end of input in aggregation",
  "warnings": []
}
"#;
    let json = parse_json(data).unwrap();
    let result = decode_query_response(&json);
    assert!(
        matches!(result, Err(Error::Prometheus(err)) if err.error_type == PrometheusErrorType::BadData)
    );
}

#[test]
fn test_api_success_deserialization() {
    let data = r#"
{
  "status": "success",
  "data": {
    "resultType": "scalar",
    "result": [ 0, "0.0" ]
  },
  "warnings": []
}
"#;
    let json = parse_json(data).unwrap();
    let result = decode_query_response(&json);
    assert!(matches!(result, Ok(_)));
}

#[test]
fn test_bad_combination_in_deserialization() {
    let data = r#"
{
  "status": "error",
  "data": {
    "resultType": "scalar",
    "result": [ 0, "0.0" ]
  },
  "warnings": []
}
"#;
    let json = parse_json(data).unwrap();
    let result = decode_envelope(&json);
    assert!(result.is_err());
}

#[test]
fn test_another_bad_combination_in_deserialization() {
    let data = r#"
{
  "status": "success",
  "warnings": []
  "errorType": "bad_data",
  "error": "1:14: parse error: unexpected end of input in aggregation",
}
"#;
    let result = parse_json(data).map_err(Error::Json).and_then(|json| decode_envelope(&json).map(|_| ()));
    assert!(result.is_err());
}

#[test]
fn test_query_result_deserialization() {
    let data = r#"
{
  "resultType": "matrix",
  "result": [
    {
      "metric": {
        "__name__": "up",
        "instance": "localhost:9090",
        "job": "prometheus"
      },
      "values": [
        [
          1659268100,
          "1"
        ],
        [
          1659268160,
          "1"
        ],
        [
          1659268220,
          "1"
        ],
        [
          1659268280,
          "1"
        ]
      ]
    }
  ],
  "stats": {
    "timings": {
      "evalTotalTime": 0.000102139,
      "resultSortTime": 8.7e-07,
      "queryPreparationTime": 5.4169e-05,
      "innerEvalTime": 3.787e-05,
      "execQueueTime": 4.07e-05,
      "execTotalTime": 0.000151989
    },
    "samples": {
      "totalQueryableSamplesPerStep": [
        [
          1659268100,
          1
        ],
        [
          1659268160,
          1
        ],
        [
          1659268220,
          1
        ],
        [
          1659268280,
          1
        ]
      ],
      "totalQueryableSamples": 4,
      "peakSamples": 4
    }
  }
}
"#;
    let result = decode_promql_result(&parse_json(data).unwrap()).unwrap();
    let data = &result.data;
    assert!(data.is_matrix());
    let matrix = data.as_matrix().unwrap();
    assert!(matrix.len() == 1);
    let range_vector = &matrix[0];
    let metric = &range_vector.metric();
    assert!(metric.len() == 3);
    assert!(metric.get("__name__").is_some_and(|v| v == "up"));
    assert!(metric
        .get("instance")
        .is_some_and(|v| v == "localhost:9090"));
    assert!(metric.get("job").is_some_and(|v| v == "prometheus"));
    let samples = range_vector.samples();
    assert!(samples.len() == 4);
    assert!(num(samples[0].timestamp()) == 1659268100.0);
    assert!(num(samples[0].value()) == 1.0);
    assert!(num(samples[1].timestamp()) == 1659268160.0);
    assert!(num(samples[1].value()) == 1.0);
    assert!(num(samples[2].timestamp()) == 1659268220.0);
    assert!(num(samples[2].value()) == 1.0);
    assert!(num(samples[3].timestamp()) == 1659268280.0);
    assert!(num(samples[3].value()) == 1.0);
    assert!(result.stats().is_some());
    let stats = result.stats().unwrap();
    let timings = stats.timings();
    assert!(num(timings.eval_total_time()) == 0.000102139);
    assert!(num(timings.result_sort_time()) == 8.7e-07_f64);
    assert!(num(timings.query_preparation_time()) == 5.4169e-05_f64);
    assert!(num(timings.inner_eval_time()) == 3.787e-05_f64);
    assert!(num(timings.exec_queue_time()) == 4.07e-05_f64);
    assert!(num(timings.exec_total_time()) == 0.000151989);
    let samples = stats.samples();
    assert!(samples.peak_samples() == 4);
    assert!(samples.total_queryable_samples() == 4);
    assert!(samples.total_queryable_samples_per_step().is_some());
    let per_step = samples.total_queryable_samples_per_step().unwrap();
    assert!(per_step.len() == 4);
    assert!(num(per_step[0].timestamp()) == 1659268100.0);
    assert!(per_step[0].value() == 1);
    assert!(num(per_step[1].timestamp()) == 1659268160.0);
    assert!(per_step[1].value() == 1);
    assert!(num(per_step[2].timestamp()) == 1659268220.0);
    assert!(per_step[2].value() == 1);
    assert!(num(per_step[3].timestamp()) == 1659268280.0);
    assert!(per_step[3].value() == 1);
}

#[test]
fn test_query_result_no_per_step_stats_deserialization() {
    let data = r#"
{
  "resultType": "matrix",
  "result": [
    {
      "metric": {
        "__name__": "up",
        "instance": "localhost:9090",
        "job": "prometheus"
      },
      "values": [
        [
          1659268100,
          "1"
        ],
        [
          1659268160,
          "1"
        ],
        [
          1659268220,
          "1"
        ],
        [
          1659268280,
          "1"
        ]
      ]
    }
  ],
  "stats": {
    "timings": {
      "evalTotalTime": 0.000102139,
      "resultSortTime": 8.7e-07,
      "queryPreparationTime": 5.4169e-05,
      "innerEvalTime": 3.787e-05,
      "execQueueTime": 4.07e-05,
      "execTotalTime": 0.000151989
    },
    "samples": {
      "totalQueryableSamples": 4,
      "peakSamples": 4
    }
  }
}
"#;
    let result = decode_promql_result(&parse_json(data).unwrap()).unwrap();
    assert!(result.stats().is_some());
    let stats = result.stats().unwrap();
    assert!(stats.samples().total_queryable_samples_per_step().is_none());
}

#[test]
fn test_query_result_no_stats_deserialization() {
    let data = r#"
{
  "resultType": "matrix",
  "result": [
    {
      "metric": {
        "__name__": "up",
        "instance": "localhost:9090",
        "job": "prometheus"
      },
      "values": [
        [
          1659268100,
          "1"
        ],
        [
          1659268160,
          "1"
        ],
        [
          1659268220,
          "1"
        ],
        [
          1659268280,
          "1"
        ]
      ]
    }
  ]
}
"#;
    let result = decode_promql_result(&parse_json(data).unwrap()).unwrap();
    assert!(result.stats().is_none());
}

#[test]
fn test_instant_vector_deserialization() {
    let data = r#"
[
  {
    "metric": {
      "__name__": "up",
      "job": "prometheus",
      "instance": "localhost:9090"
    },
    "value": [
      1435781451.781,
      "1"
    ]
  },
  {
    "metric": {
      "__name__": "up",
      "job": "node",
      "instance": "localhost:9100"
    },
    "value": [
      1435781451.781,
      "0"
    ]
  }
]
"#;
    decode_instant_vectors(&parse_json(data).unwrap()).unwrap();
}

#[test]
fn test_range_vector_deserialization() {
    let data = r#"
[
  {
    "metric": {
      "__name__": "up",
      "job": "prometheus",
      "instance": "localhost:9090"
    },
    "values": [
      [
        1435781430.781,
        "1"
      ],
      [
        1435781445.781,
        "1"
      ],
      [
        1435781460.781,
        "1"
      ]
    ]
  },
  {
    "metric": {
      "__name__": "up",
      "job": "node",
      "instance": "localhost:9091"
    },
    "values": [
      [
        1435781430.781,
        "0"
      ],
      [
        1435781445.781,
        "0"
      ],
      [
        1435781460.781,
        "1"
      ]
    ]
  }
]
"#;
    decode_range_vectors(&parse_json(data).unwrap()).unwrap();
}

#[test]
fn test_target_deserialization() {
    let data = r#"
{
  "activeTargets": [
    {
      "discoveredLabels": {
        "__address__": "127.0.0.1:9090",
        "__metrics_path__": "/metrics",
        "__scheme__": "http",
        "job": "prometheus"
      },
      "labels": {
        "instance": "127.0.0.1:9090",
        "job": "prometheus"
      },
      "scrapePool": "prometheus",
      "scrapeUrl": "http://127.0.0.1:9090/metrics",
      "globalUrl": "http://example-prometheus:9090/metrics",
      "lastError": "",
      "lastScrape": "2017-01-17T15:07:44.723715405+01:00",
      "lastScrapeDuration": 0.050688943,
      "health": "up",
      "scrapeInterval": "1m",
      "scrapeTimeout": "10s"
    }
  ],
  "droppedTargets": [
    {
      "discoveredLabels": {
        "__address__": "127.0.0.1:9100",
        "__metrics_path__": "/metrics",
        "__scheme__": "http",
        "__scrape_interval__": "1m",
        "__scrape_timeout__": "10s",
        "job": "node"
      }
    }
  ]
}
"#;
    let targets = decode_targets(&parse_json(data).unwrap()).unwrap();
    let active = &targets.active();
    assert!(active.len() == 1);
    let target = &active[0];
    assert!(target
        .discovered_labels()
        .get("__address__")
        .is_some_and(|v| v == "127.0.0.1:9090"));
    assert!(target
        .discovered_labels()
        .get("__metrics_path__")
        .is_some_and(|v| v == "/metrics"));
    assert!(target
        .discovered_labels()
        .get("__scheme__")
        .is_some_and(|v| v == "http"));
    assert!(target
        .discovered_labels()
        .get("job")
        .is_some_and(|v| v == "prometheus"));
    assert!(target
        .labels()
        .get("instance")
        .is_some_and(|v| v == "127.0.0.1:9090"));
    assert!(target
        .labels()
        .get("job")
        .is_some_and(|v| v == "prometheus"));
    assert!(target.scrape_pool() == "prometheus");
    assert!(target.scrape_url().as_str() == Url::parse("http://127.0.0.1:9090/metrics").unwrap().as_str());
    assert!(target.global_url().as_str() == Url::parse("http://example-prometheus:9090/metrics").unwrap().as_str());
    assert!(target.last_error().is_empty());
    assert!(to_time(target.last_scrape()) == datetime(2017, Month::January, 17, 15, 7, 44, 723715405, 1));
    assert!(num(target.last_scrape_duration()) == 0.050688943);
    assert!(target.health().is_up());
    assert!(target.scrape_interval() == &Duration::seconds(60));
    assert!(target.scrape_timeout() == &Duration::seconds(10));
    let dropped = &targets.dropped();
    assert!(dropped.len() == 1);
    let target = &dropped[0];
    assert!(target
        .discovered_labels()
        .get("__address__")
        .is_some_and(|v| v == "127.0.0.1:9100"));
    assert!(target
        .discovered_labels()
        .get("__metrics_path__")
        .is_some_and(|v| v == "/metrics"));
    assert!(target
        .discovered_labels()
        .get("__scheme__")
        .is_some_and(|v| v == "http"));
    assert!(target
        .discovered_labels()
        .get("__scrape_interval__")
        .is_some_and(|v| v == "1m"));
    assert!(target
        .discovered_labels()
        .get("__scrape_timeout__")
        .is_some_and(|v| v == "10s"));
    assert!(target
        .discovered_labels()
        .get("job")
        .is_some_and(|v| v == "node"));
}

#[test]
fn test_rule_group_deserialization() {
    let data = r#"
{
  "groups": [
    {
      "rules": [
        {
          "alerts": [
            {
              "activeAt": "2018-07-04T20:27:12.60602144+02:00",
              "annotations": {
                "summary": "High request latency"
              },
              "labels": {
                "alertname": "HighRequestLatency",
                "severity": "page"
              },
              "state": "firing",
              "value": "1e+00"
            }
          ],
          "annotations": {
            "summary": "High request latency"
          },
          "duration": 600,
          "health": "ok",
          "labels": {
            "severity": "page"
          },
          "name": "HighRequestLatency",
          "query": "job:request_latency_seconds:mean5m{job=\"myjob\"} > 0.5",
          "type": "alerting",
          "evaluationTime": 0.000312805,
          "lastEvaluation": "2023-10-05T19:51:25.462004334+02:00",
          "keepFiringFor": 60
        },
        {
          "health": "ok",
          "name": "job:http_inprogress_requests:sum",
          "query": "sum by (job) (http_inprogress_requests)",
          "type": "recording",
          "evaluationTime": 0.000256946,
          "lastEvaluation": "2023-10-05T19:51:25.052982522+02:00"
        }
      ],
      "file": "/rules.yaml",
      "interval": 60,
      "limit": 0,
      "name": "example",
      "evaluationTime": 0.000267716,
      "lastEvaluation": "2023-10-05T19:51:25.052974842+02:00"
    }
  ]
}
"#;
    let groups = decode_rule_groups(&parse_json(data).unwrap()).unwrap();
    assert!(groups.len() == 1);
    let group = &groups[0];
    assert!(group.name() == "example");
    assert!(group.file() == "/rules.yaml");
    assert!(num(group.interval()) == 60.0);
    assert!(group.limit() == 0);
    assert!(num(group.evaluation_time()) == 0.000267716);
    assert!(to_time(group.last_evaluation()) == datetime(2023, Month::October, 5, 19, 51, 25, 52974842, 2));
    assert!(group.rules().len() == 2);
    let alerting_rule = &group.rules[0].as_alerting().unwrap();
    assert!(alerting_rule.health() == RuleHealth::Good);
    assert!(alerting_rule.name() == "HighRequestLatency");
    assert!(alerting_rule.query() == "job:request_latency_seconds:mean5m{job=\"myjob\"} > 0.5");
    assert!(num(alerting_rule.evaluation_time()) == 0.000312805);
    assert!(to_time(alerting_rule.last_evaluation()) == datetime(2023, Month::October, 5, 19, 51, 25, 462004334, 2));
    assert!(num(alerting_rule.duration()) == 600.0);
    assert!(num(alerting_rule.keep_firing_for()) == 60.0);
    assert!(alerting_rule.alerts().len() == 1);
    assert!(alerting_rule
        .annotations()
        .get("summary")
        .is_some_and(|v| v == "High request latency"));
    let alert = &alerting_rule.alerts()[0];
    assert!(num(alert.value()) == 1.0);
    assert!(alert.state().is_firing());
    assert!(to_time(alert.active_at()) == datetime(2018, Month::July, 4, 20, 27, 12, 606021440, 2));
    let recording_rule = &group.rules[1].as_recording().unwrap();
    assert!(recording_rule.health() == RuleHealth::Good);
    assert!(recording_rule.name() == "job:http_inprogress_requests:sum");
    assert!(recording_rule.query() == "sum by (job) (http_inprogress_requests)");
    assert!(num(recording_rule.evaluation_time()) == 0.000256946);
    assert!(to_time(recording_rule.last_evaluation()) == datetime(2023, Month::October, 5, 19, 51, 25, 52982522, 2));
}

#[test]
fn test_alert_deserialization() {
    let data = r#"
{
  "alerts": [
     {
        "activeAt":"2018-07-04T20:27:12.60602144+02:00",
        "annotations":{
        },
        "labels":{
           "alertname":"my-alert"
        },
        "state":"firing",
        "value":"1e+00"
     }
  ]
}
"#;
    decode_alerts(&parse_json(data).unwrap()).unwrap();
}

#[test]
fn test_target_metadata_deserialization_1() {
    let data = r#"
[
  {
    "target": {
      "instance": "127.0.0.1:9090",
      "job": "prometheus"
    },
    "type": "gauge",
    "help": "Number of goroutines that currently exist.",
    "unit": ""
  },
  {
    "target": {
      "instance": "127.0.0.1:9091",
      "job": "prometheus"
    },
    "type": "gauge",
    "help": "Number of goroutines that currently exist.",
    "unit": ""
  },
  {
    "target": {
      "instance": "localhost:9090",
      "job": "prometheus"
    },
    "metric": "process_virtual_memory_bytes",
    "type": "gauge",
    "help": "Virtual memory size in bytes.",
    "unit": ""
  },
  {
    "target": {
      "instance": "localhost:9090",
      "job": "prometheus"
    },
    "metric": "prometheus_http_response_size_bytes",
    "type": "histogram",
    "help": "Histogram of response size for HTTP requests.",
    "unit": ""
  },
  {
    "target": {
      "instance": "localhost:9090",
      "job": "prometheus"
    },
    "metric": "prometheus_ready",
    "type": "gauge",
    "help": "Whether Prometheus startup was fully completed and the server is ready for normal operation.",
    "unit": ""
  },
  {
    "target": {
      "instance": "localhost:9090",
      "job": "prometheus"
    },
    "metric": "prometheus_rule_group_iterations_missed_total",
    "type": "counter",
    "help": "The total number of rule group evaluations missed due to slow rule group evaluation.",
    "unit": ""
  },
  {
    "target": {
      "instance": "localhost:9090",
      "job": "prometheus"
    },
    "metric": "prometheus_target_scrape_pool_reloads_failed_total",
    "type": "counter",
    "help": "Total number of failed scrape pool reloads.",
    "unit": ""
  },
  {
    "target": {
      "instance": "localhost:9090",
      "job": "prometheus"
    },
    "metric": "prometheus_target_scrape_pool_reloads_total",
    "type": "counter",
    "help": "Total number of scrape pool reloads.",
    "unit": ""
  }
]
"#;
    let metadata = decode_target_metadata_list(&parse_json(data).unwrap(), "data").unwrap();
    assert!(metadata.len() == 8);
    let first = &metadata[0];
    assert!(first
        .target()
        .get("instance")
        .is_some_and(|v| v == "127.0.0.1:9090"));
    assert!(first.target().get("job").is_some_and(|v| v == "prometheus"));
    assert!(first.metric_type().is_gauge());
    assert!(first.help() == "Number of goroutines that currently exist.");
    assert!(first.unit().is_empty());
    assert!(first.metric().is_none());
    let third = &metadata[2];
    assert!(third
        .target()
        .get("instance")
        .is_some_and(|v| v == "localhost:9090"));
    assert!(third.target().get("job").is_some_and(|v| v == "prometheus"));
    assert!(third.metric_type().is_gauge());
    assert!(third.help() == "Virtual memory size in bytes.");
    assert!(third.unit().is_empty());
    assert!(third
        .metric()
        .is_some_and(|v| v == "process_virtual_memory_bytes"));
    let fourth = &metadata[3];
    assert!(fourth
        .target()
        .get("instance")
        .is_some_and(|v| v == "localhost:9090"));
    assert!(fourth
        .target()
        .get("job")
        .is_some_and(|v| v == "prometheus"));
    assert!(fourth.metric_type().is_histogram());
    assert!(fourth.help() == "Histogram of response size for HTTP requests.");
    assert!(fourth.unit().is_empty());
    assert!(fourth
        .metric()
        .is_some_and(|v| v == "prometheus_http_response_size_bytes"));
}

#[test]
fn test_target_metadata_deserialization_2() {
    let data = r#"
[
  {
    "target": {
      "instance": "127.0.0.1:9090",
      "job": "prometheus"
    },
    "metric": "prometheus_treecache_zookeeper_failures_total",
    "type": "counter",
    "help": "The total number of ZooKeeper failures.",
    "unit": ""
  },
  {
    "target": {
      "instance": "127.0.0.1:9090",
      "job": "prometheus"
    },
    "metric": "prometheus_tsdb_reloads_total",
    "type": "counter",
    "help": "Number of times the database reloaded block data from disk.",
    "unit": ""
  }
]
"#;
    decode_target_metadata_list(&parse_json(data).unwrap(), "data").unwrap();
}

#[test]
fn test_metric_metadata_deserialization() {
    let data = r#"
{
  "cortex_ring_tokens": [
    {
      "type": "gauge",
      "help": "Number of tokens in the ring",
      "unit": ""
    }
  ],
  "http_requests_total": [
    {
      "type": "counter",
      "help": "Number of HTTP requests",
      "unit": ""
    },
    {
      "type": "counter",
      "help": "Amount of HTTP requests",
      "unit": ""
    }
  ]
}
"#;
    let metadata = decode_metric_metadata_map(&parse_json(data).unwrap()).unwrap();
    let get = |name: &str| metadata.iter().find(|(n, _)| n == name).map(|(_, v)| v);
    assert!(metadata.len() == 2);
    assert!(get("cortex_ring_tokens")
        .is_some_and(|v| v[0].metric_type().is_gauge()
            && v[0].help() == "Number of tokens in the ring"
            && v[0].unit().is_empty()));
    assert!(get("http_requests_total").is_some_and(|v| v[0]
        .metric_type()
        .is_counter()
        && v[0].help() == "Number of HTTP requests"
        && v[0].unit().is_empty()));
}

#[test]
fn test_alertmanagers_deserialization() {
    let data = r#"
{
  "activeAlertmanagers": [
    {
      "url": "http://127.0.0.1:9090/api/v1/alerts"
    }
  ],
  "droppedAlertmanagers": [
    {
      "url": "http://127.0.0.1:9093/api/v1/alerts"
    }
  ]
}
"#;
    decode_alertmanagers(&parse_json(data).unwrap()).unwrap();
}

#[test]
fn test_buildinformation_deserialization() {
    let data = r#"
{
  "version": "2.13.1",
  "revision": "cb7cbad5f9a2823a622aaa668833ca04f50a0ea7",
  "branch": "master",
  "buildUser": "julius@desktop",
  "buildDate": "20191102-16:19:51",
  "goVersion": "go1.13.1"
}
"#;
    decode_build_information(&parse_json(data).unwrap()).unwrap();
}

#[test]
fn test_runtimeinformation_deserialization() {
    let data = r#"
{
  "startTime": "2019-11-02T17:23:59.301361365+01:00",
  "CWD": "/",
  "reloadConfigSuccess": true,
  "lastConfigTime": "2019-11-02T17:23:59+01:00",
  "timeSeriesCount": 873,
  "corruptionCount": 0,
  "goroutineCount": 48,
  "GOMAXPROCS": 4,
  "GOGC": "",
  "GODEBUG": "",
  "storageRetention": "15d"
}
"#;
    decode_runtime_information(&parse_json(data).unwrap()).unwrap();
}

#[test]
fn test_tsdb_stats_deserialization() {
    let data = r#"
{
  "headStats": {
    "numSeries": 508,
    "chunkCount": 937,
    "minTime": 1591516800000,
    "maxTime": 1598896800143
  },
  "seriesCountByMetricName": [
    {
      "name": "net_conntrack_dialer_conn_failed_total",
      "value": 20
    },
    {
      "name": "prometheus_http_request_duration_seconds_bucket",
      "value": 20
    }
  ],
  "labelValueCountByLabelName": [
    {
      "name": "__name__",
      "value": 211
    },
    {
      "name": "event",
      "value": 3
    }
  ],
  "memoryInBytesByLabelName": [
    {
      "name": "__name__",
      "value": 8266
    },
    {
      "name": "instance",
      "value": 28
    }
  ],
  "seriesCountByLabelValuePair": [
    {
      "name": "job=prometheus",
      "value": 425
    },
    {
      "name": "instance=localhost:9090",
      "value": 425
    }
  ]
}
"#;
    decode_tsdb_statistics(&parse_json(data).unwrap()).unwrap();
}

#[test]
fn test_wal_replay_deserialization() {
    let data = r#"
{
  "min": 2,
  "max": 5,
  "current": 40,
  "state": "waiting"
}
"#;
    let result = decode_wal_replay_statistics(&parse_json(data).unwrap());
    assert!(result.is_ok());

    let data = r#"
{
  "min": 2,
  "max": 5,
  "current": 40,
  "state": "in progress"
}
"#;
    let result = decode_wal_replay_statistics(&parse_json(data).unwrap());
    assert!(result.is_ok());

    let data = r#"
{
  "min": 2,
  "max": 5,
  "current": 40,
  "state": "done"
}
"#;
    let result = decode_wal_replay_statistics(&parse_json(data).unwrap());
    assert!(result.is_ok());

    let data = r#"
{
  "min": 2,
  "max": 5,
  "current": 40
}
"#;
    decode_wal_replay_statistics(&parse_json(data).unwrap()).unwrap();
}
