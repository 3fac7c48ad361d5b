use load_testing::classify::{
    classify_response, http_error_description, payload_error_description, payload_failure, response_verdict,
    ResponseClass, Verdict, SMALL_BODY_THRESHOLD,
};
use load_testing::config::Cli;
use load_testing::endpoints::EndpointSet;
use load_testing::ramp::{ramp_sequence, RampController};
use load_testing::request::JsonRequest;
use load_testing::stats::{Outcome, Stats};
use load_testing::stream::{consumer_step, producer_step, Next, ProducerAction, Received};
use load_testing::summary::{average_response_time, requests_per_second_centi, summary_header, RunResult};
use load_testing::tally::ErrorTally;
use load_testing::worker::{RunLimits, Worker};

fn ping() -> JsonRequest {
    JsonRequest { id: 1, jsonrpc: "2.0".to_string(), method: "ping".to_string(), params: vec![] }
}

fn record(stats: &mut Stats, o: &Outcome) {
    assert!(stats.has_room_for(o));
    stats.record(o);
}

fn assert_balanced(stats: &Stats) {
    assert_eq!(stats.completed_requests, stats.successful_requests + stats.failed_requests);
    assert!((stats.timeout_requests as u64) <= stats.failed_requests);
}

#[test]
fn ramp_without_step_is_single_run() {
    assert_eq!(ramp_sequence(4, 0), vec![4]);
}

#[test]
fn ramp_reaches_max_when_aligned() {
    assert_eq!(ramp_sequence(10, 3), vec![1, 4, 7, 10]);
}

#[test]
fn ramp_stops_short_of_max() {
    assert_eq!(ramp_sequence(10, 4), vec![1, 5, 9]);
}

#[test]
fn ramp_edges() {
    assert_eq!(ramp_sequence(0, 2), Vec::<u32>::new());
    assert_eq!(ramp_sequence(0, 0), vec![0]);
    assert_eq!(ramp_sequence(1, 5), vec![1]);
    assert_eq!(ramp_sequence(3, 1), vec![1, 2, 3]);
    let big = ramp_sequence(u32::MAX, u32::MAX);
    assert_eq!(big, vec![1]);
    let two = ramp_sequence(u32::MAX, u32::MAX - 1);
    assert_eq!(two, vec![1, u32::MAX]);
}

#[test]
fn fresh_stats_are_zero() {
    let s = Stats::new();
    assert_eq!(s.completed_requests, 0);
    assert_eq!(s.successful_requests, 0);
    assert_eq!(s.failed_requests, 0);
    assert_eq!(s.total_response_time, 0);
    assert_eq!(s.timeout_requests, 0);
    assert_eq!(s.error_counts.len(), 0);
}

#[test]
fn mixed_outcomes_stay_balanced() {
    let mut s = Stats::new();
    record(&mut s, &Outcome::Success { elapsed_ms: 30 });
    assert_balanced(&s);
    record(&mut s, &Outcome::Timeout);
    assert_balanced(&s);
    record(&mut s, &Outcome::Failure { description: "connection refused".to_string() });
    assert_balanced(&s);
    record(&mut s, &Outcome::Success { elapsed_ms: 50 });
    assert_balanced(&s);
    assert_eq!(s.completed_requests, 4);
    assert_eq!(s.successful_requests, 2);
    assert_eq!(s.failed_requests, 2);
    assert_eq!(s.timeout_requests, 1);
    assert_eq!(s.total_response_time, 80);
    assert_eq!(s.error_counts.count_of(&"Request timed out".to_string()), 1);
    assert_eq!(s.error_counts.count_of(&"connection refused".to_string()), 1);
    assert_eq!(s.error_counts.len(), 2);
}

#[test]
fn average_is_zero_without_requests() {
    assert_eq!(average_response_time(0, 0), 0);
    assert_eq!(average_response_time(500, 0), 0);
    let s = Stats::new();
    assert_eq!(s.summarize(1, 1000).average_response_time, 0);
}

#[test]
fn average_divides_over_all_completed() {
    assert_eq!(average_response_time(100, 4), 25);
    assert_eq!(average_response_time(10, 3), 3);
    let mut s = Stats::new();
    record(&mut s, &Outcome::Success { elapsed_ms: 90 });
    record(&mut s, &Outcome::Failure { description: "reset".to_string() });
    record(&mut s, &Outcome::Timeout);
    let row = s.summarize(2, 1500);
    assert_eq!(row.average_response_time, 30);
    assert_eq!(row.total_requests, 3);
    assert_eq!(row.requests_per_second_centi, 200);
}

#[test]
fn throughput_in_hundredths() {
    assert_eq!(requests_per_second_centi(10, 2000), 500);
    assert_eq!(requests_per_second_centi(1, 3000), 33);
    assert_eq!(requests_per_second_centi(7, 0), 0);
    assert_eq!(requests_per_second_centi(u64::MAX, 1), u64::MAX as u128 * 100_000);
}

#[test]
fn tally_counts_each_description() {
    let mut t = ErrorTally::new();
    let a = "a".to_string();
    let b = "b".to_string();
    t.add(&a);
    t.add(&b);
    t.add(&a);
    assert_eq!(t.len(), 2);
    assert_eq!(t.count_of(&a), 2);
    assert_eq!(t.count_of(&b), 1);
    assert_eq!(t.count_of(&"c".to_string()), 0);
    let mut seen = 0;
    for i in 0..t.len() {
        let (k, v) = t.entry(i);
        assert_eq!(t.count_of(k), v);
        seen += v;
    }
    assert_eq!(seen, 3);
}

#[test]
fn limited_workers_issue_exactly_their_limit() {
    let limits = RunLimits { requests_per_connection: 5, duration_secs: 0 };
    let connections: u32 = 3;
    let mut s = Stats::new();
    for _ in 0..connections {
        let mut w = Worker::new(limits);
        while w.should_dispatch(false, 0) {
            w.note_dispatch();
            record(&mut s, &Outcome::Success { elapsed_ms: 1 });
        }
        assert_eq!(w.issued(), 5);
    }
    assert_eq!(s.completed_requests, connections as u64 * 5);
    assert_eq!(s.successful_requests, 15);
    assert_eq!(s.failed_requests, 0);
}

#[test]
fn duration_bound_stops_worker() {
    let w = Worker::new(RunLimits { requests_per_connection: 0, duration_secs: 2 });
    assert!(w.should_dispatch(false, 1999));
    assert!(!w.should_dispatch(false, 2000));
    let unbounded = Worker::new(RunLimits { requests_per_connection: 0, duration_secs: 0 });
    assert!(unbounded.should_dispatch(false, u64::MAX));
}

#[test]
fn always_timing_out_transport() {
    let mut s = Stats::new();
    for _ in 0..7 {
        record(&mut s, &Outcome::Timeout);
    }
    let row = s.summarize(1, 100);
    assert_eq!(row.successful_requests, 0);
    assert_eq!(row.timeout_requests as u64, row.failed_requests);
    assert_eq!(row.failed_requests, row.total_requests);
    assert_eq!(row.total_requests, 7);
    assert_eq!(s.error_counts.count_of(&"Request timed out".to_string()), 7);
}

#[test]
fn short_successful_body_is_a_failure() {
    assert!(matches!(classify_response(200, Some(10), SMALL_BODY_THRESHOLD), ResponseClass::PayloadFailure));
    assert!(matches!(classify_response(200, Some(999), 1000), ResponseClass::PayloadFailure));
    assert!(matches!(classify_response(200, Some(1000), 1000), ResponseClass::Success));
    assert!(matches!(classify_response(204, None, 1000), ResponseClass::Success));
    assert!(matches!(classify_response(200, Some(10), 5), ResponseClass::Success));
    assert!(matches!(response_verdict(200, Some(10), SMALL_BODY_THRESHOLD, 4), Verdict::InspectBody));
    let o = payload_failure("{\"code\":-32601}");
    match o {
        Outcome::Failure { description } => assert_eq!(description, "JSON-RPC error: {\"code\":-32601}"),
        _ => panic!("expected a failure"),
    }
    let mut s = Stats::new();
    record(&mut s, &payload_failure("x"));
    assert_eq!(s.successful_requests, 0);
    assert_eq!(s.failed_requests, 1);
    assert_eq!(s.error_counts.count_of(&"JSON-RPC error: x".to_string()), 1);
}

#[test]
fn bad_status_is_an_http_failure() {
    assert!(matches!(classify_response(404, Some(5000), 1000), ResponseClass::HttpStatusFailure));
    assert!(matches!(classify_response(199, None, 1000), ResponseClass::HttpStatusFailure));
    assert!(matches!(classify_response(300, None, 1000), ResponseClass::HttpStatusFailure));
    match response_verdict(404, Some(20), 1000, 3) {
        Verdict::Done(Outcome::Failure { description }) => assert_eq!(description, "HTTP error: 404 Not Found"),
        _ => panic!("expected an HTTP failure"),
    }
    match response_verdict(503, None, 1000, 3) {
        Verdict::Done(Outcome::Failure { description }) => {
            assert_eq!(description, "HTTP error: 503 Service Unavailable")
        },
        _ => panic!("expected an HTTP failure"),
    }
    assert_eq!(http_error_description("418 I'm a teapot"), "HTTP error: 418 I'm a teapot");
    assert_eq!(payload_error_description(""), "JSON-RPC error: ");
}

#[test]
fn long_successful_body_is_a_success() {
    match response_verdict(200, Some(4096), 1000, 12) {
        Verdict::Done(Outcome::Success { elapsed_ms }) => assert_eq!(elapsed_ms, 12),
        _ => panic!("expected a success"),
    }
}

#[test]
fn shutdown_stops_workers_and_ramp() {
    let w = Worker::new(RunLimits { requests_per_connection: 0, duration_secs: 0 });
    assert!(!w.should_dispatch(true, 0));
    let mut ramp = RampController::new(10, 3);
    assert_eq!(ramp.next_connections(), Some(1));
    let row = Stats::new().summarize(1, 10);
    ramp.finish_step(row, true);
    assert_eq!(ramp.next_connections(), None);
    assert!(ramp.halted());
    assert_eq!(ramp.results().len(), 1);
}

#[test]
fn ramp_runs_every_step_in_order() {
    let mut ramp = RampController::new(10, 4);
    let mut seen = Vec::new();
    while let Some(c) = ramp.next_connections() {
        seen.push(c);
        let row = Stats::new().summarize(c, 0);
        ramp.finish_step(row, false);
    }
    assert_eq!(seen, vec![1, 5, 9]);
    let rows: Vec<u32> = ramp.results().iter().map(|r: &RunResult| r.connections).collect();
    assert_eq!(rows, vec![1, 5, 9]);
    assert!(!ramp.halted());
}

#[test]
fn static_template_end_to_end() {
    let template = ping();
    let endpoints = EndpointSet::new(vec!["http://localhost:8545".to_string()]).unwrap();
    let cli = Cli {
        timeout: 15000,
        server_urls: vec!["http://localhost:8545".to_string()],
        concurrent_connections: 1,
        requests_per_connection: 5,
        connections_step: 0,
        request_file: "request.json".to_string(),
        test_duration: 0,
        output_filename: "results.csv".to_string(),
        verbosity: 0,
        pipe: false,
    };
    let mut ramp = RampController::new(cli.concurrent_connections, cli.connections_step);
    let mut sent = 0;
    while let Some(connections) = ramp.next_connections() {
        let mut stats = Stats::new();
        for _ in 0..connections {
            let mut w = Worker::new(cli.run_limits());
            while w.should_dispatch(false, 0) {
                let request = template.clone();
                assert_eq!(request.method, "ping");
                let url = endpoints.pick();
                assert_eq!(url, "http://localhost:8545");
                w.note_dispatch();
                sent += 1;
                match response_verdict(200, Some(5000), SMALL_BODY_THRESHOLD, 2) {
                    Verdict::Done(o) => record(&mut stats, &o),
                    Verdict::InspectBody => panic!("large body"),
                }
            }
        }
        let row = stats.summarize(connections, 100);
        ramp.finish_step(row, false);
    }
    assert_eq!(sent, 5);
    let rows = ramp.results();
    assert_eq!(rows.len(), 1);
    assert_eq!(rows[0].connections, 1);
    assert_eq!(rows[0].total_requests, 5);
    assert_eq!(rows[0].successful_requests, 5);
    assert_eq!(rows[0].failed_requests, 0);
    assert_eq!(rows[0].timeout_requests, 0);
}

#[test]
fn stream_skips_malformed_lines() {
    let parsed: Vec<Result<JsonRequest, String>> = vec![
        Ok(ping()),
        Err("expected value at line 1 column 1".to_string()),
        Ok(JsonRequest { id: 2, ..ping() }),
        Ok(JsonRequest { id: 3, ..ping() }),
    ];
    let mut forwarded = Vec::new();
    let mut reports = Vec::new();
    for p in parsed {
        match producer_step(false, p) {
            ProducerAction::Forward(r) => forwarded.push(r),
            ProducerAction::Report(m) => reports.push(m),
            ProducerAction::Halt => panic!("no stop was asked"),
        }
    }
    assert_eq!(forwarded.len(), 3);
    assert_eq!(forwarded.iter().map(|r| r.id).collect::<Vec<u64>>(), vec![1, 2, 3]);
    assert_eq!(reports, vec!["Error parsing JSON RPC request: expected value at line 1 column 1".to_string()]);
    let mut dispatched = 0;
    for r in forwarded {
        match consumer_step(false, Received::Item(r)) {
            Next::Dispatch(_) => dispatched += 1,
            _ => panic!("an item was received"),
        }
    }
    assert_eq!(dispatched, 3);
}

#[test]
fn stream_stops_on_shutdown_or_exhaustion() {
    assert!(matches!(producer_step(true, Ok(ping())), ProducerAction::Halt));
    assert!(matches!(consumer_step(true, Received::Item(ping())), Next::Stop));
    assert!(matches!(consumer_step(true, Received::Nothing), Next::Stop));
    assert!(matches!(consumer_step(false, Received::Nothing), Next::Wait));
    assert!(matches!(consumer_step(false, Received::Closed), Next::Stop));
}

#[test]
fn endpoints_pick_a_member() {
    assert!(EndpointSet::new(vec![]).is_none());
    let urls = vec!["http://a".to_string(), "http://b".to_string(), "http://c".to_string()];
    let set = EndpointSet::new(urls.clone()).unwrap();
    assert_eq!(set.len(), 3);
    for _ in 0..50 {
        let u = set.pick();
        assert!(urls.contains(&u));
    }
}

#[test]
fn header_lists_the_columns() {
    assert_eq!(
        summary_header(),
        vec![
            "connections",
            "total_requests",
            "successful_requests",
            "failed_requests",
            "average_response_time",
            "average_requests_per_second",
            "elapsed_time",
            "timeout_requests",
        ]
    );
}

#[test]
fn stats_refuse_overflowing_outcomes() {
    let mut s = Stats::new();
    s.total_response_time = u128::MAX - 1;
    assert!(!s.has_room_for(&Outcome::Success { elapsed_ms: 2 }));
    assert!(s.has_room_for(&Outcome::Success { elapsed_ms: 1 }));
    assert!(s.has_room_for(&Outcome::Timeout));
}
