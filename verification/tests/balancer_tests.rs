use load_balancer::balancer::{check_body_size, failure_body, LoadBalancer};
use load_balancer::relay::{compose, relays_header, Header, Request};
use load_balancer::config::{Config, InstanceConfig, TlsMaterial};
use load_balancer::dispatch::{Protocol, Step, Verdict};
use load_balancer::instance::{Instance, Probe, Transition};
use load_balancer::status::Outcome;
use load_balancer::strategy::Strategy;

const SECOND: u64 = 1_000_000_000;

fn config(strategy: &str, max_retries: Option<u32>) -> Config {
    Config {
        instances: vec![
            InstanceConfig { base_url: "10.0.0.1".to_string(), rest_port: 8000, grpc_port: 50051 },
            InstanceConfig { base_url: "10.0.0.2".to_string(), rest_port: 8001, grpc_port: 50052 },
            InstanceConfig { base_url: "10.0.0.3".to_string(), rest_port: 8002, grpc_port: 50053 },
        ],
        rest_port: 80,
        grpc_port: 50050,
        strategy: strategy.to_string(),
        health_check_interval: 5 * SECOND,
        health_check_time_limit: 30 * SECOND,
        connection_timeout: 10 * SECOND,
        max_retries,
        tls: None,
        accept_invalid_certs: false,
        max_body_bytes: None,
    }
}

fn balancer(strategy: &str, max_retries: Option<u32>) -> LoadBalancer {
    let cfg = config(strategy, max_retries);
    let instances = cfg.instances.iter().map(|i| Instance::new(i, &cfg)).collect();
    LoadBalancer::new(instances, &cfg)
}

fn in_flight(lb: &LoadBalancer) -> Vec<u32> {
    lb.instances.iter().map(|i| i.in_flight()).collect()
}

/// Dispatches one request; `respond` says how the upstream with the given
/// index answers. Returns the status and payload the client sees.
fn dispatch(
    lb: &mut LoadBalancer,
    respond: &dyn Fn(usize) -> Outcome<String>,
) -> (Result<(u16, String), u16>, Vec<usize>) {
    let mut contacted = Vec::new();
    let mut d = match lb.forward_request() {
        Ok(d) => d,
        Err(status) => return (Err(status), contacted),
    };
    loop {
        assert_eq!(d.fleet_size(), lb.instances.len());
        match lb.next_attempt(d) {
            Step::Fail(status) => return (Err(status), contacted),
            Step::Forward(a) => {
                let index = a.instance();
                contacted.push(index);
                match lb.finish_attempt(a, respond(index)) {
                    Verdict::Relay { status, payload } => return (Ok((status, payload)), contacted),
                    Verdict::Fail(status) => return (Err(status), contacted),
                    Verdict::Retry(next) => d = next,
                }
            }
        }
    }
}

fn echo(index: usize) -> Outcome<String> {
    let body = ["A", "B", "C"][index].to_string();
    Outcome::Response { status: 200, payload: body }
}

#[test]
fn new_takes_settings_and_policy_from_the_configuration() {
    let lb = balancer("least_connections", Some(4));
    assert_eq!(lb.instances.len(), 3);
    assert_eq!(lb.health_check_interval, 5 * SECOND);
    assert_eq!(lb.con_timeout, 10 * SECOND);
    assert_eq!(lb.max_retries, Some(4));
    assert!(matches!(lb.strategy, Strategy::LeastConnections(_)));
    assert!(matches!(balancer("round_robin", None).strategy, Strategy::RoundRobin(_)));
    assert!(matches!(balancer("anything", None).strategy, Strategy::Random(_)));
}

#[test]
fn happy_round_robin_cycles_through_the_upstreams() {
    let mut lb = balancer("round_robin", None);
    let mut bodies = Vec::new();
    for _ in 0..6 {
        let (seen, _) = dispatch(&mut lb, &echo);
        bodies.push(seen.unwrap().1);
    }
    assert_eq!(bodies, vec!["A", "B", "C", "A", "B", "C"]);
    assert_eq!(in_flight(&lb), vec![0, 0, 0]);
}

#[test]
fn a_dying_upstream_is_failed_over() {
    let mut lb = balancer("round_robin", Some(2));
    let b_is_down = |index: usize| {
        if index == 1 {
            Outcome::TransportError
        } else {
            echo(index)
        }
    };
    for _ in 0..6 {
        let (seen, contacted) = dispatch(&mut lb, &b_is_down);
        let (status, body) = seen.unwrap();
        assert_eq!(status, 200);
        assert!(body == "A" || body == "C");
        assert!(contacted.len() <= 3);
    }
    assert_eq!(in_flight(&lb), vec![0, 0, 0]);
}

#[test]
fn all_dead_gives_503_with_the_prescribed_body() {
    let mut lb = balancer("round_robin", None);
    lb.health_check_all(&[(Probe::Failed, SECOND), (Probe::Failed, SECOND), (Probe::Failed, SECOND)]);
    assert!(matches!(lb.forward_request(), Err(503)));
    let (seen, contacted) = dispatch(&mut lb, &echo);
    assert_eq!(seen, Err(503));
    assert!(contacted.is_empty());
    assert_eq!(failure_body(), "Service unavailable (no alive servers)");
}

#[test]
fn first_503_then_200_is_seen_as_200() {
    let mut lb = balancer("round_robin", None);
    let first_is_down = |index: usize| {
        if index == 0 {
            Outcome::Response { status: 503, payload: "down".to_string() }
        } else {
            Outcome::Response { status: 200, payload: "ok".to_string() }
        }
    };
    let (seen, contacted) = dispatch(&mut lb, &first_is_down);
    assert_eq!(seen, Ok((200, "ok".to_string())));
    assert_eq!(contacted.len(), 2);
    assert_eq!(contacted[0], 0);
}

#[test]
fn a_404_is_seen_as_404_without_retry() {
    let mut lb = balancer("round_robin", None);
    let missing = |_: usize| Outcome::Response { status: 404, payload: "missing".to_string() };
    let (seen, contacted) = dispatch(&mut lb, &missing);
    assert_eq!(seen, Ok((404, "missing".to_string())));
    assert_eq!(contacted, vec![0]);
}

#[test]
fn an_upstream_that_never_answers_gives_504() {
    let cfg = config("round_robin", Some(0));
    let mut lb = LoadBalancer::new(vec![Instance::new(&cfg.instances[0], &cfg)], &cfg);
    let (seen, contacted) = dispatch(&mut lb, &|_| Outcome::Timeout);
    assert_eq!(seen, Err(504));
    assert_eq!(contacted, vec![0]);
    assert_eq!(in_flight(&lb), vec![0]);
}

#[test]
fn attempts_per_request_are_bounded() {
    for (retries, expected) in [(Some(0), 1usize), (Some(1), 2), (Some(2), 3), (Some(9), 3), (None, 3)]
    {
        let mut lb = balancer("round_robin", retries);
        let (seen, contacted) = dispatch(&mut lb, &|_| Outcome::TransportError);
        assert!(seen.is_err());
        assert_eq!(contacted.len(), expected);
        let mut sorted = contacted.clone();
        sorted.sort();
        sorted.dedup();
        assert_eq!(sorted.len(), contacted.len());
        assert_eq!(in_flight(&lb), vec![0, 0, 0]);
    }
}

#[test]
fn requests_in_flight_are_counted_during_the_attempt() {
    let mut lb = balancer("round_robin", None);
    let d = lb.forward_request().ok().unwrap();
    let a = match lb.next_attempt(d) {
        Step::Forward(a) => a,
        Step::Fail(status) => panic!("failed with {}", status),
    };
    assert_eq!(a.instance(), 0);
    assert_eq!(in_flight(&lb), vec![1, 0, 0]);
    // A second request while the first is in flight.
    let d2 = lb.forward_request().ok().unwrap();
    let a2 = match lb.next_attempt(d2) {
        Step::Forward(a) => a,
        Step::Fail(status) => panic!("failed with {}", status),
    };
    assert_eq!(a2.instance(), 1);
    assert_eq!(in_flight(&lb), vec![1, 1, 0]);
    assert!(matches!(lb.finish_attempt(a, echo(0)), Verdict::Relay { status: 200, .. }));
    assert_eq!(in_flight(&lb), vec![0, 1, 0]);
    assert!(matches!(lb.finish_attempt(a2, echo(1)), Verdict::Relay { status: 200, .. }));
    assert_eq!(in_flight(&lb), vec![0, 0, 0]);
}

#[test]
fn least_connections_avoids_the_busy_instance() {
    let mut lb = balancer("least_connections", None);
    lb.instances[0].begin_forward();
    lb.instances[0].begin_forward();
    lb.instances[0].begin_forward();
    lb.instances[1].begin_forward();
    lb.instances[2].begin_forward();
    lb.instances[2].begin_forward();
    assert_eq!(in_flight(&lb), vec![3, 1, 2]);
    let (seen, contacted) = dispatch(&mut lb, &echo);
    assert_eq!(seen, Ok((200, "B".to_string())));
    assert_eq!(contacted, vec![1]);
}

#[test]
fn least_connections_sends_less_to_a_slow_upstream() {
    // Upstream 1 holds each request twenty times as long as the others: a
    // request to it ends only after twenty more requests have arrived.
    let mut lb = balancer("least_connections", None);
    let mut pending = Vec::new();
    let mut received = [0usize; 3];
    for tick in 0..100usize {
        let d = lb.forward_request().ok().unwrap();
        let a = match lb.next_attempt(d) {
            Step::Forward(a) => a,
            Step::Fail(status) => panic!("failed with {}", status),
        };
        let index = a.instance();
        received[index] += 1;
        let due = tick + if index == 1 { 20 } else { 1 };
        pending.push((due, a));
        let mut still = Vec::new();
        for (due, a) in pending {
            if due <= tick + 1 && a.instance() != 1 || due <= tick {
                let index = a.instance();
                assert!(matches!(lb.finish_attempt(a, echo(index)), Verdict::Relay { .. }));
            } else {
                still.push((due, a));
            }
        }
        pending = still;
    }
    assert_eq!(received[0] + received[1] + received[2], 100);
    assert!(received[1] * 3 <= received[0]);
    assert!(received[1] * 3 <= received[2]);
    for (_, a) in pending {
        let index = a.instance();
        lb.finish_attempt(a, echo(index));
    }
    assert_eq!(in_flight(&lb), vec![0, 0, 0]);
}

#[test]
fn grpc_requests_target_the_grpc_port() {
    let lb = balancer("round_robin", None);
    assert_eq!(
        lb.target_url(0, Protocol::Grpc, "/notes.Notes/Get"),
        Some("http://10.0.0.1:50051/notes.Notes/Get".to_string())
    );
    assert_eq!(
        lb.target_url(0, Protocol::Rest, "/x?y=1"),
        Some("http://10.0.0.1:8000/x?y=1".to_string())
    );
    assert_eq!(
        lb.target_url(1, Protocol::Grpc, ""),
        Some("http://10.0.0.2:50052".to_string())
    );
    assert_eq!(lb.target_url(3, Protocol::Rest, "/"), None);
}

#[test]
fn target_urls_are_https_with_tls_material() {
    let mut cfg = config("round_robin", None);
    cfg.tls = Some(TlsMaterial { cert_path: "c".to_string(), key_path: "k".to_string() });
    let instances = cfg.instances.iter().map(|i| Instance::new(i, &cfg)).collect();
    let lb = LoadBalancer::new(instances, &cfg);
    assert_eq!(
        lb.target_url(2, Protocol::Rest, "/"),
        Some("https://10.0.0.3:8002/".to_string())
    );
}

#[test]
fn health_status_counts_alive_and_all() {
    let mut lb = balancer("round_robin", None);
    assert_eq!(lb.get_health_status(), (3, 3));
    assert_eq!(lb.record_probe(1, Probe::Failed, SECOND), Some(Transition::Lost));
    assert_eq!(lb.get_health_status(), (2, 3));
    assert_eq!(lb.record_probe(1, Probe::Status(200), 2 * SECOND), Some(Transition::Restored));
    assert_eq!(lb.get_health_status(), (3, 3));
    assert_eq!(lb.record_probe(3, Probe::Failed, SECOND), None);
    assert_eq!(lb.get_health_status(), (3, 3));
}

#[test]
fn health_response_reports_counts() {
    let mut lb = balancer("round_robin", None);
    let (status, body) = lb.health_response();
    assert_eq!(status, 200);
    assert_eq!(body, "{\"status\":\"healthy\",\"alive_instances\":3,\"total_instances\":3}");
    lb.health_check_all(&[(Probe::Failed, 1), (Probe::Status(500), 2)]);
    let (status, body) = lb.health_response();
    assert_eq!(status, 200);
    assert_eq!(body, "{\"status\":\"healthy\",\"alive_instances\":1,\"total_instances\":3}");
    lb.record_probe(2, Probe::Failed, 3);
    let (status, body) = lb.health_response();
    assert_eq!(status, 503);
    assert_eq!(body, "{\"status\":\"unhealthy\",\"alive_instances\":0,\"total_instances\":3}");
}

#[test]
fn a_sweep_applies_each_result_to_its_instance() {
    let mut lb = balancer("round_robin", None);
    lb.health_check_all(&[
        (Probe::Status(200), 10 * SECOND),
        (Probe::Failed, 11 * SECOND),
        (Probe::Status(204), 12 * SECOND),
        (Probe::Failed, 13 * SECOND),
    ]);
    let alive: Vec<bool> = lb.instances.iter().map(|i| i.is_alive()).collect();
    assert_eq!(alive, vec![true, false, true]);
    let healthy: Vec<Option<u64>> = lb.instances.iter().map(|i| i.last_healthy()).collect();
    assert_eq!(healthy, vec![Some(10 * SECOND), None, Some(12 * SECOND)]);
}

#[test]
fn dead_instances_are_no_candidates() {
    let mut lb = balancer("round_robin", None);
    lb.record_probe(0, Probe::Failed, SECOND);
    let mut bodies = Vec::new();
    for _ in 0..4 {
        let (seen, _) = dispatch(&mut lb, &echo);
        bodies.push(seen.unwrap().1);
    }
    assert_eq!(bodies, vec!["B", "C", "B", "C"]);
}

#[test]
fn a_retryable_failure_does_not_take_the_instance_out_of_the_fleet() {
    let mut lb = balancer("round_robin", None);
    let (seen, _) = dispatch(&mut lb, &|index| {
        if index == 0 {
            Outcome::Timeout
        } else {
            echo(index)
        }
    });
    // Instance 0 left the candidates; the cursor, now 1, names instance 2 among
    // the two that are left.
    assert_eq!(seen, Ok((200, "C".to_string())));
    assert_eq!(lb.get_health_status(), (3, 3));
    assert_eq!(lb.forward_request().ok().unwrap().remaining(), 3);
}

#[test]
fn oversized_bodies_are_rejected_with_413() {
    assert_eq!(check_body_size(10, Some(10)), Ok(()));
    assert_eq!(check_body_size(11, Some(10)), Err(413));
    assert_eq!(check_body_size(0, Some(0)), Ok(()));
    assert_eq!(check_body_size(usize::MAX, None), Ok(()));
}

#[test]
fn every_header_but_host_is_relayed() {
    assert!(relays_header("x-trace"));
    assert!(relays_header("content-type"));
    assert!(relays_header("hosts"));
    assert!(relays_header(""));
    assert!(!relays_header("host"));
}

#[test]
fn a_request_keeps_its_url_path_and_query_on_every_attempt() {
    let mut lb = balancer("round_robin", Some(1));
    let d = lb.forward_request().ok().unwrap();
    let a = match lb.next_attempt(d) {
        Step::Forward(a) => a,
        Step::Fail(status) => panic!("failed with {}", status),
    };
    assert_eq!(
        lb.target_url(a.instance(), Protocol::Rest, "/x?trace=abc"),
        Some("http://10.0.0.1:8000/x?trace=abc".to_string())
    );
    let d = match lb.finish_attempt(a, Outcome::<String>::TransportError) {
        Verdict::Retry(d) => d,
        _ => panic!("not retried"),
    };
    let a = match lb.next_attempt(d) {
        Step::Forward(a) => a,
        Step::Fail(status) => panic!("failed with {}", status),
    };
    assert_eq!(a.instance(), 2);
    assert_eq!(
        lb.target_url(a.instance(), Protocol::Rest, "/x?trace=abc"),
        Some("http://10.0.0.3:8002/x?trace=abc".to_string())
    );
    assert!(matches!(
        lb.finish_attempt(a, Outcome::<String>::TransportError),
        Verdict::Fail(502)
    ));
    assert_eq!(in_flight(&lb), vec![0, 0, 0]);
}

fn post_with_trace() -> Request {
    Request {
        method: "POST".to_string(),
        path_and_query: "/notes?x=1".to_string(),
        headers: vec![
            Header { name: "host".to_string(), value: b"balancer:80".to_vec() },
            Header { name: "x-trace".to_string(), value: b"abc".to_vec() },
            Header { name: "content-type".to_string(), value: b"application/json".to_vec() },
        ],
        body: b"{\"k\":1}".to_vec(),
    }
}

fn names_and_values(headers: &[Header]) -> Vec<(String, Vec<u8>)> {
    headers.iter().map(|h| (h.name.clone(), h.value.clone())).collect()
}

#[test]
fn method_headers_and_body_are_relayed() {
    let request = post_with_trace();
    let out = compose(&request, "http://10.0.0.1:8000");
    assert_eq!(out.url, "http://10.0.0.1:8000/notes?x=1");
    assert_eq!(out.method, "POST");
    assert_eq!(out.body, b"{\"k\":1}".to_vec());
    assert_eq!(
        names_and_values(&out.headers),
        vec![
            ("x-trace".to_string(), b"abc".to_vec()),
            ("content-type".to_string(), b"application/json".to_vec()),
        ]
    );
    // The inbound request is left as it was, for the next attempt.
    assert_eq!(request.headers.len(), 3);
    assert_eq!(request.body, b"{\"k\":1}".to_vec());
}

#[test]
fn a_request_without_headers_and_body_is_relayed() {
    let request = Request {
        method: "GET".to_string(),
        path_and_query: "".to_string(),
        headers: vec![],
        body: vec![],
    };
    let out = compose(&request, "http://h:1");
    assert_eq!(out.url, "http://h:1");
    assert_eq!(out.method, "GET");
    assert!(out.headers.is_empty());
    assert!(out.body.is_empty());
}

#[test]
fn the_outbound_request_goes_to_the_port_of_its_protocol() {
    let mut lb = balancer("round_robin", None);
    let request = post_with_trace();

    let d = lb.forward_grpc_request().ok().unwrap();
    assert_eq!(d.protocol(), Protocol::Grpc);
    let a = match lb.next_attempt(d) {
        Step::Forward(a) => a,
        Step::Fail(status) => panic!("failed with {}", status),
    };
    assert_eq!(a.instance(), 0);
    let grpc = lb.outbound_request(&a, &request);
    assert_eq!(grpc.url, "http://10.0.0.1:50051/notes?x=1");
    assert_eq!(grpc.method, "POST");
    assert_eq!(grpc.body, request.body);
    assert_eq!(grpc.headers.len(), 2);
    lb.finish_attempt(a, Outcome::Response { status: 200, payload: () });

    let d = lb.forward_request().ok().unwrap();
    assert_eq!(d.protocol(), Protocol::Rest);
    let a = match lb.next_attempt(d) {
        Step::Forward(a) => a,
        Step::Fail(status) => panic!("failed with {}", status),
    };
    assert_eq!(a.instance(), 1);
    let rest = lb.outbound_request(&a, &request);
    assert_eq!(rest.url, "http://10.0.0.2:8001/notes?x=1");
    lb.finish_attempt(a, Outcome::Response { status: 200, payload: () });
    assert_eq!(in_flight(&lb), vec![0, 0, 0]);
}

#[test]
fn grpc_requests_fail_over_like_rest_requests() {
    let mut lb = balancer("round_robin", Some(1));
    let d = lb.forward_grpc_request().ok().unwrap();
    let a = match lb.next_attempt(d) {
        Step::Forward(a) => a,
        Step::Fail(status) => panic!("failed with {}", status),
    };
    let d = match lb.finish_attempt(a, Outcome::<()>::Timeout) {
        Verdict::Retry(d) => d,
        _ => panic!("not retried"),
    };
    assert_eq!(d.protocol(), Protocol::Grpc);
    let a = match lb.next_attempt(d) {
        Step::Forward(a) => a,
        Step::Fail(status) => panic!("failed with {}", status),
    };
    assert_eq!(lb.outbound_request(&a, &post_with_trace()).url, "http://10.0.0.3:50053/notes?x=1");
    assert!(matches!(lb.finish_attempt(a, Outcome::<()>::Timeout), Verdict::Fail(504)));
    lb.health_check_all(&[(Probe::Failed, 1), (Probe::Failed, 1), (Probe::Failed, 1)]);
    assert!(matches!(lb.forward_grpc_request(), Err(503)));
}
