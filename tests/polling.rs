use ballista_aws_tools::error::ToolError;
use ballista_aws_tools::fargate::{
    Attachment, FargateContainer, FargateMetadata, FargateNetwork, KeyValuePair, TaskDescription,
};
use ballista_aws_tools::polling::{
    after_connect_failure, discovery_step, quorum_step, readiness_step, PollResponse, PollStep,
    CONNECT_ATTEMPTS, POLL_INTERVAL_MS, UNREACHABLE_RETRY_MS,
};
use ballista_aws_tools::{RegisteredExecutors, SchedulerState};

fn state(n: usize) -> SchedulerState {
    SchedulerState {
        executors: (0..n)
            .map(|i| RegisteredExecutors {
                id: format!("e{}", i),
                host: "10.0.0.1".to_string(),
                port: 50051,
            })
            .collect(),
    }
}

fn received(n: usize) -> PollResponse<SchedulerState> {
    PollResponse::Received(b"{}".to_vec(), Some(state(n)))
}

#[test]
fn quorum_waits_for_two_executors() {
    let polls = [1usize, 2, 3];
    let mut done_at = None;
    for (i, n) in polls.iter().enumerate() {
        match quorum_step(received(*n), 2) {
            PollStep::Done(()) => {
                done_at = Some(i);
                break;
            }
            PollStep::Retry(ms) => assert_eq!(ms, POLL_INTERVAL_MS),
            PollStep::Fail(e) => panic!("unexpected {:?}", e),
        }
    }
    assert_eq!(done_at, Some(1));
}

#[test]
fn quorum_retries_unreachable_scheduler() {
    assert!(matches!(
        quorum_step(PollResponse::Unreachable, 1),
        PollStep::Retry(ms) if ms == UNREACHABLE_RETRY_MS
    ));
    assert!(matches!(quorum_step(received(0), 0), PollStep::Done(())));
}

#[test]
fn quorum_fails_on_a_malformed_state() {
    match quorum_step(PollResponse::Received(b"oops".to_vec(), None), 1) {
        PollStep::Fail(ToolError::MetadataFormat(body)) => assert_eq!(body, b"oops".to_vec()),
        other => panic!("unexpected {:?}", other),
    }
}

#[test]
fn discovery_retries_without_containers() {
    let body = br#"{"Containers":[]}"#.to_vec();
    let step = discovery_step(PollResponse::Received(body, Some(FargateMetadata { containers: vec![] })));
    assert!(matches!(step, PollStep::Retry(ms) if ms == POLL_INTERVAL_MS));
    assert!(matches!(discovery_step(PollResponse::Unreachable), PollStep::Retry(_)));
}

#[test]
fn discovery_fails_at_once_on_a_malformed_body() {
    match discovery_step(PollResponse::Received(b"not json".to_vec(), None)) {
        PollStep::Fail(ToolError::MetadataFormat(body)) => assert_eq!(body, b"not json".to_vec()),
        other => panic!("unexpected {:?}", other),
    }
}

#[test]
fn discovery_returns_the_published_address() {
    let m = FargateMetadata {
        containers: vec![FargateContainer {
            networks: vec![FargateNetwork { ipv4_addresses: vec!["54.1.2.3".to_string()] }],
        }],
    };
    match discovery_step(PollResponse::Received(b"{}".to_vec(), Some(m))) {
        PollStep::Done(a) => assert_eq!(a, "54.1.2.3"),
        other => panic!("unexpected {:?}", other),
    }
}

#[test]
fn connect_gives_up_after_three_attempts() {
    assert_eq!(CONNECT_ATTEMPTS, 3);
    assert!(matches!(after_connect_failure(0, "http://s:50050"), Ok(1)));
    assert!(matches!(after_connect_failure(1, "http://s:50050"), Ok(2)));
    match after_connect_failure(2, "http://s:50050") {
        Err(ToolError::Connect(m)) => assert_eq!(m, "connection failed to scheduler at http://s:50050"),
        other => panic!("unexpected {:?}", other),
    }
}

#[test]
fn readiness_step_orders_and_retries() {
    let task = |arn: &str, ip: Option<&str>| TaskDescription {
        task_arn: Some(arn.to_string()),
        attachments: vec![Attachment {
            details: ip
                .map(|a| vec![KeyValuePair {
                    name: Some("privateIPv4Address".to_string()),
                    value: Some(a.to_string()),
                }])
                .unwrap_or_default(),
        }],
    };
    let arns = vec!["a".to_string(), "b".to_string()];
    match readiness_step(&arns, Ok(vec![task("b", Some("10.0.0.2")), task("a", Some("10.0.0.1"))])) {
        PollStep::Done(v) => assert_eq!(v, vec!["10.0.0.1".to_string(), "10.0.0.2".to_string()]),
        other => panic!("unexpected {:?}", other),
    }
    assert!(matches!(
        readiness_step(&arns, Ok(vec![task("a", Some("10.0.0.1")), task("b", None)])),
        PollStep::Retry(200)
    ));
    assert!(matches!(
        readiness_step(&arns, Err(ToolError::Timeout("t".to_string()))),
        PollStep::Fail(ToolError::Timeout(_))
    ));
}

#[test]
fn readiness_retries_on_an_empty_address() {
    let arns = vec!["a".to_string()];
    let described = vec![TaskDescription {
        task_arn: Some("a".to_string()),
        attachments: vec![Attachment {
            details: vec![KeyValuePair {
                name: Some("privateIPv4Address".to_string()),
                value: Some(String::new()),
            }],
        }],
    }];
    assert!(matches!(readiness_step(&arns, Ok(described)), PollStep::Retry(200)));
}
