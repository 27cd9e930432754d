use ballista_aws_tools::error::ToolError;
use ballista_aws_tools::fargate::{
    Attachment, KeyValuePair, RunTaskOutput, TaskDefinitionInfo, TaskDescription,
    MAX_CONCURRENT_STARTS,
};
use ballista_aws_tools::provision::{
    ProvisionAction, ProvisionPhase, ProvisionSession, PROVISION_POLL_MS, SETTLE_DELAY_MS,
};

fn described(arn: &str, address: Option<&str>) -> TaskDescription {
    let mut details = vec![KeyValuePair {
        name: Some("subnetId".to_string()),
        value: Some("subnet-1".to_string()),
    }];
    if let Some(a) = address {
        details.push(KeyValuePair {
            name: Some("privateIPv4Address".to_string()),
            value: Some(a.to_string()),
        });
    }
    TaskDescription {
        task_arn: Some(arn.to_string()),
        attachments: vec![Attachment { details }],
    }
}

fn started(arn: &str) -> RunTaskOutput {
    RunTaskOutput { task_arns: vec![Some(arn.to_string())], failures: vec![] }
}

fn family_answer() -> Result<Option<TaskDefinitionInfo>, ToolError> {
    Ok(Some(TaskDefinitionInfo { family: Some("executor".to_string()) }))
}

/// Drives a session against a simulated provider whose starts answer in the
/// order they were issued, and whose tasks all have addresses at the first
/// describe. Returns the outcome, the number of starts, the peak of starts in
/// flight, and the number of provider calls.
fn drive(desired: usize, existing: Vec<String>) -> (Result<Vec<String>, ToolError>, usize, usize, usize) {
    let mut s = ProvisionSession::new(desired);
    let mut pending: Vec<String> = Vec::new();
    let mut starts = 0usize;
    let mut peak = 0usize;
    let mut calls = 0usize;
    let mut listed = Some(existing);
    loop {
        match s.next_action() {
            ProvisionAction::DescribeDefinition => {
                calls += 1;
                s.on_definition(family_answer());
            }
            ProvisionAction::ListRunning(family) => {
                assert_eq!(family, "executor");
                calls += 1;
                s.on_listed(Ok(listed.take()));
            }
            ProvisionAction::StartTask => {
                calls += 1;
                starts += 1;
                pending.push(format!("new-{}", starts));
                s.on_start_issued();
                peak = peak.max(s.in_flight);
            }
            ProvisionAction::AwaitStart => {
                let arn = pending.remove(0);
                s.on_started(Ok(started(&arn)));
            }
            ProvisionAction::Sleep(_) => s.on_slept(),
            ProvisionAction::DescribeTasks(arns) => {
                calls += 1;
                let d = arns
                    .iter()
                    .rev()
                    .map(|a| described(a, Some(&format!("ip-{}", a))))
                    .collect();
                s.on_described(Ok(d));
            }
            ProvisionAction::Finished => break,
        }
    }
    (s.into_outcome(), starts, peak, calls)
}

#[test]
fn zero_desired_makes_no_call() {
    let s = ProvisionSession::new(0);
    assert!(matches!(s.next_action(), ProvisionAction::Finished));
    let (outcome, starts, _, calls) = drive(0, vec!["a".to_string()]);
    assert_eq!(outcome.unwrap(), Vec::<String>::new());
    assert_eq!(starts, 0);
    assert_eq!(calls, 0);
}

#[test]
fn fan_out_never_exceeds_five_in_flight() {
    let (outcome, starts, peak, _) = drive(20, vec![]);
    assert_eq!(starts, 20);
    assert!(peak <= 5);
    assert_eq!(peak, MAX_CONCURRENT_STARTS);
    assert_eq!(outcome.unwrap().len(), 20);
}

#[test]
fn starts_only_the_shortfall_existing_first() {
    let (outcome, starts, _, _) = drive(3, vec!["old-1".to_string(), "old-2".to_string()]);
    assert_eq!(starts, 1);
    assert_eq!(
        outcome.unwrap(),
        vec!["ip-old-1".to_string(), "ip-old-2".to_string(), "ip-new-1".to_string()]
    );
}

#[test]
fn excess_existing_tasks_are_ignored() {
    let existing: Vec<String> = (1..=5).map(|i| format!("old-{}", i)).collect();
    let (outcome, starts, _, _) = drive(3, existing);
    assert_eq!(starts, 0);
    assert_eq!(
        outcome.unwrap(),
        vec!["ip-old-1".to_string(), "ip-old-2".to_string(), "ip-old-3".to_string()]
    );
}

#[test]
fn create_counts_match_shortfall() {
    for desired in 0..8usize {
        for existing in 0..8usize {
            let list = (0..existing).map(|i| format!("old-{}", i)).collect();
            let (outcome, starts, _, _) = drive(desired, list);
            let expected_starts = desired - existing.min(desired);
            assert_eq!(starts, expected_starts);
            assert_eq!(outcome.unwrap().len(), desired.min(existing + starts));
        }
    }
}

#[test]
fn reported_failure_aborts_even_with_a_task() {
    let mut s = ProvisionSession::new(2);
    s.on_definition(family_answer());
    s.on_listed(Ok(None));
    assert!(matches!(s.phase, ProvisionPhase::Starting));
    s.on_start_issued();
    s.on_start_issued();
    s.on_started(Ok(RunTaskOutput {
        task_arns: vec![Some("t1".to_string())],
        failures: vec!["RESOURCE:ENI".to_string()],
    }));
    assert!(matches!(s.next_action(), ProvisionAction::Finished));
    assert!(matches!(s.into_outcome(), Err(ToolError::Api(_))));
}

#[test]
fn listing_error_is_propagated() {
    let mut s = ProvisionSession::new(1);
    s.on_definition(family_answer());
    s.on_listed(Err(ToolError::Timeout("list".to_string())));
    assert!(matches!(s.into_outcome(), Err(ToolError::Timeout(m)) if m == "list"));
}

#[test]
fn missing_family_is_an_api_error() {
    let mut s = ProvisionSession::new(1);
    s.on_definition(Ok(Some(TaskDefinitionInfo { family: None })));
    assert!(matches!(s.into_outcome(), Err(ToolError::Api(_))));
}

#[test]
fn waits_until_every_task_has_an_address() {
    let mut s = ProvisionSession::new(1);
    s.on_definition(family_answer());
    s.on_listed(Ok(Some(vec![])));
    assert!(matches!(s.next_action(), ProvisionAction::StartTask));
    s.on_start_issued();
    assert!(matches!(s.next_action(), ProvisionAction::AwaitStart));
    s.on_started(Ok(started("t1")));
    assert!(matches!(s.next_action(), ProvisionAction::Sleep(SETTLE_DELAY_MS)));
    s.on_slept();
    match s.next_action() {
        ProvisionAction::DescribeTasks(arns) => assert_eq!(arns, vec!["t1".to_string()]),
        other => panic!("unexpected {:?}", other),
    }
    s.on_described(Ok(vec![described("t1", None)]));
    assert!(matches!(s.next_action(), ProvisionAction::Sleep(PROVISION_POLL_MS)));
    s.on_slept();
    s.on_described(Ok(vec![described("t1", Some("10.0.0.7"))]));
    assert_eq!(s.into_outcome().unwrap(), vec!["10.0.0.7".to_string()]);
}

#[test]
fn describe_error_is_not_retried() {
    let mut s = ProvisionSession::new(1);
    s.on_definition(family_answer());
    s.on_listed(Ok(Some(vec!["t1".to_string()])));
    s.on_described(Err(ToolError::Api("boom".to_string())));
    assert!(matches!(s.next_action(), ProvisionAction::Finished));
    assert!(matches!(s.into_outcome(), Err(ToolError::Api(_))));
}
