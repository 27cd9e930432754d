use vstd::prelude::*;

use crate::error::ToolError;
use crate::fargate::{
    metadata_address, provisioned_addresses, provisioned_task_addresses, published_address,
    string_views, FargateMetadata, TaskDescription,
};
use crate::provision::PROVISION_POLL_MS;

verus! {

/// Pause after a poll that found the answer not ready yet, in milliseconds.
pub const POLL_INTERVAL_MS: u64 = 200;

/// Pause after a poll that could not reach the scheduler, in milliseconds.
pub const UNREACHABLE_RETRY_MS: u64 = 500;

/// What one HTTP poll brought back: nothing, or a body and, when the body has
/// the expected shape, its decoded value.
#[derive(Debug)]
pub enum PollResponse<T> {
    Unreachable,
    Received(Vec<u8>, Option<T>),
}

/// What a polling loop does after one poll.
#[derive(Debug)]
pub enum PollStep<T> {
    /// The wait is over with this value.
    Done(T),
    /// Poll again after this many milliseconds.
    Retry(u64),
    /// The wait is over with this error.
    Fail(ToolError),
}

/// One poll of a task's own metadata: the published address ends the wait; a
/// body that is not metadata fails at once, with the body; no answer, or no
/// address yet, is polled again.
pub fn discovery_step(response: PollResponse<FargateMetadata>) -> (r: PollStep<String>)
    ensures
        match response {
            PollResponse::Unreachable => r matches PollStep::Retry(ms) && ms == POLL_INTERVAL_MS,
            PollResponse::Received(body, None) => r matches PollStep::Fail(
                ToolError::MetadataFormat(b),
            ) && b@ == body@,
            PollResponse::Received(_, Some(m)) => match metadata_address(m) {
                Some(a) => r matches PollStep::Done(s) && s@ == a,
                None => r matches PollStep::Retry(ms) && ms == POLL_INTERVAL_MS,
            },
        },
{
    match response {
        PollResponse::Unreachable => PollStep::Retry(POLL_INTERVAL_MS),
        PollResponse::Received(body, None) => PollStep::Fail(ToolError::MetadataFormat(body)),
        PollResponse::Received(_, Some(m)) => match published_address(&m) {
            Some(a) => PollStep::Done(a),
            None => PollStep::Retry(POLL_INTERVAL_MS),
        },
    }
}

/// One describe of tasks while waiting for their addresses: once every task
/// has a private address the wait is over with those addresses, in task order;
/// until then it describes again; a failed describe ends it with its error.
pub fn readiness_step(arns: &Vec<String>, answer: Result<Vec<TaskDescription>, ToolError>) -> (r:
    PollStep<Vec<String>>)
    ensures
        match answer {
            Err(e) => r matches PollStep::Fail(f) && f == e,
            Ok(d) => match provisioned_addresses(arns@, d@) {
                Some(a) => r matches PollStep::Done(v) && string_views(v@) == a,
                None => r matches PollStep::Retry(ms) && ms == PROVISION_POLL_MS,
            },
        },
{
    match answer {
        Err(e) => PollStep::Fail(e),
        Ok(described) => match provisioned_task_addresses(arns, &described) {
            Some(addresses) => PollStep::Done(addresses),
            None => PollStep::Retry(PROVISION_POLL_MS),
        },
    }
}

/// An executor that a scheduler reports as registered.
#[derive(Debug, Clone)]
pub struct RegisteredExecutors {
    pub id: String,
    pub host: String,
    pub port: u16,
}

/// What a scheduler reports of its state.
#[derive(Debug, Clone)]
pub struct SchedulerState {
    pub executors: Vec<RegisteredExecutors>,
}

/// One poll of a scheduler's state while waiting for `min_executors` executors:
/// enough registered executors end the wait; a body that is not a state fails
/// at once, with the body; an unreachable scheduler, or too few executors, is
/// polled again.
pub fn quorum_step(response: PollResponse<SchedulerState>, min_executors: usize) -> (r: PollStep<
    (),
>)
    ensures
        match response {
            PollResponse::Unreachable => r matches PollStep::Retry(ms) && ms
                == UNREACHABLE_RETRY_MS,
            PollResponse::Received(body, None) => r matches PollStep::Fail(
                ToolError::MetadataFormat(b),
            ) && b@ == body@,
            PollResponse::Received(_, Some(state)) => if state.executors@.len() >= min_executors {
                r is Done
            } else {
                r matches PollStep::Retry(ms) && ms == POLL_INTERVAL_MS
            },
        },
{
    match response {
        PollResponse::Unreachable => PollStep::Retry(UNREACHABLE_RETRY_MS),
        PollResponse::Received(body, None) => PollStep::Fail(ToolError::MetadataFormat(body)),
        PollResponse::Received(_, Some(state)) => {
            if state.executors.len() >= min_executors {
                PollStep::Done(())
            } else {
                PollStep::Retry(POLL_INTERVAL_MS)
            }
        },
    }
}

/// Connection attempts made before a control connection is given up.
pub const CONNECT_ATTEMPTS: u8 = 3;

/// The message of the error that ends the attempts to connect to `endpoint`.
pub open spec fn connect_failure_message(endpoint: Seq<char>) -> Seq<char> {
    "connection failed to scheduler at "@ + endpoint
}

/// Decides what follows the failure of connection attempt number `attempt`
/// (counted from zero): the number of the next attempt, or, once
/// `CONNECT_ATTEMPTS` attempts have failed, a `Connect` error naming the endpoint.
pub fn after_connect_failure(attempt: u8, endpoint: &str) -> (r: Result<u8, ToolError>)
    ensures
        attempt + 1 < CONNECT_ATTEMPTS ==> r == Ok::<u8, ToolError>((attempt + 1) as u8),
        attempt + 1 >= CONNECT_ATTEMPTS ==> (r matches Err(ToolError::Connect(m)) && m@
            == connect_failure_message(endpoint@)),
{
    if attempt < CONNECT_ATTEMPTS - 1 {
        Ok(attempt + 1)
    } else {
        let mut m = String::from_str("connection failed to scheduler at ");
        m.append(endpoint);
        Err(ToolError::Connect(m))
    }
}

} // verus!
