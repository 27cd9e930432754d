use vstd::prelude::*;

use crate::error::ToolError;
use crate::fargate::{
    missing_count, plan_provisioning, provisioned_addresses, reused_count, run_task_succeeded,
    started_task_arn, string_views, task_family, RunTaskOutput, TaskDefinitionInfo,
    TaskDescription, MAX_CONCURRENT_STARTS,
};
use crate::polling::{readiness_step, PollStep};

verus! {

/// Pause between the last start and the first describe, in milliseconds.
pub const SETTLE_DELAY_MS: u64 = 1000;

/// Pause between two describes of tasks that are not all addressed yet, in milliseconds.
pub const PROVISION_POLL_MS: u64 = 200;

/// Where a provisioning session stands.
#[derive(Debug)]
pub enum ProvisionPhase {
    /// The task definition must be described to learn its family.
    DescribingDefinition,
    /// The running tasks of the family must be listed.
    Listing,
    /// New tasks are being started, a few at a time.
    Starting,
    /// All starts returned; the session pauses before the first describe.
    Settling,
    /// The tasks must be described.
    Describing,
    /// Some task has no address yet; the session pauses before describing again.
    Waiting,
    /// The session is over; its outcome is known.
    Finished,
}

/// What the caller must do next for a provisioning session.
#[derive(Debug)]
pub enum ProvisionAction {
    /// Describe the task definition, then call `on_definition`.
    DescribeDefinition,
    /// List the running tasks of this family, then call `on_listed`.
    ListRunning(String),
    /// Issue one more start request, call `on_start_issued`, and later
    /// `on_started` with its answer.
    StartTask,
    /// Wait for one start request in flight to answer, then call `on_started`.
    AwaitStart,
    /// Sleep this many milliseconds, then call `on_slept`.
    Sleep(u64),
    /// Describe these tasks in one request, then call `on_described`.
    DescribeTasks(Vec<String>),
    /// Nothing is left to do: take the outcome with `into_outcome`.
    Finished,
}

/// The state of one get-or-provision call: reuse up to `desired` running tasks,
/// start the missing ones with at most `MAX_CONCURRENT_STARTS` in flight, then
/// wait until every task has a private address.
pub struct ProvisionSession {
    pub desired: usize,
    pub phase: ProvisionPhase,
    pub family: String,
    /// Running tasks found by the listing.
    pub existing: usize,
    /// Running tasks kept for this session.
    pub reused: usize,
    /// Start requests issued.
    pub started: usize,
    /// Start requests still to issue.
    pub unstarted: usize,
    /// Start requests issued that have not answered.
    pub in_flight: usize,
    /// Reused tasks first, then started tasks in the order their starts answered.
    pub task_arns: Vec<String>,
    pub outcome: Option<Result<Vec<String>, ToolError>>,
}

impl ProvisionSession {
    /// The invariant that every step keeps.
    pub open spec fn wf(&self) -> bool {
        &&& self.in_flight <= MAX_CONCURRENT_STARTS
        &&& self.in_flight <= self.started
        &&& self.desired == 0 ==> self.started == 0
        &&& self.started <= missing_count(self.existing as nat, self.desired as nat)
        &&& (self.phase is Starting || self.phase is Settling || self.phase is Describing
            || self.phase is Waiting) ==> self.started + self.unstarted == missing_count(
            self.existing as nat,
            self.desired as nat,
        )
        &&& (self.phase is Finished <==> self.outcome is Some)
        &&& (self.phase is DescribingDefinition || self.phase is Listing) ==> {
            &&& self.desired > 0
            &&& self.started == 0
            &&& self.unstarted == 0
            &&& self.in_flight == 0
            &&& self.task_arns@.len() == 0
        }
        &&& (self.phase is Starting || self.phase is Settling || self.phase is Describing
            || self.phase is Waiting) ==> {
            &&& self.desired > 0
            &&& self.reused == reused_count(self.existing as nat, self.desired as nat)
            &&& self.reused + self.started + self.unstarted == self.desired
            &&& self.task_arns@.len() + self.in_flight == self.reused + self.started
        }
        &&& self.phase is Starting ==> self.unstarted + self.in_flight > 0
        &&& (self.phase is Settling || self.phase is Describing || self.phase is Waiting) ==> {
            &&& self.unstarted == 0
            &&& self.in_flight == 0
        }
        &&& self.outcome matches Some(Ok(v)) ==> {
            &&& v@.len() == self.desired
            &&& self.desired > 0 ==> self.started == missing_count(
                self.existing as nat,
                self.desired as nat,
            )
        }
    }

    /// A session that wants `desired` tasks; with none wanted it is over at
    /// once, with an empty list and no request to make.
    pub fn new(desired: usize) -> (r: ProvisionSession)
        ensures
            r.wf(),
            r.desired == desired,
            r.started == 0,
            desired == 0 ==> (r.phase is Finished && (r.outcome matches Some(Ok(v)) && v@.len()
                == 0)),
            desired > 0 ==> r.phase is DescribingDefinition,
    {
        let finished = desired == 0;
        ProvisionSession {
            desired,
            phase: if finished {
                ProvisionPhase::Finished
            } else {
                ProvisionPhase::DescribingDefinition
            },
            family: String::new(),
            existing: 0,
            reused: 0,
            started: 0,
            unstarted: 0,
            in_flight: 0,
            task_arns: Vec::new(),
            outcome: if finished {
                Some(Ok(Vec::new()))
            } else {
                None
            },
        }
    }
    /// What the caller must do next.
    pub fn next_action(&self) -> (r: ProvisionAction)
        requires
            self.wf(),
        ensures
            self.phase is DescribingDefinition ==> r is DescribeDefinition,
            self.phase is Listing ==> (r matches ProvisionAction::ListRunning(f) && f@
                == self.family@),
            self.phase is Starting ==> if self.unstarted > 0 && self.in_flight
                < MAX_CONCURRENT_STARTS {
                r is StartTask
            } else {
                r is AwaitStart
            },
            self.phase is Settling ==> (r matches ProvisionAction::Sleep(ms) && ms
                == SETTLE_DELAY_MS),
            self.phase is Describing ==> (r matches ProvisionAction::DescribeTasks(v) && v@
                == self.task_arns@),
            self.phase is Waiting ==> (r matches ProvisionAction::Sleep(ms) && ms
                == PROVISION_POLL_MS),
            self.phase is Finished ==> r is Finished,
    {
        match self.phase {
            ProvisionPhase::DescribingDefinition => ProvisionAction::DescribeDefinition,
            ProvisionPhase::Listing => ProvisionAction::ListRunning(self.family.clone()),
            ProvisionPhase::Starting => {
                if self.unstarted > 0 && self.in_flight < MAX_CONCURRENT_STARTS {
                    ProvisionAction::StartTask
                } else {
                    ProvisionAction::AwaitStart
                }
            },
            ProvisionPhase::Settling => ProvisionAction::Sleep(SETTLE_DELAY_MS),
            ProvisionPhase::Describing => ProvisionAction::DescribeTasks(
                copy_strings(&self.task_arns),
            ),
            ProvisionPhase::Waiting => ProvisionAction::Sleep(PROVISION_POLL_MS),
            ProvisionPhase::Finished => ProvisionAction::Finished,
        }
    }

    /// Takes the provider's description of the task definition.
    pub fn on_definition(&mut self, answer: Result<Option<TaskDefinitionInfo>, ToolError>)
        requires
            old(self).wf(),
            old(self).phase is DescribingDefinition,
        ensures
            final(self).wf(),
            final(self).desired == old(self).desired,
            final(self).started == 0,
            answer matches Ok(Some(d)) ==> (d.family is Some ==> (final(self).phase is Listing
                && final(self).family@ == d.family->0@)),
            !(answer matches Ok(Some(d)) && d.family is Some) ==> (final(self).phase is Finished
                && final(self).outcome matches Some(Err(_))),
            answer is Ok && !(answer matches Ok(Some(d)) && d.family is Some) ==> (final(self).outcome matches Some(Err(e)) && e is Api),
            answer matches Err(e) ==> final(self).outcome == Some(
                Err::<Vec<String>, ToolError>(e),
            ),
    {
        match answer {
            Ok(definition) => match task_family(&definition) {
                Ok(family) => {
                    self.family = family;
                    self.phase = ProvisionPhase::Listing;
                },
                Err(e) => self.finish(Err(e)),
            },
            Err(e) => self.finish(Err(e)),
        }
    }

    /// Takes the provider's list of running tasks of the family; no list at
    /// all counts as an empty one.
    pub fn on_listed(&mut self, answer: Result<Option<Vec<String>>, ToolError>)
        requires
            old(self).wf(),
            old(self).phase is Listing,
        ensures
            final(self).wf(),
            final(self).desired == old(self).desired,
            answer matches Ok(listed) ==> {
                let running = listed_arns(listed);
                let missing = missing_count(running.len(), old(self).desired as nat);
                &&& final(self).existing == running.len()
                &&& final(self).task_arns@ == running.take(
                    reused_count(running.len(), old(self).desired as nat) as int,
                )
                &&& final(self).unstarted == missing
                &&& final(self).started == 0
                &&& final(self).in_flight == 0
                &&& if missing > 0 {
                    final(self).phase is Starting
                } else {
                    final(self).phase is Describing
                }
            },
            answer matches Err(e) ==> (final(self).phase is Finished && final(self).outcome
                == Some(Err::<Vec<String>, ToolError>(e))),
    {
        match answer {
            Ok(listed) => {
                let running = match listed {
                    Some(v) => v,
                    None => Vec::new(),
                };
                self.existing = running.len();
                let plan = plan_provisioning(running, self.desired);
                self.reused = plan.reused.len();
                self.task_arns = plan.reused;
                self.unstarted = plan.missing;
                if plan.missing > 0 {
                    self.phase = ProvisionPhase::Starting;
                } else {
                    self.phase = ProvisionPhase::Describing;
                }
            },
            Err(e) => self.finish(Err(e)),
        }
    }

    /// Records that one more start request was issued.
    pub fn on_start_issued(&mut self)
        requires
            old(self).wf(),
            old(self).phase is Starting,
            old(self).unstarted > 0,
            old(self).in_flight < MAX_CONCURRENT_STARTS,
        ensures
            final(self).wf(),
            final(self).phase is Starting,
            final(self).desired == old(self).desired,
            final(self).unstarted == old(self).unstarted - 1,
            final(self).started == old(self).started + 1,
            final(self).in_flight == old(self).in_flight + 1,
            final(self).task_arns@ == old(self).task_arns@,
    {
        self.unstarted = self.unstarted - 1;
        self.started = self.started + 1;
        self.in_flight = self.in_flight + 1;
    }

    /// Takes the answer to one start request in flight. The first failure
    /// ends the session; tasks already started are left running.
    pub fn on_started(&mut self, answer: Result<RunTaskOutput, ToolError>)
        requires
            old(self).wf(),
            old(self).phase is Starting,
            old(self).in_flight > 0,
        ensures
            final(self).wf(),
            final(self).desired == old(self).desired,
            final(self).started == old(self).started,
            answer matches Ok(out) ==> run_task_succeeded(out) ==> {
                &&& final(self).in_flight == old(self).in_flight - 1
                &&& final(self).unstarted == old(self).unstarted
                &&& final(self).task_arns@.len() == old(self).task_arns@.len() + 1
                &&& final(self).task_arns@.drop_last() == old(self).task_arns@
                &&& final(self).task_arns@.last()@ == out.task_arns@[0]->0@
                &&& if final(self).unstarted == 0 && final(self).in_flight == 0 {
                    final(self).phase is Settling
                } else {
                    final(self).phase is Starting
                }
            },
            !(answer matches Ok(out) && run_task_succeeded(out)) ==> (final(self).phase is Finished
                && final(self).outcome matches Some(Err(_))),
            answer matches Ok(out) && !run_task_succeeded(out) ==> (final(self).outcome matches Some(
                Err(e),
            ) && e is Api),
            answer matches Err(e) ==> final(self).outcome == Some(
                Err::<Vec<String>, ToolError>(e),
            ),
    {
        let checked = match answer {
            Ok(out) => started_task_arn(&out),
            Err(e) => Err(e),
        };
        match checked {
            Ok(arn) => {
                self.in_flight = self.in_flight - 1;
                self.task_arns.push(arn);
                proof {
                    assert(self.task_arns@.drop_last() == old(self).task_arns@);
                }
                if self.unstarted == 0 && self.in_flight == 0 {
                    self.phase = ProvisionPhase::Settling;
                }
            },
            Err(e) => self.finish(Err(e)),
        }
    }

    /// Records that the requested pause is over.
    pub fn on_slept(&mut self)
        requires
            old(self).wf(),
            old(self).phase is Settling || old(self).phase is Waiting,
        ensures
            final(self).wf(),
            final(self).phase is Describing,
            final(self).desired == old(self).desired,
            final(self).started == old(self).started,
            final(self).task_arns@ == old(self).task_arns@,
    {
        self.phase = ProvisionPhase::Describing;
    }

    /// Takes the provider's description of the session's tasks: once every
    /// task has a private address the session is over with those addresses,
    /// in task order; until then it pauses and describes again.
    pub fn on_described(&mut self, answer: Result<Vec<TaskDescription>, ToolError>)
        requires
            old(self).wf(),
            old(self).phase is Describing,
        ensures
            final(self).wf(),
            final(self).desired == old(self).desired,
            final(self).started == old(self).started,
            final(self).task_arns@ == old(self).task_arns@,
            answer matches Ok(d) ==> match provisioned_addresses(old(self).task_arns@, d@) {
                Some(addrs) => final(self).phase is Finished && (final(self).outcome matches Some(
                    Ok(v),
                ) && string_views(v@) == addrs),
                None => final(self).phase is Waiting,
            },
            answer matches Err(e) ==> (final(self).phase is Finished && final(self).outcome
                == Some(Err::<Vec<String>, ToolError>(e))),
    {
        match readiness_step(&self.task_arns, answer) {
            PollStep::Done(addresses) => {
                proof {
                    assert(string_views(addresses@).len() == addresses@.len());
                }
                self.phase = ProvisionPhase::Finished;
                self.outcome = Some(Ok(addresses));
            },
            PollStep::Retry(_) => self.phase = ProvisionPhase::Waiting,
            PollStep::Fail(e) => self.finish(Err(e)),
        }
    }

    /// The outcome of a finished session.
    pub fn into_outcome(self) -> (r: Result<Vec<String>, ToolError>)
        requires
            self.wf(),
            self.phase is Finished,
        ensures
            self.outcome == Some(r),
    {
        match self.outcome {
            Some(r) => r,
            None => Err(ToolError::Api(String::from_str("the session has no outcome"))),
        }
    }

    fn finish(&mut self, failure: Result<Vec<String>, ToolError>)
        requires
            old(self).wf(),
            !(old(self).phase is Finished),
            failure is Err,
        ensures
            final(self).wf(),
            final(self).phase is Finished,
            final(self).outcome == Some(failure),
            final(self).desired == old(self).desired,
            final(self).started == old(self).started,
            final(self).task_arns@ == old(self).task_arns@,
    {
        self.phase = ProvisionPhase::Finished;
        self.outcome = Some(failure);
    }
}

/// The running tasks that a listing reports; none when it reports no list.
pub open spec fn listed_arns(listed: Option<Vec<String>>) -> Seq<String> {
    match listed {
        Some(v) => v@,
        None => Seq::empty(),
    }
}

fn copy_strings(v: &Vec<String>) -> (r: Vec<String>)
    ensures
        r@ == v@,
{
    let mut r: Vec<String> = Vec::new();
    let mut i: usize = 0;
    while i < v.len()
        invariant
            i <= v.len(),
            r@ == v@.take(i as int),
        decreases v.len() - i,
    {
        r.push(v[i].clone());
        assert(v@.take(i + 1) == v@.take(i as int).push(v@[i as int]));
        i = i + 1;
    }
    assert(v@.take(v.len() as int) == v@);
    r
}

/// A session never has more than `MAX_CONCURRENT_STARTS` start requests in
/// flight, however many tasks are missing.
pub proof fn lemma_starts_in_flight_bounded(s: ProvisionSession)
    requires
        s.wf(),
    ensures
        s.in_flight <= MAX_CONCURRENT_STARTS,
        s.in_flight <= s.started,
{
}

/// A session never issues more than `max(0, desired - min(existing,
/// desired))` start requests: once the running tasks are listed, the starts
/// issued and those still to issue always add up to that count, and each
/// `StartTask` moves one from the second to the first. A session that succeeds
/// has issued exactly that many and returns `min(desired, existing + started)`
/// addresses; a session that wants none issues none and returns none.
pub proof fn lemma_session_start_counts(s: ProvisionSession)
    requires
        s.wf(),
    ensures
        (s.phase is Starting || s.phase is Settling || s.phase is Describing
            || s.phase is Waiting) ==> s.started + s.unstarted == missing_count(
            s.existing as nat,
            s.desired as nat,
        ),
        s.started <= missing_count(s.existing as nat, s.desired as nat),
        s.desired == 0 ==> s.started == 0,
        s.outcome matches Some(Ok(v)) ==> {
            &&& s.desired > 0 ==> s.started == missing_count(s.existing as nat, s.desired as nat)
            &&& s.desired > 0 ==> v@.len() == if s.desired <= s.existing + s.started {
                s.desired as int
            } else {
                s.existing + s.started
            }
            &&& s.desired == 0 ==> v@.len() == 0
        },
{
    crate::fargate::lemma_plan_counts(s.existing as nat, s.desired as nat);
}

} // verus!
