use vstd::prelude::*;

use crate::error::ToolError;

verus! {

/// Name of the attachment detail that carries a task's private IPv4 address.
pub open spec fn private_address_key() -> Seq<char> {
    "privateIPv4Address"@
}

/// One name/value property of a task's network attachment.
#[derive(Debug, Clone)]
pub struct KeyValuePair {
    pub name: Option<String>,
    pub value: Option<String>,
}

/// A network attachment of a task: its list of properties.
#[derive(Debug, Clone)]
pub struct Attachment {
    pub details: Vec<KeyValuePair>,
}

/// What the provider reports about one task.
#[derive(Debug, Clone)]
pub struct TaskDescription {
    pub task_arn: Option<String>,
    pub attachments: Vec<Attachment>,
}

/// What the provider reports about a task definition.
#[derive(Debug, Clone)]
pub struct TaskDefinitionInfo {
    pub family: Option<String>,
}

/// The answer to a request that starts one task: the identifiers of the tasks
/// reported as started, and the reasons of the failures reported beside them.
#[derive(Debug, Clone)]
pub struct RunTaskOutput {
    pub task_arns: Vec<Option<String>>,
    pub failures: Vec<String>,
}

/// The address a single property carries, if it is the private address and
/// is not empty: an empty value means the address is not assigned yet.
pub open spec fn detail_address(p: KeyValuePair) -> Option<Seq<char>> {
    if p.name is Some && p.name->0@ == private_address_key() && p.value is Some
        && p.value->0@.len() > 0 {
        Some(p.value->0@)
    } else {
        None
    }
}

/// The first private address among a list of properties.
pub open spec fn details_address(details: Seq<KeyValuePair>) -> Option<Seq<char>>
    decreases details.len(),
{
    if details.len() == 0 {
        None
    } else if detail_address(details[0]) is Some {
        detail_address(details[0])
    } else {
        details_address(details.drop_first())
    }
}

/// The first private address found in a task's attachments, in order.
pub open spec fn attachments_address(attachments: Seq<Attachment>) -> Option<Seq<char>>
    decreases attachments.len(),
{
    if attachments.len() == 0 {
        None
    } else if details_address(attachments[0].details@) is Some {
        details_address(attachments[0].details@)
    } else {
        attachments_address(attachments.drop_first())
    }
}

/// The private address of the task named `arn` in a describe answer: that of
/// the first described task with this identifier.
pub open spec fn described_address(described: Seq<TaskDescription>, arn: Seq<char>) -> Option<
    Seq<char>,
>
    decreases described.len(),
{
    if described.len() == 0 {
        None
    } else if described[0].task_arn is Some && described[0].task_arn->0@ == arn {
        attachments_address(described[0].attachments@)
    } else {
        described_address(described.drop_first(), arn)
    }
}

/// Every requested task has a private address in the describe answer.
pub open spec fn all_provisioned(arns: Seq<String>, described: Seq<TaskDescription>) -> bool {
    forall|i: int| 0 <= i < arns.len() ==> (#[trigger] described_address(described, arns[i]@)) is Some
}

/// The addresses of the requested tasks, in request order, once all are known.
pub open spec fn provisioned_addresses(arns: Seq<String>, described: Seq<TaskDescription>) -> Option<
    Seq<Seq<char>>,
> {
    if all_provisioned(arns, described) {
        Some(Seq::new(arns.len(), |i: int| described_address(described, arns[i]@)->0))
    } else {
        None
    }
}

/// No two described tasks carry the same identifier.
pub open spec fn unique_task_arns(d: Seq<TaskDescription>) -> bool {
    forall|i: int, j: int|
        0 <= i < d.len() && 0 <= j < d.len() && i != j && (#[trigger] d[i]).task_arn is Some
            && (#[trigger] d[j]).task_arn is Some ==> d[i].task_arn->0@ != d[j].task_arn->0@
}

/// The described task at index `i` carries the identifier `arn`.
pub open spec fn names_task(d: Seq<TaskDescription>, i: int, arn: Seq<char>) -> bool {
    0 <= i < d.len() && d[i].task_arn is Some && d[i].task_arn->0@ == arn
}

proof fn lemma_described_address_at(d: Seq<TaskDescription>, arn: Seq<char>, i: int)
    requires
        unique_task_arns(d),
        names_task(d, i, arn),
    ensures
        described_address(d, arn) == attachments_address(d[i].attachments@),
    decreases d.len(),
{
    if i > 0 {
        assert(d[0].task_arn is Some ==> d[0].task_arn->0@ != d[i].task_arn->0@);
        let rest = d.drop_first();
        assert(rest[i - 1] == d[i]);
        assert forall|a: int, b: int|
            0 <= a < rest.len() && 0 <= b < rest.len() && a != b && (#[trigger] rest[a]).task_arn is Some
                && (#[trigger] rest[b]).task_arn is Some implies rest[a].task_arn->0@
            != rest[b].task_arn->0@ by {
            assert(rest[a] == d[a + 1] && rest[b] == d[b + 1]);
        }
        lemma_described_address_at(rest, arn, i - 1);
    }
}

proof fn lemma_described_address_absent(d: Seq<TaskDescription>, arn: Seq<char>)
    requires
        forall|i: int| !names_task(d, i, arn),
    ensures
        described_address(d, arn) is None,
    decreases d.len(),
{
    if d.len() > 0 {
        assert(!names_task(d, 0, arn));
        let rest = d.drop_first();
        assert forall|i: int| !names_task(rest, i, arn) by {
            if 0 <= i < rest.len() {
                assert(rest[i] == d[i + 1]);
                assert(!names_task(d, i + 1, arn));
            }
        }
        lemma_described_address_absent(rest, arn);
    }
}

proof fn lemma_same_tasks_same_address(
    first: Seq<TaskDescription>,
    second: Seq<TaskDescription>,
    arn: Seq<char>,
)
    requires
        unique_task_arns(first),
        unique_task_arns(second),
        forall|t: TaskDescription| #[trigger] first.contains(t) <==> #[trigger] second.contains(t),
    ensures
        described_address(first, arn) == described_address(second, arn),
{
    if exists|i: int| names_task(first, i, arn) {
        let i = choose|i: int| names_task(first, i, arn);
        lemma_described_address_at(first, arn, i);
        assert(first.contains(first[i]));
        assert(second.contains(first[i]));
        let j = choose|j: int| 0 <= j < second.len() && second[j] == first[i];
        assert(names_task(second, j, arn));
        lemma_described_address_at(second, arn, j);
    } else if exists|j: int| names_task(second, j, arn) {
        let j = choose|j: int| names_task(second, j, arn);
        assert(second.contains(second[j]));
        assert(first.contains(second[j]));
        let i = choose|i: int| 0 <= i < first.len() && first[i] == second[j];
        assert(names_task(first, i, arn));
    } else {
        lemma_described_address_absent(first, arn);
        lemma_described_address_absent(second, arn);
    }
}

/// A stable provider gives the same addresses, in the same order, on every
/// describe: two answers that hold the same task descriptions, each task
/// listed under its own identifier, yield the same result, whatever order
/// the provider lists them in.
pub proof fn lemma_describe_order_irrelevant(
    arns: Seq<String>,
    first: Seq<TaskDescription>,
    second: Seq<TaskDescription>,
)
    requires
        unique_task_arns(first),
        unique_task_arns(second),
        forall|t: TaskDescription| #[trigger] first.contains(t) <==> #[trigger] second.contains(t),
    ensures
        provisioned_addresses(arns, first) == provisioned_addresses(arns, second),
{
    assert forall|k: int| 0 <= k < arns.len() implies described_address(first, arns[k]@)
        == described_address(second, arns[k]@) by {
        lemma_same_tasks_same_address(first, second, arns[k]@);
    }
    assert(all_provisioned(arns, first) == all_provisioned(arns, second));
    if all_provisioned(arns, first) {
        assert(Seq::new(arns.len(), |i: int| described_address(first, arns[i]@)->0) =~= Seq::new(
            arns.len(),
            |i: int| described_address(second, arns[i]@)->0,
        ));
    }
}

/// The views of a list of strings.
pub open spec fn string_views(v: Seq<String>) -> Seq<Seq<char>> {
    v.map_values(|s: String| s@)
}

/// The private address carried by one property.
fn address_of_detail(p: &KeyValuePair) -> (r: Option<String>)
    ensures
        r matches Some(a) ==> detail_address(*p) == Some(a@),
        r is None ==> detail_address(*p) is None,
{
    match (&p.name, &p.value) {
        (Some(name), Some(value)) => {
            let key = String::from_str("privateIPv4Address");
            if *name == key && !value.as_str().is_empty() {
                Some(value.clone())
            } else {
                None
            }
        },
        _ => None,
    }
}

/// The first private address among a task's attachments.
pub fn private_address(attachments: &Vec<Attachment>) -> (r: Option<String>)
    ensures
        r matches Some(a) ==> attachments_address(attachments@) == Some(a@),
        r is None ==> attachments_address(attachments@) is None,
{
    let mut i: usize = 0;
    assert(attachments@.skip(0) == attachments@);
    while i < attachments.len()
        invariant
            i <= attachments.len(),
            attachments_address(attachments@) == attachments_address(attachments@.skip(i as int)),
        decreases attachments.len() - i,
    {
        let details = &attachments[i].details;
        let mut j: usize = 0;
        assert(details@.skip(0) == details@);
        while j < details.len()
            invariant
                j <= details.len(),
                i < attachments.len(),
                attachments_address(attachments@) == attachments_address(attachments@.skip(i as int)),
                details == attachments@[i as int].details,
                details_address(details@) == details_address(details@.skip(j as int)),
            decreases details.len() - j,
        {
            let found = address_of_detail(&details[j]);
            assert(details@.skip(j as int).drop_first() == details@.skip(j + 1));
            if found.is_some() {
                proof {
                    assert(details@.skip(j as int)[0] == details@[j as int]);
                    assert(attachments@.skip(i as int)[0] == attachments@[i as int]);
                }
                return found;
            }
            j = j + 1;
        }
        assert(details@.skip(j as int).len() == 0);
        assert(attachments@.skip(i as int)[0] == attachments@[i as int]);
        assert(attachments@.skip(i as int).drop_first() == attachments@.skip(i + 1));
        i = i + 1;
    }
    None
}

/// The private address of the task named `arn` in a describe answer.
pub fn address_of_task(described: &Vec<TaskDescription>, arn: &String) -> (r: Option<String>)
    ensures
        r matches Some(a) ==> described_address(described@, arn@) == Some(a@),
        r is None ==> described_address(described@, arn@) is None,
{
    let mut i: usize = 0;
    assert(described@.skip(0) == described@);
    while i < described.len()
        invariant
            i <= described.len(),
            described_address(described@, arn@) == described_address(described@.skip(i as int), arn@),
        decreases described.len() - i,
    {
        let task = &described[i];
        assert(described@.skip(i as int)[0] == described@[i as int]);
        assert(described@.skip(i as int).drop_first() == described@.skip(i + 1));
        match &task.task_arn {
            Some(t) => {
                if *t == *arn {
                    return private_address(&task.attachments);
                }
            },
            None => {},
        }
        i = i + 1;
    }
    None
}

/// The private addresses of the requested tasks, in request order, or `None`
/// while one of them has none yet.
pub fn provisioned_task_addresses(arns: &Vec<String>, described: &Vec<TaskDescription>) -> (r:
    Option<Vec<String>>)
    ensures
        r matches Some(v) ==> provisioned_addresses(arns@, described@) == Some(string_views(v@)),
        r is None ==> provisioned_addresses(arns@, described@) is None,
{
    let mut addresses: Vec<String> = Vec::new();
    let mut i: usize = 0;
    while i < arns.len()
        invariant
            i <= arns.len(),
            addresses@.len() == i,
            forall|k: int|
                0 <= k < i ==> described_address(described@, #[trigger] arns@[k]@) == Some(
                    addresses@[k]@,
                ),
        decreases arns.len() - i,
    {
        match address_of_task(described, &arns[i]) {
            Some(a) => addresses.push(a),
            None => {
                assert(!all_provisioned(arns@, described@));
                return None;
            },
        }
        i = i + 1;
    }
    proof {
        assert(all_provisioned(arns@, described@));
        assert(string_views(addresses@) =~= Seq::new(
            arns@.len(),
            |k: int| described_address(described@, arns@[k]@)->0,
        ));
    }
    Some(addresses)
}

/// Latency budget of a read call to the provider, in seconds.
pub const API_TIMEOUT_SEC: u64 = 2;

/// Latency budget of a start request, in seconds.
pub const START_TIMEOUT_SEC: u64 = 5;

/// Most tasks that one provisioning call starts at the same time.
pub const MAX_CONCURRENT_STARTS: usize = 5;

/// The identifier of the task that a start request reports, or the error it
/// carries. Reported failures make the request fail even beside a started task.
pub open spec fn run_task_succeeded(out: RunTaskOutput) -> bool {
    out.failures@.len() == 0 && out.task_arns@.len() > 0 && out.task_arns@[0] is Some
}

/// Reads the answer to a start request: the started task's identifier, or an
/// `Api` error when the provider reported failures or no task.
pub fn started_task_arn(out: &RunTaskOutput) -> (r: Result<String, ToolError>)
    ensures
        run_task_succeeded(*out) <==> r is Ok,
        r matches Ok(arn) ==> arn@ == out.task_arns@[0]->0@,
        r matches Err(e) ==> e is Api,
{
    if out.failures.len() > 0 {
        let mut msg = String::from_str("the provider reported failures when starting a task:");
        let mut i: usize = 0;
        while i < out.failures.len()
            invariant
                i <= out.failures.len(),
            decreases out.failures.len() - i,
        {
            msg.append(" ");
            msg.append(out.failures[i].as_str());
            i = i + 1;
        }
        return Err(ToolError::Api(msg));
    }
    if out.task_arns.len() == 0 {
        return Err(ToolError::Api(String::from_str("the provider started no task")));
    }
    match &out.task_arns[0] {
        Some(arn) => Ok(arn.clone()),
        None => Err(ToolError::Api(String::from_str("the started task has no identifier"))),
    }
}

/// Reads the family of a described task definition.
pub fn task_family(definition: &Option<TaskDefinitionInfo>) -> (r: Result<String, ToolError>)
    ensures
        r is Ok <==> (definition matches Some(d) && d.family is Some),
        r matches Ok(f) ==> f@ == definition->0.family->0@,
        r matches Err(e) ==> e is Api,
{
    match definition {
        Some(d) => match &d.family {
            Some(f) => Ok(f.clone()),
            None => Err(ToolError::Api(String::from_str("the task definition has no family"))),
        },
        None => Err(ToolError::Api(String::from_str("the task definition was not described"))),
    }
}

/// How many running tasks are reused when `desired` are wanted and `existing` run.
pub open spec fn reused_count(existing: nat, desired: nat) -> nat {
    if existing < desired {
        existing
    } else {
        desired
    }
}

/// How many tasks must be started when `desired` are wanted and `existing` run.
pub open spec fn missing_count(existing: nat, desired: nat) -> nat {
    (desired - reused_count(existing, desired)) as nat
}

/// Which running tasks to reuse, and how many new ones to start.
pub struct ProvisionPlan {
    pub reused: Vec<String>,
    pub missing: usize,
}

/// Keeps the first `desired` running tasks and counts the shortfall; running
/// tasks beyond `desired` are left alone.
pub fn plan_provisioning(existing: Vec<String>, desired: usize) -> (r: ProvisionPlan)
    ensures
        r.reused@ == existing@.take(reused_count(existing@.len(), desired as nat) as int),
        r.missing == missing_count(existing@.len(), desired as nat),
        r.reused@.len() + r.missing == desired,
{
    let mut reused = existing;
    reused.truncate(desired);
    let missing = desired - reused.len();
    ProvisionPlan { reused, missing }
}

/// Every count in a plan follows from the counts of running and wanted tasks:
/// `max(0, desired - min(existing, desired))` starts, and with them exactly
/// `min(desired, existing + started)` tasks, which is `desired`.
pub proof fn lemma_plan_counts(existing: nat, desired: nat)
    ensures
        missing_count(existing, desired) == if desired >= reused_count(existing, desired) {
            desired - reused_count(existing, desired)
        } else {
            0
        },
        reused_count(existing, desired) + missing_count(existing, desired) == desired,
        reused_count(existing, desired) + missing_count(existing, desired) == if desired
            <= existing + missing_count(existing, desired) {
            desired
        } else {
            existing + missing_count(existing, desired)
        },
        existing >= desired ==> missing_count(existing, desired) == 0,
        desired == 0 ==> missing_count(existing, desired) == 0 && reused_count(existing, desired)
            == 0,
{
}

/// One network of a container, as a task's metadata reports it.
#[derive(Debug, Clone)]
pub struct FargateNetwork {
    pub ipv4_addresses: Vec<String>,
}

/// One container of a task, as its metadata reports it.
#[derive(Debug, Clone)]
pub struct FargateContainer {
    pub networks: Vec<FargateNetwork>,
}

/// A task's own metadata.
#[derive(Debug, Clone)]
pub struct FargateMetadata {
    pub containers: Vec<FargateContainer>,
}

/// The first address of the first network of the first container, if any.
pub open spec fn metadata_address(m: FargateMetadata) -> Option<Seq<char>> {
    if m.containers@.len() > 0 && m.containers@[0].networks@.len() > 0
        && m.containers@[0].networks@[0].ipv4_addresses@.len() > 0 {
        Some(m.containers@[0].networks@[0].ipv4_addresses@[0]@)
    } else {
        None
    }
}

/// The externally routable address a task's metadata publishes, once it does.
pub fn published_address(m: &FargateMetadata) -> (r: Option<String>)
    ensures
        r matches Some(a) ==> metadata_address(*m) == Some(a@),
        r is None ==> metadata_address(*m) is None,
{
    if m.containers.len() > 0 && m.containers[0].networks.len() > 0
        && m.containers[0].networks[0].ipv4_addresses.len() > 0 {
        Some(m.containers[0].networks[0].ipv4_addresses[0].clone())
    } else {
        None
    }
}

#[verifier::external_type_specification]
#[verifier::external_body]
pub struct ExRegion(rusoto_core::Region);

/// Whether rusoto knows a region by this name.
pub uninterp spec fn known_region(name: Seq<char>) -> bool;

/// Relies on rusoto_core::Region::from_str: it lower-cases the name and looks
/// it up in a fixed table, so whether a region comes out depends on the name alone.
#[verifier::external_body]
fn parse_region(name: &str) -> (r: Option<rusoto_core::Region>)
    ensures
        r is Some <==> known_region(name@),
{
    <rusoto_core::Region as std::str::FromStr>::from_str(name).ok()
}

/// The message of the error for an unknown region name.
pub open spec fn unknown_region_message(name: Seq<char>) -> Seq<char> {
    "not a valid AWS region: "@ + name
}

/// The region that a lookup of `name` found, or a `Config` error naming it.
pub fn region_or_error(name: &str, found: Option<rusoto_core::Region>) -> (r: Result<
    rusoto_core::Region,
    ToolError,
>)
    ensures
        r is Ok <==> found is Some,
        r matches Ok(region) ==> found == Some(region),
        r matches Err(e) ==> (e matches ToolError::Config(m) && m@ == unknown_region_message(
            name@,
        )),
{
    match found {
        Some(region) => Ok(region),
        None => {
            let mut m = String::from_str("not a valid AWS region: ");
            m.append(name);
            Err(ToolError::Config(m))
        },
    }
}

/// The provider region of this name, or a `Config` error naming it.
pub fn region_from_name(name: &str) -> (r: Result<rusoto_core::Region, ToolError>)
    ensures
        r is Ok <==> known_region(name@),
        r matches Err(e) ==> (e matches ToolError::Config(m) && m@ == unknown_region_message(
            name@,
        )),
{
    region_or_error(name, parse_region(name))
}

} // verus!
