//! Model of the objects that the workload control plane reports back:
//! clusters, task-definition revisions, services with their deployments, and
//! one-off task instances.  The functions here hold the pure decision logic
//! that the orchestrators share: picking the ACTIVE object out of a describe
//! result, judging the stability of a service, and change detection for task
//! definitions.
use vstd::prelude::*;

use crate::config;
use crate::text::str_eq;

verus! {

/// A cluster as the control plane describes it.
#[derive(Debug, Clone, PartialEq)]
pub struct Cluster {
    pub cluster_arn: Option<String>,
    pub status: Option<String>,
}

/// A registered task-definition revision.
#[derive(Debug, Clone, PartialEq)]
pub struct TaskDefinition {
    pub task_definition_arn: Option<String>,
    pub family: Option<String>,
    pub revision: Option<i64>,
}

/// One rollout generation of a service.  The PRIMARY deployment is the one
/// whose progress decides stability.
#[derive(Debug, Clone, PartialEq)]
pub struct Deployment {
    pub status: Option<String>,
    pub desired_count: Option<i64>,
    pub running_count: Option<i64>,
}

/// A long-running service as the control plane describes it.
#[derive(Debug, Clone, PartialEq)]
pub struct Service {
    pub status: Option<String>,
    pub deployments: Option<Vec<Deployment>>,
}

/// The state of one container inside a task instance.
#[derive(Debug, Clone, PartialEq)]
pub struct Container {
    pub exit_code: Option<i64>,
    pub reason: Option<String>,
}

/// A one-off task instance.
#[derive(Debug, Clone, PartialEq)]
pub struct Task {
    pub task_arn: Option<String>,
    pub last_status: Option<String>,
    pub stopped_reason: Option<String>,
    pub containers: Option<Vec<Container>>,
}

/// A scheduling failure: the control plane could not place the task at all.
#[derive(Debug, Clone, PartialEq)]
pub struct Failure {
    pub reason: Option<String>,
}

/// What one describe or run call reports about a task: at most one instance
/// and at most one scheduling failure.
#[derive(Debug, Clone, PartialEq)]
pub struct TaskDescription {
    pub task: Option<Task>,
    pub failure: Option<Failure>,
}

/// Whether an optional status field holds exactly the given word.
pub open spec fn spec_status_is(status: Option<String>, word: Seq<char>) -> bool {
    status matches Some(s) && s@ == word
}

/// Whether a cluster reports status ACTIVE.
pub open spec fn spec_cluster_is_active(c: Cluster) -> bool {
    spec_status_is(c.status, "ACTIVE"@)
}

/// Whether a service reports status ACTIVE.
pub open spec fn spec_service_is_active(s: Service) -> bool {
    spec_status_is(s.status, "ACTIVE"@)
}

/// The index of the first ACTIVE cluster in the list, if any.
pub open spec fn spec_first_active_cluster(cs: Seq<Cluster>) -> Option<int>
    decreases cs.len(),
{
    if cs.len() == 0 {
        None
    } else if spec_cluster_is_active(cs[0]) {
        Some(0int)
    } else {
        match spec_first_active_cluster(cs.subrange(1, cs.len() as int)) {
            Some(i) => Some(i + 1),
            None => None,
        }
    }
}

/// The index of the first ACTIVE service in the list, if any.
pub open spec fn spec_first_active_service(ss: Seq<Service>) -> Option<int>
    decreases ss.len(),
{
    if ss.len() == 0 {
        None
    } else if spec_service_is_active(ss[0]) {
        Some(0int)
    } else {
        match spec_first_active_service(ss.subrange(1, ss.len() as int)) {
            Some(i) => Some(i + 1),
            None => None,
        }
    }
}

proof fn lemma_first_active_cluster_props(cs: Seq<Cluster>)
    ensures
        spec_first_active_cluster(cs) matches Some(i) ==> 0 <= i < cs.len()
            && spec_cluster_is_active(cs[i]) && forall|j: int|
            0 <= j < i ==> !spec_cluster_is_active(cs[j]),
        spec_first_active_cluster(cs) is None ==> forall|j: int|
            0 <= j < cs.len() ==> !spec_cluster_is_active(cs[j]),
    decreases cs.len(),
{
    if cs.len() > 0 {
        let tail = cs.subrange(1, cs.len() as int);
        lemma_first_active_cluster_props(tail);
        if !spec_cluster_is_active(cs[0]) {
            match spec_first_active_cluster(tail) {
                Some(k) => {
                    assert(tail[k] == cs[k + 1]);
                    assert forall|j: int| 0 <= j < k + 1 implies !spec_cluster_is_active(cs[j]) by {
                        if j > 0 {
                            assert(tail[j - 1] == cs[j]);
                        }
                    }
                },
                None => {
                    assert forall|j: int| 0 <= j < cs.len() implies !spec_cluster_is_active(cs[j]) by {
                        if j > 0 {
                            assert(tail[j - 1] == cs[j]);
                        }
                    }
                },
            }
        }
    }
}

proof fn lemma_first_active_service_props(ss: Seq<Service>)
    ensures
        spec_first_active_service(ss) matches Some(i) ==> 0 <= i < ss.len()
            && spec_service_is_active(ss[i]) && forall|j: int|
            0 <= j < i ==> !spec_service_is_active(ss[j]),
        spec_first_active_service(ss) is None ==> forall|j: int|
            0 <= j < ss.len() ==> !spec_service_is_active(ss[j]),
    decreases ss.len(),
{
    if ss.len() > 0 {
        let tail = ss.subrange(1, ss.len() as int);
        lemma_first_active_service_props(tail);
        if !spec_service_is_active(ss[0]) {
            match spec_first_active_service(tail) {
                Some(k) => {
                    assert(tail[k] == ss[k + 1]);
                    assert forall|j: int| 0 <= j < k + 1 implies !spec_service_is_active(ss[j]) by {
                        if j > 0 {
                            assert(tail[j - 1] == ss[j]);
                        }
                    }
                },
                None => {
                    assert forall|j: int| 0 <= j < ss.len() implies !spec_service_is_active(ss[j]) by {
                        if j > 0 {
                            assert(tail[j - 1] == ss[j]);
                        }
                    }
                },
            }
        }
    }
}

/// Whether this cluster's status is ACTIVE.
pub fn cluster_is_active(c: &Cluster) -> (r: bool)
    ensures
        r == spec_cluster_is_active(*c),
{
    match &c.status {
        Some(s) => str_eq(s.as_str(), "ACTIVE"),
        None => false,
    }
}

/// Whether this service's status is ACTIVE.
pub fn service_is_active(s: &Service) -> (r: bool)
    ensures
        r == spec_service_is_active(*s),
{
    match &s.status {
        Some(st) => str_eq(st.as_str(), "ACTIVE"),
        None => false,
    }
}

/// Picks the first ACTIVE cluster out of a describe result, the way the
/// orchestrators read such an answer: DRAINING or INACTIVE duplicates are
/// ignored.
pub fn first_active_cluster(clusters: &Vec<Cluster>) -> (r: Option<usize>)
    ensures
        r matches Some(i) ==> i < clusters@.len() && spec_first_active_cluster(clusters@)
            == Some(i as int),
        r is None ==> spec_first_active_cluster(clusters@) is None,
{
    let mut i: usize = 0;
    while i < clusters.len()
        invariant
            0 <= i <= clusters@.len(),
            forall|j: int| 0 <= j < i ==> !spec_cluster_is_active(clusters@[j]),
        decreases clusters@.len() - i,
    {
        if cluster_is_active(&clusters[i]) {
            proof {
                lemma_first_active_cluster_props(clusters@);
                if spec_first_active_cluster(clusters@) is None {
                    assert(!spec_cluster_is_active(clusters@[i as int]));
                }
                let k = spec_first_active_cluster(clusters@).unwrap();
                if k < i {
                    assert(!spec_cluster_is_active(clusters@[k]));
                }
                if k > i {
                    assert(!spec_cluster_is_active(clusters@[i as int]));
                }
            }
            return Some(i);
        }
        i = i + 1;
    }
    proof {
        lemma_first_active_cluster_props(clusters@);
        let k_opt = spec_first_active_cluster(clusters@);
        if k_opt is Some {
            assert(!spec_cluster_is_active(clusters@[k_opt.unwrap()]));
        }
    }
    None
}

/// Picks the first ACTIVE service out of a describe result; DRAINING or
/// INACTIVE duplicates are ignored.
pub fn first_active_service(services: &Vec<Service>) -> (r: Option<usize>)
    ensures
        r matches Some(i) ==> i < services@.len() && spec_first_active_service(services@)
            == Some(i as int),
        r is None ==> spec_first_active_service(services@) is None,
{
    let mut i: usize = 0;
    while i < services.len()
        invariant
            0 <= i <= services@.len(),
            forall|j: int| 0 <= j < i ==> !spec_service_is_active(services@[j]),
        decreases services@.len() - i,
    {
        if service_is_active(&services[i]) {
            proof {
                lemma_first_active_service_props(services@);
                if spec_first_active_service(services@) is None {
                    assert(!spec_service_is_active(services@[i as int]));
                }
                let k = spec_first_active_service(services@).unwrap();
                if k < i {
                    assert(!spec_service_is_active(services@[k]));
                }
                if k > i {
                    assert(!spec_service_is_active(services@[i as int]));
                }
            }
            return Some(i);
        }
        i = i + 1;
    }
    proof {
        lemma_first_active_service_props(services@);
        let k_opt = spec_first_active_service(services@);
        if k_opt is Some {
            assert(!spec_service_is_active(services@[k_opt.unwrap()]));
        }
    }
    None
}

/// Whether a deployment is the PRIMARY one.
pub open spec fn spec_deployment_is_primary(d: Deployment) -> bool {
    spec_status_is(d.status, "PRIMARY"@)
}

/// The index of the first PRIMARY deployment, if any.
pub open spec fn spec_first_primary(ds: Seq<Deployment>) -> Option<int>
    decreases ds.len(),
{
    if ds.len() == 0 {
        None
    } else if spec_deployment_is_primary(ds[0]) {
        Some(0int)
    } else {
        match spec_first_primary(ds.subrange(1, ds.len() as int)) {
            Some(i) => Some(i + 1),
            None => None,
        }
    }
}

proof fn lemma_first_primary_props(ds: Seq<Deployment>)
    ensures
        spec_first_primary(ds) matches Some(i) ==> 0 <= i < ds.len()
            && spec_deployment_is_primary(ds[i]) && forall|j: int|
            0 <= j < i ==> !spec_deployment_is_primary(ds[j]),
        spec_first_primary(ds) is None ==> forall|j: int|
            0 <= j < ds.len() ==> !spec_deployment_is_primary(ds[j]),
    decreases ds.len(),
{
    if ds.len() > 0 {
        let tail = ds.subrange(1, ds.len() as int);
        lemma_first_primary_props(tail);
        if !spec_deployment_is_primary(ds[0]) {
            match spec_first_primary(tail) {
                Some(k) => {
                    assert(tail[k] == ds[k + 1]);
                    assert forall|j: int| 0 <= j < k + 1 implies !spec_deployment_is_primary(ds[j]) by {
                        if j > 0 {
                            assert(tail[j - 1] == ds[j]);
                        }
                    }
                },
                None => {
                    assert forall|j: int| 0 <= j < ds.len() implies !spec_deployment_is_primary(ds[j]) by {
                        if j > 0 {
                            assert(tail[j - 1] == ds[j]);
                        }
                    }
                },
            }
        }
    }
}

/// Whether this deployment's status is PRIMARY.
pub fn deployment_is_primary(d: &Deployment) -> (r: bool)
    ensures
        r == spec_deployment_is_primary(*d),
{
    match &d.status {
        Some(st) => str_eq(st.as_str(), "PRIMARY"),
        None => false,
    }
}

/// The index of the first PRIMARY deployment of the list, if any.
pub fn first_primary_deployment(deployments: &Vec<Deployment>) -> (r: Option<usize>)
    ensures
        r matches Some(i) ==> i < deployments@.len() && spec_first_primary(deployments@)
            == Some(i as int),
        r is None ==> spec_first_primary(deployments@) is None,
{
    let mut i: usize = 0;
    while i < deployments.len()
        invariant
            0 <= i <= deployments@.len(),
            forall|j: int| 0 <= j < i ==> !spec_deployment_is_primary(deployments@[j]),
        decreases deployments@.len() - i,
    {
        if deployment_is_primary(&deployments[i]) {
            proof {
                lemma_first_primary_props(deployments@);
                if spec_first_primary(deployments@) is None {
                    assert(!spec_deployment_is_primary(deployments@[i as int]));
                }
                let k = spec_first_primary(deployments@).unwrap();
                if k < i {
                    assert(!spec_deployment_is_primary(deployments@[k]));
                }
                if k > i {
                    assert(!spec_deployment_is_primary(deployments@[i as int]));
                }
            }
            return Some(i);
        }
        i = i + 1;
    }
    proof {
        lemma_first_primary_props(deployments@);
        let k_opt = spec_first_primary(deployments@);
        if k_opt is Some {
            assert(!spec_deployment_is_primary(deployments@[k_opt.unwrap()]));
        }
    }
    None
}

/// A service is stable exactly when its first PRIMARY deployment reports a
/// desired replica count and a running replica count, and the two are equal.
/// No other deployment has a say in this.
pub open spec fn spec_service_is_stable(s: Service) -> bool {
    &&& s.deployments matches Some(ds)
    &&& spec_first_primary(ds@) matches Some(i)
    &&& ds@[i].desired_count matches Some(desired)
    &&& ds@[i].running_count matches Some(running)
    &&& desired == running
}

/// Evaluates the stability predicate on a described service: the PRIMARY
/// deployment's desired replica count equals its running replica count.
pub fn service_is_stable(s: &Service) -> (r: bool)
    ensures
        r == spec_service_is_stable(*s),
{
    match &s.deployments {
        None => false,
        Some(ds) => {
            match first_primary_deployment(ds) {
                None => false,
                Some(i) => {
                    let d = &ds[i];
                    match (d.desired_count, d.running_count) {
                        (Some(desired), Some(running)) => desired == running,
                        _ => false,
                    }
                },
            }
        },
    }
}

/// The change-detection policy between the desired task-definition spec and
/// the latest registered revision.  It is deliberately conservative: every
/// pair counts as changed, so a fresh revision is always registered rather
/// than reusing one that may differ in a field the comparison does not
/// inspect.  The orchestrators branch on this predicate alone, so a finer
/// comparison only has to replace this one definition.
pub open spec fn spec_task_definition_changed(
    task_definition_conf: config::ecs::TaskDefinition,
    current_task_definitions: TaskDefinition,
) -> bool {
    true
}

/// Conservative change detection between the desired task-definition spec and
/// the latest registered revision.  A family mismatch is always a change, and
/// pairs whose families agree are also reported as changed, as
/// `spec_task_definition_changed` states.
pub fn detect_task_definition_changes(
    task_definition_conf: &config::ecs::TaskDefinition,
    current_task_definitions: &TaskDefinition,
) -> (r: bool)
    ensures
        r == spec_task_definition_changed(*task_definition_conf, *current_task_definitions),
{
    if match &current_task_definitions.family {
        None => true,
        Some(f) => !str_eq(f.as_str(), task_definition_conf.family.as_str()),
    } {
        return true;
    }
    true
}

/// The first reported task instance of a raw answer, if there is one.
pub open spec fn spec_first_task(tasks: Option<Vec<Task>>) -> Option<Task> {
    match tasks {
        Some(ts) => if ts@.len() > 0 {
            Some(ts@[0])
        } else {
            None
        },
        None => None,
    }
}

/// The first reported scheduling failure of a raw answer, if there is one.
pub open spec fn spec_first_failure(failures: Option<Vec<Failure>>) -> Option<Failure> {
    match failures {
        Some(fs) => if fs@.len() > 0 {
            Some(fs@[0])
        } else {
            None
        },
        None => None,
    }
}

/// Reads a raw describe-tasks or run-task answer into a `TaskDescription`:
/// the first reported task instance and the first reported failure.  An
/// answer carrying no task instance at all breaks the call's promise and is
/// the `Unknown` error.
pub fn task_description_of(tasks: Option<Vec<Task>>, failures: Option<Vec<Failure>>) -> (r: Result<
    TaskDescription,
    crate::command::error::CommandError,
>)
    ensures
        r matches Ok(d) ==> spec_first_task(tasks) is Some && d.task == spec_first_task(tasks)
            && d.failure == spec_first_failure(failures),
        r matches Err(e) ==> spec_first_task(tasks) is None && e is Unknown,
{
    let failure: Option<Failure> = match failures {
        Some(mut fs) => {
            if fs.len() > 0 {
                Some(fs.remove(0))
            } else {
                None
            }
        },
        None => None,
    };
    match tasks {
        Some(mut ts) => {
            if ts.len() > 0 {
                let t = ts.remove(0);
                Ok(TaskDescription { task: Some(t), failure })
            } else {
                Err(crate::command::error::CommandError::Unknown)
            }
        },
        None => Err(crate::command::error::CommandError::Unknown),
    }
}

} // verus!
