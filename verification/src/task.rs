//! The task builder: turns a component set plus run-time flags into three
//! ordered groups of independent operations — fetch-sync, dependency
//! install, run. Each task is a tagged value carrying only the data it
//! needs; the groups run strictly in that order, each under the scheduler's
//! completion barrier, so the install phase finds fetched sources and the
//! run phase finds installed dependencies.

use vstd::prelude::*;
use crate::configuration::Configuration;
use crate::mfe::{FetchPlan, Microfrontend, Microfrontends};
use crate::task_runner::{ExternalCommand, is_npm_install, is_npm_run};

verus! {

/// One independent operation of a phase, carrying only what it needs. Tasks
/// of one group share no mutable state: each works in the disjoint
/// directory named by its component.
pub enum Task {
    Fetch { component: Microfrontend, host: String, pull: bool },
    Install { component: Microfrontend, force: bool },
    Run { component: Microfrontend },
}

/// The three phases' task groups, in the order they must run.
pub struct TaskGroups {
    pub fetch: Vec<Task>,
    pub install: Vec<Task>,
    pub run: Vec<Task>,
}

/// What the unverified edge reports about a component's directories before
/// a task is planned.
#[derive(Clone, Copy, Debug, PartialEq, Eq, Structural)]
pub struct ProbeReport {
    pub directory_exists: bool,
    pub manifest_exists: bool,
}

/// The planned work of one task, ready for the runner: the fetch steps, the
/// optional install invocation, or the run invocation.
pub enum TaskPlan {
    Fetch(FetchPlan),
    Install(Option<ExternalCommand>),
    Run(ExternalCommand),
}

impl Task {
    /// Plans the task against the probed state of the component's
    /// directories. Dispatch is by variant alone; every decision the plan
    /// encodes is stated over the task's own data.
    pub fn plan(&self, probes: &ProbeReport) -> (p: TaskPlan)
        ensures
            (*self) matches Task::Fetch { component, host, pull } ==> (p matches TaskPlan::Fetch(f)
                && component.fetch_plan_ok(host@, pull, probes.directory_exists, f)),
            (*self) matches Task::Install { component, force } ==> (p matches TaskPlan::Install(c) && (
            c is Some <==> (!probes.manifest_exists || force)) && (c matches Some(cmd)
                ==> is_npm_install(cmd, component.project_name@))),
            (*self) matches Task::Run { component } ==> (p matches TaskPlan::Run(c) && is_npm_run(
                c,
                component.project_name@,
            )),
    {
        match self {
            Task::Fetch { component, host, pull } => TaskPlan::Fetch(
                component.fetch(host.as_str(), *pull, probes.directory_exists),
            ),
            Task::Install { component, force } => TaskPlan::Install(
                component.install_dependencies(*force, probes.manifest_exists),
            ),
            Task::Run { component } => TaskPlan::Run(component.run()),
        }
    }
}

/// Builds the three ordered task groups from the component set and the
/// run-time flags: one fetch, one install and one run task per component, in
/// the set's order. Install tasks carry the force flag; whether an install
/// actually runs is decided against the probed manifest directory when the
/// task is planned.
pub fn build_task_groups(mfes: &Microfrontends, config: &Configuration) -> (g: TaskGroups)
    ensures
        g.fetch@.len() == mfes.0@.len(),
        g.install@.len() == mfes.0@.len(),
        g.run@.len() == mfes.0@.len(),
        forall|i: int|
            0 <= i < mfes.0@.len() ==> ((#[trigger] g.fetch@[i]) matches Task::Fetch {
                component,
                host,
                pull,
            } && component.same_descriptor(mfes.0@[i]) && host@ == config.target_host@ && pull
                == config.pull),
        forall|i: int|
            0 <= i < mfes.0@.len() ==> ((#[trigger] g.install@[i]) matches Task::Install {
                component,
                force,
            } && component.same_descriptor(mfes.0@[i]) && force == config.force_update_all),
        forall|i: int|
            0 <= i < mfes.0@.len() ==> ((#[trigger] g.run@[i]) matches Task::Run { component }
                && component.same_descriptor(mfes.0@[i])),
{
    let n = mfes.0.len();
    let mut fetch: Vec<Task> = Vec::new();
    let mut install: Vec<Task> = Vec::new();
    let mut run: Vec<Task> = Vec::new();
    let mut i: usize = 0;
    while i < n
        invariant
            i <= n,
            n == mfes.0@.len(),
            fetch@.len() == i,
            install@.len() == i,
            run@.len() == i,
            forall|k: int|
                0 <= k < i ==> ((#[trigger] fetch@[k]) matches Task::Fetch { component, host, pull }
                    && component.same_descriptor(mfes.0@[k]) && host@ == config.target_host@
                    && pull == config.pull),
            forall|k: int|
                0 <= k < i ==> ((#[trigger] install@[k]) matches Task::Install { component, force }
                    && component.same_descriptor(mfes.0@[k]) && force == config.force_update_all),
            forall|k: int|
                0 <= k < i ==> ((#[trigger] run@[k]) matches Task::Run { component }
                    && component.same_descriptor(mfes.0@[k])),
        decreases n - i,
    {
        let m = &mfes.0[i];
        fetch.push(
            Task::Fetch {
                component: m.duplicate(),
                host: config.target_host.clone(),
                pull: config.pull,
            },
        );
        install.push(Task::Install { component: m.duplicate(), force: config.force_update_all });
        run.push(Task::Run { component: m.duplicate() });
        i += 1;
    }
    TaskGroups { fetch, install, run }
}

} // verus!
