//! The phase scheduler, as a state machine over plain data. One task group
//! runs at a time: its operations are dispatched together, and a completion
//! barrier — a full join, not a race — must collect one outcome for every
//! operation before the group is over and the next may begin. The unverified
//! edge of the program drives the machine: it spawns one worker per
//! operation, records each outcome as it arrives, and may start another
//! group only from a state the transitions below allow.

use vstd::prelude::*;
use crate::errors::TaskOutcome;

verus! {

/// Where the scheduler stands: waiting for a group, dispatching one,
/// collecting outcomes at the barrier, or done with the group.
#[derive(Clone, Copy, Debug, PartialEq, Eq, Structural)]
pub enum SchedulerState {
    Idle,
    RunningGroup,
    Barrier,
    Done,
}

/// The recorded end of one operation: which task of the group it was, and
/// how it ended.
#[derive(Clone, Copy, Debug, PartialEq, Eq, Structural)]
pub struct CompletionRecord {
    pub task_index: usize,
    pub outcome: TaskOutcome,
}

/// No two records answer for the same task.
pub open spec fn indices_unique(records: Seq<CompletionRecord>) -> bool {
    forall|i: int, j: int|
        0 <= i < j < records.len() ==> (#[trigger] records[i]).task_index != (
        #[trigger] records[j]).task_index
}

/// Runs one group of independent operations under a completion barrier.
pub struct Scheduler {
    pub state: SchedulerState,
    pub group_size: usize,
    pub records: Vec<CompletionRecord>,
}

impl Scheduler {
    /// The machine's invariant: never more records than operations, one
    /// record per operation at most, every record answering for an operation
    /// of the current group, and a full set of records once the group is
    /// done.
    pub open spec fn wf(self) -> bool {
        &&& self.records@.len() <= self.group_size
        &&& (forall|i: int|
            0 <= i < self.records@.len() ==> (#[trigger] self.records@[i]).task_index
                < self.group_size)
        &&& indices_unique(self.records@)
        &&& (self.state == SchedulerState::Idle ==> self.group_size == 0 && self.records@.len()
            == 0)
        &&& (self.state == SchedulerState::RunningGroup ==> self.records@.len() == 0)
        &&& (self.state == SchedulerState::Done ==> self.records@.len() == self.group_size)
    }

    /// Task `t` of the group has a recorded outcome: it has terminated.
    pub open spec fn recorded(self, t: int) -> bool {
        exists|i: int|
            0 <= i < self.records@.len() && (#[trigger] self.records@[i]).task_index == t
    }

    pub fn new() -> (s: Scheduler)
        ensures
            s.wf(),
            s.state == SchedulerState::Idle,
    {
        Scheduler { state: SchedulerState::Idle, group_size: 0, records: Vec::new() }
    }

    /// Accepts the next group of `size` independent operations. A group may
    /// start only before any group has run or after the previous group's
    /// barrier: never while one is running or collecting outcomes.
    pub fn begin_group(&mut self, size: usize)
        requires
            old(self).wf(),
            old(self).state == SchedulerState::Idle || old(self).state == SchedulerState::Done,
        ensures
            final(self).wf(),
            final(self).state == SchedulerState::RunningGroup,
            final(self).group_size == size,
            final(self).records@.len() == 0,
    {
        self.state = SchedulerState::RunningGroup;
        self.group_size = size;
        self.records = Vec::new();
    }

    /// All operations of the group have been handed to workers: the
    /// scheduler moves to the barrier and waits for every one of them.
    pub fn group_dispatched(&mut self)
        requires
            old(self).wf(),
            old(self).state == SchedulerState::RunningGroup,
        ensures
            final(self).wf(),
            final(self).state == SchedulerState::Barrier,
            final(self).group_size == old(self).group_size,
            final(self).records@ == old(self).records@,
    {
        self.state = SchedulerState::Barrier;
    }

    /// Collects the outcome of one operation — success or failure alike; a
    /// failed operation must not keep its siblings' outcomes from being
    /// collected. Each operation reports once.
    pub fn record_completion(&mut self, rec: CompletionRecord)
        requires
            old(self).wf(),
            old(self).state == SchedulerState::Barrier,
            old(self).records@.len() < old(self).group_size,
            rec.task_index < old(self).group_size,
            !old(self).recorded(rec.task_index as int),
        ensures
            final(self).wf(),
            final(self).state == SchedulerState::Barrier,
            final(self).group_size == old(self).group_size,
            final(self).records@ == old(self).records@.push(rec),
    {
        proof {
            assert forall|i: int, j: int|
                0 <= i < j < old(self).records@.len() + 1 implies (#[trigger] old(
                self,
            ).records@.push(rec)[i]).task_index != (#[trigger] old(self).records@.push(
                rec,
            )[j]).task_index by {
                if j < old(self).records@.len() {
                    assert(old(self).records@.push(rec)[i] == old(self).records@[i]);
                    assert(old(self).records@.push(rec)[j] == old(self).records@[j]);
                } else {
                    assert(old(self).records@.push(rec)[i] == old(self).records@[i]);
                    assert(old(self).records@.push(rec)[j] == rec);
                    assert(old(self).records@[i].task_index != rec.task_index);
                }
            }
        }
        self.records.push(rec);
    }

    /// Whether every operation of the group has reported.
    pub fn barrier_complete(&self) -> (r: bool)
        requires
            self.wf(),
            self.state == SchedulerState::Barrier,
        ensures
            r == (self.records@.len() == self.group_size),
    {
        self.records.len() == self.group_size
    }

    /// Closes the barrier: allowed only once every operation of the group
    /// has a recorded outcome.
    pub fn finish_group(&mut self)
        requires
            old(self).wf(),
            old(self).state == SchedulerState::Barrier,
            old(self).records@.len() == old(self).group_size,
        ensures
            final(self).wf(),
            final(self).state == SchedulerState::Done,
            final(self).group_size == old(self).group_size,
            final(self).records@ == old(self).records@,
    {
        self.state = SchedulerState::Done;
    }

    /// Whether any collected outcome is a failure.
    pub fn any_failure(&self) -> (r: bool)
        ensures
            r == exists|i: int|
                0 <= i < self.records@.len() && (#[trigger] self.records@[i]).outcome matches
                    TaskOutcome::Failed(_),
    {
        let n = self.records.len();
        let mut i: usize = 0;
        while i < n
            invariant
                i <= n,
                n == self.records@.len(),
                forall|k: int|
                    0 <= k < i ==> !((#[trigger] self.records@[k]).outcome matches
                        TaskOutcome::Failed(_)),
            decreases n - i,
        {
            let rec = self.records[i];
            match rec.outcome {
                TaskOutcome::Failed(_) => {
                    return true;
                },
                TaskOutcome::Succeeded => {},
            }
            i += 1;
        }
        false
    }

    /// Whether the run may advance to the next phase: only when no component
    /// failed in the one that just completed — never silently on with
    /// missing prerequisites.
    pub fn should_advance(&self) -> (r: bool)
        requires
            self.wf(),
            self.state == SchedulerState::Done,
        ensures
            r == !(exists|i: int|
                0 <= i < self.records@.len() && (#[trigger] self.records@[i]).outcome matches
                    TaskOutcome::Failed(_)),
    {
        !self.any_failure()
    }
}

/// Barrier law: once a group of N operations is done, all N have terminated
/// — every task index of the group has a recorded outcome, success or
/// failure. No operation of the next group can have started earlier, since
/// `begin_group` accepts a group only in the `Idle` or `Done` state.
pub proof fn lemma_barrier_all_terminated(s: Scheduler)
    requires
        s.wf(),
        s.state == SchedulerState::Done,
    ensures
        forall|t: int| 0 <= t < s.group_size ==> s.recorded(t),
{
    let ids = s.records@.map_values(|r: CompletionRecord| r.task_index as int);
    assert(ids.no_duplicates()) by {
        assert forall|i: int, j: int| 0 <= i < j < ids.len() implies ids[i] != ids[j] by {
            assert(ids[i] == s.records@[i].task_index as int);
            assert(ids[j] == s.records@[j].task_index as int);
        }
    }
    ids.unique_seq_to_set();
    let range = vstd::set_lib::set_int_range(0, s.group_size as int);
    vstd::set_lib::lemma_int_range(0, s.group_size as int);
    assert(ids.to_set().subset_of(range)) by {
        assert forall|x: int| ids.to_set().contains(x) implies range.contains(x) by {
            let i = choose|i: int| 0 <= i < ids.len() && ids[i] == x;
            assert(s.records@[i].task_index < s.group_size);
        }
    }
    vstd::set_lib::lemma_subset_equality(ids.to_set(), range);
    assert forall|t: int| 0 <= t < s.group_size implies s.recorded(t) by {
        assert(range.contains(t));
        assert(ids.to_set().contains(t));
        assert(ids.contains(t));
        let i = choose|i: int| 0 <= i < ids.len() && ids[i] == t;
        assert(s.records@[i].task_index == t);
    }
}

} // verus!
