//! Cooperative step executor: adapts one inspection run into a unit that
//! yields progress on each poll instead of blocking the host. Tasks live
//! in a registry and are addressed by integer handles; freeing tombstones
//! the slot, so a stale handle is reported as an error instead of being
//! undefined behaviour. A task that has reached `Done` or `Error` keeps
//! answering with that same terminal value.
use vstd::prelude::*;
use vstd::pervasive::VecAdditionalExecFns;
use crate::interface::{result_matches, AnalyzeResult, Decision, Stats};
use crate::APhase0;

verus! {

/// Polling outcome of one `step` call.
#[derive(Debug)]
pub enum Progress {
    Pending,
    Done(AnalyzeResult),
    Error(String),
}

/// Whether two progress values carry the same data, view for view.
pub open spec fn progress_matches(a: &Progress, b: &Progress) -> bool {
    match (a, b) {
        (Progress::Pending, Progress::Pending) => true,
        (Progress::Done(x), Progress::Done(y)) => result_matches(x, y),
        (Progress::Error(x), Progress::Error(y)) => x@ == y@,
        _ => false,
    }
}

/// State of one in-flight inspection.
#[derive(Debug)]
pub enum TaskState {
    /// The staged part exited early with a complete result.
    Ready(AnalyzeResult),
    /// The staged part handed off; downstream analysis is still owed.
    NeedsAnalysis(APhase0),
    /// Terminal: the result was produced.
    Done(AnalyzeResult),
    /// Terminal: the run cannot continue.
    Error(String),
}

/// Registry of tasks; `None` marks a freed slot.
#[derive(Debug)]
pub struct Executor {
    pub tasks: Vec<Option<TaskState>>,
}

/// The message a stale or out-of-range handle is answered with.
pub open spec fn invalid_handle_msg() -> Seq<char> {
    "invalid task handle"@
}

/// The message a premature analysis hand-in is answered with.
pub open spec fn no_analysis_pending_msg() -> Seq<char> {
    "no analysis pending"@
}

/// Whether a handle addresses a live slot.
pub open spec fn live(tasks: Seq<Option<TaskState>>, h: int) -> bool {
    0 <= h < tasks.len() && tasks[h] is Some
}

/// Whether a handle addresses a task still owed its analysis.
pub open spec fn awaiting_analysis(tasks: Seq<Option<TaskState>>, h: int) -> bool {
    live(tasks, h) && tasks[h]->Some_0 is NeedsAnalysis
}

/// Everything `inspect_async_step` promises, relating the registry before
/// and after the call to the progress reported.
pub open spec fn step_post(
    old_tasks: Seq<Option<TaskState>>,
    tasks: Seq<Option<TaskState>>,
    h: int,
    p: &Progress,
) -> bool {
    &&& !live(old_tasks, h) ==> tasks == old_tasks && (p matches Progress::Error(e) && e@
        == invalid_handle_msg())
    &&& live(old_tasks, h) ==> {
        &&& old_tasks[h]->Some_0 matches TaskState::NeedsAnalysis(_) ==> tasks == old_tasks && p
            is Pending
        &&& old_tasks[h]->Some_0 matches TaskState::Done(res) ==> tasks == old_tasks && (p matches
            Progress::Done(r) && result_matches(&r, &res))
        &&& old_tasks[h]->Some_0 matches TaskState::Error(e) ==> tasks == old_tasks && (p matches
            Progress::Error(e2) && e2@ == e@)
        &&& old_tasks[h]->Some_0 matches TaskState::Ready(res) ==> {
            &&& tasks.len() == old_tasks.len()
            &&& forall|j: int| 0 <= j < tasks.len() && j != h ==> tasks[j] == old_tasks[j]
            &&& tasks[h] matches Some(s) && (s matches TaskState::Done(stored) && result_matches(
                &stored,
                &res,
            ))
            &&& p matches Progress::Done(r) && result_matches(&r, &res)
        }
    }
}

impl Executor {
    pub fn new() -> (r: Executor)
        ensures
            r.tasks@ == Seq::<Option<TaskState>>::empty(),
    {
        Executor { tasks: Vec::new() }
    }

    /// Register one inspection, from the outcome of the staged part: an
    /// early exit becomes a task that completes on its first step, a
    /// handoff becomes a task that waits for downstream analysis.
    pub fn register(&mut self, outcome: Result<APhase0, AnalyzeResult>) -> (h: usize)
        ensures
            h == old(self).tasks@.len(),
            final(self).tasks@.len() == old(self).tasks@.len() + 1,
            forall|j: int|
                0 <= j < old(self).tasks@.len() ==> final(self).tasks@[j] == old(self).tasks@[j],
            final(self).tasks@[h as int] matches Some(s) && (match outcome {
                Ok(p0) => s matches TaskState::NeedsAnalysis(q) && q == p0,
                Err(res) => s matches TaskState::Ready(r) && r == res,
            }),
    {
        let h = self.tasks.len();
        match outcome {
            Ok(p0) => self.tasks.push(Some(TaskState::NeedsAnalysis(p0))),
            Err(res) => self.tasks.push(Some(TaskState::Ready(res))),
        }
        h
    }

    /// Hand the downstream-analysis outcome to a waiting task: the final
    /// result is assembled from the stored handoff state, the verdict,
    /// and the tags the analysis contributed (merged into the handoff's
    /// tag set, which keeps the reserved "all" tag); the task becomes
    /// `Done`, and that result is reported. Any other task state is
    /// answered with an error and left unchanged.
    pub fn supply_analysis(
        &mut self,
        h: usize,
        decision: Decision,
        extra_tags: crate::interface::Tags,
        stats: Stats,
    ) -> (p: Progress)
        ensures
            awaiting_analysis(old(self).tasks@, h as int) ==> {
                let p0 = old(self).tasks@[h as int]->Some_0->NeedsAnalysis_0;
                &&& final(self).tasks@.len() == old(self).tasks@.len()
                &&& forall|j: int|
                    0 <= j < final(self).tasks@.len() && j != h ==> final(self).tasks@[j] == old(
                        self,
                    ).tasks@[j]
                &&& final(self).tasks@[h as int] matches Some(s) && (s matches TaskState::Done(res)
                    && {
                    &&& crate::interface::decision_view(res.decision) ==
                        crate::interface::decision_view(decision)
                    &&& res.tags@ == crate::interface::tags_merge(p0.itags@, extra_tags@)
                    &&& crate::utils::rinfo_matches(&res.rinfo, &p0.reqinfo)
                    &&& res.stats.revision@ == stats.revision@
                    &&& res.stats.processing_stage == stats.processing_stage
                    &&& p matches Progress::Done(r) && result_matches(&r, &res)
                })
            },
            !awaiting_analysis(old(self).tasks@, h as int) ==> final(self).tasks@ == old(
                self,
            ).tasks@ && (p matches Progress::Error(e) && (e@ == invalid_handle_msg() || e@
                == no_analysis_pending_msg())),
    {
        if h >= self.tasks.len() {
            return Progress::Error("invalid task handle".to_owned());
        }
        let waiting = match &self.tasks[h] {
            Some(TaskState::NeedsAnalysis(_)) => true,
            Some(_) => false,
            None => {
                return Progress::Error("invalid task handle".to_owned());
            },
        };
        if !waiting {
            return Progress::Error("no analysis pending".to_owned());
        }
        let mut slot: Option<TaskState> = None;
        self.tasks.set_and_swap(h, &mut slot);
        let p0 = match slot {
            Some(TaskState::NeedsAnalysis(p0)) => p0,
            _ => {
                // unreachable: the slot was just seen to be waiting
                return Progress::Error("no analysis pending".to_owned());
            },
        };
        let mut tags = p0.itags;
        tags.extend(extra_tags);
        let res = AnalyzeResult { decision, tags, rinfo: p0.reqinfo, stats };
        let reported = res.duplicate();
        self.tasks.set(h, Some(TaskState::Done(res)));
        Progress::Done(reported)
    }
}

/// Step one task: report its terminal value if it has one, complete an
/// early-exit task, report `Pending` for a task still owed its analysis,
/// and answer a stale or out-of-range handle with an error.
pub fn inspect_async_step(exec: &mut Executor, h: usize) -> (p: Progress)
    ensures
        step_post(old(exec).tasks@, final(exec).tasks@, h as int, &p),
{
    if h >= exec.tasks.len() {
        return Progress::Error("invalid task handle".to_owned());
    }
    let advance = match &exec.tasks[h] {
        None => {
            return Progress::Error("invalid task handle".to_owned());
        },
        Some(TaskState::NeedsAnalysis(_)) => {
            return Progress::Pending;
        },
        Some(TaskState::Done(res)) => {
            return Progress::Done(res.duplicate());
        },
        Some(TaskState::Error(e)) => {
            return Progress::Error(e.clone());
        },
        Some(TaskState::Ready(_)) => true,
    };
    if advance {
        let mut slot: Option<TaskState> = None;
        exec.tasks.set_and_swap(h, &mut slot);
        match slot {
            Some(TaskState::Ready(res)) => {
                let reported = res.duplicate();
                exec.tasks.set(h, Some(TaskState::Done(res)));
                return Progress::Done(reported);
            },
            _ => {
                // unreachable: the slot was just seen to be ready
                return Progress::Error("invalid task handle".to_owned());
            },
        }
    }
    Progress::Error("invalid task handle".to_owned())
}

/// Free one task: the slot is tombstoned, so a later `step` or a second
/// free on the same handle reports an error instead of touching freed
/// state. Returns whether a live task was actually freed.
pub fn inspect_async_free(exec: &mut Executor, h: usize) -> (freed: bool)
    ensures
        freed == live(old(exec).tasks@, h as int),
        final(exec).tasks@.len() == old(exec).tasks@.len(),
        forall|j: int|
            0 <= j < final(exec).tasks@.len() && j != h ==> final(exec).tasks@[j] == old(
                exec,
            ).tasks@[j],
        h < old(exec).tasks@.len() ==> final(exec).tasks@[h as int] is None,
{
    if h >= exec.tasks.len() {
        return false;
    }
    let was_live = exec.tasks[h].is_some();
    exec.tasks.set(h, None);
    was_live
}

/// A step taken after a step that reported a terminal value reports that
/// same value again, and leaves the registry as it was: `Done` and
/// `Error` are absorbing at the host boundary.
pub proof fn lemma_step_terminal_stable(
    s0: Seq<Option<TaskState>>,
    s1: Seq<Option<TaskState>>,
    s2: Seq<Option<TaskState>>,
    h: int,
    p1: &Progress,
    p2: &Progress,
)
    requires
        step_post(s0, s1, h, p1),
        step_post(s1, s2, h, p2),
        p1 is Done || p1 is Error,
    ensures
        progress_matches(p1, p2),
        s2 == s1,
{
}

} // verus!
