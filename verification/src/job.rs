//! The kill-on-close job: on Windows, every process in it dies together with the launcher, however
//! the launcher ends.
use vstd::prelude::*;

verus! {

/// One step in setting up the job.
#[derive(Clone, Copy, Debug, PartialEq, Eq, Structural)]
pub enum JobStep {
    /// Create a job.
    Create,
    /// Make the job end its processes when its last handle is closed.
    Limit,
    /// Put the launcher itself into the job, so that its children join it.
    AssignSelf,
    /// Keep the handle open for as long as the launcher runs.
    Keep,
    /// Close the handle.
    Close,
    /// Nothing is left to do.
    Done,
}

/// The step that follows another, given whether that one succeeded. A launcher that cannot be put
/// into the job keeps it all the same, for its children.
pub open spec fn step_after(step: JobStep, ok: bool) -> JobStep {
    match step {
        JobStep::Create => if ok {
            JobStep::Limit
        } else {
            JobStep::Done
        },
        JobStep::Limit => if ok {
            JobStep::AssignSelf
        } else {
            JobStep::Close
        },
        JobStep::AssignSelf => JobStep::Keep,
        JobStep::Keep => JobStep::Done,
        JobStep::Close => JobStep::Done,
        JobStep::Done => JobStep::Done,
    }
}

/// The first step in setting up the job.
pub fn init() -> (step: JobStep)
    ensures
        step == JobStep::Create,
{
    JobStep::Create
}

/// The step that follows another, given whether that one succeeded.
pub fn next_step(step: JobStep, ok: bool) -> (next: JobStep)
    ensures
        next == step_after(step, ok),
{
    match step {
        JobStep::Create => if ok {
            JobStep::Limit
        } else {
            JobStep::Done
        },
        JobStep::Limit => if ok {
            JobStep::AssignSelf
        } else {
            JobStep::Close
        },
        JobStep::AssignSelf => JobStep::Keep,
        JobStep::Keep => JobStep::Done,
        JobStep::Close => JobStep::Done,
        JobStep::Done => JobStep::Done,
    }
}

/// The new child process that is to join the job, if a job was kept for it to join.
pub fn assign(job_kept: bool, pid: u32) -> (member: Option<u32>)
    ensures
        member == (if job_kept {
            Some(pid)
        } else {
            None
        }),
{
    if job_kept {
        Some(pid)
    } else {
        None
    }
}

/// The steps taken, given whether each kind of step succeeds.
pub open spec fn steps(step: JobStep, ok: spec_fn(JobStep) -> bool, fuel: nat) -> Seq<JobStep>
    decreases fuel,
{
    if step is Done || fuel == 0 {
        Seq::empty()
    } else {
        seq![step] + steps(step_after(step, ok(step)), ok, (fuel - 1) as nat)
    }
}

/// Setting up ends after at most four steps. The handle of a job that was created is either kept or
/// closed, never both: it is kept exactly where the job could be limited, whether or not the
/// launcher could join it. Where no job was created, nothing is kept or closed.
pub proof fn law_job_is_kept_or_closed(ok: spec_fn(JobStep) -> bool, fuel: nat)
    requires
        fuel >= 4,
    ensures
        ({
            let taken = steps(JobStep::Create, ok, fuel);
            &&& taken.len() <= 4
            &&& taken.contains(JobStep::Keep) <==> ok(JobStep::Create) && ok(JobStep::Limit)
            &&& taken.contains(JobStep::Close) <==> ok(JobStep::Create) && !ok(JobStep::Limit)
        }),
{
    reveal_with_fuel(steps, 6);
    let taken = steps(JobStep::Create, ok, fuel);
    if !ok(JobStep::Create) {
        assert(taken =~= seq![JobStep::Create]);
    } else if !ok(JobStep::Limit) {
        assert(taken =~= seq![JobStep::Create, JobStep::Limit, JobStep::Close]);
        assert(taken[2] == JobStep::Close);
    } else {
        assert(taken =~= seq![
            JobStep::Create,
            JobStep::Limit,
            JobStep::AssignSelf,
            JobStep::Keep,
        ]);
        assert(taken[3] == JobStep::Keep);
    }
}

/// The job is limited before anything joins it, and is kept only once it was limited and the
/// launcher was offered to it: a step is reached only from the one before it.
pub proof fn law_job_steps_in_order(step: JobStep, ok: bool)
    ensures
        step_after(step, ok) is Limit <==> step is Create && ok,
        step_after(step, ok) is Close <==> step is Limit && !ok,
        step_after(step, ok) is AssignSelf <==> step is Limit && ok,
        step_after(step, ok) is Keep <==> step is AssignSelf,
        step_after(step, ok) !is Create,
{
}

} // verus!
