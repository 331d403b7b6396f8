//! Per-core job slots: the master core hands a job to an idle secondary core,
//! which takes it out of its slot and runs it once.
//!
//! A job is any `Copy` value that names work to run, such as an entry point.
use crate::bsp::NUM_CORES;
use crate::sync::Lock;
use vstd::prelude::*;

verus! {

/// Why a job was not taken.
#[derive(Clone, Copy, PartialEq, Eq, Debug, Structural)]
pub enum JobError {
    /// The core's slot still holds a job that it has not taken out.
    AlreadyBusy,
}

/// The slot after submitting `job`, and the result: an empty slot takes the job,
/// an occupied slot keeps the job it holds.
pub open spec fn spec_submit<J>(slot: Option<J>, job: J) -> (Option<J>, Result<(), JobError>) {
    match slot {
        None => (Some(job), Ok(())),
        Some(_) => (slot, Err(JobError::AlreadyBusy)),
    }
}

/// The slot after submitting `job` over whatever it holds, and whether a job was
/// pending and is now discarded.
pub open spec fn spec_submit_override<J>(slot: Option<J>, job: J) -> (Option<J>, bool) {
    (Some(job), slot is Some)
}

/// The slot after its core takes its job out, and the job taken.
pub open spec fn spec_take<J>(slot: Option<J>) -> (Option<J>, Option<J>) {
    (None, slot)
}

/// Submits `job` to a slot that holds `slot`.
pub fn submit_to_slot<J: Copy>(slot: Option<J>, job: J) -> (r: (Option<J>, Result<(), JobError>))
    ensures
        r == spec_submit(slot, job),
{
    if slot.is_some() {
        (slot, Err(JobError::AlreadyBusy))
    } else {
        (Some(job), Ok(()))
    }
}

/// Submits `job` to a slot that holds `slot`, discarding a pending job.
pub fn override_slot<J: Copy>(slot: Option<J>, job: J) -> (r: (Option<J>, bool))
    ensures
        r == spec_submit_override(slot, job),
{
    (Some(job), slot.is_some())
}

/// Takes the job out of a slot that holds `slot`, leaving it empty.
pub fn take_from_slot<J: Copy>(slot: Option<J>) -> (r: (Option<J>, Option<J>))
    ensures
        r == spec_take(slot),
{
    (None, slot)
}

/// After a first submission to a slot, whatever it gave, the slot is occupied:
/// a second submission fails with `AlreadyBusy` and leaves the slot exactly as
/// the first one left it.
pub proof fn lemma_second_submit_busy<J>(slot: Option<J>, first: J, second: J)
    ensures
        spec_submit(slot, first).0 is Some,
        spec_submit(spec_submit(slot, first).0, second) == (
            spec_submit(slot, first).0,
            Err::<(), JobError>(JobError::AlreadyBusy),
        ),
{
}

/// Submitting with override always installs the job, and reports true exactly
/// when a job was pending before.
pub proof fn lemma_override_reports_pending<J>(slot: Option<J>, job: J)
    ensures
        spec_submit_override(slot, job).0 == Some(job),
        spec_submit_override(slot, job).1 <==> slot is Some,
{
}

/// Taking a job out leaves the slot empty, so a second take finds nothing: the
/// job is handed out once, before it runs.
pub proof fn lemma_take_clears_slot<J>(slot: Option<J>)
    ensures
        spec_take(slot).0 is None,
        spec_take(slot).1 == slot,
        spec_take(spec_take(slot).0).1 is None,
{
}

/// One lock-guarded job slot per core.
#[verifier::reject_recursive_types(J)]
pub struct JobTable<J> {
    slots: [Lock<Option<J>>; NUM_CORES],
}

impl<J: Copy> JobTable<J> {
    /// A table whose slots are all empty.
    pub fn new() -> JobTable<J> {
        JobTable { slots: [Lock::new(None), Lock::new(None), Lock::new(None), Lock::new(None)] }
    }

    /// Hands `func` to core `id` unless its slot is occupied; never blocks beyond
    /// the lock.
    ///
    /// Under the lock, the slot held some `prev` and was left as `spec_submit` says:
    /// on success it holds `func`, on `AlreadyBusy` it keeps its job.
    pub fn submit_job(&self, func: J, id: u64) -> (r: Result<(), JobError>)
        requires
            id < NUM_CORES,
        ensures
            exists|prev: Option<J>| (#[trigger] spec_submit(prev, func)).1 == r,
    {
        self.slots[id as usize].mutex_use(
            (|slot: Option<J>| -> (r: (Option<J>, Result<(), JobError>))
                ensures
                    r == spec_submit(slot, func),
                { submit_to_slot(slot, func) }),
        )
    }

    /// Hands `func` to core `id` whatever its slot holds, and tells whether a
    /// pending job was discarded unexecuted.
    pub fn submit_job_override(&self, func: J, id: u64) -> (r: bool)
        requires
            id < NUM_CORES,
        ensures
            exists|prev: Option<J>| (#[trigger] spec_submit_override(prev, func)).1 == r,
    {
        self.slots[id as usize].mutex_use(
            (|slot: Option<J>| -> (r: (Option<J>, bool))
                ensures
                    r == spec_submit_override(slot, func),
                { override_slot(slot, func) }),
        )
    }

    /// The job pending for core `id`, if any, taken out of its slot.
    ///
    /// The slot is emptied under the lock, before the lock is released and so
    /// before the caller can run the job: no job is handed out twice.
    pub fn next_job(&self, id: u64) -> (r: Option<J>)
        requires
            id < NUM_CORES,
        ensures
            exists|prev: Option<J>| #[trigger] spec_take(prev) == (None::<J>, r),
    {
        self.slots[id as usize].mutex_use(
            (|slot: Option<J>| -> (r: (Option<J>, Option<J>))
                ensures
                    r == spec_take(slot),
                { take_from_slot(slot) }),
        )
    }
}

} // verus!
