use vstd::prelude::*;

use crate::job::Task;

verus! {

/// `tokio::sync::mpsc::Sender`, a channel end that the controller can hold.
#[verifier::external_type_specification]
#[verifier::external_body]
#[verifier::reject_recursive_types(T)]
pub struct ExTokioSender<T>(tokio::sync::mpsc::Sender<T>);

/// `tokio::sync::mpsc::Receiver`, a channel end that the controller can hold.
#[verifier::external_type_specification]
#[verifier::external_body]
#[verifier::reject_recursive_types(T)]
pub struct ExTokioReceiver<T>(tokio::sync::mpsc::Receiver<T>);

/// The background controller: the task being run, and the channel ends to the
/// main thread.
pub struct BgController {
    curr_job: Option<Task>,
    tx: Option<tokio::sync::mpsc::Sender<Task>>,
    rx: Option<tokio::sync::mpsc::Receiver<Task>>,
}

/// The error type of `add_job`, which is never returned: adding a job does
/// not fail.
#[derive(Debug)]
pub struct JobError;

/// The task being run after a job is added to a controller that was running
/// `before`: an idle controller takes the job, a busy one keeps its task (one
/// task at a time).
pub open spec fn job_after_add(before: Option<Task>, job: Task) -> Option<Task> {
    match before {
        None => Some(job),
        Some(t) => Some(t),
    }
}

impl BgController {
    /// The task being run, if any.
    pub closed spec fn current_job(&self) -> Option<Task> {
        self.curr_job
    }

    /// Whether the controller holds channel ends.
    pub closed spec fn has_channels(&self) -> bool {
        self.tx is Some || self.rx is Some
    }

    /// The channel ends that the controller holds.
    pub closed spec fn channels(&self) -> (
        Option<tokio::sync::mpsc::Sender<Task>>,
        Option<tokio::sync::mpsc::Receiver<Task>>,
    ) {
        (self.tx, self.rx)
    }

    /// A controller with no task and no channels.
    pub fn init() -> (c: Self)
        ensures
            c.current_job() is None,
            !c.has_channels(),
    {
        BgController { curr_job: None, tx: None, rx: None }
    }

    /// True exactly when no task is being run.
    pub fn has_no_job(&self) -> (r: bool)
        ensures
            r == self.current_job() is None,
    {
        if self.curr_job.is_some() {
            return false;
        }
        return true;
    }

    /// Takes a job from a footager user: an idle controller runs it, a busy
    /// one keeps the task it runs (one task at a time).
    pub fn add_job(&mut self, job: Task) -> (r: Result<(), JobError>)
        ensures
            r is Ok,
            final(self).current_job() == job_after_add(old(self).current_job(), job),
            final(self).channels() == old(self).channels(),
    {
        if self.has_no_job() {
            self.curr_job = Some(job);
        }
        Ok(())
    }
}

/// The line logged when a user URL comes in, before the script for its site
/// is chosen.
pub fn parse_url(url: String) -> (msg: String)
    ensures
        msg@ == "We are choosing right script for user url \n"@ + url@,
{
    let mut msg = "We are choosing right script for user url \n".to_owned();
    msg.append(url.as_str());
    msg
}

/// After a job is added the controller is busy, and a task that was being run
/// is not replaced: an idle controller takes the job, a busy one keeps its own.
pub proof fn law_add_job_keeps_running_task(before: Option<Task>, job: Task)
    ensures
        job_after_add(before, job) is Some,
        before is None ==> job_after_add(before, job) == Some(job),
        before is Some ==> job_after_add(before, job) == before,
{
}

} // verus!
