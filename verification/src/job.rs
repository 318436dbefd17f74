use vstd::prelude::*;

verus! {

/// One download job of a footager user: who asked, for which URL, what is
/// to be downloaded, and whether it is done.
#[derive(Debug, Clone)]
pub struct Task {
    task_name: String,
    user_url: String,
    user_job: String,
    finished: bool,
}

/// What a task holds, as plain values.
pub struct TaskView {
    pub task_name: Seq<char>,
    pub user_url: Seq<char>,
    pub user_job: Seq<char>,
    pub finished: bool,
}

impl View for Task {
    type V = TaskView;

    closed spec fn view(&self) -> TaskView {
        TaskView {
            task_name: self.task_name@,
            user_url: self.user_url@,
            user_job: self.user_job@,
            finished: self.finished,
        }
    }
}

impl Task {
    /// A blank task: empty name, URL and job, not finished.
    pub fn init() -> (t: Self)
        ensures
            t@.task_name == Seq::<char>::empty(),
            t@.user_url == Seq::<char>::empty(),
            t@.user_job == Seq::<char>::empty(),
            !t@.finished,
    {
        Task {
            task_name: String::new(),
            user_url: String::new(),
            user_job: String::new(),
            finished: false,
        }
    }

    /// A task with the given name, URL, job and state.
    pub fn new(task: String, url: String, job: String, finished: bool) -> (t: Self)
        ensures
            t@.task_name == task@,
            t@.user_url == url@,
            t@.user_job == job@,
            t@.finished == finished,
    {
        Task { task_name: task, user_url: url, user_job: job, finished: finished }
    }
}

} // verus!
