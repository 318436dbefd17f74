use footager::bg_thread::{parse_url, BgController};
use footager::cpu::memory_usage_is_critical;
use footager::job::Task;
use footager::queue::Queue;

fn task(name: &str) -> Task {
    Task::new(name.to_string(), "https://a/".to_string(), "video".to_string(), false)
}

#[test]
fn queue_is_first_in_first_out() {
    let mut q = Queue::new();
    assert!(q.dequeue().is_none());
    q.enqueue(task("a"));
    q.enqueue(task("b"));
    assert_eq!(q.len(), 2);
    assert_eq!(format!("{:?}", q.dequeue().unwrap()), format!("{:?}", task("a")));
    q.enqueue(task("c"));
    assert_eq!(format!("{:?}", q.dequeue().unwrap()), format!("{:?}", task("b")));
    assert_eq!(format!("{:?}", q.dequeue().unwrap()), format!("{:?}", task("c")));
    assert!(q.dequeue().is_none());
    assert_eq!(q.len(), 0);
}

#[test]
fn queue_front_is_first_put_in() {
    let mut q = Queue::new();
    q.enqueue(task("first"));
    q.enqueue(task("second"));
    assert_eq!(format!("{:?}", q.deref()), format!("{:?}", task("first")));
    *q.deref_mut() = task("changed");
    assert_eq!(format!("{:?}", q.deref()), format!("{:?}", task("changed")));
    assert_eq!(q.len(), 2);
}

#[test]
fn task_init_is_blank() {
    let t = Task::init();
    assert_eq!(format!("{:?}", t), format!("{:?}", Task::new(String::new(), String::new(), String::new(), false)));
}

#[test]
fn controller_takes_job_when_idle() {
    let mut c = BgController::init();
    assert!(c.has_no_job());
    assert!(c.add_job(task("x")).is_ok());
    assert!(!c.has_no_job());
    assert!(c.add_job(task("y")).is_ok());
    assert!(!c.has_no_job());
}

#[test]
fn parse_url_message() {
    assert_eq!(
        parse_url("https://artgrid.io/clip/1/x".to_string()),
        "We are choosing right script for user url \nhttps://artgrid.io/clip/1/x"
    );
}

#[test]
fn memory_threshold() {
    assert!(!memory_usage_is_critical(0));
    assert!(!memory_usage_is_critical(89));
    assert!(memory_usage_is_critical(90));
    assert!(memory_usage_is_critical(u64::MAX));
}
