//! The job life cycle, the events each transition emits, and the answers of
//! the watch tool.

use avix_core::error::AvixError;
use avix_core::jobs::{
    start_job, watch_event, watch_start, watch_timeout_ms, watch_timeout_reply, JobError, JobEvent, JobRegistry,
    JobState, LogStream, WatchStart, DEFAULT_WATCH_TIMEOUT_MS,
};
use avix_core::json::Json;
use avix_core::types::Pid;

fn config_message(r: Result<(), AvixError>) -> String {
    match r {
        Err(AvixError::ConfigParse(m)) => m,
        other => panic!("expected a refused transition, got {other:?}"),
    }
}

#[test]
fn created_job_is_pending_with_prefixed_id() {
    let mut reg = JobRegistry::new();
    let id = reg.create("fs/scan", Pid::from_u64(7));
    assert!(id.starts_with("job-"));
    assert_eq!(id.len(), 40);
    let job = reg.get(&id).unwrap();
    assert_eq!(job.state, JobState::Pending);
    assert_eq!(job.tool, "fs/scan");
    assert_eq!(job.owner_pid, Pid::from_u64(7));
    assert_eq!(job.created_at, job.updated_at);
    assert_eq!(reg.job_count(), 1);
    assert!(reg.take_events().is_empty());
}

#[test]
fn full_lifecycle_emits_events_in_order() {
    let mut reg = JobRegistry::new();
    let id = reg.create("tool", Pid::from_u64(1));
    reg.start(&id).unwrap();
    reg.progress(&id, Some(50), Some("half".into()), None).unwrap();
    reg.log(&id, LogStream::Stdout, "line one".into()).unwrap();
    reg.complete(&id, Json::uint(3)).unwrap();
    let evs = reg.take_events();
    assert_eq!(evs.len(), 5);
    assert!(matches!(&evs[0], JobEvent::StatusChange { old_state: JobState::Pending, new_state: JobState::Running, .. }));
    assert!(matches!(&evs[1], JobEvent::Progress { percent: Some(50), .. }));
    assert!(matches!(&evs[2], JobEvent::Log { stream: LogStream::Stdout, .. }));
    assert!(matches!(&evs[3], JobEvent::StatusChange { old_state: JobState::Running, new_state: JobState::Done, .. }));
    assert!(matches!(&evs[4], JobEvent::Complete { .. }));
    for e in &evs {
        assert_eq!(e.job_id(), id);
    }
    assert_eq!(reg.get(&id).unwrap().state, JobState::Done);
    assert!(reg.take_events().is_empty());
}

#[test]
fn starting_twice_is_refused() {
    let mut reg = JobRegistry::new();
    let id = reg.create("tool", Pid::from_u64(1));
    reg.start(&id).unwrap();
    let m = config_message(reg.start(&id));
    assert_eq!(m, format!("cannot start job '{id}': state is Running"));
}

#[test]
fn progress_before_start_is_refused() {
    let mut reg = JobRegistry::new();
    let id = reg.create("tool", Pid::from_u64(1));
    let m = config_message(reg.progress(&id, None, None, None));
    assert_eq!(m, format!("cannot emit progress for job '{id}': not running"));
    let m = config_message(reg.log(&id, LogStream::Stderr, "x".into()));
    assert_eq!(m, format!("cannot emit log for job '{id}': not running"));
    assert_eq!(reg.get(&id).unwrap().state, JobState::Pending);
}

#[test]
fn finished_job_cannot_change() {
    let mut reg = JobRegistry::new();
    let id = reg.create("tool", Pid::from_u64(1));
    reg.start(&id).unwrap();
    reg.complete(&id, Json::Null).unwrap();
    reg.take_events();
    let m = config_message(reg.fail(&id, JobError { code: "E".into(), message: "boom".into() }));
    assert_eq!(m, format!("cannot fail job '{id}': already in terminal state Done"));
    let m = config_message(reg.cancel(&id));
    assert_eq!(m, format!("cannot cancel job '{id}': already in terminal state Done"));
    let m = config_message(reg.complete(&id, Json::Null));
    assert_eq!(m, format!("cannot complete job '{id}': already in terminal state Done"));
    assert_eq!(reg.get(&id).unwrap().state, JobState::Done);
    assert!(reg.take_events().is_empty());
}

#[test]
fn pending_job_cannot_be_ended() {
    let mut reg = JobRegistry::new();
    let id = reg.create("tool", Pid::from_u64(1));
    let m = config_message(reg.complete(&id, Json::Null));
    assert_eq!(m, format!("cannot complete job '{id}': state is Pending"));
    let m = config_message(reg.fail(&id, JobError { code: "E".into(), message: "boom".into() }));
    assert_eq!(m, format!("cannot fail job '{id}': state is Pending"));
    let m = config_message(reg.cancel(&id));
    assert_eq!(m, format!("cannot cancel job '{id}': state is Pending"));
    assert_eq!(reg.get(&id).unwrap().state, JobState::Pending);
    assert!(reg.take_events().is_empty());
}

#[test]
fn running_job_can_be_cancelled() {
    let mut reg = JobRegistry::new();
    let id = reg.create("tool", Pid::from_u64(1));
    reg.start(&id).unwrap();
    reg.take_events();
    reg.cancel(&id).unwrap();
    assert_eq!(reg.get(&id).unwrap().state, JobState::Cancelled);
    let evs = reg.take_events();
    assert_eq!(evs.len(), 1);
    assert!(matches!(&evs[0], JobEvent::StatusChange { old_state: JobState::Running, new_state: JobState::Cancelled, .. }));
}

#[test]
fn unknown_job_is_not_found() {
    let mut reg = JobRegistry::new();
    match reg.start("job-missing") {
        Err(AvixError::NotFound(m)) => assert_eq!(m, "job 'job-missing' not found"),
        other => panic!("unexpected {other:?}"),
    }
    match reg.get("job-missing") {
        Err(AvixError::NotFound(m)) => assert_eq!(m, "job 'job-missing' not found"),
        _ => panic!("expected NotFound"),
    }
}

#[test]
fn failure_keeps_the_error() {
    let mut reg = JobRegistry::new();
    let id = reg.create("tool", Pid::from_u64(1));
    reg.start(&id).unwrap();
    reg.fail(&id, JobError { code: "EIO".into(), message: "disk".into() }).unwrap();
    let job = reg.get(&id).unwrap();
    assert_eq!(job.state, JobState::Failed);
    let err = job.error.as_ref().unwrap();
    assert_eq!(err.code, "EIO");
    assert_eq!(err.message, "disk");
}

#[test]
fn start_job_leaves_job_running() {
    let mut reg = JobRegistry::new();
    let id = start_job(&mut reg, "net/fetch", Pid::from_u64(9));
    assert_eq!(reg.get(&id).unwrap().state, JobState::Running);
    let evs = reg.take_events();
    assert_eq!(evs.len(), 1);
    assert!(matches!(&evs[0], JobEvent::StatusChange { new_state: JobState::Running, .. }));
}

#[test]
fn state_names() {
    assert!(JobState::Done.is_terminal());
    assert!(JobState::Failed.is_terminal());
    assert!(JobState::Cancelled.is_terminal());
    assert!(!JobState::Paused.is_terminal());
    assert_eq!(JobState::Cancelled.wire_name(), "cancelled");
    assert_eq!(JobState::Paused.debug_name(), "Paused");
    assert_eq!(LogStream::Stderr.wire_name(), "stderr");
}

#[test]
fn watch_unknown_job_replies_not_found() {
    let reg = JobRegistry::new();
    match watch_start(&reg, "job-nope") {
        WatchStart::Reply(j) => assert_eq!(j.get_str("status").as_deref(), Some("not_found")),
        WatchStart::Wait => panic!("expected a reply"),
    }
}

#[test]
fn watch_reports_completion() {
    let mut reg = JobRegistry::new();
    let id = start_job(&mut reg, "tool", Pid::from_u64(1));
    assert!(matches!(watch_start(&reg, &id), WatchStart::Wait));
    reg.complete(&id, Json::string("ok")).unwrap();
    match watch_start(&reg, &id) {
        WatchStart::Reply(j) => {
            let e = j.get("event").unwrap();
            assert_eq!(e.get_str("type").as_deref(), Some("complete"));
            assert_eq!(e.get_str("job_id").as_deref(), Some(id.as_str()));
            assert_eq!(e.get_str("result").as_deref(), Some("ok"));
        }
        WatchStart::Wait => panic!("expected a reply"),
    }
}

#[test]
fn watch_reports_failure_and_cancellation() {
    let mut reg = JobRegistry::new();
    let a = start_job(&mut reg, "tool", Pid::from_u64(1));
    reg.fail(&a, JobError { code: "E1".into(), message: "bad".into() }).unwrap();
    match watch_start(&reg, &a) {
        WatchStart::Reply(j) => {
            let e = j.get("event").unwrap();
            assert_eq!(e.get_str("type").as_deref(), Some("fail"));
            assert_eq!(e.get("error").unwrap().get_str("code").as_deref(), Some("E1"));
        }
        WatchStart::Wait => panic!("expected a reply"),
    }
    let b = start_job(&mut reg, "tool", Pid::from_u64(1));
    reg.cancel(&b).unwrap();
    match watch_start(&reg, &b) {
        WatchStart::Reply(j) => {
            let e = j.get("event").unwrap();
            assert_eq!(e.get_str("type").as_deref(), Some("status_change"));
            assert_eq!(e.get_str("new_state").as_deref(), Some("cancelled"));
        }
        WatchStart::Wait => panic!("expected a reply"),
    }
}

#[test]
fn watch_event_filters_by_job() {
    let ev = JobEvent::Log { job_id: "job-a".into(), stream: LogStream::Stdout, line: "hi".into() };
    assert!(watch_event("job-b", &ev).is_none());
    let j = watch_event("job-a", &ev).unwrap();
    let e = j.get("event").unwrap();
    assert_eq!(e.get_str("type").as_deref(), Some("log"));
    assert_eq!(e.get_str("stream").as_deref(), Some("stdout"));
    assert_eq!(e.get_str("line").as_deref(), Some("hi"));
}

#[test]
fn watch_timeouts() {
    assert_eq!(watch_timeout_ms(None), DEFAULT_WATCH_TIMEOUT_MS);
    assert_eq!(watch_timeout_ms(None), 5000);
    assert_eq!(watch_timeout_ms(Some(10)), 10);
    assert_eq!(watch_timeout_reply().get_str("status").as_deref(), Some("timeout"));
}

#[test]
fn progress_event_json() {
    let ev = JobEvent::Progress { job_id: "job-x".into(), percent: Some(20), stage: None, detail: Some("d".into()) };
    let j = ev.to_json();
    assert_eq!(j.get_str("type").as_deref(), Some("progress"));
    assert_eq!(j.get_u64("percent"), Some(20));
    assert!(j.get("stage").is_none());
    assert_eq!(j.get_str("detail").as_deref(), Some("d"));
}
