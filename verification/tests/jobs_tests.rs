//! Job poller tests: decoding status records and the poll state machine.

use lsm::jobs::{job_record_from_json, job_status_request, job_free_request, poll_decision};
use lsm::json::Json;
use lsm::{JobRecord, JobStatus, LsmErrorKind, PollStep};

fn record(status: u64, percent: u64, data: Option<Json>) -> Json {
    let mut fields = vec![
        ("status".to_owned(), Json::Uint(status)),
        ("percent".to_owned(), Json::Uint(percent)),
    ];
    match data {
        None => fields.push(("data".to_owned(), Json::Null)),
        Some(d) => fields.push(("data".to_owned(), d)),
    }
    Json::Obj(fields)
}

#[test]
fn decode_in_progress_record() {
    let rec = job_record_from_json(&record(1, 30, None)).unwrap();
    assert_eq!(rec.status, JobStatus::InProgress);
    assert_eq!(rec.percent, 30);
    assert!(rec.data.is_none());
}

#[test]
fn decode_complete_record_with_data() {
    let rec = job_record_from_json(&record(2, 100, Some(Json::Str("payload".to_owned())))).unwrap();
    assert_eq!(rec.status, JobStatus::Complete);
    assert_eq!(rec.data, Some(Json::Str("payload".to_owned())));
}

#[test]
fn decode_unrecognized_status() {
    let rec = job_record_from_json(&record(9, 0, None)).unwrap();
    assert_eq!(rec.status, JobStatus::Unknown(9));
}

#[test]
fn decode_malformed_record() {
    let e = job_record_from_json(&Json::Str("no".to_owned())).unwrap_err();
    assert_eq!(e.kind, LsmErrorKind::TransportSerialization);
    let missing = Json::Obj(vec![("status".to_owned(), Json::Uint(1))]);
    let e2 = job_record_from_json(&missing).unwrap_err();
    assert_eq!(e2.kind, LsmErrorKind::TransportSerialization);
}

#[test]
fn poll_waits_while_in_progress() {
    let d = poll_decision(JobRecord { status: JobStatus::InProgress, percent: 10, data: None });
    assert!(matches!(d, PollStep::Wait));
}

#[test]
fn poll_finishes_without_payload() {
    // Completion without a payload is success with no value; the job is
    // still freed exactly once.
    let d = poll_decision(JobRecord { status: JobStatus::Complete, percent: 100, data: None });
    assert!(matches!(d, PollStep::Finish(None)));
}

#[test]
fn poll_fails_without_error_detail() {
    // A terminal error status whose detail never arrived on a prior call is
    // a plugin bug, not a silent success.
    let d = poll_decision(JobRecord { status: JobStatus::Error, percent: 0, data: None });
    match d {
        PollStep::Fail(e) => {
            assert_eq!(e.kind, LsmErrorKind::PluginBug);
            assert_eq!(e.msg, "got no error detail for failed job");
        },
        _ => panic!("expected a failure"),
    }
}

#[test]
fn poll_fails_on_unrecognized_status() {
    let d = poll_decision(JobRecord { status: JobStatus::Unknown(7), percent: 0, data: None });
    match d {
        PollStep::Fail(e) => {
            assert_eq!(e.kind, LsmErrorKind::PluginBug);
            assert_eq!(e.msg, "got invalid job status 7");
        },
        _ => panic!("expected a failure"),
    }
}

#[test]
fn scripted_poll_counts_calls() {
    // A scripted sequence of in-progress, in-progress, complete(data): the
    // poller issues exactly three status polls, sleeps between the first
    // two, frees the job exactly once, and returns the payload.
    let payload = Json::Str("the result".to_owned());
    let script = vec![record(1, 10, None), record(1, 60, None), record(2, 100, Some(payload.deep_clone()))];
    let mut status_calls = 0;
    let mut sleeps = 0;
    let mut frees = 0;
    let mut outcome: Option<Json> = None;
    for raw in &script {
        assert!(job_status_request("job-1").is_ok());
        status_calls += 1;
        let rec = job_record_from_json(raw).unwrap();
        match poll_decision(rec) {
            PollStep::Wait => sleeps += 1,
            PollStep::Finish(data) => {
                assert!(job_free_request("job-1").is_ok());
                frees += 1;
                outcome = data;
                break;
            },
            PollStep::Fail(e) => panic!("unexpected failure: {:?}", e),
        }
    }
    assert_eq!(status_calls, 3);
    assert_eq!(sleeps, 2);
    assert_eq!(frees, 1);
    assert_eq!(outcome, Some(payload));
}

#[test]
fn scripted_poll_frees_without_payload() {
    // Completion without a payload still frees the handle exactly once and
    // yields success with no value.
    let script = vec![record(1, 50, None), record(2, 100, None)];
    let mut status_calls = 0;
    let mut frees = 0;
    let mut outcome: Option<Option<Json>> = None;
    for raw in &script {
        status_calls += 1;
        let rec = job_record_from_json(raw).unwrap();
        match poll_decision(rec) {
            PollStep::Wait => continue,
            PollStep::Finish(data) => {
                assert!(job_free_request("job-2").is_ok());
                frees += 1;
                outcome = Some(data);
                break;
            },
            PollStep::Fail(e) => panic!("unexpected failure: {:?}", e),
        }
    }
    assert_eq!(status_calls, 2);
    assert_eq!(frees, 1);
    assert_eq!(outcome, Some(None));
}
