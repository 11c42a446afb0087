use result_guide::data::{Report, TestStep};
use result_guide::protocol::{FetchError, Request, Response};
use result_guide::session::Session;
use result_guide::worker::WorkerState;

fn sample_report(id: i32) -> Report {
    Report {
        id,
        date: "2014-11-28T21:00:09+09:00".to_string(),
        project: "TestProjekt".to_string(),
        name: "TestReport".to_string(),
        verdict: "PASSED".to_string(),
    }
}

fn sample_step(id: i32, report_id: i32, step_number: i32) -> TestStep {
    TestStep {
        id,
        report_id,
        step_number,
        date: "2014-11-28T12:00:09+00:00".to_string(),
        name: "step".to_string(),
        verdict: "PASSED".to_string(),
    }
}

#[test]
fn fetch_reports_round_trip() {
    let mut s = Session::new();
    s.emit_fetch_reports();
    assert_eq!(s.controller.pending_count(), 1);

    assert_eq!(s.worker_poll(), Some(Request::FetchReports));
    s.worker_finish_reports(Ok(vec![sample_report(1)]));

    assert!(s.controller_tick());
    assert_eq!(s.controller.reports, Some(vec![sample_report(1)]));
    assert!(s.controller.last_error.is_none());
    assert_eq!(s.controller.pending_count(), 0);
    assert!(!s.controller.needs_repaint());
}

#[test]
fn unknown_report_id_surfaces_the_status() {
    let mut s = Session::new();
    s.emit_fetch_test_steps(7);

    assert_eq!(s.worker_poll(), Some(Request::FetchTestSteps(7)));
    // The storage service does not know report 7: the exchange ends 404.
    s.worker_finish_test_steps(Err(FetchError::Status(404)));

    assert!(s.controller_tick());
    let banner = s.controller.last_error.clone().expect("a failure must set the banner");
    assert!(banner.contains("404"));
    assert!(s.controller.test_steps_for(7).is_none());
    assert_eq!(s.controller.pending_count(), 0);
}

#[test]
fn two_fetches_in_flight_then_a_third() {
    let mut s = Session::new();
    s.emit_fetch_reports();
    s.emit_fetch_reports();
    assert_eq!(s.controller.pending_count(), 2);

    // A third, unrelated request joins before anything is drained.
    s.emit_fetch_test_steps(5);
    assert_eq!(s.controller.pending_count(), 3);

    // The worker serves strictly in arrival order.
    assert_eq!(s.worker_poll(), Some(Request::FetchReports));
    s.worker_finish_reports(Ok(vec![sample_report(1)]));
    assert_eq!(s.worker_poll(), Some(Request::FetchReports));
    s.worker_finish_reports(Ok(vec![sample_report(1), sample_report(2)]));
    assert_eq!(s.worker_poll(), Some(Request::FetchTestSteps(5)));
    s.worker_finish_test_steps(Ok(vec![sample_step(50, 5, 1)]));

    assert!(s.controller_tick());
    assert!(s.controller_tick());
    assert!(s.controller_tick());
    assert!(!s.controller_tick());
    assert_eq!(s.controller.pending_count(), 0);
    assert_eq!(s.controller.reports, Some(vec![sample_report(1), sample_report(2)]));
    assert_eq!(s.controller.test_steps_for(5), Some(&vec![sample_step(50, 5, 1)]));
}

#[test]
fn responses_drain_in_publish_order() {
    let mut s = Session::new();
    s.emit_fetch_reports();
    s.emit_fetch_test_steps(1);

    assert_eq!(s.worker_poll(), Some(Request::FetchReports));
    s.worker_finish_reports(Err(FetchError::Transport("connection refused".to_string())));
    assert_eq!(s.worker_poll(), Some(Request::FetchTestSteps(1)));
    s.worker_finish_test_steps(Ok(vec![sample_step(10, 1, 1)]));

    // First drained: the failure published first.
    assert!(s.controller_tick());
    assert_eq!(
        s.controller.last_error,
        Some("transport error: connection refused".to_string())
    );
    // Second drained: the success published second clears the banner.
    assert!(s.controller_tick());
    assert!(s.controller.last_error.is_none());
    assert_eq!(s.controller.test_steps_for(1), Some(&vec![sample_step(10, 1, 1)]));
}

#[test]
fn failure_then_success_of_same_kind() {
    let mut s = Session::new();
    s.emit_fetch_reports();
    assert_eq!(s.worker_poll(), Some(Request::FetchReports));
    s.worker_finish_reports(Ok(vec![sample_report(3)]));
    assert!(s.controller_tick());

    s.emit_fetch_reports();
    assert_eq!(s.worker_poll(), Some(Request::FetchReports));
    s.worker_finish_reports(Err(FetchError::Status(500)));
    assert!(s.controller_tick());
    // The failed fetch left the cache as it was.
    assert_eq!(s.controller.reports, Some(vec![sample_report(3)]));
    assert!(s.controller.last_error.is_some());

    s.emit_fetch_reports();
    assert_eq!(s.worker_poll(), Some(Request::FetchReports));
    s.worker_finish_reports(Ok(vec![sample_report(4)]));
    assert!(s.controller_tick());
    assert_eq!(s.controller.reports, Some(vec![sample_report(4)]));
    assert!(s.controller.last_error.is_none());
}

#[test]
fn worker_waits_while_queue_is_empty_and_stops_on_close() {
    let mut s = Session::new();
    assert_eq!(s.worker_poll(), None);
    assert_eq!(s.worker, WorkerState::Idle);

    s.emit_fetch_reports();
    s.close();
    // The closed queue still serves what was already enqueued.
    assert_eq!(s.worker_poll(), Some(Request::FetchReports));
    s.worker_finish_reports(Ok(Vec::new()));
    // Only an empty, closed queue stops the worker: the normal termination.
    assert_eq!(s.worker_poll(), None);
    assert_eq!(s.worker, WorkerState::Stopped);

    assert!(s.controller_tick());
    assert_eq!(s.controller.pending_count(), 0);
}

#[test]
fn drains_never_underflow_the_pending_counter() {
    let mut s = Session::new();
    for _ in 0..3 {
        s.emit_fetch_reports();
        assert_eq!(s.worker_poll(), Some(Request::FetchReports));
        s.worker_finish_reports(Ok(Vec::new()));
    }
    assert_eq!(s.controller.pending_count(), 3);
    assert!(s.controller_tick());
    assert!(s.controller_tick());
    assert!(s.controller_tick());
    // Nothing is left: the tick reports no progress and nothing moves.
    assert!(!s.controller_tick());
    assert!(!s.controller_tick());
    assert_eq!(s.controller.pending_count(), 0);
}
