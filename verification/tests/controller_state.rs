use result_guide::cache::StepCache;
use result_guide::controller::Controller;
use result_guide::data::{Report, TestStep};
use result_guide::protocol::{Request, Response};
use result_guide::worker::{resolve_reports, resolve_test_steps};

fn sample_report(id: i32) -> Report {
    Report {
        id,
        date: "2014-11-28T21:00:09+09:00".to_string(),
        project: "TestProjekt".to_string(),
        name: "TestReport".to_string(),
        verdict: "PASSED".to_string(),
    }
}

fn sample_step(id: i32, report_id: i32, step_number: i32) -> TestStep {
    TestStep {
        id,
        report_id,
        step_number,
        date: "2014-11-28T12:00:09+00:00".to_string(),
        name: "step".to_string(),
        verdict: "PASSED".to_string(),
    }
}

#[test]
fn cache_starts_empty_and_stores_one_list() {
    let mut cache = StepCache::new();
    assert!(cache.get(1).is_none());
    let steps = vec![sample_step(10, 1, 1), sample_step(11, 1, 2)];
    cache.set_steps(1, steps.clone());
    assert_eq!(cache.get(1), Some(&steps));
    assert!(cache.get(2).is_none());
}

#[test]
fn cache_replaces_entry_under_same_key() {
    let mut cache = StepCache::new();
    cache.set_steps(5, vec![sample_step(1, 5, 1)]);
    let replacement = vec![sample_step(2, 5, 1), sample_step(3, 5, 2)];
    cache.set_steps(5, replacement.clone());
    assert_eq!(cache.get(5), Some(&replacement));
}

#[test]
fn cache_keeps_entries_under_distinct_keys() {
    let mut cache = StepCache::new();
    let first = vec![sample_step(1, 1, 1)];
    let second = vec![sample_step(2, 2, 1)];
    cache.set_steps(1, first.clone());
    cache.set_steps(2, second.clone());
    assert_eq!(cache.get(1), Some(&first));
    assert_eq!(cache.get(2), Some(&second));
}

#[test]
fn controller_starts_empty() {
    let controller = Controller::new();
    assert!(controller.reports.is_none());
    assert!(controller.last_error.is_none());
    assert_eq!(controller.pending_count(), 0);
    assert!(!controller.is_halted());
    assert!(!controller.needs_repaint());
}

#[test]
fn emit_increments_pending_and_builds_request() {
    let mut controller = Controller::new();
    let req = controller.emit_fetch_reports();
    assert_eq!(req, Request::FetchReports);
    assert_eq!(controller.pending_count(), 1);
    let req = controller.emit_fetch_test_steps(7);
    assert_eq!(req, Request::FetchTestSteps(7));
    assert_eq!(controller.pending_count(), 2);
    assert!(controller.needs_repaint());
}

#[test]
fn pending_saturates_at_counter_width() {
    let mut controller = Controller::new();
    for _ in 0..300 {
        controller.emit_fetch_reports();
    }
    assert_eq!(controller.pending_count(), u8::MAX);
    for _ in 0..300 {
        controller.apply_response(Response::Failure("boom".to_string()));
    }
    // The counter never underflows, whatever the drain count.
    assert_eq!(controller.pending_count(), 0);
}

#[test]
fn reports_response_replaces_cache_and_clears_error() {
    let mut controller = Controller::new();
    controller.emit_fetch_reports();
    controller.apply_response(Response::Failure("old failure".to_string()));
    assert_eq!(controller.last_error, Some("old failure".to_string()));

    controller.emit_fetch_reports();
    let list = vec![sample_report(1), sample_report(2)];
    controller.apply_response(Response::Reports(list.clone()));
    assert_eq!(controller.reports, Some(list));
    assert!(controller.last_error.is_none());
    assert_eq!(controller.pending_count(), 0);
}

#[test]
fn failure_leaves_caches_untouched_and_sets_error() {
    let mut controller = Controller::new();
    controller.emit_fetch_reports();
    let list = vec![sample_report(1)];
    controller.apply_response(Response::Reports(list.clone()));
    controller.emit_fetch_test_steps(1);
    let steps = vec![sample_step(10, 1, 1)];
    controller.apply_response(Response::TestSteps(steps.clone()));

    controller.emit_fetch_reports();
    controller.apply_response(Response::Failure("storage down".to_string()));
    assert_eq!(controller.reports, Some(list));
    assert_eq!(controller.test_steps_for(1), Some(&steps));
    assert_eq!(controller.last_error, Some("storage down".to_string()));
    assert_eq!(controller.pending_count(), 0);
}

#[test]
fn test_steps_response_is_keyed_by_payload_report_id() {
    let mut controller = Controller::new();
    controller.emit_fetch_test_steps(9);
    let steps = vec![sample_step(20, 9, 1), sample_step(21, 9, 2)];
    controller.apply_response(Response::TestSteps(steps.clone()));
    assert_eq!(controller.test_steps_for(9), Some(&steps));
    assert_eq!(controller.pending_count(), 0);
}

#[test]
fn empty_test_steps_response_moves_no_cache_entry() {
    let mut controller = Controller::new();
    controller.emit_fetch_test_steps(3);
    controller.apply_response(Response::TestSteps(Vec::new()));
    assert!(controller.test_steps_for(3).is_none());
    assert!(controller.last_error.is_none());
    assert_eq!(controller.pending_count(), 0);
}

#[test]
fn first_report_id_names_the_first_cached_report() {
    let mut controller = Controller::new();
    assert_eq!(controller.first_report_id(), None);
    controller.emit_fetch_reports();
    controller.apply_response(Response::Reports(vec![sample_report(4), sample_report(9)]));
    assert_eq!(controller.first_report_id(), Some(4));
    controller.emit_fetch_reports();
    controller.apply_response(Response::Reports(Vec::new()));
    assert_eq!(controller.first_report_id(), None);
}

#[test]
fn closed_response_queue_is_fatal() {
    let mut controller = Controller::new();
    controller.emit_fetch_reports();
    controller.on_response_queue_closed();
    assert!(controller.is_halted());
}

#[test]
fn resolution_turns_outcomes_into_single_responses() {
    let list = vec![sample_report(1)];
    assert_eq!(resolve_reports(Ok(list.clone())), Response::Reports(list));
    assert_eq!(
        resolve_reports(Err(result_guide::protocol::FetchError::Status(500))),
        Response::Failure("request failed with HTTP status 500".to_string())
    );
    let steps = vec![sample_step(1, 2, 1)];
    assert_eq!(resolve_test_steps(Ok(steps.clone())), Response::TestSteps(steps));
    assert_eq!(
        resolve_test_steps(Err(result_guide::protocol::FetchError::Transport(
            "timed out".to_string()
        ))),
        Response::Failure("transport error: timed out".to_string())
    );
}
