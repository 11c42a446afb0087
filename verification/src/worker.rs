//! The background worker: its state machine and how it resolves one
//! request into exactly one response.
//!
//! The worker owns the transport. The HTTP exchange and the JSON decoding
//! happen outside this library; their combined outcome for one request is
//! handed in as a value, and resolution maps it to the one response the
//! worker publishes.

use vstd::prelude::*;

use crate::data::{Report, ReportView, TestStep, TestStepView};
use crate::protocol::{
    answers, error_line, FetchError, FetchErrorView, Request, RequestView, Response, ResponseView,
};

verus! {

/// Where the worker stands: blocked on the request queue, serving one
/// dequeued request, or stopped for good because the request queue closed
/// (the one normal termination).
#[derive(Clone, Copy, Debug, PartialEq, Eq)]
pub enum WorkerState {
    Idle,
    Serving(Request),
    Stopped,
}

/// The mathematical value of a [`WorkerState`].
pub enum WorkerStateView {
    Idle,
    Serving(RequestView),
    Stopped,
}

impl View for WorkerState {
    type V = WorkerStateView;

    open spec fn view(&self) -> WorkerStateView {
        match self {
            WorkerState::Idle => WorkerStateView::Idle,
            WorkerState::Serving(req) => WorkerStateView::Serving(req@),
            WorkerState::Stopped => WorkerStateView::Stopped,
        }
    }
}

/// The outcome of fetching the report list, as a mathematical value.
pub open spec fn reports_outcome_view(res: Result<Vec<Report>, FetchError>) -> Result<
    Seq<ReportView>,
    FetchErrorView,
> {
    match res {
        Result::Ok(list) => Result::Ok(list.deep_view()),
        Result::Err(e) => Result::Err(e@),
    }
}

/// The outcome of fetching one report's test steps, as a mathematical
/// value.
pub open spec fn steps_outcome_view(res: Result<Vec<TestStep>, FetchError>) -> Result<
    Seq<TestStepView>,
    FetchErrorView,
> {
    match res {
        Result::Ok(list) => Result::Ok(list.deep_view()),
        Result::Err(e) => Result::Err(e@),
    }
}

/// The one response a report fetch gives rise to: the list on success, a
/// `Failure` carrying the display-ready message on any error.
pub open spec fn resolve_reports_view(res: Result<Seq<ReportView>, FetchErrorView>) -> ResponseView {
    match res {
        Result::Ok(list) => ResponseView::Reports(list),
        Result::Err(e) => ResponseView::Failure(error_line(e)),
    }
}

/// The one response a test-step fetch gives rise to.
pub open spec fn resolve_steps_view(res: Result<Seq<TestStepView>, FetchErrorView>) -> ResponseView {
    match res {
        Result::Ok(list) => ResponseView::TestSteps(list),
        Result::Err(e) => ResponseView::Failure(error_line(e)),
    }
}

/// Builds the response the worker publishes after a report fetch,
/// whatever the fetch's outcome was.
pub fn resolve_reports(res: Result<Vec<Report>, FetchError>) -> (resp: Response)
    ensures
        resp@ == resolve_reports_view(reports_outcome_view(res)),
        answers(RequestView::FetchReports, resp@),
{
    match res {
        Result::Ok(list) => Response::Reports(list),
        Result::Err(e) => Response::Failure(e.message()),
    }
}

/// Builds the response the worker publishes after a test-step fetch,
/// whatever the fetch's outcome was.
pub fn resolve_test_steps(res: Result<Vec<TestStep>, FetchError>) -> (resp: Response)
    ensures
        resp@ == resolve_steps_view(steps_outcome_view(res)),
        forall|id: int| answers(RequestView::FetchTestSteps(id), resp@),
{
    match res {
        Result::Ok(list) => Response::TestSteps(list),
        Result::Err(e) => Response::Failure(e.message()),
    }
}

} // verus!
