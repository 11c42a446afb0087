//! The state the render loop owns, and how it changes: emitting requests,
//! applying drained responses, and scheduling repaints.
//!
//! All mutation happens through the methods here, on the single render
//! thread; the worker never touches this state.

use vstd::prelude::*;

use crate::cache::StepCache;
use crate::data::{Report, ReportView, TestStep, TestStepView};
use crate::protocol::{Request, RequestView, Response, ResponseView};

verus! {

/// The render loop's own state: the caches, the error banner, the count of
/// requests still in flight, and whether the bridge has failed fatally.
#[derive(Debug)]
pub struct Controller {
    /// The most recently fetched list of reports, if any fetch succeeded.
    pub reports: Option<Vec<Report>>,
    /// Fetched test steps, keyed by report id.
    pub steps: StepCache,
    /// The most recent failure message; newest wins, successes clear it.
    pub last_error: Option<String>,
    /// How many requests were emitted but not yet resolved by a drained
    /// response. Saturating; never negative.
    pub pending: u8,
    /// Set once the response queue is found closed: the worker has
    /// unexpectedly terminated, a fatal internal-invariant violation.
    pub halted: bool,
}

/// The mathematical value of a [`Controller`].
#[verifier::ext_equal]
pub struct ControllerView {
    pub reports: Option<Seq<ReportView>>,
    pub steps: Map<int, Seq<TestStepView>>,
    pub last_error: Option<Seq<char>>,
    pub pending: int,
    pub halted: bool,
}

impl View for Controller {
    type V = ControllerView;

    open spec fn view(&self) -> ControllerView {
        ControllerView {
            reports: match self.reports {
                Option::Some(ref v) => Option::Some(v.deep_view()),
                Option::None => Option::None,
            },
            steps: self.steps@,
            last_error: match self.last_error {
                Option::Some(ref m) => Option::Some(m@),
                Option::None => Option::None,
            },
            pending: self.pending as int,
            halted: self.halted,
        }
    }
}

/// The pending counter after one more request: incremented, saturating at
/// the counter's width.
pub open spec fn bump_pending(p: int) -> int {
    if p < u8::MAX as int {
        p + 1
    } else {
        p
    }
}

/// The pending counter after one resolved response: decremented, never
/// below zero.
pub open spec fn drop_pending(p: int) -> int {
    if p > 0 {
        p - 1
    } else {
        0
    }
}

/// The controller state at startup: everything empty, nothing in flight.
pub open spec fn initial_controller() -> ControllerView {
    ControllerView {
        reports: Option::None,
        steps: Map::empty(),
        last_error: Option::None,
        pending: 0,
        halted: false,
    }
}

/// How emitting one request changes the controller: only the pending
/// counter moves.
pub open spec fn emit_view(c: ControllerView) -> ControllerView {
    ControllerView { pending: bump_pending(c.pending), ..c }
}

/// How one drained response changes the controller.
///
/// A successful `Reports` replaces the report cache and clears the error
/// banner; a successful `TestSteps` replaces the cached list under the
/// report id its first step carries (an empty list names no report, so no
/// cache entry moves) and clears the banner; a `Failure` sets the banner
/// and leaves both caches untouched. Each drained response, of any kind,
/// resolves one pending request.
pub open spec fn apply_response_view(c: ControllerView, r: ResponseView) -> ControllerView {
    match r {
        ResponseView::Reports(list) => ControllerView {
            reports: Option::Some(list),
            last_error: Option::None,
            pending: drop_pending(c.pending),
            ..c
        },
        ResponseView::TestSteps(list) => if list.len() > 0 {
            ControllerView {
                steps: c.steps.insert(list[0].report_id, list),
                last_error: Option::None,
                pending: drop_pending(c.pending),
                ..c
            }
        } else {
            ControllerView { last_error: Option::None, pending: drop_pending(c.pending), ..c }
        },
        ResponseView::Failure(msg) => ControllerView {
            last_error: Option::Some(msg),
            pending: drop_pending(c.pending),
            ..c
        },
    }
}

/// The id of the first report shown, the one whose steps the render loop
/// can ask for.
pub open spec fn first_report_id_view(c: ControllerView) -> Option<int> {
    match c.reports {
        Option::Some(list) => if list.len() > 0 {
            Option::Some(list[0].id)
        } else {
            Option::None
        },
        Option::None => Option::None,
    }
}

impl Controller {
    /// The step cache keeps one entry per report id.
    pub open spec fn wf(&self) -> bool {
        self.steps.wf()
    }

    /// A controller in the startup state.
    pub fn new() -> (c: Controller)
        ensures
            c.wf(),
            c@ == initial_controller(),
    {
        let c = Controller {
            reports: Option::None,
            steps: StepCache::new(),
            last_error: Option::None,
            pending: 0,
            halted: false,
        };
        proof {
            assert(c@ =~= initial_controller());
        }
        c
    }

    /// Emits a request for the report list: counts it as pending and hands
    /// the request back for the caller to enqueue.
    pub fn emit_fetch_reports(&mut self) -> (req: Request)
        ensures
            req == Request::FetchReports,
            final(self)@ == emit_view(old(self)@),
            final(self).wf() == old(self).wf(),
    {
        self.pending = if self.pending < u8::MAX {
            self.pending + 1
        } else {
            self.pending
        };
        proof {
            assert(self@ =~= emit_view(old(self)@));
        }
        Request::FetchReports
    }

    /// Emits a request for the test steps of `report_id`: counts it as
    /// pending and hands the request back for the caller to enqueue.
    pub fn emit_fetch_test_steps(&mut self, report_id: i32) -> (req: Request)
        ensures
            req == Request::FetchTestSteps(report_id),
            final(self)@ == emit_view(old(self)@),
            final(self).wf() == old(self).wf(),
    {
        self.pending = if self.pending < u8::MAX {
            self.pending + 1
        } else {
            self.pending
        };
        proof {
            assert(self@ =~= emit_view(old(self)@));
        }
        Request::FetchTestSteps(report_id)
    }

    /// Applies one drained response, as [`apply_response_view`] promises.
    pub fn apply_response(&mut self, resp: Response)
        requires
            old(self).wf(),
        ensures
            final(self).wf(),
            final(self)@ == apply_response_view(old(self)@, resp@),
    {
        let ghost resp_view = resp@;
        match resp {
            Response::Reports(list) => {
                self.reports = Option::Some(list);
                self.last_error = Option::None;
                self.pending = if self.pending > 0 {
                    self.pending - 1
                } else {
                    0
                };
                proof {
                    assert(self@ =~= apply_response_view(old(self)@, resp_view));
                }
            },
            Response::TestSteps(list) => {
                if list.len() > 0 {
                    let report_id = list[0].report_id;
                    proof {
                        assert(list.deep_view()[0] == list@[0]@);
                    }
                    self.steps.set_steps(report_id, list);
                    self.last_error = Option::None;
                } else {
                    self.last_error = Option::None;
                }
                self.pending = if self.pending > 0 {
                    self.pending - 1
                } else {
                    0
                };
                proof {
                    assert(self@ =~= apply_response_view(old(self)@, resp_view));
                }
            },
            Response::Failure(msg) => {
                self.last_error = Option::Some(msg);
                self.pending = if self.pending > 0 {
                    self.pending - 1
                } else {
                    0
                };
                proof {
                    assert(self@ =~= apply_response_view(old(self)@, resp_view));
                }
            },
        }
    }

    /// Records that the response queue is closed while this controller is
    /// still alive: the worker must outlive the render loop, so the bridge
    /// is now in its fatal terminal state.
    pub fn on_response_queue_closed(&mut self)
        ensures
            final(self)@ == (ControllerView { halted: true, ..old(self)@ }),
            final(self).wf() == old(self).wf(),
    {
        self.halted = true;
        proof {
            assert(self@ =~= (ControllerView { halted: true, ..old(self)@ }));
        }
    }

    /// Whether the render loop must schedule another tick even without
    /// user input: true exactly while requests are outstanding.
    pub fn needs_repaint(&self) -> (r: bool)
        ensures
            r == (self@.pending > 0),
    {
        self.pending > 0
    }

    /// The id of the first shown report, if any.
    pub fn first_report_id(&self) -> (r: Option<i32>)
        ensures
            match r {
                Option::Some(id) => first_report_id_view(self@) == Option::Some(id as int),
                Option::None => first_report_id_view(self@) is None,
            },
    {
        match &self.reports {
            Option::Some(list) => if list.len() > 0 {
                Option::Some(list[0].id)
            } else {
                Option::None
            },
            Option::None => Option::None,
        }
    }

    /// How many requests are still in flight.
    pub fn pending_count(&self) -> (r: u8)
        ensures
            r as int == self@.pending,
    {
        self.pending
    }

    /// Whether the bridge reached its fatal terminal state.
    pub fn is_halted(&self) -> (r: bool)
        ensures
            r == self@.halted,
    {
        self.halted
    }

    /// The cached test steps for `report_id`, if any were fetched.
    pub fn test_steps_for(&self, report_id: i32) -> (r: Option<&Vec<TestStep>>)
        requires
            self.wf(),
        ensures
            match r {
                Option::Some(steps) => self@.steps.contains_key(report_id as int)
                    && steps.deep_view() == self@.steps[report_id as int],
                Option::None => !self@.steps.contains_key(report_id as int),
            },
    {
        self.steps.get(report_id)
    }
}

/// A failure leaves both caches exactly as they were and makes its message
/// the error banner; like every drained response it resolves one pending
/// request.
pub proof fn lemma_failure_leaves_caches(c: ControllerView, msg: Seq<char>)
    ensures
        apply_response_view(c, ResponseView::Failure(msg)).reports == c.reports,
        apply_response_view(c, ResponseView::Failure(msg)).steps == c.steps,
        apply_response_view(c, ResponseView::Failure(msg)).last_error == Option::Some(msg),
        apply_response_view(c, ResponseView::Failure(msg)).pending == drop_pending(c.pending),
{
}

/// After a failure, a successful report fetch clears the error banner and
/// replaces the report cache, leaving the step cache untouched.
pub proof fn lemma_reports_clear_failure(c: ControllerView, msg: Seq<char>, list: Seq<ReportView>)
    ensures
        ({
            let after = apply_response_view(
                apply_response_view(c, ResponseView::Failure(msg)),
                ResponseView::Reports(list),
            );
            after.last_error is None && after.reports == Option::Some(list) && after.steps
                == c.steps
        }),
{
}

/// After a failure, a successful (non-empty) test-step fetch clears the
/// error banner and replaces exactly the cached list its payload names,
/// leaving the report cache untouched.
pub proof fn lemma_test_steps_clear_failure(
    c: ControllerView,
    msg: Seq<char>,
    list: Seq<TestStepView>,
)
    requires
        list.len() > 0,
    ensures
        ({
            let after = apply_response_view(
                apply_response_view(c, ResponseView::Failure(msg)),
                ResponseView::TestSteps(list),
            );
            after.last_error is None && after.reports == c.reports && after.steps == c.steps.insert(
                list[0].report_id,
                list,
            )
        }),
{
}

} // verus!
