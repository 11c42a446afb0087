//! The whole bridge as one model: the controller, the two FIFO queues and
//! the worker, stepped explicitly from one side at a time.
//!
//! The histories of emitted requests, published responses and drained
//! responses are carried as ghost state, and the session invariant ties
//! them to the live queues: every published response answers the emitted
//! request at its position, responses leave in the order they were
//! published, and the pending counter tracks exactly the requests not yet
//! drained.

use vstd::prelude::*;

use crate::controller::{
    apply_response_view, emit_view, initial_controller, Controller,
};
use crate::data::{Report, TestStep};
use crate::protocol::{answers, Request, RequestView, Response, ResponseView, FetchError};
use crate::worker::{
    resolve_reports, resolve_reports_view, resolve_test_steps, resolve_steps_view,
    reports_outcome_view, steps_outcome_view, WorkerState, WorkerStateView,
};

verus! {

/// The bridge: controller and worker with the two queues between them.
///
/// A real deployment runs the worker on its own thread; the session steps
/// both roles from one thread, which is exactly what makes the protocol's
/// guarantees provable and testable without a render loop.
pub struct Session {
    /// The render loop's state.
    pub controller: Controller,
    /// The request queue, oldest first (controller to worker).
    pub requests: Vec<Request>,
    /// The worker's state.
    pub worker: WorkerState,
    /// The response queue, oldest first (worker to controller).
    pub responses: Vec<Response>,
    /// Whether the request queue was closed: the shutdown signal.
    pub closed: bool,
    /// History of every request emitted, in order.
    pub emitted: Ghost<Seq<RequestView>>,
    /// History of every response published, in order.
    pub published: Ghost<Seq<ResponseView>>,
    /// History of every response drained, in order.
    pub drained: Ghost<Seq<ResponseView>>,
}

impl Session {
    /// The session invariant; every step preserves it.
    pub open spec fn wf(&self) -> bool {
        let e = self.emitted@;
        let p = self.published@;
        let d = self.drained@;
        &&& self.controller.wf()
        &&& !self.controller@.halted
        &&& d.len() <= p.len() <= e.len()
        &&& p == d + self.responses.deep_view()
        &&& forall|i: int| 0 <= i < p.len() ==> #[trigger] answers(e[i], p[i])
        &&& match self.worker@ {
            WorkerStateView::Idle => e.skip(p.len() as int) == self.requests.deep_view(),
            WorkerStateView::Serving(r) => p.len() < e.len() && e[p.len() as int] == r && e.skip(
                p.len() as int + 1,
            ) == self.requests.deep_view(),
            WorkerStateView::Stopped => self.closed && p.len() == e.len()
                && self.requests.deep_view() == Seq::<RequestView>::empty(),
        }
        &&& self.controller@.pending <= e.len() - d.len()
        &&& (e.len() <= u8::MAX as int ==> self.controller@.pending == e.len() - d.len())
    }

    /// A fresh bridge: nothing emitted, nothing published, worker idle.
    pub fn new() -> (s: Session)
        ensures
            s.wf(),
            !s.closed,
            s.emitted@ == Seq::<RequestView>::empty(),
            s.published@ == Seq::<ResponseView>::empty(),
            s.drained@ == Seq::<ResponseView>::empty(),
            s.controller@ == initial_controller(),
            s.worker@ is Idle,
    {
        let s = Session {
            controller: Controller::new(),
            requests: Vec::new(),
            worker: WorkerState::Idle,
            responses: Vec::new(),
            closed: false,
            emitted: Ghost(Seq::empty()),
            published: Ghost(Seq::empty()),
            drained: Ghost(Seq::empty()),
        };
        proof {
            assert(s.published@ =~= s.drained@ + s.responses.deep_view());
            assert(s.emitted@.skip(0) =~= s.requests.deep_view());
        }
        s
    }

    /// The render loop asks for the report list: the request is counted
    /// and enqueued.
    pub fn emit_fetch_reports(&mut self)
        requires
            old(self).wf(),
            !old(self).closed,
        ensures
            final(self).wf(),
            !final(self).closed,
            final(self).emitted@ == old(self).emitted@.push(RequestView::FetchReports),
            final(self).published@ == old(self).published@,
            final(self).drained@ == old(self).drained@,
            final(self).controller@ == emit_view(old(self).controller@),
            final(self).worker@ == old(self).worker@,
    {
        let req = self.controller.emit_fetch_reports();
        self.requests.push(req);
        proof {
            self.emitted@ = self.emitted@.push(req@);
            assert(self.requests.deep_view() =~= old(self).requests.deep_view().push(req@));
            self.lemma_emit_preserves_wf(*old(self), req@);
        }
    }

    /// The render loop asks for the test steps of `report_id`: the request
    /// is counted and enqueued.
    pub fn emit_fetch_test_steps(&mut self, report_id: i32)
        requires
            old(self).wf(),
            !old(self).closed,
        ensures
            final(self).wf(),
            !final(self).closed,
            final(self).emitted@ == old(self).emitted@.push(
                RequestView::FetchTestSteps(report_id as int),
            ),
            final(self).published@ == old(self).published@,
            final(self).drained@ == old(self).drained@,
            final(self).controller@ == emit_view(old(self).controller@),
            final(self).worker@ == old(self).worker@,
    {
        let req = self.controller.emit_fetch_test_steps(report_id);
        self.requests.push(req);
        proof {
            self.emitted@ = self.emitted@.push(req@);
            assert(self.requests.deep_view() =~= old(self).requests.deep_view().push(req@));
            self.lemma_emit_preserves_wf(*old(self), req@);
        }
    }

    proof fn lemma_emit_preserves_wf(&self, pre: Session, r: RequestView)
        requires
            pre.wf(),
            !pre.closed,
            self.controller@ == emit_view(pre.controller@),
            self.controller.wf() == pre.controller.wf(),
            self.requests.deep_view() == pre.requests.deep_view().push(r),
            self.responses.deep_view() == pre.responses.deep_view(),
            self.worker@ == pre.worker@,
            self.closed == pre.closed,
            self.emitted@ == pre.emitted@.push(r),
            self.published@ == pre.published@,
            self.drained@ == pre.drained@,
        ensures
            self.wf(),
    {
        let e0 = pre.emitted@;
        let e1 = self.emitted@;
        let p = self.published@;
        match pre.worker@ {
            WorkerStateView::Idle => {
                assert(e1.skip(p.len() as int) =~= e0.skip(p.len() as int).push(r));
            },
            WorkerStateView::Serving(_) => {
                assert(e1.skip(p.len() as int + 1) =~= e0.skip(p.len() as int + 1).push(r));
                assert(e1[p.len() as int] == e0[p.len() as int]);
            },
            WorkerStateView::Stopped => {},
        }
        assert(forall|i: int| 0 <= i < p.len() ==> e1[i] == e0[i]);
    }

    /// The worker looks for work: it dequeues the oldest request and turns
    /// to serving it, or stops for good if the queue is closed and empty,
    /// or keeps waiting.
    pub fn worker_poll(&mut self) -> (r: Option<Request>)
        requires
            old(self).wf(),
            old(self).worker@ is Idle,
        ensures
            final(self).wf(),
            final(self).emitted@ == old(self).emitted@,
            final(self).published@ == old(self).published@,
            final(self).drained@ == old(self).drained@,
            final(self).controller@ == old(self).controller@,
            final(self).closed == old(self).closed,
            match r {
                Option::Some(req) => final(self).worker@ == WorkerStateView::Serving(req@)
                    && req@ == old(self).emitted@[old(self).published@.len() as int],
                Option::None => old(self).requests.deep_view() == Seq::<RequestView>::empty() && (
                final(self).worker@ == if old(self).closed {
                    WorkerStateView::Stopped
                } else {
                    WorkerStateView::Idle
                }),
            },
    {
        let ghost e = self.emitted@;
        let ghost p = self.published@;
        if self.requests.len() == 0 {
            proof {
                assert(self.requests.deep_view() =~= Seq::<RequestView>::empty());
                assert(e.skip(p.len() as int).len() == 0);
                assert(p.len() == e.len());
            }
            if self.closed {
                self.worker = WorkerState::Stopped;
            }
            Option::None
        } else {
            let req = self.requests.remove(0);
            self.worker = WorkerState::Serving(req);
            proof {
                let q0 = old(self).requests.deep_view();
                let q1 = self.requests.deep_view();
                let pl = p.len() as int;
                assert(q0.len() == old(self).requests@.len());
                assert(q0 == e.skip(pl));
                assert(e.skip(pl).len() == e.len() - pl);
                assert(pl < e.len());
                assert(req@ == q0[0]);
                assert(q0[0] == e.skip(pl)[0]);
                assert(e.skip(pl)[0] == e[pl]);
                assert(q1.len() == q0.len() - 1);
                assert forall|j: int| 0 <= j < q1.len() implies q1[j] == e[pl + 1 + j] by {
                    assert(self.requests@[j] == old(self).requests@.remove(0)[j]);
                    assert(old(self).requests@.remove(0)[j] == old(self).requests@[j + 1]);
                    assert(q1[j] == q0[j + 1]);
                    assert(q0[j + 1] == e.skip(pl)[j + 1]);
                    assert(e.skip(pl)[j + 1] == e[pl + j + 1]);
                }
                assert(q1 =~= e.skip(pl + 1));
            }
            Option::Some(req)
        }
    }

    /// The worker finishes a report fetch: it publishes the one response
    /// the outcome gives rise to and goes back to waiting.
    pub fn worker_finish_reports(&mut self, res: Result<Vec<Report>, FetchError>)
        requires
            old(self).wf(),
            old(self).worker@ == WorkerStateView::Serving(RequestView::FetchReports),
        ensures
            final(self).wf(),
            final(self).worker@ is Idle,
            final(self).emitted@ == old(self).emitted@,
            final(self).drained@ == old(self).drained@,
            final(self).controller@ == old(self).controller@,
            final(self).closed == old(self).closed,
            final(self).published@ == old(self).published@.push(
                resolve_reports_view(reports_outcome_view(res)),
            ),
    {
        let ghost e = self.emitted@;
        let ghost p0 = self.published@;
        let resp = resolve_reports(res);
        self.responses.push(resp);
        self.worker = WorkerState::Idle;
        proof {
            self.published@ = self.published@.push(resp@);
            let p1 = self.published@;
            assert(self.responses.deep_view() =~= old(self).responses.deep_view().push(resp@));
            assert(p1 =~= self.drained@ + self.responses.deep_view());
            assert(e[p0.len() as int] == RequestView::FetchReports);
            assert(answers(e[p0.len() as int], resp@));
            assert forall|i: int| 0 <= i < p1.len() implies #[trigger] answers(e[i], p1[i]) by {
                if i < p0.len() {
                    assert(p1[i] == p0[i]);
                    assert(answers(e[i], p0[i]));
                } else {
                    assert(p1[i] == resp@);
                }
            }
            assert(e.skip(p1.len() as int) == e.skip(p0.len() as int + 1));
        }
    }

    /// The worker finishes a test-step fetch: it publishes the one
    /// response the outcome gives rise to and goes back to waiting.
    pub fn worker_finish_test_steps(&mut self, res: Result<Vec<TestStep>, FetchError>)
        requires
            old(self).wf(),
            old(self).worker@ matches WorkerStateView::Serving(r) && r is FetchTestSteps,
        ensures
            final(self).wf(),
            final(self).worker@ is Idle,
            final(self).emitted@ == old(self).emitted@,
            final(self).drained@ == old(self).drained@,
            final(self).controller@ == old(self).controller@,
            final(self).closed == old(self).closed,
            final(self).published@ == old(self).published@.push(
                resolve_steps_view(steps_outcome_view(res)),
            ),
    {
        let ghost e = self.emitted@;
        let ghost p0 = self.published@;
        let resp = resolve_test_steps(res);
        self.responses.push(resp);
        self.worker = WorkerState::Idle;
        proof {
            self.published@ = self.published@.push(resp@);
            let p1 = self.published@;
            assert(self.responses.deep_view() =~= old(self).responses.deep_view().push(resp@));
            assert(p1 =~= self.drained@ + self.responses.deep_view());
            match old(self).worker@ {
                WorkerStateView::Serving(rv) => match rv {
                    RequestView::FetchTestSteps(id) => {
                        assert(answers(RequestView::FetchTestSteps(id), resp@));
                        assert(answers(e[p0.len() as int], resp@));
                    },
                    _ => {
                        assert(false);
                    },
                },
                _ => {
                    assert(false);
                },
            }
            assert forall|i: int| 0 <= i < p1.len() implies #[trigger] answers(e[i], p1[i]) by {
                if i < p0.len() {
                    assert(p1[i] == p0[i]);
                    assert(answers(e[i], p0[i]));
                } else {
                    assert(p1[i] == resp@);
                }
            }
            assert(e.skip(p1.len() as int) == e.skip(p0.len() as int + 1));
        }
    }

    /// One render tick's drain: at most one available response is taken
    /// from the front of the queue and applied. Never blocks.
    pub fn controller_tick(&mut self) -> (progressed: bool)
        requires
            old(self).wf(),
        ensures
            final(self).wf(),
            final(self).emitted@ == old(self).emitted@,
            final(self).published@ == old(self).published@,
            final(self).closed == old(self).closed,
            final(self).worker@ == old(self).worker@,
            progressed == (old(self).responses.deep_view().len() > 0),
            !progressed ==> final(self).drained@ == old(self).drained@ && final(self).controller@
                == old(self).controller@,
            progressed ==> final(self).drained@ == old(self).drained@.push(
                old(self).published@[old(self).drained@.len() as int],
            ) && final(self).controller@ == apply_response_view(
                old(self).controller@,
                old(self).published@[old(self).drained@.len() as int],
            ),
    {
        if self.responses.len() == 0 {
            false
        } else {
            let ghost p = self.published@;
            let ghost d0 = self.drained@;
            let ghost q0 = self.responses.deep_view();
            let resp = self.responses.remove(0);
            let ghost q1 = self.responses.deep_view();
            proof {
                assert(q0.len() == old(self).responses@.len());
                assert(resp@ == q0[0]);
                assert(q0[0] == (d0 + q0)[d0.len() as int]);
                assert(resp@ == p[d0.len() as int]);
                assert(q1.len() == q0.len() - 1);
                assert forall|j: int| 0 <= j < q1.len() implies q1[j] == q0[j + 1] by {
                    assert(self.responses@[j] == old(self).responses@.remove(0)[j]);
                    assert(old(self).responses@.remove(0)[j] == old(self).responses@[j + 1]);
                }
            }
            self.controller.apply_response(resp);
            proof {
                self.drained@ = self.drained@.push(p[d0.len() as int]);
                let d1 = self.drained@;
                let dl = d0.len() as int;
                assert forall|i: int| 0 <= i < p.len() implies p[i] == (d1 + q1)[i] by {
                    if i < dl {
                        assert((d1 + q1)[i] == d1[i]);
                        assert(d1[i] == d0[i]);
                        assert(p[i] == (d0 + q0)[i]);
                    } else if i == dl {
                        assert((d1 + q1)[i] == d1[i]);
                        assert(d1[i] == p[dl]);
                    } else {
                        assert((d1 + q1)[i] == q1[i - dl - 1]);
                        assert(q1[i - dl - 1] == q0[i - dl]);
                        assert(p[i] == (d0 + q0)[i]);
                        assert((d0 + q0)[i] == q0[i - dl]);
                    }
                }
                assert(p =~= d1 + q1);
            }
            true
        }
    }

    /// The shutdown signal: the request queue accepts nothing more; the
    /// worker will stop once it has served what is already queued.
    pub fn close(&mut self)
        requires
            old(self).wf(),
        ensures
            final(self).wf(),
            final(self).closed,
            final(self).emitted@ == old(self).emitted@,
            final(self).published@ == old(self).published@,
            final(self).drained@ == old(self).drained@,
            final(self).controller@ == old(self).controller@,
            final(self).worker@ == old(self).worker@,
    {
        self.closed = true;
    }
}

/// The pending counter tracks outstanding work: it never exceeds the
/// number of emitted-but-undrained requests, and as long as the number of
/// emissions fits the counter's width it equals that number exactly — in
/// particular, it is zero after a full drain and can never underflow.
pub proof fn lemma_pending_counts_outstanding(s: Session)
    requires
        s.wf(),
    ensures
        0 <= s.controller@.pending <= s.emitted@.len() - s.drained@.len(),
        s.emitted@.len() <= u8::MAX as int ==> s.controller@.pending == s.emitted@.len()
            - s.drained@.len(),
        s.drained@.len() == s.emitted@.len() ==> s.controller@.pending == 0,
{
}

/// No orphan responses: never more responses published than requests
/// emitted, and never more drained than published.
pub proof fn lemma_no_orphan_responses(s: Session)
    requires
        s.wf(),
    ensures
        s.drained@.len() <= s.published@.len() <= s.emitted@.len(),
{
}

/// Every drained response answers exactly the emitted request at its own
/// position: `Reports` only a `FetchReports`, `TestSteps` only a
/// `FetchTestSteps`, a `Failure` either.
pub proof fn lemma_drained_answers_emitted(s: Session, i: int)
    requires
        s.wf(),
        0 <= i < s.drained@.len(),
    ensures
        answers(s.emitted@[i], s.drained@[i]),
{
    let d = s.drained@;
    let p = s.published@;
    assert(d[i] == (d + s.responses.deep_view())[i]);
    assert(d[i] == p[i]);
    assert(answers(s.emitted@[i], p[i]));
}

/// Responses are drained in exactly the order the worker published them:
/// the drain history is always a prefix of the publish history.
pub proof fn lemma_drain_follows_publish_order(s: Session)
    requires
        s.wf(),
    ensures
        s.drained@ == s.published@.take(s.drained@.len() as int),
{
    let d = s.drained@;
    let p = s.published@;
    assert forall|i: int| 0 <= i < d.len() implies d[i] == p[i] by {
        assert(d[i] == (d + s.responses.deep_view())[i]);
    }
    assert(d =~= p.take(d.len() as int));
}

} // verus!
