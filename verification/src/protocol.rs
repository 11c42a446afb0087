//! The messages exchanged between the render loop and the background worker,
//! and the text the bridge builds from them: request URLs and display-ready
//! failure messages.

use vstd::prelude::*;

use crate::data::{Report, ReportView, TestStep, TestStepView};
use crate::text::{dec_digits, dec_signed, i32_decimal, u32_decimal};

verus! {

/// What the render loop asks the worker to fetch. Consumed exactly once.
#[derive(Clone, Copy, Debug, PartialEq, Eq)]
pub enum Request {
    /// Fetch the list of all reports.
    FetchReports,
    /// Fetch the test steps of the report with this id.
    FetchTestSteps(i32),
}

/// The mathematical value of a [`Request`].
pub enum RequestView {
    FetchReports,
    FetchTestSteps(int),
}

impl View for Request {
    type V = RequestView;

    open spec fn view(&self) -> RequestView {
        match self {
            Request::FetchReports => RequestView::FetchReports,
            Request::FetchTestSteps(id) => RequestView::FetchTestSteps(*id as int),
        }
    }
}

/// What the worker publishes after serving one request. Consumed exactly once.
#[derive(Clone, Debug, PartialEq, Eq)]
pub enum Response {
    /// The fetched reports, answering [`Request::FetchReports`].
    Reports(Vec<Report>),
    /// The fetched steps, answering [`Request::FetchTestSteps`].
    TestSteps(Vec<TestStep>),
    /// The fetch failed; the message is ready for an error banner.
    Failure(String),
}

/// The mathematical value of a [`Response`].
pub enum ResponseView {
    Reports(Seq<ReportView>),
    TestSteps(Seq<TestStepView>),
    Failure(Seq<char>),
}

impl View for Response {
    type V = ResponseView;

    open spec fn view(&self) -> ResponseView {
        match self {
            Response::Reports(v) => ResponseView::Reports(v.deep_view()),
            Response::TestSteps(v) => ResponseView::TestSteps(v.deep_view()),
            Response::Failure(m) => ResponseView::Failure(m@),
        }
    }
}

impl DeepView for Request {
    type V = RequestView;

    open spec fn deep_view(&self) -> RequestView {
        self@
    }
}

impl DeepView for Response {
    type V = ResponseView;

    open spec fn deep_view(&self) -> ResponseView {
        self@
    }
}

/// Whether a response is one the given request can give rise to: `Reports`
/// answers only `FetchReports`, `TestSteps` only `FetchTestSteps`, and a
/// `Failure` can answer either.
pub open spec fn answers(req: RequestView, resp: ResponseView) -> bool {
    match resp {
        ResponseView::Reports(_) => req is FetchReports,
        ResponseView::TestSteps(_) => req is FetchTestSteps,
        ResponseView::Failure(_) => true,
    }
}

/// Why a fetch produced no value: the taxonomy folded into
/// [`Response::Failure`].
#[derive(Clone, Debug, PartialEq, Eq)]
pub enum FetchError {
    /// The HTTP exchange itself failed (connection refused, timeout, ...);
    /// the transport's own description is carried along.
    Transport(String),
    /// The exchange completed with a non-success status code.
    Status(u16),
    /// The body of a successful exchange did not parse as the expected
    /// shape; the decoder's description is carried along.
    Decode(String),
}

/// The mathematical value of a [`FetchError`].
pub enum FetchErrorView {
    Transport(Seq<char>),
    Status(int),
    Decode(Seq<char>),
}

impl View for FetchError {
    type V = FetchErrorView;

    open spec fn view(&self) -> FetchErrorView {
        match self {
            FetchError::Transport(m) => FetchErrorView::Transport(m@),
            FetchError::Status(c) => FetchErrorView::Status(*c as int),
            FetchError::Decode(m) => FetchErrorView::Decode(m@),
        }
    }
}

/// The display-ready message for a fetch error.
pub open spec fn error_line(e: FetchErrorView) -> Seq<char> {
    match e {
        FetchErrorView::Transport(m) => "transport error: "@ + m,
        FetchErrorView::Status(c) => "request failed with HTTP status "@ + dec_digits(c),
        FetchErrorView::Decode(m) => "could not decode response: "@ + m,
    }
}

impl FetchError {
    /// Builds the message [`error_line`] promises, ready for the error
    /// banner.
    pub fn message(&self) -> (s: String)
        ensures
            s@ == error_line(self@),
    {
        match self {
            FetchError::Transport(m) => {
                let mut s = String::from_str("transport error: ");
                s.append(m.as_str());
                proof {
                    reveal_strlit("transport error: ");
                    assert(s@ =~= error_line(self@));
                }
                s
            },
            FetchError::Status(c) => {
                let mut s = String::from_str("request failed with HTTP status ");
                s.append(u32_decimal(*c as u32).as_str());
                proof {
                    reveal_strlit("request failed with HTTP status ");
                    assert(s@ =~= error_line(self@));
                }
                s
            },
            FetchError::Decode(m) => {
                let mut s = String::from_str("could not decode response: ");
                s.append(m.as_str());
                proof {
                    reveal_strlit("could not decode response: ");
                    assert(s@ =~= error_line(self@));
                }
                s
            },
        }
    }
}

/// The path of the service endpoint a request is served from, relative to
/// the base URL: `/reports`, or `/reports/{id}/test_steps`.
pub open spec fn request_path(req: RequestView) -> Seq<char> {
    match req {
        RequestView::FetchReports => "/reports"@,
        RequestView::FetchTestSteps(id) => "/reports/"@ + dec_signed(id) + "/test_steps"@,
    }
}

impl Request {
    /// Builds the endpoint path [`request_path`] promises.
    pub fn path(&self) -> (s: String)
        ensures
            s@ == request_path(self@),
    {
        match self {
            Request::FetchReports => String::from_str("/reports"),
            Request::FetchTestSteps(id) => {
                let mut s = String::from_str("/reports/");
                s.append(i32_decimal(*id).as_str());
                s.append("/test_steps");
                proof {
                    reveal_strlit("/reports/");
                    reveal_strlit("/test_steps");
                    assert(s@ =~= request_path(self@));
                }
                s
            },
        }
    }

    /// Builds the full URL for this request: the base URL followed by
    /// [`request_path`].
    pub fn url(&self, base: &str) -> (s: String)
        ensures
            s@ == base@ + request_path(self@),
    {
        let mut s = base.to_owned();
        s.append(self.path().as_str());
        s
    }
}

} // verus!
