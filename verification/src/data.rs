//! The records the storage service serves: reports and their test steps.
//!
//! Timestamps travel through the bridge as the RFC 3339 text the service
//! returned; the render loop only ever displays them.

use vstd::prelude::*;

verus! {

/// One test report, as cached by the render loop.
#[derive(Clone, Debug, PartialEq, Eq)]
pub struct Report {
    pub id: i32,
    pub date: String,
    pub project: String,
    pub name: String,
    pub verdict: String,
}

/// The mathematical value of a [`Report`].
pub struct ReportView {
    pub id: int,
    pub date: Seq<char>,
    pub project: Seq<char>,
    pub name: Seq<char>,
    pub verdict: Seq<char>,
}

impl View for Report {
    type V = ReportView;

    open spec fn view(&self) -> ReportView {
        ReportView {
            id: self.id as int,
            date: self.date@,
            project: self.project@,
            name: self.name@,
            verdict: self.verdict@,
        }
    }
}

impl DeepView for Report {
    type V = ReportView;

    open spec fn deep_view(&self) -> ReportView {
        self@
    }
}

/// One step of a test report.
#[derive(Clone, Debug, PartialEq, Eq)]
pub struct TestStep {
    pub id: i32,
    pub report_id: i32,
    pub step_number: i32,
    pub date: String,
    pub name: String,
    pub verdict: String,
}

/// The mathematical value of a [`TestStep`].
pub struct TestStepView {
    pub id: int,
    pub report_id: int,
    pub step_number: int,
    pub date: Seq<char>,
    pub name: Seq<char>,
    pub verdict: Seq<char>,
}

impl View for TestStep {
    type V = TestStepView;

    open spec fn view(&self) -> TestStepView {
        TestStepView {
            id: self.id as int,
            report_id: self.report_id as int,
            step_number: self.step_number as int,
            date: self.date@,
            name: self.name@,
            verdict: self.verdict@,
        }
    }
}

impl DeepView for TestStep {
    type V = TestStepView;

    open spec fn deep_view(&self) -> TestStepView {
        self@
    }
}

/// The one-line rendering of a report: name, verdict, then the date in
/// parentheses.
pub open spec fn report_line(r: ReportView) -> Seq<char> {
    r.name + ": "@ + r.verdict + " ("@ + r.date + ")"@
}

impl Report {
    /// The heading line the render loop shows for this report.
    pub fn display_line(&self) -> (s: String)
        ensures
            s@ == report_line(self@),
    {
        let mut s = self.name.clone();
        s.append(": ");
        s.append(self.verdict.as_str());
        s.append(" (");
        s.append(self.date.as_str());
        s.append(")");
        proof {
            assert(s@ =~= report_line(self@));
        }
        s
    }
}

} // verus!
