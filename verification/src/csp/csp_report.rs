//! The document that a browser posts: one report under the key `csp-report`.

use vstd::prelude::*;
use crate::csp::csp_report_content::CspReportContent;
use crate::csp::csp_report_content::ReportView;

verus! {

/// The body of one report request.
#[derive(Clone, Debug)]
pub struct CspReport {
    pub csp_report: CspReportContent,
}

impl View for CspReport {
    type V = ReportView;

    open spec fn view(&self) -> ReportView {
        self.csp_report@
    }
}

} // verus!
