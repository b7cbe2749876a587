//! The data model of a violation report and the noise filter applied to it.

pub mod csp_report;
pub mod csp_report_content;
pub mod filter;
