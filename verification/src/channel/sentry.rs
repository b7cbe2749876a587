//! The error-tracker channel: one message per report.

use vstd::prelude::*;
use vstd::string::*;
use crate::csp::csp_report_content::CspReportContent;
use crate::environment::lookup;
use crate::environment::ConfigurationError;
use crate::environment::ConfigurationErrorView;
use crate::environment::Environment;
use crate::json::pretty_object;
use crate::json::EncodeError;

verus! {

/// The error-tracker channel.
#[derive(Clone, Debug)]
pub struct Sentry {
    /// The key and address of the project that receives the messages.
    pub dsn: String,
}

impl View for Sentry {
    type V = Seq<char>;

    open spec fn view(&self) -> Seq<char> {
        self.dsn@
    }
}

/// How serious a message is.
#[derive(Clone, Copy, Debug, PartialEq, Eq, Structural)]
pub enum Level {
    Debug,
    Info,
    Warning,
    Error,
    Fatal,
}

/// A message for the error tracker.
#[derive(Clone, Debug, PartialEq, Eq)]
pub struct Alert {
    pub message: String,
    pub level: Level,
}

/// An alert as plain values.
pub struct AlertView {
    pub message: Seq<char>,
    pub level: Level,
}

impl View for Alert {
    type V = AlertView;

    open spec fn view(&self) -> AlertView {
        AlertView { message: self.message@, level: self.level }
    }
}

/// The alert for a report on `document_uri` whose JSON text is `json`: the
/// page on the first line, the report below it, for information.
pub open spec fn report_alert(document_uri: Seq<char>, json: Seq<char>) -> AlertView {
    AlertView {
        message: "CSP alert from "@ + document_uri + "\n"@ + json,
        level: Level::Info,
    }
}

/// Writes the alert for a report on `document_uri` whose JSON text is `json`.
pub fn write_report_alert(document_uri: &str, json: &str) -> (alert: Alert)
    ensures
        alert@ == report_alert(document_uri@, json@),
{
    let message = "CSP alert from ".to_owned().concat(document_uri).concat("\n").concat(json);
    Alert { message, level: Level::Info }
}

impl Sentry {
    /// Reads the channel's settings from the variable `MORBO_SENTRY_DSN`.
    pub fn load_from_env(environment: &Environment) -> (loaded: Result<Sentry, ConfigurationError>)
        ensures
            match lookup(environment@, "MORBO_SENTRY_DSN"@) {
                Some(dsn) => loaded matches Ok(s) && s@ == dsn,
                None => loaded matches Err(e) && e@ == ConfigurationErrorView::Missing(
                    "MORBO_SENTRY_DSN"@,
                ),
            },
    {
        proof {
            reveal_strlit("MORBO_");
            reveal_strlit("SENTRY_DSN");
            reveal_strlit("MORBO_SENTRY_DSN");
            assert("MORBO_"@ + "SENTRY_DSN"@ =~= "MORBO_SENTRY_DSN"@);
        }
        match environment.required("MORBO_", "SENTRY_DSN") {
            Ok(dsn) => Ok(Sentry { dsn }),
            Err(error) => Err(error),
        }
    }

    /// The alert that announces `report`; an error where the report cannot be
    /// written as JSON.
    pub fn compose(&self, report: &CspReportContent) -> (alert: Result<Alert, EncodeError>)
        ensures
            match pretty_object(report@.json_members()) {
                Some(json) => alert matches Ok(a) && a@ == report_alert(report@.document_uri, json),
                None => alert is Err,
            },
    {
        match report.to_json_pretty() {
            Ok(json) => Ok(write_report_alert(report.document_uri.as_str(), json.as_str())),
            Err(error) => Err(error),
        }
    }
}

} // verus!
