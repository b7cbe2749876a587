//! Notification channels: the sinks that a report is forwarded to.
//!
//! A channel is configured once and then asked to deliver reports. Every
//! delivery is one attempt on the sink's backend; nothing here retries, and
//! delivering twice sends the report twice.

pub mod mailer;
pub mod sentry;

use vstd::prelude::*;
use crate::csp::csp_report_content::CspReportContent;
use crate::environment::ConfigurationError;
use crate::environment::Environment;

verus! {

/// What a sink answered when it accepted a report.
#[derive(Clone, Debug, PartialEq, Eq)]
pub struct DeliveryReceipt {
    /// The sink's own reference for the delivery: a server's reply line, or
    /// the identifier it gave to the event.
    pub reference: String,
}

/// Why one attempt to deliver a report failed.
#[derive(Clone, Debug, PartialEq, Eq)]
pub struct DeliveryError {
    pub reason: String,
}

impl View for DeliveryReceipt {
    type V = Seq<char>;

    open spec fn view(&self) -> Seq<char> {
        self.reference@
    }
}

impl View for DeliveryError {
    type V = Seq<char>;

    open spec fn view(&self) -> Seq<char> {
        self.reason@
    }
}

/// How a report is sent to one sink.
///
/// Nothing is promised of an implementation: a delivery may fail for reasons
/// that only the sink knows. Code that calls `send_report` is proved for every
/// result that may come back.
pub trait Channel: Sized {
    /// Builds the channel from the environment.
    fn load_from_env(environment: &Environment) -> Result<Self, ConfigurationError>;

    /// Makes one attempt to deliver `report`.
    fn send_report(&self, report: &CspReportContent) -> Result<DeliveryReceipt, DeliveryError>;
}

} // verus!
