//! Classification and dispatch of Content-Security-Policy violation reports.
//!
//! A report is first held against the noise filter ([`csp::filter`]); when it
//! is not suppressed it is handed to every configured notification channel
//! ([`channel`]) and the individual results are folded into one outcome
//! ([`dispatch`]).

pub mod args;
pub mod channel;
pub mod csp;
pub mod dispatch;
pub mod environment;
pub mod json;
pub mod mail;
pub mod mail_configuration;
pub mod strings;
