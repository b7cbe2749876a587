//! One violation event as a browser delivers it.

use vstd::prelude::*;
use crate::csp::filter::FilterRules;
use crate::csp::filter::FilterRulesView;
use crate::csp::filter::optional_in_list;
use crate::channel::mailer::report_email;
use crate::channel::mailer::write_report_email;
use crate::channel::mailer::EmailMessage;
use crate::channel::mailer::Mailbox;
use crate::channel::mailer::MailboxView;
use crate::json::pretty;
use crate::json::pretty_object;
use crate::json::EncodeError;
use crate::mail_configuration::MailConfiguration;
use crate::strings::list_contains;

verus! {

/// The fields of one violation report.
#[derive(Clone, Debug)]
pub struct CspReportContent {
    /// The URI of the resource that was blocked from loading. When it is of
    /// another origin than the document it is cut down to scheme, host and port.
    pub blocked_uri: String,
    /// Either "enforce" or "report", depending on the header that was used.
    pub disposition: Option<String>,
    /// The URI of the document in which the violation occurred.
    pub document_uri: String,
    /// The directive whose enforcement caused the violation.
    pub effective_directive: Option<String>,
    /// The policy as the response header gave it.
    pub original_policy: String,
    /// The referrer of the document in which the violation occurred.
    pub referrer: String,
    /// The first characters of the inline script, event handler or style that
    /// caused the violation.
    pub script_sample: Option<String>,
    /// The HTTP status code of the resource on which the global object was
    /// instantiated.
    pub status_code: Option<String>,
    /// The URL of the resource where the violation occurred.
    pub source_file: Option<String>,
    /// The name of the policy section that was violated.
    pub violated_directive: String,
}

/// A report as plain character sequences.
pub struct ReportView {
    pub blocked_uri: Seq<char>,
    pub disposition: Option<Seq<char>>,
    pub document_uri: Seq<char>,
    pub effective_directive: Option<Seq<char>>,
    pub original_policy: Seq<char>,
    pub referrer: Seq<char>,
    pub script_sample: Option<Seq<char>>,
    pub status_code: Option<Seq<char>>,
    pub source_file: Option<Seq<char>>,
    pub violated_directive: Seq<char>,
}

impl ReportView {
    /// The report that has the five required fields and no optional one.
    pub open spec fn required(
        blocked_uri: Seq<char>,
        document_uri: Seq<char>,
        original_policy: Seq<char>,
        referrer: Seq<char>,
        violated_directive: Seq<char>,
    ) -> ReportView {
        ReportView {
            blocked_uri,
            disposition: None,
            document_uri,
            effective_directive: None,
            original_policy,
            referrer,
            script_sample: None,
            status_code: None,
            source_file: None,
            violated_directive,
        }
    }
}

impl ReportView {
    /// The members of the JSON object that stands for the report: every field
    /// under its own name, in the order of declaration, an absent one as null.
    pub open spec fn json_members(self) -> Seq<(Seq<char>, Option<Seq<char>>)> {
        seq![
            ("blocked_uri"@, Some(self.blocked_uri)),
            ("disposition"@, self.disposition),
            ("document_uri"@, Some(self.document_uri)),
            ("effective_directive"@, self.effective_directive),
            ("original_policy"@, Some(self.original_policy)),
            ("referrer"@, Some(self.referrer)),
            ("script_sample"@, self.script_sample),
            ("status_code"@, self.status_code),
            ("source_file"@, self.source_file),
            ("violated_directive"@, Some(self.violated_directive)),
        ]
    }
}

impl View for CspReportContent {
    type V = ReportView;

    open spec fn view(&self) -> ReportView {
        ReportView {
            blocked_uri: self.blocked_uri@,
            disposition: self.disposition.deep_view(),
            document_uri: self.document_uri@,
            effective_directive: self.effective_directive.deep_view(),
            original_policy: self.original_policy@,
            referrer: self.referrer@,
            script_sample: self.script_sample.deep_view(),
            status_code: self.status_code.deep_view(),
            source_file: self.source_file.deep_view(),
            violated_directive: self.violated_directive@,
        }
    }
}

impl CspReportContent {
    /// A report with the required fields; every optional field is absent.
    pub fn default(
        blocked_uri: &str,
        document_uri: &str,
        original_policy: &str,
        referrer: &str,
        violated_directive: &str,
    ) -> (report: Self)
        ensures
            report@ == ReportView::required(
                blocked_uri@,
                document_uri@,
                original_policy@,
                referrer@,
                violated_directive@,
            ),
    {
        CspReportContent {
            blocked_uri: blocked_uri.to_owned(),
            document_uri: document_uri.to_owned(),
            original_policy: original_policy.to_owned(),
            referrer: referrer.to_owned(),
            violated_directive: violated_directive.to_owned(),
            disposition: None,
            effective_directive: None,
            script_sample: None,
            status_code: None,
            source_file: None,
        }
    }

    /// The fields as members of a JSON object.
    pub fn json_members(&self) -> (members: Vec<(String, Option<String>)>)
        ensures
            members.deep_view() == self@.json_members(),
    {
        let mut members: Vec<(String, Option<String>)> = Vec::new();
        members.push(("blocked_uri".to_owned(), Some(self.blocked_uri.clone())));
        members.push(("disposition".to_owned(), self.disposition.clone()));
        members.push(("document_uri".to_owned(), Some(self.document_uri.clone())));
        members.push(("effective_directive".to_owned(), self.effective_directive.clone()));
        members.push(("original_policy".to_owned(), Some(self.original_policy.clone())));
        members.push(("referrer".to_owned(), Some(self.referrer.clone())));
        members.push(("script_sample".to_owned(), self.script_sample.clone()));
        members.push(("status_code".to_owned(), self.status_code.clone()));
        members.push(("source_file".to_owned(), self.source_file.clone()));
        members.push(("violated_directive".to_owned(), Some(self.violated_directive.clone())));
        assert(members.deep_view() =~= self@.json_members());
        members
    }

    /// The report as pretty-printed JSON text.
    pub fn to_json_pretty(&self) -> (text: Result<String, EncodeError>)
        ensures
            match pretty_object(self@.json_members()) {
                Some(json) => text matches Ok(t) && t@ == json,
                None => text is Err,
            },
    {
        pretty(self.json_members())
    }

    /// The e-mail that announces this report to the recipient that
    /// `mail_configuration` names, sent in the collector's own name; an error
    /// where the report cannot be written as JSON.
    pub fn email_for(&self, mail_configuration: &MailConfiguration) -> (message: Result<
        EmailMessage,
        EncodeError,
    >)
        ensures
            match pretty_object(self@.json_members()) {
                Some(json) => message matches Ok(m) && m@ == report_email(
                    MailboxView { address: "csp@example.org"@, name: "CSP Report"@ },
                    MailboxView {
                        address: mail_configuration@.to_email,
                        name: mail_configuration@.to_name,
                    },
                    json,
                ),
                None => message is Err,
            },
    {
        match self.to_json_pretty() {
            Ok(json) => Ok(
                write_report_email(
                    Mailbox { address: "csp@example.org".to_owned(), name: "CSP Report".to_owned() },
                    Mailbox {
                        address: mail_configuration.to_email.clone(),
                        name: mail_configuration.to_name.clone(),
                    },
                    json.as_str(),
                ),
            ),
            Err(error) => Err(error),
        }
    }

    /// Whether the blocked URI is in the built-in blocked-URI set.
    pub fn is_in_blocked_uri_filters(&self) -> (listed: bool)
        ensures
            listed == FilterRulesView::builtin().blocked_uri.contains(self@.blocked_uri),
    {
        let rules = FilterRules::builtin();
        list_contains(rules.blocked_uri, self.blocked_uri.as_str())
    }

    /// Whether the policy is in the built-in original-policy set.
    pub fn is_in_original_policy_filters(&self) -> (listed: bool)
        ensures
            listed == FilterRulesView::builtin().original_policy.contains(self@.original_policy),
    {
        let rules = FilterRules::builtin();
        list_contains(rules.original_policy, self.original_policy.as_str())
    }

    /// Whether the referrer is in the built-in referrer set.
    pub fn is_in_referrer_filters(&self) -> (listed: bool)
        ensures
            listed == FilterRulesView::builtin().referrer.contains(self@.referrer),
    {
        let rules = FilterRules::builtin();
        list_contains(rules.referrer, self.referrer.as_str())
    }

    /// Whether a script sample is present and in the built-in script-sample set.
    pub fn is_in_script_sample_filters(&self) -> (listed: bool)
        ensures
            listed == FilterRulesView::matches_optional(
                FilterRulesView::builtin().script_sample,
                self@.script_sample,
            ),
    {
        let rules = FilterRules::builtin();
        optional_in_list(rules.script_sample, &self.script_sample)
    }

    /// Whether a source file is present and in the built-in source-file set.
    pub fn is_in_source_file_filters(&self) -> (listed: bool)
        ensures
            listed == FilterRulesView::matches_optional(
                FilterRulesView::builtin().source_file,
                self@.source_file,
            ),
    {
        let rules = FilterRules::builtin();
        optional_in_list(rules.source_file, &self.source_file)
    }

    /// Whether the built-in rules suppress this report.
    pub fn is_in_block_list(&self) -> (listed: bool)
        ensures
            listed == FilterRulesView::builtin().suppresses(self@),
    {
        self.is_in_blocked_uri_filters() || self.is_in_original_policy_filters()
            || self.is_in_referrer_filters() || self.is_in_script_sample_filters()
            || self.is_in_source_file_filters()
    }
}

} // verus!
