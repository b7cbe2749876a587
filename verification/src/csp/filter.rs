//! The noise filter: five read-only sets of literals, one per filterable field.
//!
//! Browser extensions, ad blockers and injected scripts trigger violations that
//! have nothing to do with the policy of the site. A report whose field is a
//! literal member of the matching set is suppressed and never forwarded.

use vstd::prelude::*;
use crate::csp::csp_report_content::CspReportContent;
use crate::csp::csp_report_content::ReportView;
use crate::strings::list_contains;
use crate::strings::literal_set;

verus! {

/// Blocked URIs that mark a report as noise.
pub const BLOCKED_URI_FILTERS: [&'static str; 1] = ["mxjscall://"];

/// Policies that mark a report as noise.
pub const ORIGINAL_POLICY_FILTERS: [&'static str; 1] = [".blackspider.com"];

/// Referrers that mark a report as noise.
pub const REFERRER_FILTERS: [&'static str; 1] = ["http://l.facebook.com"];

/// Script samples that mark a report as noise.
pub const SCRIPT_SAMPLE_FILTERS: [&'static str; 1] = ["var BlockAdBlock = function"];

/// Source files that mark a report as noise.
pub const SOURCE_FILE_FILTERS: [&'static str; 1] = ["chromenull://"];

/// The filter sets in force, fixed at start-up and shared read-only.
#[derive(Clone, Copy, Debug)]
pub struct FilterRules {
    pub blocked_uri: &'static [&'static str],
    pub original_policy: &'static [&'static str],
    pub referrer: &'static [&'static str],
    pub script_sample: &'static [&'static str],
    pub source_file: &'static [&'static str],
}

/// The five filter sets as mathematical sets of strings.
pub struct FilterRulesView {
    pub blocked_uri: Set<Seq<char>>,
    pub original_policy: Set<Seq<char>>,
    pub referrer: Set<Seq<char>>,
    pub script_sample: Set<Seq<char>>,
    pub source_file: Set<Seq<char>>,
}

impl FilterRulesView {
    /// The sets compiled into the library.
    pub open spec fn builtin() -> FilterRulesView {
        FilterRulesView {
            blocked_uri: set!["mxjscall://"@],
            original_policy: set![".blackspider.com"@],
            referrer: set!["http://l.facebook.com"@],
            script_sample: set!["var BlockAdBlock = function"@],
            source_file: set!["chromenull://"@],
        }
    }

    /// An optional field matches only when it is present and listed.
    pub open spec fn matches_optional(set: Set<Seq<char>>, field: Option<Seq<char>>) -> bool {
        match field {
            Some(text) => set.contains(text),
            None => false,
        }
    }

    /// A report is suppressed when any one of its filterable fields is listed.
    pub open spec fn suppresses(self, report: ReportView) -> bool {
        ||| self.blocked_uri.contains(report.blocked_uri)
        ||| self.original_policy.contains(report.original_policy)
        ||| self.referrer.contains(report.referrer)
        ||| Self::matches_optional(self.script_sample, report.script_sample)
        ||| Self::matches_optional(self.source_file, report.source_file)
    }
}

impl View for FilterRules {
    type V = FilterRulesView;

    open spec fn view(&self) -> FilterRulesView {
        FilterRulesView {
            blocked_uri: literal_set(self.blocked_uri@),
            original_policy: literal_set(self.original_policy@),
            referrer: literal_set(self.referrer@),
            script_sample: literal_set(self.script_sample@),
            source_file: literal_set(self.source_file@),
        }
    }
}

/// A report whose blocked URI, policy or referrer is an entry of the matching
/// set is suppressed.
pub proof fn lemma_listed_field_suppresses(rules: FilterRulesView, report: ReportView)
    requires
        rules.blocked_uri.contains(report.blocked_uri) || rules.original_policy.contains(
            report.original_policy,
        ) || rules.referrer.contains(report.referrer),
    ensures
        rules.suppresses(report),
{
}

/// An absent field matches no set, not even one that holds the empty string.
pub proof fn lemma_absent_field_never_matches(set: Set<Seq<char>>)
    ensures
        !FilterRulesView::matches_optional(set, None),
{
}

/// Where the script sample and the source file are absent, their sets have no
/// say: the report is suppressed exactly when its blocked URI, its policy or
/// its referrer is listed.
pub proof fn lemma_absent_fields_do_not_suppress(rules: FilterRulesView, report: ReportView)
    requires
        report.script_sample is None,
        report.source_file is None,
    ensures
        rules.suppresses(report) <==> (rules.blocked_uri.contains(report.blocked_uri)
            || rules.original_policy.contains(report.original_policy) || rules.referrer.contains(
            report.referrer,
        )),
{
}

/// The decision rests on nothing but what the rules and the report hold: two
/// evaluations on equal sets and equal fields agree, so a report that is asked
/// about again gets the same answer.
pub proof fn lemma_filtering_is_repeatable(
    first_rules: FilterRules,
    first_report: CspReportContent,
    second_rules: FilterRules,
    second_report: CspReportContent,
)
    requires
        first_rules@ == second_rules@,
        first_report@ == second_report@,
    ensures
        first_rules@.suppresses(first_report@) == second_rules@.suppresses(second_report@),
{
}

/// A string is in the set of a list exactly when it equals one of the
/// entries, character for character: neither a part of an entry nor an entry
/// in another case matches.
pub proof fn lemma_membership_is_exact(list: Seq<&str>, text: Seq<char>)
    ensures
        literal_set(list).contains(text) <==> exists|i: int|
            0 <= i < list.len() && (#[trigger] list[i])@ == text,
{
}

/// A one-entry list holds exactly its entry.
proof fn lemma_single_literal(list: Seq<&str>, entry: &str)
    requires
        list.len() == 1,
        list[0]@ == entry@,
    ensures
        literal_set(list) == set![entry@],
{
    assert(literal_set(list) =~= set![entry@]);
}

/// Whether an optional field is present and one of the entries of `list`.
pub fn optional_in_list(list: &[&str], field: &Option<String>) -> (found: bool)
    ensures
        found == FilterRulesView::matches_optional(
            literal_set(list@),
            field.deep_view(),
        ),
{
    match field {
        Some(text) => list_contains(list, text.as_str()),
        None => false,
    }
}

impl FilterRules {
    /// The filter sets compiled into the library.
    pub fn builtin() -> (rules: FilterRules)
        ensures
            rules@ == FilterRulesView::builtin(),
    {
        let rules = FilterRules {
            blocked_uri: &BLOCKED_URI_FILTERS,
            original_policy: &ORIGINAL_POLICY_FILTERS,
            referrer: &REFERRER_FILTERS,
            script_sample: &SCRIPT_SAMPLE_FILTERS,
            source_file: &SOURCE_FILE_FILTERS,
        };
        proof {
            lemma_single_literal(rules.blocked_uri@, "mxjscall://");
            lemma_single_literal(rules.original_policy@, ".blackspider.com");
            lemma_single_literal(rules.referrer@, "http://l.facebook.com");
            lemma_single_literal(rules.script_sample@, "var BlockAdBlock = function");
            lemma_single_literal(rules.source_file@, "chromenull://");
        }
        rules
    }

    /// Decides whether `report` is noise under these rules.
    ///
    /// The result depends on nothing but the rules and the report, neither of
    /// which is changed, so asking again gives the same answer.
    pub fn is_suppressed(&self, report: &CspReportContent) -> (suppressed: bool)
        ensures
            suppressed == self@.suppresses(report@),
    {
        list_contains(self.blocked_uri, report.blocked_uri.as_str())
            || list_contains(self.original_policy, report.original_policy.as_str())
            || list_contains(self.referrer, report.referrer.as_str())
            || optional_in_list(self.script_sample, &report.script_sample)
            || optional_in_list(self.source_file, &report.source_file)
    }
}

} // verus!
