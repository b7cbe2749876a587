//! From one report to one outcome: filter, fan out, aggregate.
//!
//! [`Dispatch`] holds the decisions as a state machine that performs no
//! delivery itself: it says which channel is to be tried next and takes the
//! result back. [`Dispatcher`] drives it over a registry of channels.

use vstd::prelude::*;
use crate::channel::Channel;
use crate::channel::DeliveryError;
use crate::channel::DeliveryReceipt;
use crate::csp::csp_report_content::CspReportContent;
use crate::csp::csp_report_content::ReportView;
use crate::csp::filter::FilterRules;
use crate::csp::filter::FilterRulesView;

verus! {

/// What became of one report.
#[derive(Clone, Debug, PartialEq, Eq)]
pub enum DispatchOutcome {
    /// The report is noise; no channel was tried.
    Suppressed,
    /// Every configured channel accepted the report (also when none is
    /// configured).
    Delivered,
    /// Some channels accepted the report; these, by name, did not.
    PartiallyDelivered(Vec<String>),
    /// No channel accepted the report; these are all the errors.
    Failed(Vec<DeliveryError>),
}

/// An outcome as plain character sequences.
pub enum OutcomeView {
    Suppressed,
    Delivered,
    PartiallyDelivered(Seq<Seq<char>>),
    Failed(Seq<Seq<char>>),
}

/// The reasons of a list of errors.
pub open spec fn reasons(errors: Seq<DeliveryError>) -> Seq<Seq<char>> {
    errors.map_values(|error: DeliveryError| error@)
}

impl View for DispatchOutcome {
    type V = OutcomeView;

    open spec fn view(&self) -> OutcomeView {
        match self {
            DispatchOutcome::Suppressed => OutcomeView::Suppressed,
            DispatchOutcome::Delivered => OutcomeView::Delivered,
            DispatchOutcome::PartiallyDelivered(names) => OutcomeView::PartiallyDelivered(
                names.deep_view(),
            ),
            DispatchOutcome::Failed(errors) => OutcomeView::Failed(reasons(errors@)),
        }
    }
}

/// One delivery that was tried: the channel's name and what came back.
#[derive(Debug, PartialEq, Eq)]
pub struct Attempt {
    pub channel: String,
    pub result: Result<DeliveryReceipt, DeliveryError>,
}

/// An attempt as plain character sequences: the channel's name, and the
/// receipt's reference or the error's reason.
pub struct AttemptView {
    pub channel: Seq<char>,
    pub result: Result<Seq<char>, Seq<char>>,
}

/// A delivery's result as plain character sequences.
pub open spec fn result_view(result: Result<DeliveryReceipt, DeliveryError>) -> Result<
    Seq<char>,
    Seq<char>,
> {
    match result {
        Ok(receipt) => Ok(receipt@),
        Err(error) => Err(error@),
    }
}

impl View for Attempt {
    type V = AttemptView;

    open spec fn view(&self) -> AttemptView {
        AttemptView { channel: self.channel@, result: result_view(self.result) }
    }
}

/// A list of attempts as plain values.
pub open spec fn attempts_view(attempts: Seq<Attempt>) -> Seq<AttemptView> {
    attempts.map_values(|attempt: Attempt| attempt@)
}

/// The attempts that failed, in their order.
pub open spec fn failed(attempts: Seq<AttemptView>) -> Seq<AttemptView> {
    attempts.filter(|attempt: AttemptView| attempt.result is Err)
}

/// The names of the channels that failed, in their order.
pub open spec fn failed_channels(attempts: Seq<AttemptView>) -> Seq<Seq<char>> {
    failed(attempts).map_values(|attempt: AttemptView| attempt.channel)
}

/// The reasons of the failures, in their order.
pub open spec fn failure_reasons(attempts: Seq<AttemptView>) -> Seq<Seq<char>> {
    failed(attempts).map_values(|attempt: AttemptView| attempt.result->Err_0)
}

/// The outcome of a report that was handed to every channel.
///
/// `Delivered` when nothing failed, which includes the case of no channel at
/// all; `Failed` with every error when everything failed; otherwise
/// `PartiallyDelivered` with the names of the channels that failed.
pub open spec fn aggregate_spec(attempts: Seq<AttemptView>) -> OutcomeView {
    if failed(attempts).len() == 0 {
        OutcomeView::Delivered
    } else if failed(attempts).len() == attempts.len() {
        OutcomeView::Failed(failure_reasons(attempts))
    } else {
        OutcomeView::PartiallyDelivered(failed_channels(attempts))
    }
}

/// How many attempts failed decides between the three outcomes.
proof fn lemma_failed_count(attempts: Seq<AttemptView>)
    ensures
        failed(attempts).len() <= attempts.len(),
        failed(attempts).len() == 0 <==> forall|i: int|
            0 <= i < attempts.len() ==> (#[trigger] attempts[i]).result is Ok,
        failed(attempts).len() == attempts.len() <==> forall|i: int|
            0 <= i < attempts.len() ==> (#[trigger] attempts[i]).result is Err,
        failed(attempts).len() == attempts.len() ==> failed(attempts) == attempts,
    decreases attempts.len(),
{
    reveal(Seq::filter);
    if attempts.len() > 0 {
        let before = attempts.drop_last();
        lemma_failed_count(before);
        assert(forall|i: int| 0 <= i < before.len() ==> before[i] == attempts[i]);
        if attempts.last().result is Err {
            if failed(before).len() == before.len() {
                assert(failed(attempts) =~= attempts);
            } else {
                let i = choose|i: int| 0 <= i < before.len() && !((#[trigger] before[i]).result is Err);
                assert(!(attempts[i].result is Err));
            }
            if failed(before).len() == 0 {
                assert(!(attempts[attempts.len() - 1].result is Ok));
            }
        } else {
            assert(!(attempts[attempts.len() - 1].result is Err));
            if failed(before).len() != 0 {
                let i = choose|i: int| 0 <= i < before.len() && !((#[trigger] before[i]).result is Ok);
                assert(!(attempts[i].result is Ok));
            }
        }
    }
}

/// Where every channel accepted the report the outcome is `Delivered`. This
/// holds in particular where no channel is configured.
pub proof fn lemma_all_accepted_is_delivered(attempts: Seq<AttemptView>)
    requires
        forall|i: int| 0 <= i < attempts.len() ==> (#[trigger] attempts[i]).result is Ok,
    ensures
        aggregate_spec(attempts) == OutcomeView::Delivered,
{
    lemma_failed_count(attempts);
}

/// Where every one of at least one channel failed the outcome is `Failed`,
/// and it lists the error of each channel, in the order of the channels.
pub proof fn lemma_all_failed_is_failed(attempts: Seq<AttemptView>)
    requires
        attempts.len() > 0,
        forall|i: int| 0 <= i < attempts.len() ==> (#[trigger] attempts[i]).result is Err,
    ensures
        aggregate_spec(attempts) == OutcomeView::Failed(
            attempts.map_values(|attempt: AttemptView| attempt.result->Err_0),
        ),
{
    lemma_failed_count(attempts);
}

/// Where some channel accepted the report and some channel failed the outcome
/// is `PartiallyDelivered`, and it names exactly the channels that failed.
pub proof fn lemma_some_failed_is_partial(attempts: Seq<AttemptView>)
    requires
        exists|i: int| 0 <= i < attempts.len() && (#[trigger] attempts[i]).result is Ok,
        exists|i: int| 0 <= i < attempts.len() && (#[trigger] attempts[i]).result is Err,
    ensures
        aggregate_spec(attempts) == OutcomeView::PartiallyDelivered(failed_channels(attempts)),
        forall|name: Seq<char>| #[trigger]
            failed_channels(attempts).contains(name) <==> exists|i: int|
                0 <= i < attempts.len() && (#[trigger] attempts[i]).result is Err
                    && attempts[i].channel == name,
{
    lemma_failed_count(attempts);
    let pred = |attempt: AttemptView| attempt.result is Err;
    let names = failed_channels(attempts);
    assert forall|name: Seq<char>| #[trigger] names.contains(name) implies exists|i: int|
        0 <= i < attempts.len() && (#[trigger] attempts[i]).result is Err && attempts[i].channel
            == name by {
        let j = choose|j: int| 0 <= j < names.len() && names[j] == name;
        let attempt = failed(attempts)[j];
        attempts.lemma_filter_pred(pred, j);
        assert(failed(attempts).contains(attempt));
        attempts.lemma_filter_contains_rev(pred, attempt);
        let i = choose|i: int| 0 <= i < attempts.len() && attempts[i] == attempt;
        assert(attempts[i].result is Err && attempts[i].channel == name);
    }
    assert forall|name: Seq<char>|
        (exists|i: int|
            0 <= i < attempts.len() && (#[trigger] attempts[i]).result is Err && attempts[i].channel
                == name) implies #[trigger] names.contains(name) by {
        let i = choose|i: int|
            0 <= i < attempts.len() && (#[trigger] attempts[i]).result is Err && attempts[i].channel
                == name;
        attempts.lemma_filter_contains(pred, i);
        let j = choose|j: int| 0 <= j < failed(attempts).len() && failed(attempts)[j] == attempts[i];
        assert(names[j] == name);
    }
}

/// Folds the results of all channels into one outcome.
pub fn aggregate(attempts: &Vec<Attempt>) -> (outcome: DispatchOutcome)
    ensures
        outcome@ == aggregate_spec(attempts_view(attempts@)),
{
    let ghost all = attempts_view(attempts@);
    let mut names: Vec<String> = Vec::new();
    let mut errors: Vec<DeliveryError> = Vec::new();
    let mut i: usize = 0;
    assert(all.take(0) =~= Seq::<AttemptView>::empty());
    assert(failed(all.take(0)) =~= Seq::<AttemptView>::empty()) by {
        reveal(Seq::filter);
    }
    assert(names.deep_view() =~= failed_channels(all.take(0)));
    assert(reasons(errors@) =~= failure_reasons(all.take(0)));
    while i < attempts.len()
        invariant
            i <= attempts.len(),
            all == attempts_view(attempts@),
            names.deep_view() == failed_channels(all.take(i as int)),
            reasons(errors@) == failure_reasons(all.take(i as int)),
        decreases attempts.len() - i,
    {
        let attempt = &attempts[i];
        proof {
            let before = all.take(i as int);
            assert(all.take(i + 1) =~= before.push(all[i as int]));
            before.lemma_filter_push(all[i as int], |attempt: AttemptView| attempt.result is Err);
            assert(all[i as int] == attempt@);
        }
        match &attempt.result {
            Ok(_) => {},
            Err(error) => {
                let ghost old_names = names.deep_view();
                let ghost old_errors = reasons(errors@);
                names.push(attempt.channel.clone());
                errors.push(DeliveryError { reason: error.reason.clone() });
                assert(names.deep_view() =~= old_names.push(attempt@.channel));
                assert(reasons(errors@) =~= old_errors.push(error@));
                assert(names.deep_view() =~= failed_channels(all.take(i + 1)));
                assert(reasons(errors@) =~= failure_reasons(all.take(i + 1)));
            },
        }
        i += 1;
    }
    assert(all.take(i as int) =~= all);
    if errors.len() == 0 {
        DispatchOutcome::Delivered
    } else if errors.len() == attempts.len() {
        DispatchOutcome::Failed(errors)
    } else {
        DispatchOutcome::PartiallyDelivered(names)
    }
}

/// What the caller of a [`Dispatch`] has to do next.
#[derive(Debug, PartialEq, Eq)]
pub enum Action {
    /// Send the report to the channel with this index and record the result.
    Send(usize),
    /// Nothing is left to send; this is the outcome.
    Finish(DispatchOutcome),
}

/// An action as plain values.
pub enum ActionView {
    Send(int),
    Finish(OutcomeView),
}

impl View for Action {
    type V = ActionView;

    open spec fn view(&self) -> ActionView {
        match self {
            Action::Send(index) => ActionView::Send(*index as int),
            Action::Finish(outcome) => ActionView::Finish(outcome@),
        }
    }
}

/// The dispatch of one report: whether it is suppressed, the names of the
/// configured channels, and the deliveries tried so far.
pub struct Dispatch {
    suppressed: bool,
    channels: Vec<String>,
    attempts: Vec<Attempt>,
}

/// The state of a dispatch as plain values.
pub struct DispatchView {
    pub suppressed: bool,
    pub channels: Seq<Seq<char>>,
    pub attempts: Seq<AttemptView>,
}

/// The attempts in which channel `i` came back with `results[i]`.
pub open spec fn paired(channels: Seq<Seq<char>>, results: Seq<Result<Seq<char>, Seq<char>>>) -> Seq<
    AttemptView,
> {
    Seq::new(results.len(), |i: int| AttemptView { channel: channels[i], result: results[i] })
}

impl DispatchView {
    /// The state in which `report` arrives and nothing was tried yet.
    pub open spec fn begin(
        rules: FilterRulesView,
        report: ReportView,
        channels: Seq<Seq<char>>,
    ) -> DispatchView {
        DispatchView { suppressed: rules.suppresses(report), channels, attempts: Seq::empty() }
    }

    /// A suppressed report is finished at once. Any other report goes to the
    /// channels one after the other, whatever the earlier ones answered, and
    /// is finished when the last one has answered.
    pub open spec fn action(self) -> ActionView {
        if self.suppressed {
            ActionView::Finish(OutcomeView::Suppressed)
        } else if self.attempts.len() < self.channels.len() {
            ActionView::Send(self.attempts.len() as int)
        } else {
            ActionView::Finish(aggregate_spec(self.attempts))
        }
    }

    /// The state after the channel that `action` named came back with
    /// `result`. Where no channel was named, nothing changes.
    pub open spec fn record(self, result: Result<Seq<char>, Seq<char>>) -> DispatchView {
        if self.action() is Send {
            DispatchView {
                attempts: self.attempts.push(
                    AttemptView { channel: self.channels[self.attempts.len() as int], result },
                ),
                ..self
            }
        } else {
            self
        }
    }

    /// The state after the results were recorded one after the other.
    pub open spec fn record_all(self, results: Seq<Result<Seq<char>, Seq<char>>>) -> DispatchView
        decreases results.len(),
    {
        if results.len() == 0 {
            self
        } else {
            self.record_all(results.drop_last()).record(results.last())
        }
    }
}

/// A report that the rules suppress is finished before any channel is tried:
/// the first action is to finish with `Suppressed`, and no result that is
/// handed in brings the dispatch to name a channel.
pub proof fn lemma_suppressed_report_reaches_no_channel(
    rules: FilterRulesView,
    report: ReportView,
    channels: Seq<Seq<char>>,
    results: Seq<Result<Seq<char>, Seq<char>>>,
)
    requires
        rules.suppresses(report),
    ensures
        DispatchView::begin(rules, report, channels).action() == ActionView::Finish(
            OutcomeView::Suppressed,
        ),
        DispatchView::begin(rules, report, channels).record_all(results) == DispatchView::begin(
            rules,
            report,
            channels,
        ),
    decreases results.len(),
{
    if results.len() > 0 {
        lemma_suppressed_report_reaches_no_channel(rules, report, channels, results.drop_last());
    }
}

/// A report whose blocked URI, policy or referrer is listed is suppressed, so
/// it is finished with `Suppressed` and reaches no channel.
pub proof fn lemma_listed_report_reaches_no_channel(
    rules: FilterRulesView,
    report: ReportView,
    channels: Seq<Seq<char>>,
)
    requires
        rules.blocked_uri.contains(report.blocked_uri) || rules.original_policy.contains(
            report.original_policy,
        ) || rules.referrer.contains(report.referrer),
    ensures
        rules.suppresses(report),
        DispatchView::begin(rules, report, channels).action() == ActionView::Finish(
            OutcomeView::Suppressed,
        ),
{
}

/// A report that is not suppressed goes to every channel, once each and in
/// their order, whatever the channels before answered. After `k` results the
/// dispatch names channel `k`; after the last one it finishes with the
/// aggregate of all results.
pub proof fn lemma_every_channel_is_tried_once(
    rules: FilterRulesView,
    report: ReportView,
    channels: Seq<Seq<char>>,
    results: Seq<Result<Seq<char>, Seq<char>>>,
)
    requires
        !rules.suppresses(report),
        results.len() <= channels.len(),
    ensures
        DispatchView::begin(rules, report, channels).record_all(results) == (DispatchView {
            suppressed: false,
            channels,
            attempts: paired(channels, results),
        }),
        results.len() < channels.len() ==> DispatchView::begin(rules, report, channels).record_all(
            results,
        ).action() == ActionView::Send(results.len() as int),
        results.len() == channels.len() ==> DispatchView::begin(rules, report, channels).record_all(
            results,
        ).action() == ActionView::Finish(aggregate_spec(paired(channels, results))),
    decreases results.len(),
{
    let start = DispatchView::begin(rules, report, channels);
    if results.len() == 0 {
        assert(start.attempts =~= paired(channels, results));
    } else {
        let before = results.drop_last();
        lemma_every_channel_is_tried_once(rules, report, channels, before);
        assert(start.record_all(before).action() is Send);
        assert(start.record_all(results).attempts =~= paired(channels, results));
    }
}

impl Dispatch {
    /// The state of the dispatch as plain values.
    pub closed spec fn view(&self) -> DispatchView {
        DispatchView {
            suppressed: self.suppressed,
            channels: self.channels.deep_view(),
            attempts: attempts_view(self.attempts@),
        }
    }

    /// Takes `report` in: decides whether it is noise under `rules`, and
    /// remembers the names of the channels it may go to.
    pub fn begin(rules: &FilterRules, report: &CspReportContent, channels: Vec<String>) -> (dispatch:
        Dispatch)
        ensures
            dispatch@ == DispatchView::begin(rules@, report@, channels.deep_view()),
    {
        let dispatch = Dispatch {
            suppressed: rules.is_suppressed(report),
            channels,
            attempts: Vec::new(),
        };
        assert(attempts_view(dispatch.attempts@) =~= Seq::<AttemptView>::empty());
        dispatch
    }

    /// What is to be done next.
    pub fn action(&self) -> (action: Action)
        ensures
            action@ == self@.action(),
    {
        if self.suppressed {
            Action::Finish(DispatchOutcome::Suppressed)
        } else if self.attempts.len() < self.channels.len() {
            Action::Send(self.attempts.len())
        } else {
            Action::Finish(aggregate(&self.attempts))
        }
    }

    /// Takes back the result of the delivery that `action` asked for.
    pub fn record(&mut self, result: Result<DeliveryReceipt, DeliveryError>)
        ensures
            final(self)@ == old(self)@.record(result_view(result)),
    {
        if !self.suppressed && self.attempts.len() < self.channels.len() {
            let ghost before = attempts_view(self.attempts@);
            let channel = self.channels[self.attempts.len()].clone();
            self.attempts.push(Attempt { channel, result });
            assert(attempts_view(self.attempts@) =~= before.push(
                AttemptView {
                    channel: self.channels.deep_view()[before.len() as int],
                    result: result_view(result),
                },
            ));
        }
    }
}

/// A channel under the name by which outcomes refer to it.
pub struct Registered<C> {
    pub name: String,
    pub channel: C,
}

/// The filter rules and the channels of one process, set up once at start-up.
pub struct Dispatcher<C> {
    pub rules: FilterRules,
    pub channels: Vec<Registered<C>>,
}

impl<C: Channel> Dispatcher<C> {
    /// The names of the registered channels, in the order of registration.
    pub open spec fn names(&self) -> Seq<Seq<char>> {
        self.channels@.map_values(|entry: Registered<C>| entry.name@)
    }

    /// A dispatcher with these rules and no channel.
    pub fn new(rules: FilterRules) -> (dispatcher: Self)
        ensures
            dispatcher.rules == rules,
            dispatcher.channels@.len() == 0,
    {
        Dispatcher { rules, channels: Vec::new() }
    }

    /// Adds `channel` under `name`, after the channels registered before.
    pub fn register(&mut self, name: String, channel: C)
        ensures
            final(self).rules == old(self).rules,
            final(self).channels@ == old(self).channels@.push(Registered { name, channel }),
    {
        self.channels.push(Registered { name, channel });
    }

    /// The names of the registered channels.
    fn channel_names(&self) -> (names: Vec<String>)
        ensures
            names.deep_view() == self.names(),
    {
        let mut names: Vec<String> = Vec::new();
        let mut i: usize = 0;
        while i < self.channels.len()
            invariant
                i <= self.channels.len(),
                names.deep_view() == self.names().take(i as int),
            decreases self.channels.len() - i,
        {
            let ghost before = names.deep_view();
            names.push(self.channels[i].name.clone());
            assert(names.deep_view() =~= before.push(self.names()[i as int]));
            assert(self.names().take(i + 1) =~= before.push(self.names()[i as int]));
            i += 1;
        }
        assert(self.names().take(i as int) =~= self.names());
        names
    }

    /// Handles one report.
    ///
    /// A report that the rules suppress gives `Suppressed`. Any other report
    /// is sent to every registered channel, each exactly once and in the
    /// order of registration; a channel that fails does not keep the later
    /// ones from being tried. The outcome is the aggregate of what came back.
    pub fn handle(&self, report: &CspReportContent) -> (outcome: DispatchOutcome)
        ensures
            self.rules@.suppresses(report@) ==> outcome@ == OutcomeView::Suppressed,
            !self.rules@.suppresses(report@) ==> exists|results: Seq<Result<Seq<char>, Seq<char>>>|
                results.len() == self.channels@.len() && outcome@ == aggregate_spec(
                    #[trigger] paired(self.names(), results),
                ),
            !self.rules@.suppresses(report@) && self.channels@.len() == 0 ==> outcome@
                == OutcomeView::Delivered,
    {
        let mut dispatch = Dispatch::begin(&self.rules, report, self.channel_names());
        let ghost mut results: Seq<Result<Seq<char>, Seq<char>>> = Seq::empty();
        assert(dispatch@.attempts =~= paired(self.names(), results));
        loop
            invariant
                dispatch@.suppressed == self.rules@.suppresses(report@),
                dispatch@.channels == self.names(),
                dispatch@.attempts == paired(self.names(), results),
                results.len() <= self.channels@.len(),
            decreases self.channels@.len() - results.len(),
        {
            match dispatch.action() {
                Action::Send(index) => {
                    let result = self.channels[index].channel.send_report(report);
                    proof {
                        let before = paired(self.names(), results);
                        results = results.push(result_view(result));
                        assert(paired(self.names(), results) =~= before.push(
                            AttemptView {
                                channel: self.names()[index as int],
                                result: result_view(result),
                            },
                        ));
                    }
                    dispatch.record(result);
                },
                Action::Finish(outcome) => {
                    proof {
                        if !self.rules@.suppresses(report@) && self.channels@.len() == 0 {
                            lemma_all_accepted_is_delivered(paired(self.names(), results));
                        }
                    }
                    return outcome;
                },
            }
        }
    }
}

} // verus!
