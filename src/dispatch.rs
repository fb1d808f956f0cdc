//! Fan-out of one event to a fixed, ordered set of handlers, gated by the
//! feature switches, and the merge of their outcomes into the audit record.
use vstd::prelude::*;
use crate::audit::{is_command_text, starts_with_slash, finalized, AuditView, BotLog, BotLogBuilder};
use crate::model::MessageStatus;
use crate::toggle::ToggleStore;

verus! {

/// What one handler invocation produced.
#[derive(Debug, Clone)]
pub enum DispatchOutcome {
    Success,
    Failure(String),
}

/// The two disjoint handler sets; an event goes to exactly one of them.
#[derive(Debug, Clone, Copy, PartialEq, Eq, Structural)]
pub enum HandlerSet {
    PlainText,
    Command,
}

/// The failure messages of `outcomes`, in registration order. A skipped
/// handler stands as `None` and contributes nothing.
pub open spec fn failure_messages(outcomes: Seq<Option<DispatchOutcome>>) -> Seq<Seq<char>>
    decreases outcomes.len(),
{
    if outcomes.len() == 0 {
        Seq::empty()
    } else {
        let rest = failure_messages(outcomes.drop_last());
        match outcomes.last() {
            Some(DispatchOutcome::Failure(m)) => rest.push(m@),
            _ => rest,
        }
    }
}

/// The pieces of `parts` joined end to end.
pub open spec fn concat_all(parts: Seq<Seq<char>>) -> Seq<char>
    decreases parts.len(),
{
    if parts.len() == 0 {
        Seq::empty()
    } else {
        concat_all(parts.drop_last()) + parts.last()
    }
}

pub open spec fn is_failure(o: Option<DispatchOutcome>) -> bool {
    o matches Some(DispatchOutcome::Failure(_))
}

/// The outcomes of the handlers that ran and failed, in registration order.
pub open spec fn failed_outcomes(outcomes: Seq<Option<DispatchOutcome>>) -> Seq<
    Option<DispatchOutcome>,
> {
    outcomes.filter(|o: Option<DispatchOutcome>| is_failure(o))
}

pub open spec fn failure_text(o: Option<DispatchOutcome>) -> Seq<char> {
    match o {
        Some(DispatchOutcome::Failure(m)) => m@,
        _ => Seq::empty(),
    }
}

/// The number of handlers that ran and failed.
pub open spec fn failure_count(outcomes: Seq<Option<DispatchOutcome>>) -> nat {
    failed_outcomes(outcomes).len()
}

/// The merged error: none when no handler failed, else every failure message
/// verbatim, concatenated in registration order.
pub open spec fn merged_error(outcomes: Seq<Option<DispatchOutcome>>) -> Option<Seq<char>> {
    if failure_messages(outcomes).len() == 0 {
        None
    } else {
        Some(concat_all(failure_messages(outcomes)))
    }
}

/// `Success` iff no handler failed, else `RunError`.
pub open spec fn aggregate_status(outcomes: Seq<Option<DispatchOutcome>>) -> MessageStatus {
    if failure_messages(outcomes).len() == 0 {
        MessageStatus::Success
    } else {
        MessageStatus::RunError
    }
}

/// The record after the outcomes are merged into it: a failure downgrades the
/// status and sets the merged error; otherwise the record is unchanged.
pub open spec fn with_outcomes(v: AuditView, outcomes: Seq<Option<DispatchOutcome>>) -> AuditView {
    match merged_error(outcomes) {
        Some(e) => AuditView { status: MessageStatus::RunError, error: Some(e), ..v },
        None => v,
    }
}

pub open spec fn handler_set_of(text: Seq<char>) -> HandlerSet {
    if is_command_text(text) {
        HandlerSet::Command
    } else {
        HandlerSet::PlainText
    }
}

/// Registered names of the handlers of each set, in registration order.
pub open spec fn handler_names_spec(set: HandlerSet) -> Seq<Seq<char>> {
    match set {
        HandlerSet::PlainText => seq!["fix"@, "six"@, "repeat"@, "pretext"@, "fuck_b23"@],
        HandlerSet::Command => seq!["guozao"@],
    }
}

/// Picks the handler set from the first character of the text payload.
pub fn select_handler_set(text: &str) -> (r: HandlerSet)
    ensures
        r == handler_set_of(text@),
{
    if starts_with_slash(text) {
        HandlerSet::Command
    } else {
        HandlerSet::PlainText
    }
}

/// The feature names of a handler set, in registration order.
pub fn handler_names(set: HandlerSet) -> (r: Vec<String>)
    ensures
        r@.map_values(|s: String| s@) == handler_names_spec(set),
{
    let mut names: Vec<String> = Vec::new();
    match set {
        HandlerSet::PlainText => {
            names.push(String::from_str("fix"));
            names.push(String::from_str("six"));
            names.push(String::from_str("repeat"));
            names.push(String::from_str("pretext"));
            names.push(String::from_str("fuck_b23"));
        },
        HandlerSet::Command => {
            names.push(String::from_str("guozao"));
        },
    }
    proof {
        assert(names@.map_values(|s: String| s@) =~= handler_names_spec(set));
    }
    names
}

/// For each named handler, whether it is enabled in `chat_id`.
pub fn gate(store: &ToggleStore, chat_id: i64, names: &Vec<String>) -> (r: Vec<bool>)
    requires
        store.wf(),
    ensures
        r@.len() == names@.len(),
        forall|i: int| 0 <= i < names@.len() ==> r@[i] == store.enabled_spec(chat_id, names@[i]@),
{
    let mut flags: Vec<bool> = Vec::new();
    let mut i: usize = 0;
    while i < names.len()
        invariant
            i <= names@.len(),
            store.wf(),
            flags@.len() == i,
            forall|j: int| 0 <= j < i ==> flags@[j] == store.enabled_spec(chat_id, names@[j]@),
        decreases names@.len() - i,
    {
        flags.push(store.get(chat_id, names[i].as_str()));
        i += 1;
    }
    flags
}

/// The failure recorded for a handler that did not finish in time: its
/// message is `timeout: ` followed by the feature name.
pub fn timeout_outcome(feature: &str) -> (r: DispatchOutcome)
    ensures
        r matches DispatchOutcome::Failure(m) && m@ == "timeout: "@ + feature@,
{
    let mut m = String::from_str("timeout: ");
    m.append(feature);
    DispatchOutcome::Failure(m)
}

/// Merges the outcomes of one dispatch: `None` when no handler failed, else the
/// failure messages concatenated in registration order.
pub fn merge_errors(outcomes: &Vec<Option<DispatchOutcome>>) -> (r: Option<String>)
    ensures
        crate::audit::opt_string_view(r) == merged_error(outcomes@),
{
    let mut err = String::new();
    let mut failed = false;
    let mut i: usize = 0;
    while i < outcomes.len()
        invariant
            i <= outcomes@.len(),
            err@ == concat_all(failure_messages(outcomes@.take(i as int))),
            failed == (failure_messages(outcomes@.take(i as int)).len() > 0),
        decreases outcomes@.len() - i,
    {
        let ghost prev = outcomes@.take(i as int);
        let ghost next = outcomes@.take(i + 1);
        proof {
            assert(next.drop_last() =~= prev);
            assert(next.last() == outcomes@[i as int]);
        }
        match &outcomes[i] {
            Some(DispatchOutcome::Failure(m)) => {
                err.append(m.as_str());
                failed = true;
                proof {
                    let parts = failure_messages(next);
                    assert(parts == failure_messages(prev).push(m@));
                    assert(parts.drop_last() =~= failure_messages(prev));
                }
            },
            _ => {},
        }
        i += 1;
    }
    proof {
        assert(outcomes@.take(outcomes@.len() as int) =~= outcomes@);
    }
    if failed {
        Some(err)
    } else {
        None
    }
}

/// Merges the outcomes into the record: on any failure the status becomes
/// `RunError` and the merged error is stored.
pub fn record_outcomes(blog: &mut BotLogBuilder, outcomes: &Vec<Option<DispatchOutcome>>)
    ensures
        final(blog)@ == with_outcomes(old(blog)@, outcomes@),
{
    match merge_errors(outcomes) {
        Some(err) => {
            blog.set_status(MessageStatus::RunError);
            blog.set_error(err);
        },
        None => {},
    }
}

/// Closes the record of a text message once its handlers have run: merges
/// their outcomes, stores the text as the command, and finalizes at `end_ms`.
pub fn finish_text_event(
    blog: BotLogBuilder,
    text: String,
    outcomes: &Vec<Option<DispatchOutcome>>,
    end_ms: i64,
) -> (r: BotLog)
    ensures
        r@ == finalized(
            AuditView { command: Some(text@), ..with_outcomes(blog@, outcomes@) },
            end_ms,
        ),
{
    let mut blog = blog;
    record_outcomes(&mut blog, outcomes);
    blog.set_command(text);
    blog.finalize(end_ms)
}

/// The merge keeps one message per failed handler: the messages of the failed
/// handlers, verbatim and in registration order. The status is `Success` iff
/// no handler failed, and `RunError` otherwise.
pub proof fn lemma_merge_counts(outcomes: Seq<Option<DispatchOutcome>>)
    ensures
        failure_messages(outcomes) == failed_outcomes(outcomes).map_values(
            |o: Option<DispatchOutcome>| failure_text(o),
        ),
        failure_messages(outcomes).len() == failure_count(outcomes),
        (aggregate_status(outcomes) == MessageStatus::Success) <==> failure_count(outcomes) == 0,
        failure_count(outcomes) > 0 ==> aggregate_status(outcomes) == MessageStatus::RunError
            && merged_error(outcomes) == Some(concat_all(failure_messages(outcomes))),
        failure_count(outcomes) == 0 ==> merged_error(outcomes) is None,
    decreases outcomes.len(),
{
    reveal(Seq::filter);
    if outcomes.len() > 0 {
        lemma_merge_counts(outcomes.drop_last());
        let prev = failed_outcomes(outcomes.drop_last());
        assert(prev.push(outcomes.last()).map_values(|o: Option<DispatchOutcome>| failure_text(o))
            =~= prev.map_values(|o: Option<DispatchOutcome>| failure_text(o)).push(
            failure_text(outcomes.last()),
        ));
    } else {
        assert(failed_outcomes(outcomes).map_values(|o: Option<DispatchOutcome>| failure_text(o))
            =~= Seq::<Seq<char>>::empty());
    }
}

/// When every handler is disabled, none runs: the finished record keeps the
/// `Success` it started with, gets no error, and its time cost is not negative.
pub proof fn lemma_all_disabled(
    blog: AuditView,
    outcomes: Seq<Option<DispatchOutcome>>,
    text: Seq<char>,
    end_ms: i64,
)
    requires
        blog.status == MessageStatus::Success,
        forall|i: int| 0 <= i < outcomes.len() ==> outcomes[i] is None,
    ensures
        ({
            let r = finalized(AuditView { command: Some(text), ..with_outcomes(blog, outcomes) }, end_ms);
            r.status == MessageStatus::Success && r.error == blog.error && r.time_cost >= 0
        }),
    decreases outcomes.len(),
{
    if outcomes.len() > 0 {
        lemma_all_disabled(blog, outcomes.drop_last(), text, end_ms);
    }
}

} // verus!
