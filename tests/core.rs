use bot_core::audit::BotLogBuilder;
use bot_core::dispatch::{
    finish_text_event, gate, handler_names, merge_errors, record_outcomes, select_handler_set,
    timeout_outcome, DispatchOutcome, HandlerSet,
};
use bot_core::model::{Group, MessageContext, MessageStatus, MessageType, User};
use bot_core::registry::{default_features, is_registered, list_features, set_feature, SwitchError};
use bot_core::toggle::{coalesce, StoreBackpressure, ToggleChange, ToggleStore};
use bot_core::worker::{after_write, retry_delay_ms, WriteAction};

fn fail(m: &str) -> Option<DispatchOutcome> {
    Some(DispatchOutcome::Failure(m.to_string()))
}

fn run_text_event(
    store: &ToggleStore,
    chat: i64,
    text: &str,
    results: &[(&str, Result<(), &str>)],
) -> bot_core::audit::BotLog {
    let blog = BotLogBuilder::from_message(chat, 7, 1, text, 1_000);
    let names = handler_names(select_handler_set(text));
    let flags = gate(store, chat, &names);
    let mut outcomes = Vec::new();
    for (name, on) in names.iter().zip(flags.iter()) {
        if !*on {
            outcomes.push(None);
            continue;
        }
        let result = results.iter().find(|(n, _)| n == name).map(|(_, r)| *r).unwrap_or(Ok(()));
        outcomes.push(Some(match result {
            Ok(()) => DispatchOutcome::Success,
            Err(e) => DispatchOutcome::Failure(e.to_string()),
        }));
    }
    finish_text_event(blog, text.to_string(), &outcomes, 1_020)
}

#[test]
fn group_and_user_ids() {
    let g = Group::new(-100, Some("grp".to_string()), Some("Group".to_string()));
    assert_eq!(g.get_id(), -100);
    assert_eq!(g.group_username(), &Some("grp".to_string()));
    assert_eq!(g.group_name(), &Some("Group".to_string()));
    let u = User::new(42, None);
    assert_eq!(u.get_id(), 42);
    assert_eq!(u.username(), &None);
}

#[test]
fn message_context_starts_clean() {
    let c = MessageContext::new(9);
    assert_eq!(c.message_id, 9);
    assert_eq!(c.command, None);
    assert_eq!(c.status, MessageStatus::Success);
    assert_eq!(c.time_cost, 0);
}

#[test]
fn builder_classifies_messages() {
    let log = BotLogBuilder::from_message(5, 6, 7, "/ping", 10).finalize(10);
    assert_eq!(log.msg_type(), MessageType::Command);
    assert_eq!(log.group_id(), 5);
    assert_eq!(log.user_id(), 6);
    assert_eq!(log.msg_ctx().message_id, 7);
    assert_eq!(log.timestamp(), 10);
    let log = BotLogBuilder::from_message(5, 6, 7, "hello /x", 10).finalize(10);
    assert_eq!(log.msg_type(), MessageType::Text);
    let log = BotLogBuilder::from_message(5, 6, 7, "", 10).finalize(10);
    assert_eq!(log.msg_type(), MessageType::Text);
}

#[test]
fn callback_without_message_uses_chat_zero() {
    let log = BotLogBuilder::from_callback(None, 3, 0).finalize(0);
    assert_eq!(log.group_id(), 0);
    assert_eq!(log.msg_type(), MessageType::Callback);
    assert_eq!(log.msg_ctx().message_id, 0);
    let log = BotLogBuilder::from_callback(Some(-12), 3, 0).finalize(0);
    assert_eq!(log.group_id(), -12);
}

#[test]
fn finalize_time_cost() {
    assert_eq!(BotLogBuilder::from_message(1, 1, 1, "a", 1_000).finalize(1_500).msg_ctx().time_cost, 500);
    assert_eq!(BotLogBuilder::from_message(1, 1, 1, "a", 1_000).finalize(900).msg_ctx().time_cost, 0);
    assert_eq!(
        BotLogBuilder::from_message(1, 1, 1, "a", i64::MIN).finalize(i64::MAX).msg_ctx().time_cost,
        i64::MAX
    );
}

#[test]
fn builder_setters_last_value_wins() {
    let mut b = BotLogBuilder::from_message(1, 1, 1, "a", 0);
    b.set_status(MessageStatus::CmdError);
    b.set_status(MessageStatus::RunError);
    b.set_command("one".to_string());
    b.set_command("two".to_string());
    b.set_error("boom".to_string());
    let log = b.finalize(3);
    assert_eq!(log.msg_ctx().status, MessageStatus::RunError);
    assert_eq!(log.msg_ctx().command, Some("two".to_string()));
    assert_eq!(log.error(), &Some("boom".to_string()));
    assert_eq!(log.msg_ctx().time_cost, 3);
}

#[test]
fn handler_set_by_first_character() {
    assert_eq!(select_handler_set("/guozao"), HandlerSet::Command);
    assert_eq!(select_handler_set("guozao"), HandlerSet::PlainText);
    assert_eq!(select_handler_set(""), HandlerSet::PlainText);
    assert_eq!(handler_names(HandlerSet::PlainText), vec!["fix", "six", "repeat", "pretext", "fuck_b23"]);
    assert_eq!(handler_names(HandlerSet::Command), vec!["guozao"]);
}

#[test]
fn merge_keeps_registration_order() {
    let outcomes = vec![fail("b;"), Some(DispatchOutcome::Success), None, fail("a;"), fail("c")];
    assert_eq!(merge_errors(&outcomes), Some("b;a;c".to_string()));
    assert_eq!(merge_errors(&vec![None, Some(DispatchOutcome::Success)]), None);
    assert_eq!(merge_errors(&vec![]), None);
}

#[test]
fn empty_failure_message_still_fails() {
    let mut b = BotLogBuilder::from_message(1, 1, 1, "x", 0);
    record_outcomes(&mut b, &vec![fail("")]);
    let log = b.finalize(0);
    assert_eq!(log.msg_ctx().status, MessageStatus::RunError);
    assert_eq!(log.error(), &Some(String::new()));
}

#[test]
fn all_disabled_dispatch_is_success() {
    let mut store = ToggleStore::new(true, 16);
    for name in ["fix", "six", "repeat", "pretext", "fuck_b23"] {
        store.set(1, name.to_string(), false).unwrap();
    }
    let log = run_text_event(&store, 1, "hello", &[("fix", Err("never runs"))]);
    assert_eq!(log.msg_ctx().status, MessageStatus::Success);
    assert_eq!(log.error(), &None);
    assert!(log.msg_ctx().time_cost >= 0);
    assert_eq!(log.msg_ctx().command, Some("hello".to_string()));
}

#[test]
fn failures_counted_in_registration_order() {
    let store = ToggleStore::new(true, 16);
    let log = run_text_event(&store, 1, "hi", &[("repeat", Err("r")), ("six", Err("s")), ("fix", Ok(()))]);
    assert_eq!(log.msg_ctx().status, MessageStatus::RunError);
    assert_eq!(log.error(), &Some("sr".to_string()));
    let log = run_text_event(&store, 1, "hi", &[]);
    assert_eq!(log.msg_ctx().status, MessageStatus::Success);
}

#[test]
fn plain_text_skips_disabled_feature() {
    let mut store = ToggleStore::new(true, 16);
    store.set(100, "repeat".to_string(), false).unwrap();
    let names = handler_names(HandlerSet::PlainText);
    let flags = gate(&store, 100, &names);
    assert_eq!(flags, vec![true, true, false, true, true]);
    let log = run_text_event(&store, 100, "(hello", &[("fix", Ok(())), ("repeat", Err("skipped"))]);
    assert_eq!(log.msg_ctx().status, MessageStatus::Success);
    assert_eq!(log.error(), &None);
}

#[test]
fn command_failure_is_recorded() {
    let store = ToggleStore::new(true, 16);
    let log = run_text_event(&store, 200, "/guozao", &[("guozao", Err("rate limited"))]);
    assert_eq!(log.msg_type(), MessageType::Command);
    assert_eq!(log.group_id(), 200);
    assert_eq!(log.msg_ctx().status, MessageStatus::RunError);
    assert!(log.error().as_ref().unwrap().contains("rate limited"));
    assert_eq!(log.msg_ctx().time_cost, 20);
}

#[test]
fn timeout_is_a_prefixed_failure() {
    match timeout_outcome("wiki") {
        DispatchOutcome::Failure(m) => assert_eq!(m, "timeout: wiki"),
        DispatchOutcome::Success => panic!("expected a failure"),
    }
}

#[test]
fn unset_key_reads_default() {
    let store = ToggleStore::new(true, 4);
    assert!(store.get(100, "fix"));
    assert!(store.get(-5, "anything"));
    let store = ToggleStore::new(false, 4);
    assert!(!store.get(100, "fix"));
}

#[test]
fn set_then_get_reads_the_write() {
    let mut store = ToggleStore::new(true, 4);
    store.set(100, "fix".to_string(), false).unwrap();
    assert!(!store.get(100, "fix"));
    assert!(store.get(101, "fix"));
    assert!(store.get(100, "six"));
    store.set(100, "fix".to_string(), true).unwrap();
    assert!(store.get(100, "fix"));
    store.set(100, "fix".to_string(), false).unwrap();
    assert!(!store.get(100, "fix"));
}

#[test]
fn full_queue_reports_backpressure() {
    let mut store = ToggleStore::new(true, 1);
    assert_eq!(store.set(1, "fix".to_string(), false), Ok(()));
    assert_eq!(store.set(1, "six".to_string(), false), Err(StoreBackpressure));
    assert!(!store.get(1, "six"));
    let batch = store.take_pending();
    assert_eq!(batch.len(), 1);
    assert_eq!(batch[0].feature, "fix");
    assert!(!batch[0].enabled);
    assert!(store.take_pending().is_empty());
    assert_eq!(store.set(1, "repeat".to_string(), true), Ok(()));
}

#[test]
fn coalesce_last_value_wins() {
    let batch = vec![
        ToggleChange::new(100, "fix".to_string(), false),
        ToggleChange::new(100, "six".to_string(), false),
        ToggleChange::new(100, "fix".to_string(), true),
    ];
    let out = coalesce(&batch);
    assert_eq!(out.len(), 2);
    let fix: Vec<&ToggleChange> = out.iter().filter(|c| c.chat_id == 100 && c.feature == "fix").collect();
    assert_eq!(fix.len(), 1);
    assert!(fix[0].enabled);
    assert!(coalesce(&vec![]).is_empty());
}

#[test]
fn persisted_batch_reflects_last_change() {
    let mut store = ToggleStore::new(true, 8);
    store.set(100, "fix".to_string(), false).unwrap();
    store.set(100, "fix".to_string(), true).unwrap();
    let out = coalesce(&store.take_pending());
    assert_eq!(out.len(), 1);
    assert_eq!(out[0].chat_id, 100);
    assert_eq!(out[0].feature, "fix");
    assert!(out[0].enabled);
}

#[test]
fn registry_lists_features() {
    let features = default_features();
    assert_eq!(features.len(), 21);
    assert_eq!(features[0].name, "fix");
    assert_eq!(features[0].description, "补括号");
    assert_eq!(features[20].name, "count");
    assert!(is_registered(&features, "wiki"));
    assert!(!is_registered(&features, "pretext"));
    let mut store = ToggleStore::new(true, 8);
    store.set(3, "six".to_string(), false).unwrap();
    let listing = list_features(&store, 3, &features);
    assert_eq!(listing.len(), 21);
    assert!(listing[0].enabled);
    assert_eq!(listing[1].name, "six");
    assert!(!listing[1].enabled);
}

#[test]
fn retry_schedule() {
    assert_eq!(after_write(true, 0, 3, 100), WriteAction::Done);
    assert_eq!(after_write(false, 0, 3, 100), WriteAction::RetryAfter(100));
    assert_eq!(after_write(false, 1, 3, 100), WriteAction::RetryAfter(200));
    assert_eq!(after_write(false, 2, 3, 100), WriteAction::Drop);
    assert_eq!(after_write(false, 0, 0, 100), WriteAction::Drop);
    assert_eq!(retry_delay_ms(3, 5), 40);
    assert_eq!(retry_delay_ms(70, 1), u64::MAX);
}

#[test]
fn switch_requests_are_validated() {
    let features = default_features();
    let mut store = ToggleStore::new(true, 1);
    assert_eq!(set_feature(&mut store, &features, 9, "nope".to_string(), false), Err(SwitchError::UnknownFeature));
    assert!(store.get(9, "nope"));
    assert!(store.take_pending().is_empty());
    assert_eq!(set_feature(&mut store, &features, 9, "wiki".to_string(), false), Ok(()));
    assert!(!store.get(9, "wiki"));
    assert_eq!(
        set_feature(&mut store, &features, 9, "ping".to_string(), false),
        Err(SwitchError::StoreBackpressure)
    );
    assert!(!store.get(9, "ping"));
}
