//! The audit record written for every inbound event, and the builder that
//! accumulates it while the event's handlers run.
use vstd::prelude::*;
use crate::model::{MessageContext, MessageStatus, MessageType};

verus! {

/// Whether a text payload is a command: its first character is `/`.
pub open spec fn is_command_text(text: Seq<char>) -> bool {
    text.len() > 0 && text[0] == '/'
}

/// Milliseconds from `start` to `end`: never negative (a clock that went back
/// gives zero), and capped at `i64::MAX`.
pub open spec fn elapsed_ms(start: i64, end: i64) -> i64 {
    if end <= start {
        0
    } else if end - start > i64::MAX {
        i64::MAX
    } else {
        (end - start) as i64
    }
}

/// The mathematical content of an audit record.
pub ghost struct AuditView {
    pub group_id: i64,
    pub user_id: u64,
    pub timestamp: i64,
    pub msg_type: MessageType,
    pub message_id: i32,
    pub command: Option<Seq<char>>,
    pub status: MessageStatus,
    pub time_cost: i64,
    pub error: Option<Seq<char>>,
}

pub open spec fn opt_string_view(o: Option<String>) -> Option<Seq<char>> {
    match o {
        Some(s) => Some(s@),
        None => None,
    }
}

/// The record as it is when processing starts.
pub open spec fn begun(
    group_id: i64,
    user_id: u64,
    timestamp: i64,
    msg_type: MessageType,
    message_id: i32,
) -> AuditView {
    AuditView {
        group_id,
        user_id,
        timestamp,
        msg_type,
        message_id,
        command: None,
        status: MessageStatus::Success,
        time_cost: 0,
        error: None,
    }
}

/// The record once it is finalized at time `end`.
pub open spec fn finalized(v: AuditView, end: i64) -> AuditView {
    AuditView { time_cost: elapsed_ms(v.timestamp, end), ..v }
}

/// One finished audit entry.
#[derive(Debug)]
pub struct BotLog {
    group_id: i64,
    user_id: u64,
    timestamp: i64,
    msg_type: MessageType,
    msg_ctx: MessageContext,
    error: Option<String>,
}

impl View for BotLog {
    type V = AuditView;

    closed spec fn view(&self) -> AuditView {
        AuditView {
            group_id: self.group_id,
            user_id: self.user_id,
            timestamp: self.timestamp,
            msg_type: self.msg_type,
            message_id: self.msg_ctx.message_id,
            command: opt_string_view(self.msg_ctx.command),
            status: self.msg_ctx.status,
            time_cost: self.msg_ctx.time_cost,
            error: opt_string_view(self.error),
        }
    }
}

impl BotLog {
    pub fn group_id(&self) -> (r: i64)
        ensures
            r == self@.group_id,
    {
        self.group_id
    }

    pub fn user_id(&self) -> (r: u64)
        ensures
            r == self@.user_id,
    {
        self.user_id
    }

    /// Start of processing, in milliseconds since the Unix epoch.
    pub fn timestamp(&self) -> (r: i64)
        ensures
            r == self@.timestamp,
    {
        self.timestamp
    }

    pub fn msg_type(&self) -> (r: MessageType)
        ensures
            r == self@.msg_type,
    {
        self.msg_type
    }

    pub fn msg_ctx(&self) -> (r: &MessageContext)
        ensures
            r.message_id == self@.message_id,
            opt_string_view(r.command) == self@.command,
            r.status == self@.status,
            r.time_cost == self@.time_cost,
    {
        &self.msg_ctx
    }

    pub fn error(&self) -> (r: &Option<String>)
        ensures
            opt_string_view(*r) == self@.error,
    {
        &self.error
    }
}

/// An audit record in progress. It is consumed by `finalize`, so a record is
/// finalized at most once and cannot change afterwards.
pub struct BotLogBuilder(BotLog);

impl View for BotLogBuilder {
    type V = AuditView;

    closed spec fn view(&self) -> AuditView {
        self.0@
    }
}

impl BotLogBuilder {
    /// Starts the record of a message with a text payload, received at `start_ms`.
    /// A payload that starts with `/` is a command; any other is plain text.
    pub fn from_message(group_id: i64, user_id: u64, message_id: i32, text: &str, start_ms: i64) -> (r:
        BotLogBuilder)
        ensures
            r@ == begun(
                group_id,
                user_id,
                start_ms,
                if is_command_text(text@) {
                    MessageType::Command
                } else {
                    MessageType::Text
                },
                message_id,
            ),
    {
        let mut bl = BotLog {
            group_id,
            user_id,
            timestamp: start_ms,
            msg_type: MessageType::Text,
            msg_ctx: MessageContext::new(message_id),
            error: None,
        };
        if starts_with_slash(text) {
            bl.msg_type = MessageType::Command;
        }
        BotLogBuilder(bl)
    }

    /// Starts the record of a button press. Without the message it belongs to,
    /// the chat is recorded as 0; the message id is always 0.
    pub fn from_callback(group_id: Option<i64>, user_id: u64, start_ms: i64) -> (r: BotLogBuilder)
        ensures
            r@ == begun(
                match group_id {
                    Some(g) => g,
                    None => 0,
                },
                user_id,
                start_ms,
                MessageType::Callback,
                0,
            ),
    {
        let gid: i64 = match group_id {
            Some(g) => g,
            None => 0,
        };
        BotLogBuilder(
            BotLog {
                group_id: gid,
                user_id,
                timestamp: start_ms,
                msg_type: MessageType::Callback,
                msg_ctx: MessageContext::new(0),
                error: None,
            },
        )
    }

    pub fn set_status(&mut self, status: MessageStatus)
        ensures
            final(self)@ == (AuditView { status, ..old(self)@ }),
    {
        self.0.msg_ctx.status = status;
    }

    pub fn set_command(&mut self, command: String)
        ensures
            final(self)@ == (AuditView { command: Some(command@), ..old(self)@ }),
    {
        self.0.msg_ctx.command = Some(command);
    }

    pub fn set_error(&mut self, error: String)
        ensures
            final(self)@ == (AuditView { error: Some(error@), ..old(self)@ }),
    {
        self.0.error = Some(error);
    }

    /// Closes the record at `end_ms`: the time cost is the milliseconds since
    /// the start, never negative.
    pub fn finalize(self, end_ms: i64) -> (r: BotLog)
        ensures
            r@ == finalized(self@, end_ms),
            r@.time_cost >= 0,
    {
        let mut log = self.0;
        log.msg_ctx.time_cost = elapsed_between(log.timestamp, end_ms);
        log
    }
}

/// A record's content is fixed by its start and the finalize time: closing it
/// again at the same instant changes nothing. (`finalize` takes the builder by
/// value, so the program itself cannot finalize one builder twice.)
pub proof fn lemma_finalize_idempotent(v: AuditView, end_ms: i64)
    ensures
        finalized(finalized(v, end_ms), end_ms) == finalized(v, end_ms),
        finalized(v, end_ms).time_cost >= 0,
{
}

/// Whether `text` starts with the command sigil `/`.
pub fn starts_with_slash(text: &str) -> (r: bool)
    ensures
        r == is_command_text(text@),
{
    let n = text.unicode_len();
    n > 0 && text.get_char(0) == '/'
}

/// Executable form of `elapsed_ms`.
pub fn elapsed_between(start: i64, end: i64) -> (r: i64)
    ensures
        r == elapsed_ms(start, end),
        r >= 0,
{
    if end <= start {
        0
    } else {
        let d: i128 = end as i128 - start as i128;
        if d > i64::MAX as i128 {
            i64::MAX
        } else {
            d as i64
        }
    }
}

} // verus!
