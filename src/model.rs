//! Plain data types shared by the audit log and the statistics views.
use vstd::prelude::*;

verus! {

/// How an inbound event reached the bot.
#[derive(Debug, Clone, Copy, PartialEq, Eq, Structural)]
pub enum MessageType {
    Command,
    Text,
    Callback,
}

/// Aggregate outcome of processing one event.
#[derive(Debug, Clone, Copy, PartialEq, Eq, Structural)]
pub enum MessageStatus {
    Success,
    CmdError,
    RunError,
}

/// A chat (group) as it is stored next to an audit record.
#[derive(Debug, Clone)]
pub struct Group {
    pub group_id: i64,
    group_username: Option<String>,
    group_name: Option<String>,
}

impl Group {
    pub closed spec fn id_spec(&self) -> i64 {
        self.group_id
    }

    pub closed spec fn username_spec(&self) -> Option<String> {
        self.group_username
    }

    pub closed spec fn name_spec(&self) -> Option<String> {
        self.group_name
    }

    pub fn new(group_id: i64, group_username: Option<String>, group_name: Option<String>) -> (r:
        Group)
        ensures
            r.id_spec() == group_id,
            r.username_spec() == group_username,
            r.name_spec() == group_name,
    {
        Group { group_id, group_username, group_name }
    }

    pub fn get_id(&self) -> (r: i64)
        ensures
            r == self.id_spec(),
    {
        self.group_id
    }

    pub fn group_username(&self) -> (r: &Option<String>)
        ensures
            *r == self.username_spec(),
    {
        &self.group_username
    }

    pub fn group_name(&self) -> (r: &Option<String>)
        ensures
            *r == self.name_spec(),
    {
        &self.group_name
    }
}

/// The author of an event.
#[derive(Debug, Clone)]
pub struct User {
    user_id: u64,
    username: Option<String>,
}

impl User {
    pub closed spec fn id_spec(&self) -> u64 {
        self.user_id
    }

    pub closed spec fn username_spec(&self) -> Option<String> {
        self.username
    }

    pub fn new(user_id: u64, username: Option<String>) -> (r: User)
        ensures
            r.id_spec() == user_id,
            r.username_spec() == username,
    {
        User { user_id, username }
    }

    pub fn get_id(&self) -> (r: u64)
        ensures
            r == self.id_spec(),
    {
        self.user_id
    }

    pub fn username(&self) -> (r: &Option<String>)
        ensures
            *r == self.username_spec(),
    {
        &self.username
    }
}

/// What happened to one message: its command text, status and cost in milliseconds.
#[derive(Debug, Clone)]
pub struct MessageContext {
    pub message_id: i32,
    pub command: Option<String>,
    pub status: MessageStatus,
    pub time_cost: i64,
}

impl MessageContext {
    /// A context for a message that has not been processed yet.
    pub fn new(message_id: i32) -> (r: MessageContext)
        ensures
            r.message_id == message_id,
            r.command is None,
            r.status == MessageStatus::Success,
            r.time_cost == 0,
    {
        MessageContext { message_id, command: None, status: MessageStatus::Success, time_cost: 0 }
    }
}

/// One row of the hourly message statistics.
#[derive(Debug, Clone)]
pub struct MessageCount {
    pub user_id: Option<i64>,
    pub group_id: i64,
    pub hour_num: i32,
    pub count: i32,
    pub group_username: Option<String>,
    pub group_name: Option<String>,
    pub username: Option<String>,
}

} // verus!
