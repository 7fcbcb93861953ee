//! Payloads of the events carried by `events_api` envelopes.
use vstd::prelude::*;

verus! {

/// An event, selected by its `type` field.
#[derive(Debug, Clone)]
pub enum Event {
    Message(MessageEvent),
    ReactionAdded(ReactionEvent),
    ReactionRemoved(ReactionEvent),
}

#[derive(Debug, Clone)]
pub struct MessageEvent {
    pub event_ts: String,
    pub subtype: Option<String>,
    pub text: Option<String>,
    pub user: Option<String>,
    pub ts: Option<String>,
    pub deleted_ts: Option<String>,
    pub team: Option<String>,
    pub channel: String,
    pub hidden: bool,
    pub is_starred: bool,
    pub pinned_to: Vec<String>,
    pub reactions: Vec<MessageReaction>,
}

#[derive(Debug, Clone)]
pub struct MessageReaction {
    pub name: String,
    pub count: u32,
    pub users: Vec<String>,
}

#[derive(Debug, Clone)]
pub struct ReactionEvent {
    pub event_ts: String,
    pub user: String,
    pub reaction: String,
    pub item_user: Option<String>,
    pub item: ReactionItem,
}

/// The item a reaction was attached to, selected by its `type` field.
#[derive(Debug, Clone)]
pub enum ReactionItem {
    Message { channel: String, ts: String },
    File { file: String },
    FileComment { file_comment: String, file: String },
}

} // verus!
