//! Per-user and per-chat preferences.
use vstd::prelude::*;

verus! {

/// Preferences kept for a user or a chat.
///
/// `delete_on_send` says whether the message that asked for a download is
/// deleted once the file has been sent; only `Some(true)` turns that on.
#[derive(Clone, Copy, Debug, PartialEq, Eq, Structural)]
pub struct ChatConfig {
    pub delete_on_send: Option<bool>,
}

impl ChatConfig {
    /// The preferences with the given setting.
    pub fn new(delete_on_send: Option<bool>) -> (c: ChatConfig)
        ensures
            c.delete_on_send == delete_on_send,
    {
        ChatConfig { delete_on_send }
    }

    /// The preferences a builder produces when nothing is set: requests are
    /// kept.
    pub fn builder_default() -> (c: ChatConfig)
        ensures
            c.delete_on_send == Some(false),
    {
        ChatConfig { delete_on_send: Some(false) }
    }

    /// The preferences with `delete_on_send` set explicitly.
    pub fn with_delete_on_send(delete: bool) -> (c: ChatConfig)
        ensures
            c.delete_on_send == Some(delete),
    {
        ChatConfig { delete_on_send: Some(delete) }
    }

    /// Whether requests are deleted after the file is sent.
    pub fn deletes_on_send(&self) -> (b: bool)
        ensures
            b == (self.delete_on_send == Some(true)),
    {
        match self.delete_on_send {
            Some(true) => true,
            _ => false,
        }
    }
}

} // verus!
