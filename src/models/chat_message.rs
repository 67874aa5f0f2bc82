use vstd::prelude::*;

use crate::models::timestamp::Timestamp;

verus! {

/// One chat message: its text, its author, its channel and when it was sent.
#[derive(Debug)]
pub struct ChatMessage {
    pub text: String,
    pub username: String,
    pub channel: String,
    pub timestamp: Timestamp,
}

impl ChatMessage {
    /// Equal text, author and channel, and timestamps in the same millisecond
    /// (storage may drop finer precision).
    pub open spec fn same_message(self, other: ChatMessage) -> bool {
        &&& self.text@ == other.text@
        &&& self.username@ == other.username@
        &&& self.channel@ == other.channel@
        &&& self.timestamp.same_milli(other.timestamp)
    }

    pub fn new(text: String, username: String, channel: String, timestamp: Timestamp) -> (r:
        ChatMessage)
        ensures
            r == (ChatMessage { text, username, channel, timestamp }),
    {
        ChatMessage { text, username, channel, timestamp }
    }

    /// A field-by-field copy.
    pub fn duplicate(&self) -> (r: ChatMessage)
        ensures
            r == *self,
    {
        ChatMessage {
            text: self.text.clone(),
            username: self.username.clone(),
            channel: self.channel.clone(),
            timestamp: self.timestamp,
        }
    }
}

impl PartialEq for ChatMessage {
    fn eq(&self, other: &ChatMessage) -> (r: bool)
        ensures
            r == self.same_message(*other),
    {
        self.text == other.text && self.username == other.username && self.channel
            == other.channel && self.timestamp.same_millisecond(&other.timestamp)
    }
}

impl vstd::std_specs::cmp::PartialEqSpecImpl for ChatMessage {
    open spec fn obeys_eq_spec() -> bool {
        true
    }

    open spec fn eq_spec(&self, other: &ChatMessage) -> bool {
        self.same_message(*other)
    }
}

/// Message equality is an equivalence: reflexive, symmetric and transitive.
pub proof fn lemma_same_message_is_equivalence(a: ChatMessage, b: ChatMessage, c: ChatMessage)
    ensures
        a.same_message(a),
        a.same_message(b) ==> b.same_message(a),
        a.same_message(b) && b.same_message(c) ==> a.same_message(c),
{
}

} // verus!
