//! The messages of a conversation as they are stored.
use vstd::prelude::*;
use vstd::string::*;

verus! {

/// Who a message is from.
#[derive(Clone, Copy, Debug, PartialEq, Eq, Structural)]
pub enum Role {
    User,
    Assistant,
    System,
}

/// One message of a session.
#[derive(Debug, PartialEq, Eq)]
pub struct Message {
    pub session_id: String,
    pub role: Role,
    pub text: String,
}

impl Message {
    /// Whether this is the message of `role` in session `id` that reads `text`.
    pub open spec fn is(self, id: Seq<char>, role: Role, text: Seq<char>) -> bool {
        self.session_id@ == id && self.role == role && self.text@ == text
    }

    /// A message from the user.
    pub fn user(session_id: &str, text: &str) -> (r: Message)
        ensures
            r.is(session_id@, Role::User, text@),
    {
        Message { session_id: session_id.to_owned(), role: Role::User, text: text.to_owned() }
    }

    /// A message from the assistant.
    pub fn assistant(session_id: &str, text: &str) -> (r: Message)
        ensures
            r.is(session_id@, Role::Assistant, text@),
    {
        Message { session_id: session_id.to_owned(), role: Role::Assistant, text: text.to_owned() }
    }

    /// The text of the message.
    pub fn text_content(&self) -> (r: String)
        ensures
            r@ == self.text@,
    {
        self.text.clone()
    }

    /// Adds `more` at the end of the text.
    pub fn append_text(&mut self, more: &str)
        ensures
            *final(self) == (Message { text: final(self).text, ..*old(self) }),
            final(self).text@ == old(self).text@ + more@,
    {
        self.text.append(more);
    }
}

impl Clone for Message {
    fn clone(&self) -> (r: Message)
        ensures
            r == *self,
    {
        Message {
            session_id: self.session_id.clone(),
            role: self.role,
            text: self.text.clone(),
        }
    }
}

} // verus!
