//! Turns of a completion request and the pure half of the completion facade.
//!
//! The facade prepends the fixed persona prompt as a system turn, keeps the
//! callers' turns in order with their roles, and reads the reply out of the
//! returned choices. The HTTP call itself is outside the library; it hands
//! back each choice's content as an `Option<String>`.
use vstd::prelude::*;
use vstd::string::*;

use crate::config::persona_prompt;
use crate::config::persona_prompt_str;
use crate::error::CompletionError;

verus! {

/// The speaker of one turn.
#[derive(Clone, Copy, Debug, PartialEq, Eq, Structural)]
pub enum Role {
    System,
    User,
    Assistant,
}

/// One role-tagged message of a completion request.
#[derive(Clone, Debug)]
pub struct Message {
    pub role: Role,
    pub content: String,
}

impl Message {
    pub fn new(role: Role, content: String) -> (m: Message)
        ensures
            m.role == role,
            m.content == content,
    {
        Message { role, content }
    }

    pub fn new_with_user(content: String) -> (m: Message)
        ensures
            m.role == Role::User,
            m.content == content,
    {
        Message::new(Role::User, content)
    }
}

/// Builds the turn list that is sent out: one system turn carrying the
/// persona prompt, then every given turn unchanged and in order.
pub fn build_request_turns(msgs: Vec<Message>) -> (r: Vec<Message>)
    ensures
        r@.len() == msgs@.len() + 1,
        r@[0].role == Role::System,
        r@[0].content@ == persona_prompt(),
        forall|i: int| 1 <= i <= msgs@.len() ==> r@[i] == msgs@[i - 1],
{
    let mut msgs = msgs;
    let mut out: Vec<Message> = Vec::new();
    out.push(Message::new(Role::System, String::from_str(persona_prompt_str())));
    out.append(&mut msgs);
    out
}

/// Reads the assistant's reply out of the returned choices: the last
/// choice's content. No choices at all is a failed request; a choice
/// without content is an empty reply.
pub fn extract_reply(choices: Vec<Option<String>>) -> (r: Result<String, CompletionError>)
    ensures
        choices@.len() == 0 ==> (r matches Err(e) && e == CompletionError::RequestFailed),
        choices@.len() > 0 && choices@.last() is None ==> (r matches Err(e) && e
            == CompletionError::NoContent),
        choices@.len() > 0 ==> (choices@.last() matches Some(c) ==> (r matches Ok(s) && s == c)),
{
    let mut choices = choices;
    match choices.pop() {
        None => Err(CompletionError::RequestFailed),
        Some(None) => Err(CompletionError::NoContent),
        Some(Some(content)) => Ok(content),
    }
}

} // verus!
