//! The transcript: an ordered list of chat turns, grown only by appending
//! turns and by appending text to the last turn.
use vstd::prelude::*;

verus! {

/// Who wrote a turn of the conversation.
#[derive(Clone, Copy, PartialEq, Eq, Debug, Structural)]
pub enum Role {
    User,
    Assistant,
}

/// One turn of the conversation.
pub struct ChatMessage {
    pub role: Role,
    pub content: String,
}

impl View for ChatMessage {
    type V = (Role, Seq<char>);

    open spec fn view(&self) -> (Role, Seq<char>) {
        (self.role, self.content@)
    }
}

/// The transcript as plain values: each turn's role and text, in display order.
pub open spec fn turns(history: Seq<ChatMessage>) -> Seq<(Role, Seq<char>)> {
    history.map_values(|m: ChatMessage| m@)
}

/// A transcript is open when its last turn is the assistant's: that turn is
/// the one that streamed text is appended to.
pub open spec fn is_open_spec(history: Seq<(Role, Seq<char>)>) -> bool {
    history.len() > 0 && history.last().0 == Role::Assistant
}

/// The transcript after `text` is appended to its open turn (unchanged when
/// no turn is open).
pub open spec fn appended(history: Seq<(Role, Seq<char>)>, text: Seq<char>) -> Seq<
    (Role, Seq<char>),
> {
    if is_open_spec(history) {
        let last = history.last();
        history.update(history.len() - 1, (last.0, last.1 + text))
    } else {
        history
    }
}

impl ChatMessage {
    pub fn new(role: Role, content: String) -> (r: ChatMessage)
        ensures
            r@ == (role, content@),
    {
        ChatMessage { role, content }
    }
}

/// Reports whether the last turn is the assistant's.
pub fn is_open(history: &Vec<ChatMessage>) -> (r: bool)
    ensures
        r == is_open_spec(turns(history@)),
{
    let n = history.len();
    n > 0 && history[n - 1].role == Role::Assistant
}

/// Appends `text` to the last turn if it is the assistant's; otherwise leaves
/// the transcript as it is. Returns whether the text was appended.
pub fn append_to_open_message(history: &mut Vec<ChatMessage>, text: &str) -> (r: bool)
    ensures
        r == is_open_spec(turns(old(history)@)),
        turns(final(history)@) == appended(turns(old(history)@), text@),
{
    if !is_open(history) {
        return false;
    }
    let ghost before = turns(history@);
    let mut last = history.pop().unwrap();
    last.content.append(text);
    history.push(last);
    assert(turns(history@) =~= appended(before, text@));
    true
}

/// Appends a user turn holding `prompt` and an empty assistant turn after it.
pub fn submit(history: &mut Vec<ChatMessage>, prompt: String)
    ensures
        turns(final(history)@) == turns(old(history)@).push((Role::User, prompt@)).push(
            (Role::Assistant, Seq::<char>::empty()),
        ),
{
    let ghost before = turns(history@);
    history.push(ChatMessage::new(Role::User, prompt));
    history.push(ChatMessage::new(Role::Assistant, String::new()));
    assert(turns(history@) =~= before.push((Role::User, history@[history@.len() - 2].content@)).push(
        (Role::Assistant, Seq::<char>::empty()),
    ));
}

} // verus!
