use vstd::prelude::*;

use crate::message::{ChatEntry, Message, Role};
use crate::session::Screen;

verus! {

/// The label under which the chat list shows a chat.
pub open spec fn label_of(created_at: Seq<char>) -> Seq<char> {
    "Chat from "@ + created_at
}

/// The prefix that marks who wrote a message in the history.
pub open spec fn role_prefix(role: Role) -> Seq<char> {
    match role {
        Role::User => "You: "@,
        Role::Assistant => "Gemini: "@,
    }
}

/// The last scroll offset that a history of `content_rows` rows of wrapped text has in a
/// pane of `pane_rows` rows: the one that shows its end at the bottom of the pane.
pub open spec fn scroll_limit(content_rows: nat, pane_rows: u16) -> u16 {
    if content_rows <= pane_rows {
        0
    } else if content_rows - pane_rows > u16::MAX {
        u16::MAX
    } else {
        (content_rows - pane_rows) as u16
    }
}

/// The scroll offset that the history is drawn at: the requested one, held at the last
/// offset that the history has.
pub open spec fn shown_scroll_of(scroll: u16, content_rows: nat, pane_rows: u16) -> u16 {
    if scroll <= scroll_limit(content_rows, pane_rows) {
        scroll
    } else {
        scroll_limit(content_rows, pane_rows)
    }
}

/// One line of the history as drawn: whose it is, its prefix and its text.
#[derive(Debug)]
pub struct HistoryLine {
    pub role: Role,
    pub prefix: String,
    pub text: String,
}

/// The labels of the chat list, one for each chat, in the list's order.
pub fn chat_labels(chats: &Vec<ChatEntry>) -> (r: Vec<String>)
    ensures
        r@.len() == chats@.len(),
        forall|i: int| 0 <= i < r@.len() ==> (#[trigger] r@[i])@ == label_of(chats@[i].created_at@),
{
    let mut out: Vec<String> = Vec::new();
    let mut i: usize = 0;
    while i < chats.len()
        invariant
            i <= chats@.len(),
            out@.len() == i,
            forall|j: int| 0 <= j < i ==> (#[trigger] out@[j])@ == label_of(chats@[j].created_at@),
        decreases chats@.len() - i,
    {
        let mut label = String::from_str("Chat from ");
        label.append(chats[i].created_at.as_str());
        out.push(label);
        i = i + 1;
    }
    out
}

/// The prefix that marks who wrote a message.
pub fn prefix_for(role: Role) -> (r: String)
    ensures
        r@ == role_prefix(role),
{
    match role {
        Role::User => String::from_str("You: "),
        Role::Assistant => String::from_str("Gemini: "),
    }
}

/// The lines of the history, one for each message, oldest first.
pub fn history_lines(messages: &Vec<Message>) -> (r: Vec<HistoryLine>)
    ensures
        r@.len() == messages@.len(),
        forall|i: int|
            0 <= i < r@.len() ==> {
                let line = #[trigger] r@[i];
                &&& line.role == messages@[i].role
                &&& line.prefix@ == role_prefix(messages@[i].role)
                &&& line.text@ == messages@[i].content@
            },
{
    let mut out: Vec<HistoryLine> = Vec::new();
    let mut i: usize = 0;
    while i < messages.len()
        invariant
            i <= messages@.len(),
            out@.len() == i,
            forall|j: int|
                0 <= j < i ==> {
                    let line = #[trigger] out@[j];
                    &&& line.role == messages@[j].role
                    &&& line.prefix@ == role_prefix(messages@[j].role)
                    &&& line.text@ == messages@[j].content@
                },
        decreases messages@.len() - i,
    {
        let m = &messages[i];
        out.push(HistoryLine { role: m.role, prefix: prefix_for(m.role), text: m.content.clone() });
        i = i + 1;
    }
    out
}

/// The scroll offset to draw a history of `content_rows` rows of wrapped text at, in a
/// pane of `pane_rows` rows.
pub fn shown_scroll(scroll: u16, content_rows: usize, pane_rows: u16) -> (r: u16)
    ensures
        r == shown_scroll_of(scroll, content_rows as nat, pane_rows),
{
    let limit: u16 = if content_rows <= pane_rows as usize {
        0
    } else if content_rows - pane_rows as usize > u16::MAX as usize {
        u16::MAX
    } else {
        (content_rows - pane_rows as usize) as u16
    };
    if scroll <= limit {
        scroll
    } else {
        limit
    }
}

/// Whether a screen shows the chat list; otherwise it shows the history above the input.
pub fn shows_chat_list(screen: Screen) -> (r: bool)
    ensures
        r == (screen != Screen::Chatting),
{
    match screen {
        Screen::SelectingChat | Screen::CreatingNewChat => true,
        Screen::Chatting => false,
    }
}

} // verus!
