use vstd::prelude::*;

verus! {

/// Who wrote a message: the person at the keyboard or the conversation service.
#[derive(Clone, Copy, Debug, PartialEq, Eq, Structural)]
pub enum Role {
    User,
    Assistant,
}

/// The name under which a role is stored.
pub open spec fn role_name(role: Role) -> Seq<char> {
    match role {
        Role::User => "user"@,
        Role::Assistant => "gemini"@,
    }
}

/// The role stored under `name`, if any.
pub open spec fn role_named(name: Seq<char>) -> Option<Role> {
    if name == "user"@ {
        Some(Role::User)
    } else if name == "gemini"@ {
        Some(Role::Assistant)
    } else {
        None
    }
}

/// A role's stored name reads back as that role.
pub proof fn role_name_round_trip(role: Role)
    ensures
        role_named(role_name(role)) == Some(role),
{
    reveal_strlit("user");
    reveal_strlit("gemini");
    assert("user"@ != "gemini"@) by {
        assert("user"@.len() != "gemini"@.len());
    }
}

impl Role {
    /// The name under which this role is stored.
    pub fn name(&self) -> (r: String)
        ensures
            r@ == role_name(*self),
    {
        match self {
            Role::User => String::from_str("user"),
            Role::Assistant => String::from_str("gemini"),
        }
    }

    /// Reads a stored role name back; `None` for a name that no role has.
    pub fn from_name(name: &String) -> (r: Option<Role>)
        ensures
            r == role_named(name@),
    {
        let user = String::from_str("user");
        let assistant = String::from_str("gemini");
        if *name == user {
            Some(Role::User)
        } else if *name == assistant {
            Some(Role::Assistant)
        } else {
            None
        }
    }
}

/// One turn of a chat.
#[derive(Debug)]
pub struct Message {
    pub role: Role,
    pub content: String,
}

impl View for Message {
    type V = (Role, Seq<char>);

    open spec fn view(&self) -> (Role, Seq<char>) {
        (self.role, self.content@)
    }
}

/// The contents of a list of messages, in order.
pub open spec fn messages_view(v: Seq<Message>) -> Seq<(Role, Seq<char>)> {
    v.map_values(|m: Message| m@)
}

impl Message {
    pub fn new(role: Role, content: String) -> (r: Message)
        ensures
            r@ == (role, content@),
    {
        Message { role, content }
    }

    /// A copy of this message.
    pub fn duplicate(&self) -> (r: Message)
        ensures
            r@ == self@,
    {
        Message { role: self.role, content: self.content.clone() }
    }
}

/// A stored chat as the chat list shows it: its identity and when it was created.
#[derive(Debug)]
pub struct ChatEntry {
    pub id: i64,
    pub created_at: String,
}

impl View for ChatEntry {
    type V = (i64, Seq<char>);

    open spec fn view(&self) -> (i64, Seq<char>) {
        (self.id, self.created_at@)
    }
}

/// The contents of a list of chats, in order.
pub open spec fn chats_view(v: Seq<ChatEntry>) -> Seq<(i64, Seq<char>)> {
    v.map_values(|c: ChatEntry| c@)
}

impl ChatEntry {
    pub fn new(id: i64, created_at: String) -> (r: ChatEntry)
        ensures
            r@ == (id, created_at@),
    {
        ChatEntry { id, created_at }
    }
}

/// A stored message row: role name, content and timestamp.
pub type MessageRow = (String, String, String);

/// The messages that stored rows hold, or `None` where a row's role name is unknown.
pub open spec fn messages_of_rows(rows: Seq<MessageRow>) -> Option<Seq<(Role, Seq<char>)>> {
    if forall|i: int| 0 <= i < rows.len() ==> (#[trigger] role_named(rows[i].0@)) is Some {
        Some(Seq::new(rows.len(), |i: int| (role_named(rows[i].0@)->Some_0, rows[i].1@)))
    } else {
        None
    }
}

/// Turns stored rows into messages, keeping their order, role and content.
pub fn messages_from_rows(rows: &Vec<MessageRow>) -> (r: Option<Vec<Message>>)
    ensures
        match r {
            Some(v) => messages_of_rows(rows@) == Some(messages_view(v@)),
            None => messages_of_rows(rows@) is None,
        },
{
    let mut out: Vec<Message> = Vec::new();
    let mut i: usize = 0;
    while i < rows.len()
        invariant
            i <= rows@.len(),
            out@.len() == i,
            forall|j: int| 0 <= j < i ==> (#[trigger] role_named(rows@[j].0@)) is Some,
            forall|j: int|
                0 <= j < i ==> (#[trigger] out@[j])@ == (role_named(rows@[j].0@)->Some_0, rows@[j].1@),
        decreases rows@.len() - i,
    {
        let row = &rows[i];
        match Role::from_name(&row.0) {
            Some(role) => {
                out.push(Message::new(role, row.1.clone()));
            },
            None => {
                assert(role_named(rows@[i as int].0@) is None);
                return None;
            },
        }
        i = i + 1;
    }
    assert(messages_view(out@) =~= Seq::new(rows@.len(), |j: int| (role_named(rows@[j].0@)->Some_0, rows@[j].1@)));
    Some(out)
}

/// The row under which a message is stored, with the timestamp the store gave it.
pub fn row_of_message(m: &Message, timestamp: String) -> (r: MessageRow)
    ensures
        r.0@ == role_name(m.role),
        r.1@ == m.content@,
        r.2@ == timestamp@,
{
    (m.role.name(), m.content.clone(), timestamp)
}

/// Messages written to rows and read back come out unchanged, in the same order.
pub proof fn rows_round_trip(msgs: Seq<(Role, Seq<char>)>, rows: Seq<MessageRow>)
    requires
        rows.len() == msgs.len(),
        forall|i: int|
            0 <= i < msgs.len() ==> (#[trigger] rows[i]).0@ == role_name(msgs[i].0) && rows[i].1@
                == msgs[i].1,
    ensures
        messages_of_rows(rows) == Some(msgs),
{
    assert forall|i: int| 0 <= i < rows.len() implies (#[trigger] role_named(rows[i].0@)) == Some(
        msgs[i].0,
    ) by {
        role_name_round_trip(msgs[i].0);
    }
    assert(Seq::new(rows.len(), |i: int| (role_named(rows[i].0@)->Some_0, rows[i].1@)) =~= msgs);
}

} // verus!
