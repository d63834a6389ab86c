use vstd::prelude::*;

use crate::message::{chats_view, messages_view, ChatEntry, Message, Role};
use crate::screen::{shown_scroll, shown_scroll_of};
use crate::text::{pop_char, push_char, trim, trimmed};

verus! {

/// The screen that the session shows.
#[derive(Clone, Copy, Debug, PartialEq, Eq, Structural)]
pub enum Screen {
    SelectingChat,
    CreatingNewChat,
    Chatting,
}

/// A key press as the terminal reports it.
#[derive(Clone, Copy, Debug, PartialEq, Eq, Structural)]
pub enum KeyPress {
    Char(char),
    Enter,
    Backspace,
    Up,
    Down,
    Other,
}

/// What a key press means on the screen where it happens.
#[derive(Clone, Copy, Debug, PartialEq, Eq, Structural)]
pub enum Command {
    Quit,
    NewChat,
    Select,
    CursorUp,
    CursorDown,
    Submit,
    Type(char),
    Erase,
    ScrollUp,
    ScrollDown,
    Ignore,
}

/// Something that happened to the session: a key press, or the outcome of work that an
/// earlier action asked for.
#[derive(Debug)]
pub enum Event {
    Key(KeyPress),
    /// The store created the chat that `Action::CreateChat` asked for.
    ChatCreated(i64),
    /// The store listed the messages of a chat, oldest first.
    MessagesLoaded(i64, Vec<Message>),
    /// The conversation service answered the prompt in flight; an answer of nothing but
    /// whitespace is dropped.
    Reply(String),
    /// The conversation service failed to answer the prompt in flight.
    ServiceFailed(String),
    /// The store failed to perform an action; the session goes on with what it holds.
    StoreFailed(String),
    /// The history was laid out: its text wraps to `content_rows` rows, of which its pane
    /// shows `pane_rows`. The scroll offset is held at the last one that the history has.
    HistoryMeasured { content_rows: usize, pane_rows: u16 },
}

/// Work that the session asks its runner to perform.
#[derive(Debug)]
pub enum Action {
    Nothing,
    Exit,
    /// Create a chat in the store and report it with `Event::ChatCreated`.
    CreateChat,
    /// List the chat's messages and report them with `Event::MessagesLoaded`.
    LoadChat { chat_id: i64 },
    /// Store `text` as a user message of the chat, then prompt the conversation service
    /// with it and report the answer with `Event::Reply` or `Event::ServiceFailed`.
    Submit { chat_id: i64, text: String },
    /// Store `text` as an assistant message of the chat.
    StoreReply { chat_id: i64, text: String },
}

/// The contents of an action.
pub enum ActionView {
    Nothing,
    Exit,
    CreateChat,
    LoadChat { chat_id: i64 },
    Submit { chat_id: i64, text: Seq<char> },
    StoreReply { chat_id: i64, text: Seq<char> },
}

impl View for Action {
    type V = ActionView;

    open spec fn view(&self) -> ActionView {
        match self {
            Action::Nothing => ActionView::Nothing,
            Action::Exit => ActionView::Exit,
            Action::CreateChat => ActionView::CreateChat,
            Action::LoadChat { chat_id } => ActionView::LoadChat { chat_id: *chat_id },
            Action::Submit { chat_id, text } => ActionView::Submit { chat_id: *chat_id, text: text@ },
            Action::StoreReply { chat_id, text } => ActionView::StoreReply {
                chat_id: *chat_id,
                text: text@,
            },
        }
    }
}

/// The contents of a session.
pub struct SessionView {
    pub exit: bool,
    /// The chat being shown, once one is chosen or created.
    pub chat: Option<i64>,
    /// The messages of the chat being shown, oldest first.
    pub messages: Seq<(Role, Seq<char>)>,
    /// The text being composed.
    pub input: Seq<char>,
    /// The offset, in rows of wrapped text, from which the history is shown.
    pub scroll: u16,
    pub screen: Screen,
    /// The position highlighted in the chat list.
    pub cursor: Option<usize>,
    /// The stored chats, newest first.
    pub chats: Seq<(i64, Seq<char>)>,
    /// The chat against which the prompt in flight was issued.
    pub pending: Option<i64>,
    /// The last failure to show to the user.
    pub notice: Option<Seq<char>>,
}

impl SessionView {
    /// The cursor points into the chat list, and a chat is chosen whenever one is shown.
    pub open spec fn wf(self) -> bool {
        &&& (self.cursor matches Some(i) ==> i < self.chats.len())
        &&& (self.screen == Screen::Chatting ==> self.chat is Some)
    }
}

/// The session that a list of stored chats starts: a new chat is due when there is none.
pub open spec fn initial(chats: Seq<(i64, Seq<char>)>) -> SessionView {
    SessionView {
        exit: false,
        chat: None,
        messages: Seq::empty(),
        input: Seq::empty(),
        scroll: 0,
        screen: if chats.len() == 0 {
            Screen::CreatingNewChat
        } else {
            Screen::SelectingChat
        },
        cursor: None,
        chats,
        pending: None,
        notice: None,
    }
}

/// The work due on entering a session's screen: a new chat when it starts with none.
pub open spec fn entry_of(s: SessionView) -> ActionView {
    if s.screen == Screen::CreatingNewChat {
        ActionView::CreateChat
    } else {
        ActionView::Nothing
    }
}

/// What a key means on each screen.
pub open spec fn command_of(screen: Screen, key: KeyPress) -> Command {
    match screen {
        Screen::SelectingChat => match key {
            KeyPress::Char(c) => if c == 'q' {
                Command::Quit
            } else if c == 'n' {
                Command::NewChat
            } else {
                Command::Ignore
            },
            KeyPress::Enter => Command::Select,
            KeyPress::Up => Command::CursorUp,
            KeyPress::Down => Command::CursorDown,
            _ => Command::Ignore,
        },
        Screen::CreatingNewChat => match key {
            KeyPress::Char(c) => if c == 'q' {
                Command::Quit
            } else {
                Command::Ignore
            },
            _ => Command::Ignore,
        },
        Screen::Chatting => match key {
            KeyPress::Char(c) => if c == 'q' {
                Command::Quit
            } else {
                Command::Type(c)
            },
            KeyPress::Enter => Command::Submit,
            KeyPress::Backspace => Command::Erase,
            KeyPress::Up => Command::ScrollUp,
            KeyPress::Down => Command::ScrollDown,
            KeyPress::Other => Command::Ignore,
        },
    }
}

/// The cursor one step up a list of `count` chats, stopping at the first.
pub open spec fn cursor_up(cursor: Option<usize>, count: nat) -> Option<usize> {
    if count == 0 {
        None
    } else {
        match cursor {
            Some(i) => Some(if i == 0 { 0 } else { (i - 1) as usize }),
            None => Some(0),
        }
    }
}

/// The cursor one step down a list of `count` chats, stopping at the last.
pub open spec fn cursor_down(cursor: Option<usize>, count: nat) -> Option<usize> {
    if count == 0 {
        None
    } else {
        match cursor {
            Some(i) => Some(if i + 1 < count { (i + 1) as usize } else { (count - 1) as usize }),
            None => Some(0),
        }
    }
}

/// The scroll offset that asks for the end of the history; the next measurement of the
/// history brings it down to the last offset that the history has.
pub open spec fn end_of_history() -> u16 {
    u16::MAX
}

/// Whether the text being composed can be sent: it holds more than whitespace.
pub open spec fn sendable(input: Seq<char>) -> bool {
    trimmed(input).len() > 0
}

/// What a command does to a session, and the work it asks for.
///
/// A submission is refused, its text kept in the input, while a prompt is in flight: one
/// prompt at a time is outstanding. A submission of nothing but whitespace is refused too,
/// and the input keeps that whitespace. A sendable submission empties the input.
pub open spec fn apply(s: SessionView, cmd: Command) -> (SessionView, ActionView) {
    match cmd {
        Command::Quit => (SessionView { exit: true, ..s }, ActionView::Exit),
        Command::NewChat => (
            SessionView { screen: Screen::CreatingNewChat, ..s },
            ActionView::CreateChat,
        ),
        Command::Select => match s.cursor {
            Some(i) => if i < s.chats.len() {
                (
                    SessionView {
                        chat: Some(s.chats[i as int].0),
                        messages: Seq::empty(),
                        screen: Screen::Chatting,
                        ..s
                    },
                    ActionView::LoadChat { chat_id: s.chats[i as int].0 },
                )
            } else {
                (s, ActionView::Nothing)
            },
            None => (s, ActionView::Nothing),
        },
        Command::CursorUp => (
            SessionView { cursor: cursor_up(s.cursor, s.chats.len()), ..s },
            ActionView::Nothing,
        ),
        Command::CursorDown => (
            SessionView { cursor: cursor_down(s.cursor, s.chats.len()), ..s },
            ActionView::Nothing,
        ),
        Command::Submit => match s.chat {
            Some(x) => if s.pending is None && sendable(s.input) {
                (
                    SessionView {
                        messages: s.messages.push((Role::User, s.input)),
                        input: Seq::empty(),
                        pending: Some(x),
                        ..s
                    },
                    ActionView::Submit { chat_id: x, text: s.input },
                )
            } else {
                (s, ActionView::Nothing)
            },
            None => (s, ActionView::Nothing),
        },
        Command::Type(c) => (SessionView { input: s.input.push(c), ..s }, ActionView::Nothing),
        Command::Erase => (
            SessionView {
                input: if s.input.len() == 0 {
                    s.input
                } else {
                    s.input.drop_last()
                },
                ..s
            },
            ActionView::Nothing,
        ),
        Command::ScrollUp => (
            SessionView { scroll: if s.scroll == 0 { 0 } else { (s.scroll - 1) as u16 }, ..s },
            ActionView::Nothing,
        ),
        Command::ScrollDown => (
            SessionView {
                scroll: if s.scroll == u16::MAX {
                    u16::MAX
                } else {
                    (s.scroll + 1) as u16
                },
                ..s
            },
            ActionView::Nothing,
        ),
        Command::Ignore => (s, ActionView::Nothing),
    }
}

/// What an event does to a session, and the work it asks for.
pub open spec fn step(s: SessionView, e: Event) -> (SessionView, ActionView) {
    match e {
        Event::Key(k) => apply(s, command_of(s.screen, k)),
        Event::ChatCreated(id) => if s.screen == Screen::CreatingNewChat {
            (
                SessionView {
                    chat: Some(id),
                    messages: Seq::empty(),
                    screen: Screen::Chatting,
                    ..s
                },
                ActionView::Nothing,
            )
        } else {
            (s, ActionView::Nothing)
        },
        Event::MessagesLoaded(id, msgs) => if s.chat == Some(id) {
            (SessionView { messages: messages_view(msgs@), ..s }, ActionView::Nothing)
        } else {
            (s, ActionView::Nothing)
        },
        Event::Reply(r) => match s.pending {
            Some(x) => if !sendable(r@) {
                (SessionView { pending: None, ..s }, ActionView::Nothing)
            } else if s.chat == Some(x) {
                (
                    SessionView {
                        pending: None,
                        messages: s.messages.push((Role::Assistant, r@)),
                        scroll: end_of_history(),
                        ..s
                    },
                    ActionView::StoreReply { chat_id: x, text: r@ },
                )
            } else {
                (SessionView { pending: None, ..s }, ActionView::StoreReply { chat_id: x, text: r@ })
            },
            None => (s, ActionView::Nothing),
        },
        Event::ServiceFailed(m) => (
            SessionView { pending: None, notice: Some(m@), ..s },
            ActionView::Nothing,
        ),
        Event::StoreFailed(m) => (SessionView { notice: Some(m@), ..s }, ActionView::Nothing),
        Event::HistoryMeasured { content_rows, pane_rows } => (
            SessionView { scroll: shown_scroll_of(s.scroll, content_rows as nat, pane_rows), ..s },
            ActionView::Nothing,
        ),
    }
}

/// The session after a sequence of events.
pub open spec fn run(s: SessionView, events: Seq<Event>) -> SessionView
    decreases events.len(),
{
    if events.len() == 0 {
        s
    } else {
        step(run(s, events.drop_last()), events.last()).0
    }
}

/// The command that a key gives on a screen.
pub fn command_for(screen: Screen, key: KeyPress) -> (r: Command)
    ensures
        r == command_of(screen, key),
{
    match screen {
        Screen::SelectingChat => match key {
            KeyPress::Char(c) => if c == 'q' {
                Command::Quit
            } else if c == 'n' {
                Command::NewChat
            } else {
                Command::Ignore
            },
            KeyPress::Enter => Command::Select,
            KeyPress::Up => Command::CursorUp,
            KeyPress::Down => Command::CursorDown,
            _ => Command::Ignore,
        },
        Screen::CreatingNewChat => match key {
            KeyPress::Char(c) => if c == 'q' {
                Command::Quit
            } else {
                Command::Ignore
            },
            _ => Command::Ignore,
        },
        Screen::Chatting => match key {
            KeyPress::Char(c) => if c == 'q' {
                Command::Quit
            } else {
                Command::Type(c)
            },
            KeyPress::Enter => Command::Submit,
            KeyPress::Backspace => Command::Erase,
            KeyPress::Up => Command::ScrollUp,
            KeyPress::Down => Command::ScrollDown,
            KeyPress::Other => Command::Ignore,
        },
    }
}

/// The in-memory state of a chat session: which screen is shown, the chat being shown and
/// its messages, the text being composed, and the prompt in flight.
pub struct Session {
    exit: bool,
    chat: Option<i64>,
    messages: Vec<Message>,
    input: String,
    scroll: u16,
    screen: Screen,
    cursor: Option<usize>,
    chats: Vec<ChatEntry>,
    pending: Option<i64>,
    notice: Option<String>,
}

impl View for Session {
    type V = SessionView;

    closed spec fn view(&self) -> SessionView {
        SessionView {
            exit: self.exit,
            chat: self.chat,
            messages: messages_view(self.messages@),
            input: self.input@,
            scroll: self.scroll,
            screen: self.screen,
            cursor: self.cursor,
            chats: chats_view(self.chats@),
            pending: self.pending,
            notice: match self.notice {
                Some(n) => Some(n@),
                None => None,
            },
        }
    }
}

impl Session {
    /// A session over the stored chats, newest first.
    pub fn new(chats: Vec<ChatEntry>) -> (r: Session)
        ensures
            r@ == initial(chats_view(chats@)),
            r@.wf(),
    {
        let screen = if chats.len() == 0 {
            Screen::CreatingNewChat
        } else {
            Screen::SelectingChat
        };
        let r = Session {
            exit: false,
            chat: None,
            messages: Vec::new(),
            input: String::new(),
            scroll: 0,
            screen,
            cursor: None,
            chats,
            pending: None,
            notice: None,
        };
        assert(r@.messages =~= Seq::empty());
        r
    }

    /// The work due on entering the current screen: a new chat when the session starts
    /// with none.
    pub fn entry_action(&self) -> (r: Action)
        ensures
            r@ == entry_of(self@),
    {
        if self.screen == Screen::CreatingNewChat {
            Action::CreateChat
        } else {
            Action::Nothing
        }
    }

    fn apply_command(&mut self, cmd: Command) -> (r: Action)
        ensures
            (final(self)@, r@) == apply(old(self)@, cmd),
    {
        let ghost s = self@;
        match cmd {
            Command::Quit => {
                self.exit = true;
                Action::Exit
            },
            Command::NewChat => {
                self.screen = Screen::CreatingNewChat;
                Action::CreateChat
            },
            Command::Select => match self.cursor {
                Some(i) => {
                    if i < self.chats.len() {
                        let id = self.chats[i].id;
                        self.chat = Some(id);
                        self.messages = Vec::new();
                        self.screen = Screen::Chatting;
                        assert(self@.messages =~= Seq::empty());
                        Action::LoadChat { chat_id: id }
                    } else {
                        Action::Nothing
                    }
                },
                None => Action::Nothing,
            },
            Command::CursorUp => {
                if self.chats.len() == 0 {
                    self.cursor = None;
                } else {
                    self.cursor =
                    match self.cursor {
                        Some(i) => Some(
                            if i == 0 {
                                0
                            } else {
                                i - 1
                            },
                        ),
                        None => Some(0),
                    };
                }
                Action::Nothing
            },
            Command::CursorDown => {
                let count = self.chats.len();
                if count == 0 {
                    self.cursor = None;
                } else {
                    self.cursor =
                    match self.cursor {
                        Some(i) => Some(
                            if i < count - 1 {
                                i + 1
                            } else {
                                count - 1
                            },
                        ),
                        None => Some(0),
                    };
                }
                Action::Nothing
            },
            Command::Submit => match self.chat {
                Some(x) => {
                    if self.pending.is_none() && !trim(self.input.as_str()).is_empty() {
                        let text = self.input.clone();
                        self.messages.push(Message::new(Role::User, self.input.clone()));
                        self.input = String::new();
                        self.pending = Some(x);
                        assert(self@.messages =~= s.messages.push((Role::User, s.input)));
                        Action::Submit { chat_id: x, text }
                    } else {
                        Action::Nothing
                    }
                },
                None => Action::Nothing,
            },
            Command::Type(c) => {
                push_char(&mut self.input, c);
                Action::Nothing
            },
            Command::Erase => {
                pop_char(&mut self.input);
                Action::Nothing
            },
            Command::ScrollUp => {
                if self.scroll > 0 {
                    self.scroll = self.scroll - 1;
                }
                Action::Nothing
            },
            Command::ScrollDown => {
                if self.scroll < u16::MAX {
                    self.scroll = self.scroll + 1;
                }
                Action::Nothing
            },
            Command::Ignore => Action::Nothing,
        }
    }
}

impl Session {
    /// Moves the session on by one event and returns the work that the event asks for.
    pub fn handle(&mut self, event: Event) -> (r: Action)
        requires
            old(self)@.wf(),
        ensures
            (final(self)@, r@) == step(old(self)@, event),
            final(self)@.wf(),
    {
        proof {
            step_keeps_wf(self@, event);
        }
        let ghost s = self@;
        match event {
            Event::Key(k) => {
                let cmd = command_for(self.screen, k);
                self.apply_command(cmd)
            },
            Event::ChatCreated(id) => {
                if self.screen == Screen::CreatingNewChat {
                    self.chat = Some(id);
                    self.messages = Vec::new();
                    self.screen = Screen::Chatting;
                    assert(self@.messages =~= Seq::empty());
                }
                Action::Nothing
            },
            Event::MessagesLoaded(id, msgs) => {
                if self.chat == Some(id) {
                    self.messages = msgs;
                }
                Action::Nothing
            },
            Event::Reply(r) => match self.pending {
                Some(x) => {
                    self.pending = None;
                    if trim(r.as_str()).is_empty() {
                        return Action::Nothing;
                    }
                    if self.chat == Some(x) {
                        self.messages.push(Message::new(Role::Assistant, r.clone()));
                        self.scroll = u16::MAX;
                        assert(self@.messages =~= s.messages.push((Role::Assistant, r@)));
                    }
                    Action::StoreReply { chat_id: x, text: r }
                },
                None => Action::Nothing,
            },
            Event::ServiceFailed(m) => {
                self.pending = None;
                self.notice = Some(m);
                Action::Nothing
            },
            Event::StoreFailed(m) => {
                self.notice = Some(m);
                Action::Nothing
            },
            Event::HistoryMeasured { content_rows, pane_rows } => {
                self.scroll = shown_scroll(self.scroll, content_rows, pane_rows);
                Action::Nothing
            },
        }
    }

    /// Whether the user asked to quit.
    pub fn exit_requested(&self) -> (r: bool)
        ensures
            r == self@.exit,
    {
        self.exit
    }

    /// The screen shown.
    pub fn screen(&self) -> (r: Screen)
        ensures
            r == self@.screen,
    {
        self.screen
    }

    /// The chat being shown, once one is chosen or created.
    pub fn chat_id(&self) -> (r: Option<i64>)
        ensures
            r == self@.chat,
    {
        self.chat
    }

    /// The messages of the chat being shown, oldest first.
    pub fn messages(&self) -> (r: &Vec<Message>)
        ensures
            messages_view(r@) == self@.messages,
    {
        &self.messages
    }

    /// The text being composed.
    pub fn input(&self) -> (r: &str)
        ensures
            r@ == self@.input,
    {
        self.input.as_str()
    }

    /// The scroll offset of the history, in rows of wrapped text.
    pub fn scroll(&self) -> (r: u16)
        ensures
            r == self@.scroll,
    {
        self.scroll
    }

    /// The position highlighted in the chat list.
    pub fn cursor(&self) -> (r: Option<usize>)
        ensures
            r == self@.cursor,
    {
        self.cursor
    }

    /// The stored chats, newest first.
    pub fn chats(&self) -> (r: &Vec<ChatEntry>)
        ensures
            chats_view(r@) == self@.chats,
    {
        &self.chats
    }

    /// The chat against which the prompt in flight was issued.
    pub fn pending_chat(&self) -> (r: Option<i64>)
        ensures
            r == self@.pending,
    {
        self.pending
    }

    /// The last failure to show to the user.
    pub fn notice(&self) -> (r: Option<&str>)
        ensures
            match r {
                Some(n) => self@.notice == Some(n@),
                None => self@.notice is None,
            },
    {
        match &self.notice {
            Some(n) => Some(n.as_str()),
            None => None,
        }
    }
}

/// Every event keeps a well-formed session well formed.
pub proof fn step_keeps_wf(s: SessionView, e: Event)
    requires
        s.wf(),
    ensures
        step(s, e).0.wf(),
        step(s, e).0.chats == s.chats,
{
}

/// Whatever events come, the chat list stays as it was and the cursor stays on one of its
/// entries: never past the last, and absent while there is none.
pub proof fn cursor_stays_in_list(s: SessionView, events: Seq<Event>)
    requires
        s.wf(),
    ensures
        run(s, events).wf(),
        run(s, events).chats == s.chats,
        run(s, events).cursor matches Some(i) ==> i < s.chats.len(),
        s.chats.len() == 0 ==> run(s, events).cursor is None,
    decreases events.len(),
{
    if events.len() > 0 {
        cursor_stays_in_list(s, events.drop_last());
        step_keeps_wf(run(s, events.drop_last()), events.last());
    }
}

/// Whatever events come while a prompt is in flight, short of its answer or its failure,
/// the prompt stays bound to the chat it was issued against.
pub proof fn prompt_keeps_origin(s: SessionView, events: Seq<Event>)
    requires
        forall|i: int|
            0 <= i < events.len() ==> !(#[trigger] events[i] is Reply) && !(
            events[i] is ServiceFailed),
    ensures
        run(s, events).pending == s.pending || s.pending is None,
    decreases events.len(),
{
    if events.len() > 0 {
        prompt_keeps_origin(s, events.drop_last());
        assert(!(events.last() is Reply) && !(events.last() is ServiceFailed)) by {
            assert(events.last() == events[events.len() - 1]);
        }
    }
}

/// An answer (more than whitespace) to a prompt issued against chat `x` is stored under `x`,
/// whatever chats were chosen, created or listed while it was in flight.
pub proof fn reply_stored_under_origin(s: SessionView, x: i64, events: Seq<Event>, reply: String)
    requires
        s.pending == Some(x),
        sendable(reply@),
        forall|i: int|
            0 <= i < events.len() ==> !(#[trigger] events[i] is Reply) && !(
            events[i] is ServiceFailed),
    ensures
        step(run(s, events), Event::Reply(reply)).1 == (ActionView::StoreReply {
            chat_id: x,
            text: reply@,
        }),
{
    prompt_keeps_origin(s, events);
}


/// The contents of a chat store: its chats, oldest first, and their messages, oldest first.
pub struct StoreView {
    pub chats: Seq<i64>,
    pub messages: Map<i64, Seq<(Role, Seq<char>)>>,
}

impl StoreView {
    /// Every message belongs to a stored chat.
    pub open spec fn wf(self) -> bool {
        forall|c: i64| #[trigger] self.messages.contains_key(c) ==> self.chats.contains(c)
    }
}

/// The messages that a store lists for a chat, oldest first.
pub open spec fn listing(store: StoreView, chat: i64) -> Seq<(Role, Seq<char>)> {
    if store.messages.contains_key(chat) {
        store.messages[chat]
    } else {
        Seq::empty()
    }
}

/// The store once it has created a chat under a new identity.
pub open spec fn created(store: StoreView, id: i64) -> StoreView {
    StoreView { chats: store.chats.push(id), ..store }
}

/// The store once the runner has stored what an action hands it.
pub open spec fn stored(store: StoreView, a: ActionView) -> StoreView {
    match a {
        ActionView::Submit { chat_id, text } => StoreView {
            messages: store.messages.insert(
                chat_id,
                listing(store, chat_id).push((Role::User, text)),
            ),
            ..store
        },
        ActionView::StoreReply { chat_id, text } => StoreView {
            messages: store.messages.insert(
                chat_id,
                listing(store, chat_id).push((Role::Assistant, text)),
            ),
            ..store
        },
        _ => store,
    }
}

/// Storing what an action hands over creates no chat and leaves every chat but the one it
/// names as it was.
pub proof fn stored_touches_one_chat(store: StoreView, a: ActionView, c: i64)
    requires
        !(a matches ActionView::Submit { chat_id, .. } && chat_id == c),
        !(a matches ActionView::StoreReply { chat_id, .. } && chat_id == c),
    ensures
        stored(store, a).chats == store.chats,
        listing(stored(store, a), c) == listing(store, c),
{
}

/// Sending text that holds more than whitespace and getting an answer that does too leaves
/// the chat with the sent text immediately followed by the answer, both in the store and
/// on screen, and an empty input; no chat is created and no other chat changes.
pub proof fn submission_then_reply(s: SessionView, store: StoreView, reply: String)
    requires
        s.wf(),
        s.screen == Screen::Chatting,
        s.pending is None,
        sendable(s.input),
        sendable(reply@),
    ensures
        ({
            let (s1, a1) = step(s, Event::Key(KeyPress::Enter));
            let (s2, a2) = step(s1, Event::Reply(reply));
            let x = s.chat->Some_0;
            let after = stored(stored(store, a1), a2);
            let pair = seq![(Role::User, s.input), (Role::Assistant, reply@)];
            &&& listing(after, x) == listing(store, x) + pair
            &&& after.chats == store.chats
            &&& forall|c: i64| c != x ==> #[trigger] listing(after, c) == listing(store, c)
            &&& s2.messages == s.messages + pair
            &&& s2.chat == s.chat
            &&& s2.pending is None
            &&& s2.input.len() == 0
        }),
{
    let (s1, a1) = step(s, Event::Key(KeyPress::Enter));
    let (s2, a2) = step(s1, Event::Reply(reply));
    let x = s.chat->Some_0;
    let pair = seq![(Role::User, s.input), (Role::Assistant, reply@)];
    assert(listing(stored(stored(store, a1), a2), x) =~= listing(store, x) + pair);
    assert(s2.messages =~= s.messages + pair);
    assert forall|c: i64| c != x implies #[trigger] listing(stored(stored(store, a1), a2), c)
        == listing(store, c) by {
        stored_touches_one_chat(store, a1, c);
        stored_touches_one_chat(stored(store, a1), a2, c);
    }
}

/// When the answer to a prompt issued against chat `x` arrives, whichever chat is shown, it
/// is stored once, under `x`, right after what `x` held; no other chat changes.
pub proof fn reply_stored_once_under_origin(s: SessionView, x: i64, store: StoreView, reply: String)
    requires
        s.pending == Some(x),
        sendable(reply@),
    ensures
        ({
            let after = stored(store, step(s, Event::Reply(reply)).1);
            &&& listing(after, x) == listing(store, x).push((Role::Assistant, reply@))
            &&& after.chats == store.chats
            &&& forall|c: i64| c != x ==> #[trigger] listing(after, c) == listing(store, c)
            &&& step(s, Event::Reply(reply)).0.pending is None
        }),
{
    let a = step(s, Event::Reply(reply)).1;
    assert forall|c: i64| c != x implies #[trigger] listing(stored(store, a), c) == listing(
        store,
        c,
    ) by {
        stored_touches_one_chat(store, a, c);
    }
}

/// A session that starts with no chat asks for one; once the store creates it under a new
/// identity, the store holds exactly one more chat, with no messages, and the session shows
/// it with an empty history.
pub proof fn first_chat_created(store: StoreView, id: i64)
    requires
        store.wf(),
        !store.chats.contains(id),
    ensures
        ({
            let s = initial(Seq::empty());
            let (s1, a1) = step(s, Event::ChatCreated(id));
            let after = created(store, id);
            &&& entry_of(s) == ActionView::CreateChat
            &&& after.chats == store.chats.push(id)
            &&& listing(after, id).len() == 0
            &&& after.wf()
            &&& s1.screen == Screen::Chatting
            &&& s1.chat == Some(id)
            &&& s1.messages.len() == 0
            &&& a1 == ActionView::Nothing
        }),
{
    let after = created(store, id);
    assert forall|c: i64| #[trigger] after.messages.contains_key(c) implies after.chats.contains(
        c,
    ) by {
        assert(store.chats.contains(c));
        let k = choose|k: int| 0 <= k < store.chats.len() && store.chats[k] == c;
        assert(after.chats[k] == c);
    }
}

/// The session never asks to store a message whose text is nothing but whitespace.
pub proof fn stored_text_never_blank(s: SessionView, e: Event)
    ensures
        step(s, e).1 matches ActionView::Submit { text, .. } ==> sendable(text),
        step(s, e).1 matches ActionView::StoreReply { text, .. } ==> sendable(text),
{
}

} // verus!
