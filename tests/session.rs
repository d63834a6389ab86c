use geminate::message::{ChatEntry, Message, Role};
use geminate::session::{command_for, Action, Command, Event, KeyPress, Screen, Session};

fn two_chats() -> Vec<ChatEntry> {
    vec![
        ChatEntry::new(20, "2024-05-02 10:00:00".to_string()),
        ChatEntry::new(10, "2024-05-01 09:00:00".to_string()),
    ]
}

fn key(s: &mut Session, k: KeyPress) -> Action {
    s.handle(Event::Key(k))
}

fn type_text(s: &mut Session, text: &str) {
    for c in text.chars() {
        assert!(matches!(key(s, KeyPress::Char(c)), Action::Nothing));
    }
}

fn chatting_in(chat_id: i64) -> Session {
    let mut s = Session::new(vec![]);
    assert!(matches!(s.handle(Event::ChatCreated(chat_id)), Action::Nothing));
    s
}

#[test]
fn startup_without_chats_creates_one() {
    let mut s = Session::new(vec![]);
    assert_eq!(s.screen(), Screen::CreatingNewChat);
    assert!(matches!(s.entry_action(), Action::CreateChat));
    assert!(matches!(s.handle(Event::ChatCreated(1)), Action::Nothing));
    assert_eq!(s.screen(), Screen::Chatting);
    assert_eq!(s.chat_id(), Some(1));
    assert!(s.messages().is_empty());
    assert!(matches!(s.entry_action(), Action::Nothing));
}

#[test]
fn startup_with_chats_lists_them() {
    let s = Session::new(two_chats());
    assert_eq!(s.screen(), Screen::SelectingChat);
    assert!(matches!(s.entry_action(), Action::Nothing));
    assert_eq!(s.cursor(), None);
    assert_eq!(s.chats().len(), 2);
    assert_eq!(s.chat_id(), None);
}

#[test]
fn whitespace_submission_is_ignored() {
    let mut s = chatting_in(4);
    type_text(&mut s, "  ");
    assert!(matches!(key(&mut s, KeyPress::Enter), Action::Nothing));
    assert!(s.messages().is_empty());
    assert_eq!(s.input(), "  ");
    assert_eq!(s.pending_chat(), None);
}

#[test]
fn cursor_clamps_at_last_of_two_chats() {
    let mut s = Session::new(two_chats());
    key(&mut s, KeyPress::Down);
    assert_eq!(s.cursor(), Some(0));
    key(&mut s, KeyPress::Down);
    assert_eq!(s.cursor(), Some(1));
    key(&mut s, KeyPress::Down);
    assert_eq!(s.cursor(), Some(1));
    key(&mut s, KeyPress::Down);
    assert_eq!(s.cursor(), Some(1));
}

#[test]
fn cursor_stops_at_first_chat() {
    let mut s = Session::new(two_chats());
    key(&mut s, KeyPress::Up);
    assert_eq!(s.cursor(), Some(0));
    key(&mut s, KeyPress::Up);
    assert_eq!(s.cursor(), Some(0));
}

#[test]
fn cursor_with_one_chat_stays_on_it() {
    let mut s = Session::new(vec![ChatEntry::new(3, "2024-01-01 00:00:00".to_string())]);
    for k in [KeyPress::Down, KeyPress::Down, KeyPress::Up, KeyPress::Down, KeyPress::Up] {
        key(&mut s, k);
        assert_eq!(s.cursor(), Some(0));
    }
}

#[test]
fn selecting_a_chat_loads_its_messages() {
    let mut s = Session::new(two_chats());
    assert!(matches!(key(&mut s, KeyPress::Enter), Action::Nothing));
    assert_eq!(s.screen(), Screen::SelectingChat);
    key(&mut s, KeyPress::Down);
    key(&mut s, KeyPress::Down);
    match key(&mut s, KeyPress::Enter) {
        Action::LoadChat { chat_id } => assert_eq!(chat_id, 10),
        other => panic!("unexpected action {:?}", other),
    }
    assert_eq!(s.screen(), Screen::Chatting);
    assert_eq!(s.chat_id(), Some(10));
    let loaded = vec![
        Message::new(Role::User, "hello".to_string()),
        Message::new(Role::Assistant, "hi there".to_string()),
    ];
    s.handle(Event::MessagesLoaded(10, loaded));
    assert_eq!(s.messages().len(), 2);
    assert_eq!(s.messages()[0].role, Role::User);
    assert_eq!(s.messages()[1].content, "hi there");
}

#[test]
fn messages_of_another_chat_are_not_shown() {
    let mut s = chatting_in(5);
    s.handle(Event::MessagesLoaded(6, vec![Message::new(Role::User, "x".to_string())]));
    assert!(s.messages().is_empty());
}

#[test]
fn new_chat_from_the_list() {
    let mut s = Session::new(two_chats());
    assert!(matches!(key(&mut s, KeyPress::Char('n')), Action::CreateChat));
    assert_eq!(s.screen(), Screen::CreatingNewChat);
    key(&mut s, KeyPress::Enter);
    assert_eq!(s.screen(), Screen::CreatingNewChat);
    s.handle(Event::ChatCreated(30));
    assert_eq!(s.screen(), Screen::Chatting);
    assert_eq!(s.chat_id(), Some(30));
}

#[test]
fn submission_and_reply_are_stored_in_order() {
    let mut s = chatting_in(3);
    type_text(&mut s, "hi");
    match key(&mut s, KeyPress::Enter) {
        Action::Submit { chat_id, text } => {
            assert_eq!(chat_id, 3);
            assert_eq!(text, "hi");
        }
        other => panic!("unexpected action {:?}", other),
    }
    assert_eq!(s.input(), "");
    assert_eq!(s.pending_chat(), Some(3));
    assert_eq!(s.messages().len(), 1);
    match s.handle(Event::Reply("hello!".to_string())) {
        Action::StoreReply { chat_id, text } => {
            assert_eq!(chat_id, 3);
            assert_eq!(text, "hello!");
        }
        other => panic!("unexpected action {:?}", other),
    }
    assert_eq!(s.pending_chat(), None);
    assert_eq!(s.messages().len(), 2);
    assert_eq!(s.messages()[0].role, Role::User);
    assert_eq!(s.messages()[0].content, "hi");
    assert_eq!(s.messages()[1].role, Role::Assistant);
    assert_eq!(s.messages()[1].content, "hello!");
    assert_eq!(s.scroll(), u16::MAX);
    s.handle(Event::HistoryMeasured { content_rows: 80, pane_rows: 20 });
    assert_eq!(s.scroll(), 60);
    key(&mut s, KeyPress::Up);
    assert_eq!(s.scroll(), 59);
}

#[test]
fn measuring_a_short_history_resets_the_scroll() {
    let mut s = chatting_in(1);
    key(&mut s, KeyPress::Down);
    key(&mut s, KeyPress::Down);
    s.handle(Event::HistoryMeasured { content_rows: 5, pane_rows: 20 });
    assert_eq!(s.scroll(), 0);
}

#[test]
fn reply_is_stored_under_the_chat_it_was_asked_in() {
    let mut s = Session::new(two_chats());
    key(&mut s, KeyPress::Down);
    key(&mut s, KeyPress::Enter);
    s.handle(Event::MessagesLoaded(20, vec![]));
    type_text(&mut s, "tell me");
    assert!(matches!(key(&mut s, KeyPress::Enter), Action::Submit { chat_id: 20, .. }));
    s.handle(Event::ChatCreated(99));
    s.handle(Event::MessagesLoaded(10, vec![]));
    type_text(&mut s, "more");
    assert!(matches!(key(&mut s, KeyPress::Enter), Action::Nothing));
    match s.handle(Event::Reply("answer".to_string())) {
        Action::StoreReply { chat_id, text } => {
            assert_eq!(chat_id, 20);
            assert_eq!(text, "answer");
        }
        other => panic!("unexpected action {:?}", other),
    }
    assert_eq!(s.input(), "more");
}

#[test]
fn reply_without_prompt_is_ignored() {
    let mut s = chatting_in(2);
    assert!(matches!(s.handle(Event::Reply("stray".to_string())), Action::Nothing));
    assert!(s.messages().is_empty());
}

#[test]
fn service_failure_is_shown_and_frees_the_prompt() {
    let mut s = chatting_in(2);
    type_text(&mut s, "ask");
    key(&mut s, KeyPress::Enter);
    assert_eq!(s.notice(), None);
    s.handle(Event::ServiceFailed("timed out".to_string()));
    assert_eq!(s.notice(), Some("timed out"));
    assert_eq!(s.pending_chat(), None);
    assert_eq!(s.messages().len(), 1);
    type_text(&mut s, "again");
    assert!(matches!(key(&mut s, KeyPress::Enter), Action::Submit { chat_id: 2, .. }));
}

#[test]
fn store_failure_is_shown() {
    let mut s = chatting_in(2);
    s.handle(Event::StoreFailed("disk full".to_string()));
    assert_eq!(s.notice(), Some("disk full"));
    assert_eq!(s.screen(), Screen::Chatting);
}

#[test]
fn quit_works_on_every_screen() {
    let mut a = Session::new(two_chats());
    assert!(matches!(key(&mut a, KeyPress::Char('q')), Action::Exit));
    assert!(a.exit_requested());
    let mut b = Session::new(vec![]);
    assert!(matches!(key(&mut b, KeyPress::Char('q')), Action::Exit));
    assert!(b.exit_requested());
    let mut c = chatting_in(1);
    assert!(!c.exit_requested());
    assert!(matches!(key(&mut c, KeyPress::Char('q')), Action::Exit));
    assert!(c.exit_requested());
}

#[test]
fn typing_and_erasing_edit_the_input() {
    let mut s = chatting_in(1);
    type_text(&mut s, "ab");
    assert_eq!(s.input(), "ab");
    key(&mut s, KeyPress::Backspace);
    assert_eq!(s.input(), "a");
    key(&mut s, KeyPress::Backspace);
    key(&mut s, KeyPress::Backspace);
    assert_eq!(s.input(), "");
    key(&mut s, KeyPress::Other);
    assert_eq!(s.input(), "");
}

#[test]
fn scrolling_stops_at_zero() {
    let mut s = chatting_in(1);
    key(&mut s, KeyPress::Up);
    assert_eq!(s.scroll(), 0);
    key(&mut s, KeyPress::Down);
    key(&mut s, KeyPress::Down);
    assert_eq!(s.scroll(), 2);
    key(&mut s, KeyPress::Up);
    assert_eq!(s.scroll(), 1);
}

#[test]
fn keys_mean_different_commands_per_screen() {
    assert_eq!(command_for(Screen::SelectingChat, KeyPress::Char('n')), Command::NewChat);
    assert_eq!(command_for(Screen::SelectingChat, KeyPress::Char('x')), Command::Ignore);
    assert_eq!(command_for(Screen::SelectingChat, KeyPress::Up), Command::CursorUp);
    assert_eq!(command_for(Screen::CreatingNewChat, KeyPress::Enter), Command::Ignore);
    assert_eq!(command_for(Screen::CreatingNewChat, KeyPress::Char('q')), Command::Quit);
    assert_eq!(command_for(Screen::Chatting, KeyPress::Char('n')), Command::Type('n'));
    assert_eq!(command_for(Screen::Chatting, KeyPress::Enter), Command::Submit);
    assert_eq!(command_for(Screen::Chatting, KeyPress::Down), Command::ScrollDown);
}

#[test]
fn blank_reply_is_not_stored() {
    let mut s = chatting_in(8);
    type_text(&mut s, "hi");
    key(&mut s, KeyPress::Enter);
    assert!(matches!(s.handle(Event::Reply(" \n ".to_string())), Action::Nothing));
    assert_eq!(s.pending_chat(), None);
    assert_eq!(s.messages().len(), 1);
}
