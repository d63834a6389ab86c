use geminate::console::{
    answer_for, box_width, chat_pick, confirm_answer, frame_lines, framed, history_printout,
    parse_index, pick_from,
};
use geminate::text::{split_lines, trim, trim_end, trim_start, white};
use geminate::message::{ChatEntry, Message, Role};
use geminate::screen::{chat_labels, history_lines, prefix_for, shown_scroll, shows_chat_list};
use geminate::session::Screen;

#[test]
fn chat_labels_name_creation_times() {
    let chats = vec![
        ChatEntry::new(2, "2024-05-02 10:00:00".to_string()),
        ChatEntry::new(1, "2024-05-01 09:00:00".to_string()),
    ];
    assert_eq!(
        chat_labels(&chats),
        vec!["Chat from 2024-05-02 10:00:00".to_string(), "Chat from 2024-05-01 09:00:00".to_string()]
    );
    assert!(chat_labels(&vec![]).is_empty());
}

#[test]
fn history_lines_are_prefixed_by_role() {
    let messages = vec![
        Message::new(Role::User, "hi".to_string()),
        Message::new(Role::Assistant, "hello".to_string()),
    ];
    let lines = history_lines(&messages);
    assert_eq!(lines.len(), 2);
    assert_eq!(lines[0].role, Role::User);
    assert_eq!(lines[0].prefix, "You: ");
    assert_eq!(lines[0].text, "hi");
    assert_eq!(lines[1].role, Role::Assistant);
    assert_eq!(lines[1].prefix, "Gemini: ");
    assert_eq!(lines[1].text, "hello");
    assert_eq!(prefix_for(Role::Assistant), "Gemini: ");
}

#[test]
fn shown_scroll_is_held_at_end_of_wrapped_rows() {
    assert_eq!(shown_scroll(5, 30, 20), 5);
    assert_eq!(shown_scroll(15, 30, 20), 10);
    assert_eq!(shown_scroll(u16::MAX, 80, 20), 60);
    assert_eq!(shown_scroll(4, 10, 20), 0);
    assert_eq!(shown_scroll(3, 20, 20), 0);
    assert_eq!(shown_scroll(u16::MAX, 100_000, 10), u16::MAX);
}

#[test]
fn yes_no_answers() {
    assert_eq!(confirm_answer(" Y \n"), Some(true));
    assert_eq!(confirm_answer("y"), Some(true));
    assert_eq!(confirm_answer("\n"), Some(true));
    assert_eq!(confirm_answer("N"), Some(false));
    assert_eq!(confirm_answer("maybe"), None);
    assert_eq!(answer_for(&"n".to_string()), Some(false));
    assert_eq!(answer_for(&"Y".to_string()), None);
}

#[test]
fn indexes_are_read_like_usize() {
    assert_eq!(parse_index("42"), Some(42));
    assert_eq!(parse_index("+7"), Some(7));
    assert_eq!(parse_index("007"), Some(7));
    assert_eq!(parse_index(""), None);
    assert_eq!(parse_index("+"), None);
    assert_eq!(parse_index("-1"), None);
    assert_eq!(parse_index("4x"), None);
    assert_eq!(parse_index(&usize::MAX.to_string()), Some(usize::MAX));
    assert_eq!(parse_index(&format!("{}0", usize::MAX)), None);
    for text in ["0", "19", "+3", "++3", " 3", "99999999999999999999999"] {
        assert_eq!(parse_index(text), text.parse::<usize>().ok());
    }
}

#[test]
fn chat_picks_by_position() {
    let chats = vec![
        ChatEntry::new(20, "b".to_string()),
        ChatEntry::new(10, "a".to_string()),
    ];
    assert_eq!(chat_pick(" 1 \n", &chats), Some(10));
    assert_eq!(chat_pick("0", &chats), Some(20));
    assert_eq!(chat_pick("2", &chats), None);
    assert_eq!(chat_pick("one", &chats), None);
    assert_eq!(pick_from("1", &chats), Some(10));
    assert_eq!(pick_from("+0", &chats), Some(20));
    assert_eq!(pick_from(" 1", &chats), None);
    assert_eq!(pick_from("7", &chats), None);
}

#[test]
fn whitespace_matches_char_is_whitespace() {
    for u in 0..=0x10FFFFu32 {
        if let Some(c) = char::from_u32(u) {
            assert_eq!(white(c), c.is_whitespace(), "code point {:x}", u);
        }
    }
}

#[test]
fn trimming_removes_surrounding_whitespace() {
    assert_eq!(trim("  a b \t\n"), "a b");
    assert_eq!(trim("\u{3000}x\u{85}"), "x");
    assert_eq!(trim("   "), "");
    assert_eq!(trim(""), "");
    assert_eq!(trim_start("  a "), "a ");
    assert_eq!(trim_end("  a \r\n"), "  a");
    for t in ["", " ", "a", " a ", "\u{a0}b\u{2028}", "x y\tz", "\n\n"] {
        assert_eq!(trim(t), t.trim());
        assert_eq!(trim_start(t), t.trim_start());
        assert_eq!(trim_end(t), t.trim_end());
    }
}

#[test]
fn lines_split_at_line_feeds() {
    assert_eq!(split_lines("a\nb"), vec!["a".to_string(), "b".to_string()]);
    assert_eq!(split_lines("a\n"), vec!["a".to_string()]);
    assert_eq!(split_lines("a\n\nb\n"), vec!["a".to_string(), "".to_string(), "b".to_string()]);
    assert!(split_lines("").is_empty());
    assert_eq!(split_lines("\n"), vec!["".to_string()]);
    assert_eq!(split_lines("a\r\nb"), vec!["a\r".to_string(), "b".to_string()]);
    for t in ["", "x", "x\n", "x\ny", "\n\nz", "p\n\n"] {
        let std_lines: Vec<String> = t.lines().map(String::from).collect();
        assert_eq!(split_lines(t), std_lines);
    }
}

#[test]
fn message_box_drops_carriage_returns() {
    let expected = format!(
        "\n╭{}╮\n│ hi{} │\n│ there{} │\n╰{}╯\n",
        "─".repeat(18),
        " ".repeat(14),
        " ".repeat(11),
        "─".repeat(18)
    );
    assert_eq!(framed("hi\r\nthere\r\n", 10), expected);
}

#[test]
fn history_printout_lists_roles_and_contents() {
    assert_eq!(history_printout(&vec![]), vec!["No previous messages found.".to_string()]);
    let rows = vec![
        ("user".to_string(), "hi".to_string(), "t1".to_string()),
        ("gemini".to_string(), "hello".to_string(), "t2".to_string()),
    ];
    assert_eq!(
        history_printout(&rows),
        vec!["Previous messages:".to_string(), "[user] hi".to_string(), "[gemini] hello".to_string()]
    );
}

#[test]
fn box_width_is_clamped() {
    assert_eq!(box_width(5), 20);
    assert_eq!(box_width(50), 50);
    assert_eq!(box_width(200), 100);
}

#[test]
fn message_box_pads_lines_to_the_border() {
    let expected = format!(
        "\n╭{}╮\n│ hi{} │\n│ there{} │\n╰{}╯\n",
        "─".repeat(18),
        " ".repeat(14),
        " ".repeat(11),
        "─".repeat(18)
    );
    assert_eq!(framed("hi  \nthere", 10), expected);
    assert_eq!(frame_lines(&vec!["hi".to_string(), "there".to_string()], 10), expected);
}

#[test]
fn message_box_leaves_long_lines_unpadded() {
    let long = "x".repeat(30);
    let expected = format!("\n╭{}╮\n│ {} │\n╰{}╯\n", "─".repeat(18), long, "─".repeat(18));
    assert_eq!(framed(&long, 0), expected);
    assert_eq!(framed("", 20), format!("\n╭{}╮\n╰{}╯\n", "─".repeat(18), "─".repeat(18)));
}

#[test]
fn chat_list_shows_until_chatting() {
    assert!(shows_chat_list(Screen::SelectingChat));
    assert!(shows_chat_list(Screen::CreatingNewChat));
    assert!(!shows_chat_list(Screen::Chatting));
}
