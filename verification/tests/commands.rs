use chatline::command::{parse_line, OutboundCommand, Submission};
use chatline::editor::{Key, Ui};
use chatline::session::{Action, Event, Identity};
use chatline::text::{remove_first, same_text, split_tokens};

fn someone() -> Identity {
    Identity { nickname: "me".to_string(), group: "rust".to_string() }
}

fn enter(line: &str, stamp: &str) -> (Ui, Identity, Action) {
    let mut ui = Ui::default();
    let mut who = someone();
    for c in line.chars() {
        let action = ui.handle_key_at(&mut who, Key::Char(c), stamp);
        assert_eq!(action, Action::Nothing);
    }
    assert_eq!(ui.input, line);
    ui.cursor_left();
    let action = ui.handle_key_at(&mut who, Key::Char('\n'), stamp);
    (ui, who, action)
}

#[test]
fn personal_message_is_normalized() {
    let (ui, who, action) = enter("/msg alice hello there", "12:34");
    assert_eq!(
        action,
        Action::Send(OutboundCommand::Personal("alice".to_string(), "hello there".to_string()))
    );
    assert_eq!(ui.user_history, vec!["/msg alice hello there".to_string()]);
    assert_eq!(ui.history, vec!["12:34: -> alice: hello there".to_string()]);
    assert_eq!(ui.input, "");
    assert_eq!(who, someone());
}

#[test]
fn short_personal_command() {
    let (ui, _, action) = enter("/m bob hi", "01:02");
    assert_eq!(
        action,
        Action::Send(OutboundCommand::Personal("bob".to_string(), "hi".to_string()))
    );
    assert_eq!(ui.user_history, vec!["/m bob hi".to_string()]);
    assert_eq!(ui.history, vec!["01:02: -> bob: hi".to_string()]);
}

#[test]
fn personal_message_keeps_inner_white_space() {
    let (ui, _, action) = enter("/msg alice hello   there  ", "12:34");
    assert_eq!(
        action,
        Action::Send(OutboundCommand::Personal(
            "alice".to_string(),
            "hello   there  ".to_string()
        ))
    );
    assert_eq!(ui.user_history, vec!["/msg alice hello   there  ".to_string()]);
}

#[test]
fn personal_message_with_two_spaces_before_the_recipient() {
    assert_eq!(
        parse_line("/msg  alice hi"),
        Submission::Personal {
            cmd: "/msg".to_string(),
            recipient: "alice".to_string(),
            text: " hi".to_string(),
        }
    );
}

#[test]
fn personal_message_needs_a_text() {
    let (ui, _, action) = enter("/msg alice", "12:34");
    assert_eq!(action, Action::Nothing);
    assert_eq!(ui.input, "/msg alice");
    assert!(ui.history.is_empty());
    assert!(ui.user_history.is_empty());
}

#[test]
fn beep_with_a_recipient() {
    let (ui, _, action) = enter("/beep bob", "23:59");
    assert_eq!(action, Action::Send(OutboundCommand::Beep("bob".to_string())));
    assert_eq!(ui.history, vec!["23:59: *beep beep, bob*".to_string()]);
    assert_eq!(ui.user_history, vec!["/beep bob".to_string()]);
    assert_eq!(ui.input, "");
}

#[test]
fn beep_alone_is_ignored() {
    let (ui, _, action) = enter("/beep", "23:59");
    assert_eq!(action, Action::Nothing);
    assert_eq!(ui.input, "/beep");
    assert!(ui.history.is_empty());
    assert!(ui.user_history.is_empty());
    assert_eq!(ui.cursor_offset, 0);
}

#[test]
fn beep_with_too_many_words_is_ignored() {
    let (ui, _, action) = enter("/beep bob now", "23:59");
    assert_eq!(action, Action::Nothing);
    assert_eq!(ui.input, "/beep bob now");
}

#[test]
fn name_changes_the_nickname_and_adds_no_line() {
    let (ui, who, action) = enter("/name neo", "08:00");
    assert_eq!(action, Action::Send(OutboundCommand::Name("neo".to_string())));
    assert_eq!(who.nickname, "neo");
    assert_eq!(who.group, "rust");
    assert!(ui.history.is_empty());
    assert_eq!(ui.user_history, vec!["/name neo".to_string()]);
    assert_eq!(ui.input, "");
}

#[test]
fn nick_is_the_same_command() {
    let (ui, who, action) = enter("/nick   trinity", "08:00");
    assert_eq!(action, Action::Send(OutboundCommand::Name("trinity".to_string())));
    assert_eq!(who.nickname, "trinity");
    assert_eq!(ui.user_history, vec!["/nick trinity".to_string()]);
}

#[test]
fn name_without_a_nickname_is_ignored() {
    let (ui, who, action) = enter("/name", "08:00");
    assert_eq!(action, Action::Nothing);
    assert_eq!(who.nickname, "me");
    assert_eq!(ui.input, "/name");
}

#[test]
fn quit_asks_to_leave() {
    let (ui, _, action) = enter("/quit", "08:00");
    assert_eq!(action, Action::Quit);
    assert!(ui.history.is_empty());
    assert!(ui.user_history.is_empty());
    let (_, _, action) = enter("/quit right now", "08:00");
    assert_eq!(action, Action::Quit);
}

#[test]
fn unknown_command_stays_in_the_input() {
    let (ui, _, action) = enter("/dance wildly", "08:00");
    assert_eq!(action, Action::Nothing);
    assert_eq!(ui.input, "/dance wildly");
    assert!(ui.history.is_empty());
    assert!(ui.user_history.is_empty());
    assert_eq!(parse_line("/"), Submission::Ignored);
    assert_eq!(parse_line("/quitter"), Submission::Ignored);
}

#[test]
fn plain_message_is_sent_and_kept() {
    let (ui, who, action) = enter("hello, world", "09:41");
    assert_eq!(action, Action::Send(OutboundCommand::Open("hello, world".to_string())));
    assert_eq!(ui.input, "");
    assert_eq!(ui.history, vec!["09:41: hello, world".to_string()]);
    assert_eq!(ui.user_history, vec!["hello, world".to_string()]);
    assert_eq!(ui.cursor_offset, 0);
    assert_eq!(ui.hist_offset, 0);
    assert_eq!(who, someone());
}

#[test]
fn line_with_a_leading_space_is_a_plain_message() {
    assert_eq!(parse_line(" /quit"), Submission::Plain { text: " /quit".to_string() });
}

#[test]
fn empty_line_is_an_empty_message() {
    let (ui, _, action) = enter("", "09:41");
    assert_eq!(action, Action::Send(OutboundCommand::Open(String::new())));
    assert_eq!(ui.history, vec!["09:41: ".to_string()]);
    assert_eq!(ui.user_history, vec![String::new()]);
}

#[test]
fn tick_changes_nothing() {
    let mut ui = Ui::default();
    let mut who = someone();
    ui.insert('a');
    ui.cursor_left();
    let before = ui.clone();
    let action = ui.handle_event_at(&mut who, Event::Tick, "09:41");
    assert_eq!(action, Action::Nothing);
    assert_eq!(ui, before);
    let action = ui.handle_event(&mut who, Event::Tick);
    assert_eq!(action, Action::Nothing);
    assert_eq!(ui, before);
}

#[test]
fn event_with_a_key_edits() {
    let mut ui = Ui::default();
    let mut who = someone();
    assert_eq!(ui.handle_event(&mut who, Event::Input(Key::Char('h'))), Action::Nothing);
    assert_eq!(ui.handle_event(&mut who, Event::Input(Key::Char('i'))), Action::Nothing);
    assert_eq!(ui.input, "hi");
    let action = ui.handle_event(&mut who, Event::Input(Key::Char('\n')));
    assert_eq!(action, Action::Send(OutboundCommand::Open("hi".to_string())));
    assert_eq!(ui.history.len(), 1);
    let line = &ui.history[0];
    assert_eq!(line.len(), 9);
    assert!(line.ends_with(": hi"));
    assert_eq!(&line[2..3], ":");
}

#[test]
fn words_are_cut_at_white_space() {
    assert_eq!(split_tokens("  a\tbc \n d  "), vec!["a", "bc", "d"]);
    assert_eq!(split_tokens(""), Vec::<String>::new());
    assert_eq!(split_tokens(" \t "), Vec::<String>::new());
    assert_eq!(split_tokens("one"), vec!["one"]);
    assert_eq!(split_tokens("a\u{3000}b\u{a0}c"), vec!["a", "b", "c"]);
    let line = "/msg  alice   hello there ";
    let expected: Vec<String> = line.split_whitespace().map(|w| w.to_string()).collect();
    assert_eq!(split_tokens(line), expected);
}

#[test]
fn first_occurrence_is_removed() {
    assert_eq!(remove_first("abcabc", "bc"), "aabc");
    assert_eq!(remove_first("abcabc", "x"), "abcabc");
    assert_eq!(remove_first("abc", ""), "abc");
    assert_eq!(remove_first("", "a"), "");
    assert_eq!(remove_first("aaa", "aa"), "a");
    assert_eq!(remove_first("abc", "abc"), "");
    assert_eq!(remove_first("abc", "abcd"), "abc");
    assert_eq!(remove_first("xyabc", "abc"), "xy");
    assert_eq!(remove_first("日本語日本", "本"), "日語日本");
    assert_eq!(remove_first("abcabc", "bc"), "abcabc".replacen("bc", "", 1));
}

#[test]
fn texts_are_compared_by_their_characters() {
    assert!(same_text("", ""));
    assert!(same_text("/quit", "/quit"));
    assert!(!same_text("/quit", "/quiT"));
    assert!(!same_text("/quit", "/qui"));
    assert!(!same_text("a", ""));
}
