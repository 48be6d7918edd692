use chatline::clock::{clock_stamp, timestamp};
use chatline::editor::Ui;
use chatline::inbound::{
    decode, format_inbound, inbound_text, is_known_category, InboundMessage, TagTable,
};
use chatline::screen::{last_lines, rows_for_history, FIRST_COLUMN, HEADER_ROWS, INPUT_ROWS};
use chatline::session::Identity;

fn fields(items: &[&str]) -> Vec<String> {
    items.iter().map(|s| s.to_string()).collect()
}

fn digits() -> TagTable {
    TagTable { open: '1', personal: '2', protocol: '3', status: '4', beep: '5' }
}

#[test]
fn protocol_tags_are_the_letters_of_the_protocol() {
    let tags = TagTable::icb();
    assert_eq!(tags.open, 'b');
    assert_eq!(tags.personal, 'c');
    assert_eq!(tags.status, 'd');
    assert_eq!(tags.protocol, 'j');
    assert_eq!(tags.beep, 'k');
}

#[test]
fn open_message_with_the_tag_one() {
    let line = inbound_text(&digits(), &fields(&["1", "alice", "hi"]), "12:34");
    assert_eq!(line, "12:34 <alice> hi");
}

#[test]
fn open_message_with_the_tag_of_the_protocol() {
    let tags = TagTable::icb();
    assert_eq!(
        decode(&tags, &fields(&["b", "alice", "hi"])),
        InboundMessage::Open { sender: "alice".to_string(), text: "hi".to_string() }
    );
    assert_eq!(inbound_text(&tags, &fields(&["b", "alice", "hi"]), "12:34"), "12:34 <alice> hi");
}

#[test]
fn personal_message() {
    let tags = TagTable::icb();
    assert_eq!(
        inbound_text(&tags, &fields(&["c", "bob", "psst"]), "00:07"),
        "00:07 **bob** psst"
    );
}

#[test]
fn protocol_message_names_group_and_host() {
    let tags = TagTable::icb();
    assert_eq!(
        decode(&tags, &fields(&["j", "example.org", "rust"])),
        InboundMessage::ProtocolInfo { host: "example.org".to_string(), group: "rust".to_string() }
    );
    assert_eq!(
        inbound_text(&tags, &fields(&["j", "example.org", "rust"]), "00:07"),
        "==> Connected to rust on example.org"
    );
}

#[test]
fn status_of_a_known_category() {
    let tags = TagTable::icb();
    assert_eq!(
        inbound_text(&tags, &fields(&["d", "Warning", "careful"]), "12:34"),
        "12:34: careful "
    );
    for category in [
        "Arrive", "Boot", "Depart", "Help", "Name", "No-Beep", "Notify", "Sign-off", "Sign-on",
        "Status", "Topic", "Warning",
    ] {
        assert!(is_known_category(category));
        assert_eq!(
            inbound_text(&tags, &fields(&["d", category, "text"]), "12:34"),
            "12:34: text "
        );
    }
}

#[test]
fn status_of_an_unknown_category() {
    let tags = TagTable::icb();
    assert!(!is_known_category("Foo"));
    assert!(!is_known_category("warning"));
    assert!(!is_known_category(""));
    assert_eq!(
        inbound_text(&tags, &fields(&["d", "Foo", "what"]), "12:34"),
        "=> Message 'what' received in unknown category 'Foo'"
    );
}

#[test]
fn beep_from_someone() {
    let tags = TagTable::icb();
    assert_eq!(inbound_text(&tags, &fields(&["k", "carol"]), "12:34"), "12:34 *carol beeps you*");
}

#[test]
fn unknown_tag_shows_the_whole_tuple() {
    let tags = TagTable::icb();
    assert_eq!(
        inbound_text(&tags, &fields(&["e", "Nick is already in use"]), "12:34"),
        "msg_r: 12:34 read: [\"e\", \"Nick is already in use\"]"
    );
    assert_eq!(
        decode(&tags, &fields(&["z"])),
        InboundMessage::Unknown { raw: "[\"z\"]".to_string() }
    );
}

#[test]
fn tuple_without_a_tag_or_payload_is_unknown() {
    let tags = TagTable::icb();
    assert_eq!(decode(&tags, &fields(&[])), InboundMessage::Unknown { raw: "[]".to_string() });
    assert_eq!(
        decode(&tags, &fields(&["", "a", "b"])),
        InboundMessage::Unknown { raw: "[\"\", \"a\", \"b\"]".to_string() }
    );
    assert_eq!(
        decode(&tags, &fields(&["b", "alice"])),
        InboundMessage::Unknown { raw: "[\"b\", \"alice\"]".to_string() }
    );
    assert_eq!(decode(&tags, &fields(&["k"])), InboundMessage::Unknown { raw: "[\"k\"]".to_string() });
}

#[test]
fn only_the_first_character_of_the_first_field_is_the_tag() {
    let tags = TagTable::icb();
    assert_eq!(
        decode(&tags, &fields(&["bxyz", "alice", "hi", "more"])),
        InboundMessage::Open { sender: "alice".to_string(), text: "hi".to_string() }
    );
}

#[test]
fn formatting_a_message_directly() {
    let msg = InboundMessage::Unknown { raw: "raw".to_string() };
    assert_eq!(format_inbound(&msg, "12:34"), "msg_r: 12:34 read: raw");
    let msg = InboundMessage::Beep { sender: "x".to_string() };
    assert_eq!(format_inbound(&msg, ""), " *x beeps you*");
}

#[test]
fn received_message_is_the_newest_line() {
    let mut ui = Ui::default();
    ui.insert('a');
    let tags = TagTable::icb();
    ui.receive_at(&tags, &fields(&["b", "alice", "hi"]), "12:34");
    ui.receive_at(&tags, &fields(&["k", "bob"]), "12:35");
    assert_eq!(ui.history, vec!["12:34 <alice> hi".to_string(), "12:35 *bob beeps you*".to_string()]);
    assert_eq!(ui.input, "a");
    assert!(ui.user_history.is_empty());
    ui.receive(&tags, &fields(&["j", "host", "grp"]));
    assert_eq!(ui.history.len(), 3);
    assert_eq!(ui.history[2], "==> Connected to grp on host");
}

#[test]
fn stamps_have_two_digits_each() {
    assert_eq!(clock_stamp(0, 0), "00:00");
    assert_eq!(clock_stamp(9, 5), "09:05");
    assert_eq!(clock_stamp(12, 34), "12:34");
    assert_eq!(clock_stamp(23, 59), "23:59");
    assert_eq!(clock_stamp(7, 30), format!("{:02}:{:02}", 7, 30));
}

#[test]
fn stamp_of_now_is_a_time_of_day() {
    let stamp = timestamp();
    let parts: Vec<&str> = stamp.split(':').collect();
    assert_eq!(stamp.len(), 5);
    assert_eq!(parts.len(), 2);
    let hour: u32 = parts[0].parse().unwrap();
    let minute: u32 = parts[1].parse().unwrap();
    assert!(hour < 24);
    assert!(minute < 60);
}

#[test]
fn rows_left_for_the_conversation() {
    assert_eq!(rows_for_history(24), 19);
    assert_eq!(rows_for_history(6), 1);
    assert_eq!(rows_for_history(5), 0);
    assert_eq!(rows_for_history(4), 0);
    assert_eq!(rows_for_history(0), 0);
    assert_eq!(rows_for_history(u16::MAX), 65530);
    assert_eq!(HEADER_ROWS, 1);
    assert_eq!(INPUT_ROWS, 3);
    assert_eq!(FIRST_COLUMN, 2);
}

#[test]
fn newest_lines_are_shown_oldest_first() {
    let lines = fields(&["a", "b", "c", "d"]);
    assert_eq!(last_lines(&lines, 2), fields(&["c", "d"]));
    assert_eq!(last_lines(&lines, 4), lines);
    assert_eq!(last_lines(&lines, 9), lines);
    assert_eq!(last_lines(&lines, 0), Vec::<String>::new());
    assert_eq!(last_lines(&Vec::new(), 3), Vec::<String>::new());
}

#[test]
fn visible_history_depends_on_the_height() {
    let mut ui = Ui::default();
    for i in 0..10 {
        ui.history.push(format!("line {}", i));
    }
    assert_eq!(ui.visible_history(8), fields(&["line 7", "line 8", "line 9"]));
    assert_eq!(ui.visible_history(3), Vec::<String>::new());
    assert_eq!(ui.visible_history(40).len(), 10);
    assert_eq!(ui.history.len(), 10);
}

#[test]
fn cursor_is_drawn_behind_the_text_in_front_of_it() {
    let mut ui = Ui::default();
    assert_eq!(ui.cursor_position(24), (2, 23));
    for c in "hello".chars() {
        ui.insert(c);
    }
    assert_eq!(ui.cursor_position(24), (7, 23));
    ui.cursor_left();
    ui.cursor_left();
    assert_eq!(ui.cursor_position(24), (5, 23));
    ui.cursor_home();
    assert_eq!(ui.cursor_position(10), (2, 9));
    assert_eq!(ui.cursor_position(0), (2, 0));
    ui.kill_line();
    for c in "日本".chars() {
        ui.insert(c);
    }
    assert_eq!(ui.cursor_position(24), (6, 23));
}

#[test]
fn header_names_the_group() {
    let who = Identity { nickname: "me".to_string(), group: "rust".to_string() };
    assert_eq!(who.header(), "Group: rust");
}
