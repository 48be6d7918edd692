//! What holds of the console whatever is typed: the cursor stays inside the
//! text, typing only adds, and a message that is sent leaves a clean line.

use vstd::prelude::*;
use crate::command::{parsed, OutboundText, SubmissionText};
use crate::editor::{Key, UiState};
use crate::inbound::TagTable;
use crate::session::{
    after_edit,
    after_enter,
    after_event,
    after_inbound,
    plain_line,
    ActionText,
    Event,
    IdentityText,
};
use crate::text::display_width;

verus! {

/// The state after a run of editing keys, pressed from first to last.
pub open spec fn after_edits(ui: UiState, keys: Seq<Key>) -> UiState
    decreases keys.len(),
{
    if keys.len() == 0 {
        ui
    } else {
        after_edit(after_edits(ui, keys.drop_last()), keys.last())
    }
}

/// Whether `key` types a character into the text.
pub open spec fn types_a_character(key: Key) -> bool {
    match key {
        Key::Char(c) => c != '\n',
        _ => false,
    }
}

/// An editing key leaves a valid state valid.
pub proof fn law_edit_keeps_valid(ui: UiState, key: Key)
    requires
        ui.valid(),
    ensures
        after_edit(ui, key).valid(),
{
}

/// A run of editing keys leaves a valid state valid.
pub proof fn law_edits_keep_valid(ui: UiState, keys: Seq<Key>)
    requires
        ui.valid(),
    ensures
        after_edits(ui, keys).valid(),
    decreases keys.len(),
{
    if keys.len() > 0 {
        law_edits_keep_valid(ui, keys.drop_last());
        law_edit_keeps_valid(after_edits(ui, keys.drop_last()), keys.last());
    }
}

/// Whatever run of Left and Right is pressed, the text stays as it is and
/// the cursor stays between its end and its start.
pub proof fn law_moves_keep_cursor_inside(ui: UiState, keys: Seq<Key>)
    requires
        ui.valid(),
        forall|i: int| 0 <= i < keys.len() ==> keys[i] == Key::Left || keys[i] == Key::Right,
    ensures
        after_edits(ui, keys).input == ui.input,
        0 <= after_edits(ui, keys).cursor_offset <= display_width(ui.input),
    decreases keys.len(),
{
    if keys.len() > 0 {
        law_moves_keep_cursor_inside(ui, keys.drop_last());
    }
}

/// The last `k` characters of `s`.
pub open spec fn suffix(s: Seq<char>, k: int) -> Seq<char>
    recommends
        0 <= k <= s.len(),
{
    s.subrange(s.len() - k, s.len() as int)
}

/// A character that is typed makes the text one longer and leaves what is
/// behind the cursor as it was. The cursor has to stand inside the text,
/// counted in characters.
pub proof fn law_insert_keeps_suffix(ui: UiState, c: char)
    requires
        ui.cursor_offset <= ui.input.len(),
    ensures
        ui.after_insert(c).input.len() == ui.input.len() + 1,
        ui.after_insert(c).cursor_offset <= ui.cursor_offset,
        suffix(ui.after_insert(c).input, ui.cursor_offset as int) == suffix(
            ui.input,
            ui.cursor_offset as int,
        ),
{
    assert(suffix(ui.after_insert(c).input, ui.cursor_offset as int) =~= suffix(
        ui.input,
        ui.cursor_offset as int,
    ));
}

/// A character that is typed makes the text one longer, wherever the cursor
/// stands.
pub proof fn law_insert_grows_by_one(ui: UiState, c: char)
    ensures
        ui.after_insert(c).input.len() == ui.input.len() + 1,
{
}

/// Whatever run of characters is typed, the text grows by their number, the
/// cursor moves no further from the end, and what is behind the cursor at
/// the end is what stood in those places at the start.
pub proof fn law_typing_keeps_suffix(ui: UiState, keys: Seq<Key>)
    requires
        ui.cursor_offset <= ui.input.len(),
        forall|i: int| 0 <= i < keys.len() ==> types_a_character(#[trigger] keys[i]),
    ensures
        after_edits(ui, keys).input.len() == ui.input.len() + keys.len(),
        after_edits(ui, keys).cursor_offset <= ui.cursor_offset,
        suffix(after_edits(ui, keys).input, after_edits(ui, keys).cursor_offset as int) == suffix(
            ui.input,
            after_edits(ui, keys).cursor_offset as int,
        ),
    decreases keys.len(),
{
    if keys.len() > 0 {
        law_typing_keeps_suffix(ui, keys.drop_last());
        let mid = after_edits(ui, keys.drop_last());
        assert(types_a_character(keys[keys.len() - 1]));
        let c = keys.last()->Char_0;
        let end = mid.after_insert(c);
        assert(after_edits(ui, keys) == end);
        law_insert_keeps_suffix(mid, c);
        let k = end.cursor_offset as int;
        let m = mid.cursor_offset as int;
        assert(suffix(end.input, m) == suffix(mid.input, m));
        assert(suffix(end.input, k) =~= suffix(suffix(end.input, m), k));
        assert(suffix(mid.input, k) =~= suffix(suffix(mid.input, m), k));
        assert(suffix(ui.input, k) =~= suffix(suffix(ui.input, m), k));
    }
}

/// Up and then Down, with nothing recalled before and something to recall:
/// the text is empty, not what it was, and the place in the list stays at
/// the newest entry.
pub proof fn law_up_then_down_clears(ui: UiState)
    requires
        ui.hist_offset == 0,
        ui.user_history.len() > 0,
    ensures
        ui.after_up().after_down().input == Seq::<char>::empty(),
        ui.after_up().after_down().hist_offset == 1,
        ui.after_up().after_down().cursor_offset == 0,
{
}

/// A line that does not begin with a slash is sent as it is: the text is
/// cleared, the conversation and the list of submissions get one entry
/// each, both offsets are 0, and the identity stays.
pub proof fn law_plain_message(ui: UiState, who: IdentityText, stamp: Seq<char>)
    requires
        ui.input.len() == 0 || ui.input[0] != '/',
    ensures
        after_enter(ui, who, stamp).ui.input == Seq::<char>::empty(),
        after_enter(ui, who, stamp).ui.history == ui.history.push(plain_line(stamp, ui.input)),
        after_enter(ui, who, stamp).ui.user_history == ui.user_history.push(ui.input),
        after_enter(ui, who, stamp).ui.history.len() == ui.history.len() + 1,
        after_enter(ui, who, stamp).ui.user_history.len() == ui.user_history.len() + 1,
        after_enter(ui, who, stamp).ui.cursor_offset == 0,
        after_enter(ui, who, stamp).ui.hist_offset == 0,
        after_enter(ui, who, stamp).who == who,
        after_enter(ui, who, stamp).action == ActionText::Send(OutboundText::Open(ui.input)),
{
}

/// A line that is ignored stays in the text, and nothing is sent or kept.
pub proof fn law_ignored_line_stays(ui: UiState, who: IdentityText, stamp: Seq<char>)
    requires
        parsed(ui.input) == SubmissionText::Ignored,
    ensures
        after_enter(ui, who, stamp).ui.input == ui.input,
        after_enter(ui, who, stamp).ui.history == ui.history,
        after_enter(ui, who, stamp).ui.user_history == ui.user_history,
        after_enter(ui, who, stamp).who == who,
        after_enter(ui, who, stamp).action == ActionText::Nothing,
{
}

/// No key, tick or message from the server takes a line out of the
/// conversation or changes one: what was there is the start of what is
/// there.
pub proof fn law_conversation_only_grows(
    ui: UiState,
    who: IdentityText,
    event: Event,
    tags: TagTable,
    fields: Seq<Seq<char>>,
    stamp: Seq<char>,
)
    ensures
        ui.history.is_prefix_of(after_event(ui, who, event, stamp).ui.history),
        ui.history.is_prefix_of(after_inbound(ui, tags, fields, stamp).history),
        ui.user_history.is_prefix_of(after_event(ui, who, event, stamp).ui.user_history),
{
}

/// Every step leaves a valid state valid.
pub proof fn law_steps_keep_valid(
    ui: UiState,
    who: IdentityText,
    event: Event,
    tags: TagTable,
    fields: Seq<Seq<char>>,
    stamp: Seq<char>,
)
    requires
        ui.valid(),
    ensures
        after_event(ui, who, event, stamp).ui.valid(),
        after_inbound(ui, tags, fields, stamp).valid(),
{
    match event {
        Event::Input(key) => {
            if key == Key::Char('\n') {
            } else {
                law_edit_keeps_valid(ui, key);
            }
        },
        Event::Tick => {},
    }
}

} // verus!
