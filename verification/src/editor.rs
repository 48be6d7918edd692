//! The line editor: the text being typed, the cursor in it, and the place in
//! the list of earlier submissions, with one transition for each editing key.

use vstd::prelude::*;
use crate::text::{display_width, insert_char, inserted, remove_char, removed, str_width, texts};

verus! {

/// A key, as the editor tells them apart. Enter is `Char('\n')`.
#[derive(Clone, Copy, Debug, PartialEq, Eq)]
pub enum Key {
    Backspace,
    Ctrl(char),
    Up,
    Down,
    Left,
    Right,
    Char(char),
    Other,
}

/// What the user sees and edits.
#[derive(Clone, Debug, PartialEq, Eq)]
pub struct Ui {
    /// The text that is being typed.
    pub input: String,
    /// The conversation, oldest line first.
    pub history: Vec<String>,
    /// What the user has submitted so far, oldest first.
    pub user_history: Vec<String>,
    /// Columns between the cursor and the end of `input`.
    pub cursor_offset: usize,
    /// Place in `user_history`, counted from its end; 0 while typing.
    pub hist_offset: usize,
}

/// The state of the editor as mathematical values.
pub struct UiState {
    pub input: Seq<char>,
    pub history: Seq<Seq<char>>,
    pub user_history: Seq<Seq<char>>,
    pub cursor_offset: nat,
    pub hist_offset: nat,
}

impl View for Ui {
    type V = UiState;

    open spec fn view(&self) -> UiState {
        UiState {
            input: self.input@,
            history: texts(self.history@),
            user_history: texts(self.user_history@),
            cursor_offset: self.cursor_offset as nat,
            hist_offset: self.hist_offset as nat,
        }
    }
}

impl UiState {
    /// The cursor is inside the text, and the place in the list of
    /// submissions is inside the list.
    pub open spec fn valid(self) -> bool {
        &&& self.cursor_offset <= display_width(self.input)
        &&& self.hist_offset <= self.user_history.len()
    }

    /// The index in `input` at which the cursor stands: `cursor_offset`
    /// characters before the end, and the start where the text has fewer.
    pub open spec fn cursor_index(self) -> int {
        if self.cursor_offset <= self.input.len() {
            self.input.len() - self.cursor_offset
        } else {
            0
        }
    }

    /// The same state with the cursor no further than `width` columns from
    /// the end.
    pub open spec fn clamped_to(self, width: nat) -> UiState {
        if self.cursor_offset <= width {
            self
        } else {
            UiState { cursor_offset: width, ..self }
        }
    }

    /// The same state with the cursor no further left than the start of the
    /// text.
    pub open spec fn clamped(self) -> UiState {
        self.clamped_to(display_width(self.input))
    }

    /// The entry of the list of submissions that stands `back` places before
    /// its end.
    pub open spec fn entry(self, back: nat) -> Seq<char>
        recommends
            1 <= back <= self.user_history.len(),
    {
        self.user_history[self.user_history.len() - back]
    }

    /// The state without the character in front of the cursor; the same
    /// state where the cursor stands at the start of the text.
    pub open spec fn without_char_before_cursor(self) -> UiState {
        if self.cursor_index() == 0 {
            self
        } else {
            UiState { input: removed(self.input, self.cursor_index() - 1), ..self }
        }
    }

    /// The state with `c` put where the cursor stands.
    pub open spec fn with_char_at_cursor(self, c: char) -> UiState {
        UiState { input: inserted(self.input, self.cursor_index(), c), ..self }
    }

    /// Backspace: the character in front of the cursor leaves, and the cursor
    /// stays inside what is left; at the start of the text nothing changes.
    pub open spec fn after_backspace(self) -> UiState {
        if self.cursor_index() == 0 {
            self
        } else {
            self.without_char_before_cursor().clamped()
        }
    }

    /// Ctrl+W: the text is cleared.
    pub open spec fn after_kill(self) -> UiState {
        UiState { input: Seq::empty(), cursor_offset: 0, ..self }
    }

    /// The cursor goes `width` columns from the end.
    pub open spec fn after_home_in(self, width: nat) -> UiState {
        UiState { cursor_offset: width, ..self }
    }

    /// Ctrl+A: the cursor goes to the start of the text.
    pub open spec fn after_home(self) -> UiState {
        self.after_home_in(display_width(self.input))
    }

    /// Ctrl+E: the cursor goes to the end of the text.
    pub open spec fn after_end(self) -> UiState {
        UiState { cursor_offset: 0, ..self }
    }

    /// Up: one submission further back, where there is one; the cursor goes
    /// to the end in either case.
    pub open spec fn after_up(self) -> UiState {
        if self.hist_offset < self.user_history.len() {
            UiState {
                input: self.entry(self.hist_offset + 1),
                cursor_offset: 0,
                hist_offset: self.hist_offset + 1,
                ..self
            }
        } else {
            UiState { cursor_offset: 0, ..self }
        }
    }

    /// Down: one submission forward. From the newest one the text is cleared
    /// and the place stays; while typing nothing but the cursor changes.
    pub open spec fn after_down(self) -> UiState {
        if self.hist_offset == 0 || self.user_history.len() == 0 {
            UiState { cursor_offset: 0, ..self }
        } else if self.hist_offset == 1 {
            UiState { input: Seq::empty(), cursor_offset: 0, ..self }
        } else if self.hist_offset - 1 <= self.user_history.len() {
            UiState {
                input: self.entry((self.hist_offset - 1) as nat),
                cursor_offset: 0,
                hist_offset: (self.hist_offset - 1) as nat,
                ..self
            }
        } else {
            UiState { cursor_offset: 0, hist_offset: (self.hist_offset - 1) as nat, ..self }
        }
    }

    /// The cursor moves one column further from the end, and no further
    /// than `width` columns from it.
    pub open spec fn after_left_in(self, width: nat) -> UiState {
        if self.cursor_offset < width {
            UiState { cursor_offset: self.cursor_offset + 1, ..self }
        } else {
            self.clamped_to(width)
        }
    }

    /// Left: the cursor moves one column towards the start and stops there.
    pub open spec fn after_left(self) -> UiState {
        self.after_left_in(display_width(self.input))
    }

    /// Right: the cursor moves one column towards the end and stops there.
    pub open spec fn after_right(self) -> UiState {
        if self.cursor_offset == 0 {
            self
        } else {
            UiState { cursor_offset: (self.cursor_offset - 1) as nat, ..self }
        }
    }

    /// A character is typed: it stands where the cursor was, and what was
    /// behind the cursor is behind it still.
    pub open spec fn after_insert(self, c: char) -> UiState {
        self.with_char_at_cursor(c).clamped()
    }
}


impl Default for Ui {
    /// Nothing typed, nothing said, nothing submitted.
    fn default() -> (ui: Ui)
        ensures
            ui@.input == Seq::<char>::empty(),
            ui@.history == Seq::<Seq<char>>::empty(),
            ui@.user_history == Seq::<Seq<char>>::empty(),
            ui@.cursor_offset == 0,
            ui@.hist_offset == 0,
            ui@.valid(),
    {
        let ui = Ui {
            input: String::new(),
            history: Vec::new(),
            user_history: Vec::with_capacity(100),
            cursor_offset: 0,
            hist_offset: 0,
        };
        assert(ui@.history =~= Seq::<Seq<char>>::empty());
        assert(ui@.user_history =~= Seq::<Seq<char>>::empty());
        ui
    }
}

impl Ui {
    /// Brings the cursor back to `width` columns from the end where it
    /// stands further.
    pub fn clamp_cursor(&mut self, width: usize)
        ensures
            final(self)@ == old(self)@.clamped_to(width as nat),
    {
        if self.cursor_offset > width {
            self.cursor_offset = width;
        }
    }

    /// The index in the text at which the cursor stands.
    pub fn cursor_index(&self) -> (at: usize)
        ensures
            at == self@.cursor_index(),
            at <= self@.input.len(),
    {
        let n: usize = self.input.as_str().unicode_len();
        if self.cursor_offset <= n {
            n - self.cursor_offset
        } else {
            0
        }
    }

    /// Takes the character in front of the cursor out of the text.
    pub fn delete_before_cursor(&mut self) -> (changed: bool)
        ensures
            final(self)@ == old(self)@.without_char_before_cursor(),
            changed == (old(self)@.cursor_index() != 0),
    {
        let at: usize = self.cursor_index();
        if at > 0 {
            self.input = remove_char(self.input.as_str(), at - 1);
            true
        } else {
            false
        }
    }

    /// Puts `c` into the text where the cursor stands.
    pub fn put_at_cursor(&mut self, c: char)
        ensures
            final(self)@ == old(self)@.with_char_at_cursor(c),
    {
        let at: usize = self.cursor_index();
        self.input = insert_char(self.input.as_str(), at, c);
    }

    /// Backspace.
    pub fn backspace(&mut self)
        ensures
            final(self)@ == old(self)@.after_backspace(),
    {
        if self.delete_before_cursor() {
            let width: usize = str_width(self.input.as_str());
            self.clamp_cursor(width);
        }
    }

    /// Ctrl+W.
    pub fn kill_line(&mut self)
        ensures
            final(self)@ == old(self)@.after_kill(),
    {
        self.input = String::new();
        self.cursor_offset = 0;
    }

    /// Puts the cursor `width` columns from the end.
    pub fn cursor_home_in(&mut self, width: usize)
        ensures
            final(self)@ == old(self)@.after_home_in(width as nat),
    {
        self.cursor_offset = width;
    }

    /// Ctrl+A.
    pub fn cursor_home(&mut self)
        ensures
            final(self)@ == old(self)@.after_home(),
    {
        let width: usize = str_width(self.input.as_str());
        self.cursor_home_in(width);
    }

    /// Ctrl+E.
    pub fn cursor_end(&mut self)
        ensures
            final(self)@ == old(self)@.after_end(),
    {
        self.cursor_offset = 0;
    }

    /// Up.
    pub fn history_up(&mut self)
        ensures
            final(self)@ == old(self)@.after_up(),
    {
        self.cursor_offset = 0;
        let len: usize = self.user_history.len();
        if self.hist_offset < len {
            self.hist_offset = self.hist_offset + 1;
            self.input = self.user_history[len - self.hist_offset].clone();
        }
    }

    /// Down.
    pub fn history_down(&mut self)
        ensures
            final(self)@ == old(self)@.after_down(),
    {
        self.cursor_offset = 0;
        let len: usize = self.user_history.len();
        if self.hist_offset == 0 || len == 0 {
        } else if self.hist_offset == 1 {
            self.input = String::new();
        } else {
            self.hist_offset = self.hist_offset - 1;
            if self.hist_offset <= len {
                self.input = self.user_history[len - self.hist_offset].clone();
            }
        }
    }

    /// Moves the cursor one column further from the end of a text that is
    /// `width` columns wide.
    pub fn cursor_left_in(&mut self, width: usize)
        ensures
            final(self)@ == old(self)@.after_left_in(width as nat),
    {
        if self.cursor_offset < width {
            self.cursor_offset = self.cursor_offset + 1;
        } else {
            self.cursor_offset = width;
        }
    }

    /// Left.
    pub fn cursor_left(&mut self)
        ensures
            final(self)@ == old(self)@.after_left(),
    {
        let width: usize = str_width(self.input.as_str());
        self.cursor_left_in(width);
    }

    /// Right.
    pub fn cursor_right(&mut self)
        ensures
            final(self)@ == old(self)@.after_right(),
    {
        if self.cursor_offset > 0 {
            self.cursor_offset = self.cursor_offset - 1;
        }
    }

    /// Types one character.
    pub fn insert(&mut self, c: char)
        ensures
            final(self)@ == old(self)@.after_insert(c),
    {
        self.put_at_cursor(c);
        let width: usize = str_width(self.input.as_str());
        self.clamp_cursor(width);
    }
}

} // verus!
