//! One step of the console: what a key, a tick or a message from the server
//! does to the state, and what is to be sent in answer.

use vstd::prelude::*;
use crate::clock::{is_clock_text, timestamp};
use crate::command::{
    parse_line,
    parsed,
    OutboundCommand,
    OutboundText,
    Submission,
    SubmissionText,
};
use crate::editor::{Key, Ui, UiState};
use crate::inbound::{decoded, inbound_line, inbound_text, TagTable};
use crate::text::texts;

verus! {

/// Who the user is and where.
#[derive(Clone, Debug, PartialEq, Eq)]
pub struct Identity {
    pub nickname: String,
    pub group: String,
}

/// Who the user is and where, as texts.
pub struct IdentityText {
    pub nickname: Seq<char>,
    pub group: Seq<char>,
}

impl View for Identity {
    type V = IdentityText;

    open spec fn view(&self) -> IdentityText {
        IdentityText { nickname: self.nickname@, group: self.group@ }
    }
}

/// What the program is to do after a step.
#[derive(Clone, Debug, PartialEq, Eq)]
pub enum Action {
    /// Nothing beyond drawing the screen again.
    Nothing,
    /// Send the command to the server.
    Send(OutboundCommand),
    /// Leave at once.
    Quit,
}

/// What the program is to do after a step, as texts.
pub enum ActionText {
    Nothing,
    Send(OutboundText),
    Quit,
}

impl View for Action {
    type V = ActionText;

    open spec fn view(&self) -> ActionText {
        match *self {
            Action::Nothing => ActionText::Nothing,
            Action::Send(command) => ActionText::Send(command@),
            Action::Quit => ActionText::Quit,
        }
    }
}

/// What the loop waits for: a key, or the tick that makes it draw again.
#[derive(Clone, Copy, Debug, PartialEq, Eq)]
pub enum Event {
    Input(Key),
    Tick,
}

/// A step's result: the state, the identity and the action.
pub struct Outcome {
    pub ui: UiState,
    pub who: IdentityText,
    pub action: ActionText,
}

/// The user's own message to the group, as a line of the conversation.
pub open spec fn plain_line(stamp: Seq<char>, text: Seq<char>) -> Seq<char> {
    stamp + ": "@ + text
}

/// The user's own personal message, as a line of the conversation.
pub open spec fn personal_line(
    stamp: Seq<char>,
    recipient: Seq<char>,
    text: Seq<char>,
) -> Seq<char> {
    stamp + ": -> "@ + recipient + ": "@ + text
}

/// The user's own beep, as a line of the conversation.
pub open spec fn beep_line(stamp: Seq<char>, recipient: Seq<char>) -> Seq<char> {
    stamp + ": *beep beep, "@ + recipient + "*"@
}

/// A command and its one argument, with one space between them.
pub open spec fn two_words(cmd: Seq<char>, word: Seq<char>) -> Seq<char> {
    cmd + " "@ + word
}

/// A personal message in the form in which it is kept for recall.
pub open spec fn three_words(
    cmd: Seq<char>,
    recipient: Seq<char>,
    text: Seq<char>,
) -> Seq<char> {
    cmd + " "@ + recipient + " "@ + text
}

/// What a line that was read does. A message or a command that is carried
/// out empties the text, is kept for recall and is sent; all but a change of
/// nickname also add a line to the conversation. `/quit` and a line that is
/// ignored change nothing.
pub open spec fn after_submission(
    ui: UiState,
    who: IdentityText,
    sub: SubmissionText,
    stamp: Seq<char>,
) -> Outcome {
    match sub {
        SubmissionText::Plain { text } => Outcome {
            ui: UiState {
                input: Seq::empty(),
                history: ui.history.push(plain_line(stamp, text)),
                user_history: ui.user_history.push(text),
                ..ui
            },
            who,
            action: ActionText::Send(OutboundText::Open(text)),
        },
        SubmissionText::Quit => Outcome { ui, who, action: ActionText::Quit },
        SubmissionText::Personal { cmd, recipient, text } => Outcome {
            ui: UiState {
                input: Seq::empty(),
                history: ui.history.push(personal_line(stamp, recipient, text)),
                user_history: ui.user_history.push(three_words(cmd, recipient, text)),
                ..ui
            },
            who,
            action: ActionText::Send(OutboundText::Personal(recipient, text)),
        },
        SubmissionText::Beep { cmd, recipient } => Outcome {
            ui: UiState {
                input: Seq::empty(),
                history: ui.history.push(beep_line(stamp, recipient)),
                user_history: ui.user_history.push(two_words(cmd, recipient)),
                ..ui
            },
            who,
            action: ActionText::Send(OutboundText::Beep(recipient)),
        },
        SubmissionText::Rename { cmd, name } => Outcome {
            ui: UiState {
                input: Seq::empty(),
                user_history: ui.user_history.push(two_words(cmd, name)),
                ..ui
            },
            who: IdentityText { nickname: name, ..who },
            action: ActionText::Send(OutboundText::Name(name)),
        },
        SubmissionText::Ignored => Outcome { ui, who, action: ActionText::Nothing },
    }
}

/// Enter: the cursor goes to the end, the recall of submissions ends, and
/// the text is read and carried out.
pub open spec fn after_enter(ui: UiState, who: IdentityText, stamp: Seq<char>) -> Outcome {
    after_submission(
        UiState { cursor_offset: 0, hist_offset: 0, ..ui },
        who,
        parsed(ui.input),
        stamp,
    )
}

/// What an editing key does to the state. Enter is no editing key and
/// changes nothing here.
pub open spec fn after_edit(ui: UiState, key: Key) -> UiState {
    match key {
        Key::Backspace => ui.after_backspace(),
        Key::Ctrl(c) => if c == 'w' {
            ui.after_kill()
        } else if c == 'a' {
            ui.after_home()
        } else if c == 'e' {
            ui.after_end()
        } else {
            ui
        },
        Key::Up => ui.after_up(),
        Key::Down => ui.after_down(),
        Key::Left => ui.after_left(),
        Key::Right => ui.after_right(),
        Key::Char(c) => if c == '\n' {
            ui
        } else {
            ui.after_insert(c)
        },
        Key::Other => ui,
    }
}

/// What a key does.
pub open spec fn after_key(ui: UiState, who: IdentityText, key: Key, stamp: Seq<char>) -> Outcome {
    if key == Key::Char('\n') {
        after_enter(ui, who, stamp)
    } else {
        Outcome { ui: after_edit(ui, key), who, action: ActionText::Nothing }
    }
}

/// What an event does: a key as above, a tick nothing.
pub open spec fn after_event(
    ui: UiState,
    who: IdentityText,
    event: Event,
    stamp: Seq<char>,
) -> Outcome {
    match event {
        Event::Input(key) => after_key(ui, who, key, stamp),
        Event::Tick => Outcome { ui, who, action: ActionText::Nothing },
    }
}

/// The state after a message from the server: its line is the newest of the
/// conversation, and nothing else has changed.
pub open spec fn after_inbound(
    ui: UiState,
    tags: TagTable,
    fields: Seq<Seq<char>>,
    stamp: Seq<char>,
) -> UiState {
    UiState { history: ui.history.push(inbound_line(decoded(tags, fields), stamp)), ..ui }
}


/// Joins a command and its one argument.
fn join_two(cmd: &str, word: &str) -> (r: String)
    ensures
        r@ == two_words(cmd@, word@),
{
    let mut r = String::from_str(cmd);
    r.append(" ");
    r.append(word);
    r
}

impl Ui {
    /// Carries out a line that was read, at the moment whose stamp is
    /// `stamp`.
    pub fn apply_submission(
        &mut self,
        who: &mut Identity,
        sub: Submission,
        stamp: &str,
    ) -> (action: Action)
        ensures
            (Outcome { ui: final(self)@, who: final(who)@, action: action@ }) == after_submission(
                old(self)@,
                old(who)@,
                sub@,
                stamp@,
            ),
    {
        let ghost before = self@;
        match sub {
            Submission::Plain { text } => {
                let mut line = String::from_str(stamp);
                line.append(": ");
                line.append(text.as_str());
                self.history.push(line);
                self.user_history.push(text.clone());
                self.input = String::new();
                proof {
                    assert(self@.history =~= before.history.push(plain_line(stamp@, text@)));
                    assert(self@.user_history =~= before.user_history.push(text@));
                }
                Action::Send(OutboundCommand::Open(text))
            },
            Submission::Quit => Action::Quit,
            Submission::Personal { cmd, recipient, text } => {
                let mut kept = join_two(cmd.as_str(), recipient.as_str());
                kept.append(" ");
                kept.append(text.as_str());
                let mut line = String::from_str(stamp);
                line.append(": -> ");
                line.append(recipient.as_str());
                line.append(": ");
                line.append(text.as_str());
                self.user_history.push(kept);
                self.history.push(line);
                self.input = String::new();
                proof {
                    assert(self@.history =~= before.history.push(
                        personal_line(stamp@, recipient@, text@),
                    ));
                    assert(self@.user_history =~= before.user_history.push(
                        three_words(cmd@, recipient@, text@),
                    ));
                }
                Action::Send(OutboundCommand::Personal(recipient, text))
            },
            Submission::Beep { cmd, recipient } => {
                let kept = join_two(cmd.as_str(), recipient.as_str());
                let mut line = String::from_str(stamp);
                line.append(": *beep beep, ");
                line.append(recipient.as_str());
                line.append("*");
                self.user_history.push(kept);
                self.history.push(line);
                self.input = String::new();
                proof {
                    assert(self@.history =~= before.history.push(beep_line(stamp@, recipient@)));
                    assert(self@.user_history =~= before.user_history.push(
                        two_words(cmd@, recipient@),
                    ));
                }
                Action::Send(OutboundCommand::Beep(recipient))
            },
            Submission::Rename { cmd, name } => {
                let kept = join_two(cmd.as_str(), name.as_str());
                self.user_history.push(kept);
                who.nickname = name.clone();
                self.input = String::new();
                proof {
                    assert(self@.user_history =~= before.user_history.push(
                        two_words(cmd@, name@),
                    ));
                }
                Action::Send(OutboundCommand::Name(name))
            },
            Submission::Ignored => Action::Nothing,
        }
    }

    /// Enter, at the moment whose stamp is `stamp`.
    pub fn submit_at(&mut self, who: &mut Identity, stamp: &str) -> (action: Action)
        ensures
            (Outcome { ui: final(self)@, who: final(who)@, action: action@ }) == after_enter(
                old(self)@,
                old(who)@,
                stamp@,
            ),
    {
        self.hist_offset = 0;
        self.cursor_offset = 0;
        let sub = parse_line(self.input.as_str());
        self.apply_submission(who, sub, stamp)
    }

    /// An editing key. Enter changes nothing here.
    pub fn edit(&mut self, key: Key)
        ensures
            final(self)@ == after_edit(old(self)@, key),
    {
        match key {
            Key::Backspace => self.backspace(),
            Key::Ctrl(c) => {
                if c == 'w' {
                    self.kill_line();
                } else if c == 'a' {
                    self.cursor_home();
                } else if c == 'e' {
                    self.cursor_end();
                }
            },
            Key::Up => self.history_up(),
            Key::Down => self.history_down(),
            Key::Left => self.cursor_left(),
            Key::Right => self.cursor_right(),
            Key::Char(c) => {
                if c != '\n' {
                    self.insert(c);
                }
            },
            Key::Other => {},
        }
    }

    /// A key, at the moment whose stamp is `stamp`.
    pub fn handle_key_at(&mut self, who: &mut Identity, key: Key, stamp: &str) -> (action: Action)
        ensures
            (Outcome { ui: final(self)@, who: final(who)@, action: action@ }) == after_key(
                old(self)@,
                old(who)@,
                key,
                stamp@,
            ),
    {
        match key {
            Key::Char('\n') => self.submit_at(who, stamp),
            _ => {
                self.edit(key);
                Action::Nothing
            },
        }
    }

    /// A key or a tick, at the moment whose stamp is `stamp`.
    pub fn handle_event_at(
        &mut self,
        who: &mut Identity,
        event: Event,
        stamp: &str,
    ) -> (action: Action)
        ensures
            (Outcome { ui: final(self)@, who: final(who)@, action: action@ }) == after_event(
                old(self)@,
                old(who)@,
                event,
                stamp@,
            ),
    {
        match event {
            Event::Input(key) => self.handle_key_at(who, key, stamp),
            Event::Tick => Action::Nothing,
        }
    }

    /// A key or a tick, now. What is written into the conversation bears the
    /// stamp of some time of day.
    pub fn handle_event(&mut self, who: &mut Identity, event: Event) -> (action: Action)
        ensures
            exists|stamp: Seq<char>|
                is_clock_text(stamp) && (Outcome {
                    ui: final(self)@,
                    who: final(who)@,
                    action: action@,
                }) == #[trigger] after_event(old(self)@, old(who)@, event, stamp),
    {
        let stamp = timestamp();
        self.handle_event_at(who, event, stamp.as_str())
    }

    /// A message from the server, at the moment whose stamp is `stamp`.
    pub fn receive_at(&mut self, tags: &TagTable, fields: &Vec<String>, stamp: &str)
        ensures
            final(self)@ == after_inbound(old(self)@, *tags, texts(fields@), stamp@),
    {
        let ghost before = self@;
        let line = inbound_text(tags, fields, stamp);
        self.history.push(line);
        proof {
            assert(self@.history =~= before.history.push(
                inbound_line(decoded(*tags, texts(fields@)), stamp@),
            ));
        }
    }

    /// A message from the server, now.
    pub fn receive(&mut self, tags: &TagTable, fields: &Vec<String>)
        ensures
            exists|stamp: Seq<char>|
                is_clock_text(stamp) && final(self)@ == #[trigger] after_inbound(
                    old(self)@,
                    *tags,
                    texts(fields@),
                    stamp,
                ),
    {
        let stamp = timestamp();
        self.receive_at(tags, fields, stamp.as_str());
    }
}

} // verus!
