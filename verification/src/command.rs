//! The command grammar: how a finished line is read, as a message for the
//! group or as one of the commands that begin with a slash.

use vstd::prelude::*;
use crate::text::{remove_first, same_text, split_tokens, texts, tokens, without_first};

verus! {

/// What is sent to the server.
#[derive(Clone, Debug, PartialEq, Eq)]
pub enum OutboundCommand {
    /// A message to the group.
    Open(String),
    /// A message to one user: the recipient, then the text.
    Personal(String, String),
    /// A beep for one user.
    Beep(String),
    /// A new nickname.
    Name(String),
}

/// What is sent to the server, as texts.
pub enum OutboundText {
    Open(Seq<char>),
    Personal(Seq<char>, Seq<char>),
    Beep(Seq<char>),
    Name(Seq<char>),
}

impl View for OutboundCommand {
    type V = OutboundText;

    open spec fn view(&self) -> OutboundText {
        match *self {
            OutboundCommand::Open(text) => OutboundText::Open(text@),
            OutboundCommand::Personal(recipient, text) => OutboundText::Personal(
                recipient@,
                text@,
            ),
            OutboundCommand::Beep(recipient) => OutboundText::Beep(recipient@),
            OutboundCommand::Name(name) => OutboundText::Name(name@),
        }
    }
}

/// A finished line, read.
#[derive(Clone, Debug, PartialEq, Eq)]
pub enum Submission {
    /// A message to the group.
    Plain { text: String },
    /// `/quit`.
    Quit,
    /// `/msg` or `/m`, a recipient and a text.
    Personal { cmd: String, recipient: String, text: String },
    /// `/beep` and a recipient.
    Beep { cmd: String, recipient: String },
    /// `/name` or `/nick` and a nickname.
    Rename { cmd: String, name: String },
    /// A line that begins with a slash and is none of the above.
    Ignored,
}

/// A finished line, read, as texts.
pub enum SubmissionText {
    Plain { text: Seq<char> },
    Quit,
    Personal { cmd: Seq<char>, recipient: Seq<char>, text: Seq<char> },
    Beep { cmd: Seq<char>, recipient: Seq<char> },
    Rename { cmd: Seq<char>, name: Seq<char> },
    Ignored,
}

impl View for Submission {
    type V = SubmissionText;

    open spec fn view(&self) -> SubmissionText {
        match *self {
            Submission::Plain { text } => SubmissionText::Plain { text: text@ },
            Submission::Quit => SubmissionText::Quit,
            Submission::Personal { cmd, recipient, text } => SubmissionText::Personal {
                cmd: cmd@,
                recipient: recipient@,
                text: text@,
            },
            Submission::Beep { cmd, recipient } => SubmissionText::Beep {
                cmd: cmd@,
                recipient: recipient@,
            },
            Submission::Rename { cmd, name } => SubmissionText::Rename { cmd: cmd@, name: name@ },
            Submission::Ignored => SubmissionText::Ignored,
        }
    }
}

/// The text of a personal message: the line without the first occurrence of
/// the command word, and then without the first occurrence of the recipient
/// between two spaces. White space that the user typed inside the text
/// stays.
pub open spec fn personal_text(
    line: Seq<char>,
    cmd: Seq<char>,
    recipient: Seq<char>,
) -> Seq<char> {
    without_first(without_first(line, cmd), " "@ + recipient + " "@)
}

/// How a finished line is read. A line that does not begin with a slash is a
/// message to the group, whole. One that does is cut into words, of which
/// the first is the command: `/quit` with any number of words; `/msg` or
/// `/m` with three words or more; `/beep`, `/name` or `/nick` with two.
/// Every other line of that kind is ignored.
pub open spec fn parsed(line: Seq<char>) -> SubmissionText {
    let words = tokens(line);
    if line.len() == 0 || line[0] != '/' {
        SubmissionText::Plain { text: line }
    } else if words.len() == 0 {
        SubmissionText::Ignored
    } else if words[0] == "/quit"@ {
        SubmissionText::Quit
    } else if (words[0] == "/msg"@ || words[0] == "/m"@) && words.len() > 2 {
        SubmissionText::Personal {
            cmd: words[0],
            recipient: words[1],
            text: personal_text(line, words[0], words[1]),
        }
    } else if words[0] == "/beep"@ && words.len() == 2 {
        SubmissionText::Beep { cmd: words[0], recipient: words[1] }
    } else if (words[0] == "/name"@ || words[0] == "/nick"@) && words.len() == 2 {
        SubmissionText::Rename { cmd: words[0], name: words[1] }
    } else {
        SubmissionText::Ignored
    }
}

/// Reads a finished line.
pub fn parse_line(line: &str) -> (r: Submission)
    ensures
        r@ == parsed(line@),
{
    if line.unicode_len() == 0 || line.get_char(0) != '/' {
        return Submission::Plain { text: String::from_str(line) };
    }
    let words = split_tokens(line);
    let count: usize = words.len();
    if count == 0 {
        return Submission::Ignored;
    }
    assert(texts(words@)[0] == words@[0]@);
    let cmd = words[0].as_str();
    if same_text(cmd, "/quit") {
        Submission::Quit
    } else if (same_text(cmd, "/msg") || same_text(cmd, "/m")) && count > 2 {
        assert(texts(words@)[1] == words@[1]@);
        let recipient = words[1].as_str();
        let mut pat = String::from_str(" ");
        pat.append(recipient);
        pat.append(" ");
        let rest = remove_first(line, cmd);
        let text = remove_first(rest.as_str(), pat.as_str());
        Submission::Personal {
            cmd: String::from_str(cmd),
            recipient: String::from_str(recipient),
            text,
        }
    } else if same_text(cmd, "/beep") && count == 2 {
        assert(texts(words@)[1] == words@[1]@);
        Submission::Beep { cmd: String::from_str(cmd), recipient: words[1].clone() }
    } else if (same_text(cmd, "/name") || same_text(cmd, "/nick")) && count == 2 {
        assert(texts(words@)[1] == words@[1]@);
        Submission::Rename { cmd: String::from_str(cmd), name: words[1].clone() }
    } else {
        Submission::Ignored
    }
}

} // verus!
