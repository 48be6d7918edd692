//! What arrives from the server: the kinds of message, how a tuple of fields
//! is read as one of them, and the line that each becomes on the screen.

use vstd::prelude::*;
use crate::text::{same_text, texts};

verus! {

/// The characters by which the first field of a tuple tells its kind.
#[derive(Clone, Copy, Debug, PartialEq, Eq)]
pub struct TagTable {
    pub open: char,
    pub personal: char,
    pub protocol: char,
    pub status: char,
    pub beep: char,
}

/// Reads the tags of `icb::packets`: `T_OPEN`, `T_PERSONAL`, `T_PROTOCOL`,
/// `T_STATUS` and `T_BEEP`. Trusted: they are the five letters below.
#[verifier::external_body]
fn protocol_tags() -> (t: TagTable)
    ensures
        t.open == 'b',
        t.personal == 'c',
        t.protocol == 'j',
        t.status == 'd',
        t.beep == 'k',
{
    TagTable {
        open: icb::packets::T_OPEN,
        personal: icb::packets::T_PERSONAL,
        protocol: icb::packets::T_PROTOCOL,
        status: icb::packets::T_STATUS,
        beep: icb::packets::T_BEEP,
    }
}

impl TagTable {
    /// The tags that the protocol's packets carry.
    pub fn icb() -> (t: TagTable)
        ensures
            t.open == 'b',
            t.personal == 'c',
            t.protocol == 'j',
            t.status == 'd',
            t.beep == 'k',
    {
        protocol_tags()
    }
}

/// A message from the server.
#[derive(Clone, Debug, PartialEq, Eq)]
pub enum InboundMessage {
    Open { sender: String, text: String },
    Personal { sender: String, text: String },
    ProtocolInfo { host: String, group: String },
    Status { category: String, text: String },
    Beep { sender: String },
    Unknown { raw: String },
}

/// A message from the server, as texts.
pub enum InboundText {
    Open { sender: Seq<char>, text: Seq<char> },
    Personal { sender: Seq<char>, text: Seq<char> },
    ProtocolInfo { host: Seq<char>, group: Seq<char> },
    Status { category: Seq<char>, text: Seq<char> },
    Beep { sender: Seq<char> },
    Unknown { raw: Seq<char> },
}

impl View for InboundMessage {
    type V = InboundText;

    open spec fn view(&self) -> InboundText {
        match *self {
            InboundMessage::Open { sender, text } => InboundText::Open {
                sender: sender@,
                text: text@,
            },
            InboundMessage::Personal { sender, text } => InboundText::Personal {
                sender: sender@,
                text: text@,
            },
            InboundMessage::ProtocolInfo { host, group } => InboundText::ProtocolInfo {
                host: host@,
                group: group@,
            },
            InboundMessage::Status { category, text } => InboundText::Status {
                category: category@,
                text: text@,
            },
            InboundMessage::Beep { sender } => InboundText::Beep { sender: sender@ },
            InboundMessage::Unknown { raw } => InboundText::Unknown { raw: raw@ },
        }
    }
}

/// How `std::fmt::Debug` writes a list of strings: in square brackets, each
/// quoted and escaped.
pub uninterp spec fn debug_text(fields: Seq<Seq<char>>) -> Seq<char>;

/// Formats `fields` with `{:?}`. Trusted: the result is the `Debug` text of
/// the fields' contents.
#[verifier::external_body]
fn debug_fields(fields: &Vec<String>) -> (r: String)
    ensures
        r@ == debug_text(texts(fields@)),
{
    format!("{:?}", fields)
}

/// The message that a tuple of fields carries. The first character of the
/// first field is the tag; the fields behind it are the payload. A tuple
/// without a tag, with a tag that the table does not hold, or with fewer
/// fields than its kind needs is `Unknown`, with the whole tuple as its text.
pub open spec fn decoded(tags: TagTable, fields: Seq<Seq<char>>) -> InboundText {
    if fields.len() == 0 || fields[0].len() == 0 {
        InboundText::Unknown { raw: debug_text(fields) }
    } else if fields[0][0] == tags.open && fields.len() >= 3 {
        InboundText::Open { sender: fields[1], text: fields[2] }
    } else if fields[0][0] == tags.open {
        InboundText::Unknown { raw: debug_text(fields) }
    } else if fields[0][0] == tags.personal && fields.len() >= 3 {
        InboundText::Personal { sender: fields[1], text: fields[2] }
    } else if fields[0][0] == tags.personal {
        InboundText::Unknown { raw: debug_text(fields) }
    } else if fields[0][0] == tags.protocol && fields.len() >= 3 {
        InboundText::ProtocolInfo { host: fields[1], group: fields[2] }
    } else if fields[0][0] == tags.protocol {
        InboundText::Unknown { raw: debug_text(fields) }
    } else if fields[0][0] == tags.status && fields.len() >= 3 {
        InboundText::Status { category: fields[1], text: fields[2] }
    } else if fields[0][0] == tags.status {
        InboundText::Unknown { raw: debug_text(fields) }
    } else if fields[0][0] == tags.beep && fields.len() >= 2 {
        InboundText::Beep { sender: fields[1] }
    } else {
        InboundText::Unknown { raw: debug_text(fields) }
    }
}

/// Reads a tuple of fields as a message.
pub fn decode(tags: &TagTable, fields: &Vec<String>) -> (msg: InboundMessage)
    ensures
        msg@ == decoded(*tags, texts(fields@)),
{
    let n: usize = fields.len();
    if n == 0 || fields[0].as_str().unicode_len() == 0 {
        return InboundMessage::Unknown { raw: debug_fields(fields) };
    }
    let tag: char = fields[0].as_str().get_char(0);
    if tag == tags.open && n >= 3 {
        InboundMessage::Open { sender: fields[1].clone(), text: fields[2].clone() }
    } else if tag == tags.open {
        InboundMessage::Unknown { raw: debug_fields(fields) }
    } else if tag == tags.personal && n >= 3 {
        InboundMessage::Personal { sender: fields[1].clone(), text: fields[2].clone() }
    } else if tag == tags.personal {
        InboundMessage::Unknown { raw: debug_fields(fields) }
    } else if tag == tags.protocol && n >= 3 {
        InboundMessage::ProtocolInfo { host: fields[1].clone(), group: fields[2].clone() }
    } else if tag == tags.protocol {
        InboundMessage::Unknown { raw: debug_fields(fields) }
    } else if tag == tags.status && n >= 3 {
        InboundMessage::Status { category: fields[1].clone(), text: fields[2].clone() }
    } else if tag == tags.status {
        InboundMessage::Unknown { raw: debug_fields(fields) }
    } else if tag == tags.beep && n >= 2 {
        InboundMessage::Beep { sender: fields[1].clone() }
    } else {
        InboundMessage::Unknown { raw: debug_fields(fields) }
    }
}


/// Whether `category` is one of the kinds of status message that are shown
/// as they are.
pub open spec fn known_category(category: Seq<char>) -> bool {
    ||| category == "Arrive"@
    ||| category == "Boot"@
    ||| category == "Depart"@
    ||| category == "Help"@
    ||| category == "Name"@
    ||| category == "No-Beep"@
    ||| category == "Notify"@
    ||| category == "Sign-off"@
    ||| category == "Sign-on"@
    ||| category == "Status"@
    ||| category == "Topic"@
    ||| category == "Warning"@
}

/// Tells whether a status category is one that is shown as it is.
pub fn is_known_category(category: &str) -> (known: bool)
    ensures
        known == known_category(category@),
{
    same_text(category, "Arrive") || same_text(category, "Boot") || same_text(
        category,
        "Depart",
    ) || same_text(category, "Help") || same_text(category, "Name") || same_text(
        category,
        "No-Beep",
    ) || same_text(category, "Notify") || same_text(category, "Sign-off") || same_text(
        category,
        "Sign-on",
    ) || same_text(category, "Status") || same_text(category, "Topic") || same_text(
        category,
        "Warning",
    )
}

/// The line that a message becomes in the conversation, written at the
/// moment whose stamp is `stamp`.
pub open spec fn inbound_line(msg: InboundText, stamp: Seq<char>) -> Seq<char> {
    match msg {
        InboundText::Open { sender, text } => stamp + " <"@ + sender + "> "@ + text,
        InboundText::Personal { sender, text } => stamp + " **"@ + sender + "** "@ + text,
        InboundText::ProtocolInfo { host, group } => "==> Connected to "@ + group + " on "@
            + host,
        InboundText::Status { category, text } => if known_category(category) {
            stamp + ": "@ + text + " "@
        } else {
            "=> Message '"@ + text + "' received in unknown category '"@ + category + "'"@
        },
        InboundText::Beep { sender } => stamp + " *"@ + sender + " beeps you*"@,
        InboundText::Unknown { raw } => "msg_r: "@ + stamp + " read: "@ + raw,
    }
}

/// Writes the line that `msg` becomes in the conversation.
pub fn format_inbound(msg: &InboundMessage, stamp: &str) -> (line: String)
    ensures
        line@ == inbound_line(msg@, stamp@),
{
    match msg {
        InboundMessage::Open { sender, text } => {
            let mut r = String::from_str(stamp);
            r.append(" <");
            r.append(sender.as_str());
            r.append("> ");
            r.append(text.as_str());
            r
        },
        InboundMessage::Personal { sender, text } => {
            let mut r = String::from_str(stamp);
            r.append(" **");
            r.append(sender.as_str());
            r.append("** ");
            r.append(text.as_str());
            r
        },
        InboundMessage::ProtocolInfo { host, group } => {
            let mut r = String::from_str("==> Connected to ");
            r.append(group.as_str());
            r.append(" on ");
            r.append(host.as_str());
            r
        },
        InboundMessage::Status { category, text } => {
            if is_known_category(category.as_str()) {
                let mut r = String::from_str(stamp);
                r.append(": ");
                r.append(text.as_str());
                r.append(" ");
                r
            } else {
                let mut r = String::from_str("=> Message '");
                r.append(text.as_str());
                r.append("' received in unknown category '");
                r.append(category.as_str());
                r.append("'");
                r
            }
        },
        InboundMessage::Beep { sender } => {
            let mut r = String::from_str(stamp);
            r.append(" *");
            r.append(sender.as_str());
            r.append(" beeps you*");
            r
        },
        InboundMessage::Unknown { raw } => {
            let mut r = String::from_str("msg_r: ");
            r.append(stamp);
            r.append(" read: ");
            r.append(raw.as_str());
            r
        },
    }
}

/// Reads a tuple of fields and writes the line that it becomes.
pub fn inbound_text(tags: &TagTable, fields: &Vec<String>, stamp: &str) -> (line: String)
    ensures
        line@ == inbound_line(decoded(*tags, texts(fields@)), stamp@),
{
    let msg = decode(tags, fields);
    format_inbound(&msg, stamp)
}

} // verus!
