//! The decisions of a running chat: what a typed line does, and how an
//! incoming message is shown.
use vstd::prelude::*;
use vstd::string::StrSliceExecFns;
use vstd::string::StringExecFns;
use vstd::utf8::encode_utf8;
use crate::channel::{message_key, stamp_after, SendClock};
use crate::entry::Entry;
use crate::message::{encode, AuthorId, Message, MessageModel};
use crate::names::{display_name, hex_chars, name_entry, name_key, SHORT_LEN};

verus! {

/// The characters a name directive starts with.
pub open spec fn set_name_prefix() -> Seq<char> {
    seq!['s', 'e', 't', ' ', 'n', 'a', 'm', 'e', ' ']
}

pub open spec fn is_set_name(line: Seq<char>) -> bool {
    line.len() >= 9 && line.subrange(0, 9) == set_name_prefix()
}

/// A line typed by the user.
#[derive(Clone, Debug, PartialEq, Eq)]
pub enum Input {
    /// "set name <value>": announce `<value>` as the user's name.
    SetName(String),
    /// Anything else: a chat line.
    Chat(String),
}

/// Reads a typed line: a name directive or a chat line.
pub fn parse_input(line: &str) -> (r: Input)
    ensures
        is_set_name(line@) ==> r is SetName && r->SetName_0@ == line@.subrange(9, line@.len() as int),
        !is_set_name(line@) ==> r is Chat && r->Chat_0@ == line@,
{
    let n = line.unicode_len();
    if n >= 9 && line.get_char(0) == 's' && line.get_char(1) == 'e' && line.get_char(2) == 't'
        && line.get_char(3) == ' ' && line.get_char(4) == 'n' && line.get_char(5) == 'a'
        && line.get_char(6) == 'm' && line.get_char(7) == 'e' && line.get_char(8) == ' ' {
        assert(line@.subrange(0, 9) =~= set_name_prefix());
        Input::SetName(String::from_str(line.substring_char(9, n)))
    } else {
        assert(line@.len() >= 9 ==> line@.subrange(0, 9)[0] == line@[0]);
        proof {
            if is_set_name(line@) {
                let p = line@.subrange(0, 9);
                assert(p[0] == line@[0] && p[1] == line@[1] && p[2] == line@[2] && p[3] == line@[3]
                    && p[4] == line@[4] && p[5] == line@[5] && p[6] == line@[6] && p[7] == line@[7]
                    && p[8] == line@[8]);
            }
        }
        Input::Chat(String::from_str(line))
    }
}

/// How a delivered message is shown.
#[derive(Clone, Debug, PartialEq, Eq)]
pub enum Incoming {
    /// A chat line: show it under its author's name.
    Text { author: AuthorId, content: String },
    /// A participant announced the ticket it joined with.
    Joined { author: AuthorId },
    /// Nothing is shown for this kind of message.
    Nothing,
}

/// Sorts a delivered message for display; every kind of message is handled.
pub fn classify(m: Message) -> (r: Incoming)
    ensures
        match m@ {
            MessageModel::Text { author, content } => r is Text && r->Text_author@ == author
                && r->Text_content@ == content,
            MessageModel::Ticket { author, .. } => r is Joined && r->Joined_author@ == author,
            _ => r is Nothing,
        },
{
    match m {
        Message::TextMessage { author, content } => Incoming::Text { author, content },
        Message::ChatTicket { author, .. } => Incoming::Joined { author },
        Message::BlobMessage { .. } => Incoming::Nothing,
        Message::AuthorMessage { .. } => Incoming::Nothing,
    }
}

/// "<name>: <content>", with the author's short form where no name resolved.
pub fn text_line(resolved: &Result<String, AuthorId>, content: &str) -> (r: String)
    ensures
        r@ == match resolved {
            Ok(name) => name@,
            Err(a) => hex_chars(a@.subrange(0, SHORT_LEN as int)),
        } + seq![':', ' '] + content@,
{
    let name = display_name(resolved);
    let sep = ": ";
    proof {
        reveal_strlit(": ");
    }
    let r = name.concat(sep);
    r.concat(content)
}

/// "<short form> joined the chat".
pub fn joined_line(author: &AuthorId) -> (r: String)
    ensures
        r@ == hex_chars(author@.subrange(0, SHORT_LEN as int)) + " joined the chat"@,
{
    author.short().concat(" joined the chat")
}

/// The sending state of one participant in one session.
pub struct ChatSession {
    pub author: AuthorId,
    pub clock: SendClock,
}

impl ChatSession {
    pub fn new(author: AuthorId) -> (r: ChatSession)
        ensures
            r.author == author,
            r.clock.last is None,
    {
        ChatSession { author, clock: SendClock::new() }
    }

    /// The entry that a line typed at time `now` writes: a name directive
    /// overwrites the author's name entry; any other line is sent as a text
    /// message under a fresh, later key. `None` only when the keys are used up.
    pub fn on_line(&mut self, line: &str, now: u64) -> (r: Option<Entry>)
        ensures
            final(self).author == old(self).author,
            is_set_name(line@) ==> r is Some && r->0.key@ == name_key(old(self).author@)
                && r->0.value@ == encode_utf8(line@.subrange(9, line@.len() as int))
                && final(self).clock.last == old(self).clock.last,
            !is_set_name(line@) ==> {
                &&& r is Some <==> stamp_after(old(self).clock.last, now) is Some
                &&& r is Some ==> r->0.key@ == message_key(stamp_after(old(self).clock.last, now)->0)
                    && r->0.value@ == encode(
                    MessageModel::Text { author: old(self).author@, content: line@ },
                )
                &&& final(self).clock.last == (if r is Some {
                    stamp_after(old(self).clock.last, now)
                } else {
                    old(self).clock.last
                })
            },
    {
        match parse_input(line) {
            Input::SetName(name) => Some(name_entry(&self.author, name.as_str())),
            Input::Chat(text) => {
                let m = Message::new_text(self.author, text);
                self.clock.send_entry(now, &m)
            },
        }
    }
}

} // verus!
