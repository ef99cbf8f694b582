use vstd::prelude::*;
use crate::decimal::{i64_of, i64_text, lemma_i64_round_trip, parse_i64, signed_decimal};

verus! {

/// Unique identifier for the target chat, or username of the target channel
/// (in the format `@channelusername`).
#[derive(Debug, Clone, PartialEq, Eq, PartialOrd, Ord, Hash)]
pub enum TargetChat {
    Id(i64),
    Username(String),
}

/// The value of a `TargetChat`, with the username as its characters.
pub enum TargetChatView {
    Id(i64),
    Username(Seq<char>),
}

impl View for TargetChat {
    type V = TargetChatView;

    open spec fn view(&self) -> TargetChatView {
        match self {
            TargetChat::Id(id) => TargetChatView::Id(*id),
            TargetChat::Username(name) => TargetChatView::Username(name@),
        }
    }
}

/// Whether a text starts with `@`.
pub open spec fn starts_with_at(s: Seq<char>) -> bool {
    s.len() > 0 && s[0] == '@'
}

/// The chat that a text names: a number that fits in an `i64` is an id, a
/// text that starts with `@` is a username, and anything else names none.
pub open spec fn chat_of(s: Seq<char>) -> Option<TargetChatView> {
    match i64_of(s) {
        Some(id) => Some(TargetChatView::Id(id)),
        None => if starts_with_at(s) { Some(TargetChatView::Username(s)) } else { None },
    }
}

/// The text that Telegram takes as `chat_id`.
pub open spec fn chat_id_text(c: TargetChatView) -> Seq<char> {
    match c {
        TargetChatView::Id(id) => signed_decimal(id as int),
        TargetChatView::Username(name) => name,
    }
}

/// The error of a text that is neither a number nor starts with `@`.
#[derive(Debug, Clone, Copy, PartialEq, Eq, Structural)]
pub enum TargetChatError {
    UsernameWithoutAt,
}

impl TargetChatError {
    /// A description of the error.
    pub fn message(self) -> &'static str {
        "Telegram username needs to start with an @ symbol"
    }
}

impl TargetChat {
    /// Reads a chat from text: a number that fits in an `i64` is an id; any
    /// other text must start with `@` and is kept whole as the username.
    pub fn parse(s: &str) -> (r: Result<TargetChat, TargetChatError>)
        ensures
            match chat_of(s@) {
                Some(c) => r matches Ok(t) && t@ == c,
                None => r == Err::<TargetChat, TargetChatError>(TargetChatError::UsernameWithoutAt),
            },
    {
        match parse_i64(s) {
            Some(id) => Ok(TargetChat::Id(id)),
            None => {
                if s.unicode_len() > 0 && s.get_char(0) == '@' {
                    Ok(TargetChat::Username(s.to_owned()))
                } else {
                    Err(TargetChatError::UsernameWithoutAt)
                }
            },
        }
    }

    /// The text that Telegram takes as `chat_id`: the decimal id, or the
    /// username as it is.
    pub fn to_chat_id(&self) -> (r: String)
        ensures
            r@ == chat_id_text(self@),
    {
        match self {
            TargetChat::Id(id) => i64_text(*id),
            TargetChat::Username(name) => name.clone(),
        }
    }

    /// A copy of this chat.
    pub fn duplicate(&self) -> (r: TargetChat)
        ensures
            r@ == self@,
    {
        match self {
            TargetChat::Id(id) => TargetChat::Id(*id),
            TargetChat::Username(name) => TargetChat::Username(name.clone()),
        }
    }
}

/// Reading back the `chat_id` text of a chat gives the chat again, for every
/// id and for every username that starts with `@`.
pub proof fn lemma_chat_round_trip(c: TargetChatView)
    requires
        c matches TargetChatView::Username(name) ==> starts_with_at(name),
    ensures
        chat_of(chat_id_text(c)) == Some(c),
{
    match c {
        TargetChatView::Id(id) => {
            lemma_i64_round_trip(id);
        },
        TargetChatView::Username(name) => {
            assert(i64_of(name) is None);
        },
    }
}

impl From<i64> for TargetChat {
    fn from(id: i64) -> TargetChat {
        TargetChat::Id(id)
    }
}

impl vstd::std_specs::convert::FromSpecImpl<i64> for TargetChat {
    open spec fn obeys_from_spec() -> bool {
        true
    }

    open spec fn from_spec(id: i64) -> TargetChat {
        TargetChat::Id(id)
    }
}

impl core::str::FromStr for TargetChat {
    type Err = &'static str;

    fn from_str(s: &str) -> Result<TargetChat, &'static str> {
        match TargetChat::parse(s) {
            Ok(t) => Ok(t),
            Err(e) => Err(e.message()),
        }
    }
}

} // verus!
