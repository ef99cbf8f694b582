use vstd::prelude::*;

verus! {

/// How Telegram renders the text of a message.
#[derive(Debug, Clone, Copy, PartialEq, Eq, Structural)]
pub enum ParseMode {
    HTML,
    /// The legacy Markdown dialect; `MarkdownV2` supersedes it.
    Markdown,
    MarkdownV2,
}

/// The text that Telegram expects for each mode.
pub open spec fn mode_name(m: ParseMode) -> Seq<char> {
    match m {
        ParseMode::HTML => "HTML"@,
        ParseMode::Markdown => "Markdown"@,
        ParseMode::MarkdownV2 => "MarkdownV2"@,
    }
}

/// The ASCII lower case of a character; any other character is kept.
pub open spec fn ascii_lower(c: char) -> char {
    if 'A' <= c && c <= 'Z' {
        ((c as u32) + 32) as char
    } else {
        c
    }
}

/// Whether two texts are equal once ASCII letters are folded to lower case.
pub open spec fn same_ignoring_case(a: Seq<char>, b: Seq<char>) -> bool {
    a.len() == b.len() && forall|i: int| 0 <= i < a.len() ==> ascii_lower(a[i]) == ascii_lower(b[i])
}

/// The mode that a text names, in any mix of upper and lower case.
pub open spec fn mode_of(s: Seq<char>) -> Option<ParseMode> {
    if same_ignoring_case(s, "html"@) {
        Some(ParseMode::HTML)
    } else if same_ignoring_case(s, "markdown"@) {
        Some(ParseMode::Markdown)
    } else if same_ignoring_case(s, "markdownv2"@) {
        Some(ParseMode::MarkdownV2)
    } else {
        None
    }
}

fn lower(c: char) -> (r: char)
    ensures
        r == ascii_lower(c),
{
    if 'A' <= c && c <= 'Z' {
        let code: u32 = c as u32 + 32;
        proof {
            assert(code < 0xD800);
        }
        char_from_ascii(code)
    } else {
        c
    }
}

fn char_from_ascii(code: u32) -> (r: char)
    requires
        code < 0x80,
    ensures
        r == code as char,
{
    code as u8 as char
}

fn eq_ignoring_case(a: &str, b: &str) -> (r: bool)
    ensures
        r == same_ignoring_case(a@, b@),
{
    let n = a.unicode_len();
    if n != b.unicode_len() {
        return false;
    }
    let mut i: usize = 0;
    while i < n
        invariant
            n == a@.len(),
            n == b@.len(),
            i <= n,
            forall|j: int| 0 <= j < i ==> ascii_lower(a@[j]) == ascii_lower(b@[j]),
        decreases n - i,
    {
        if lower(a.get_char(i)) != lower(b.get_char(i)) {
            return false;
        }
        i = i + 1;
    }
    true
}

/// The error of a text that names no parse mode.
#[derive(Debug, Clone, Copy, PartialEq, Eq, Structural)]
pub enum ParseModeError {
    UnknownParseMode,
}

impl ParseMode {
    /// The text that Telegram expects for this mode.
    pub fn to_str(self) -> (r: &'static str)
        ensures
            r@ == mode_name(self),
    {
        match self {
            ParseMode::HTML => "HTML",
            ParseMode::Markdown => "Markdown",
            ParseMode::MarkdownV2 => "MarkdownV2",
        }
    }

    /// Reads a mode from its name, ignoring ASCII case.
    pub fn parse(s: &str) -> (r: Result<ParseMode, ParseModeError>)
        ensures
            match mode_of(s@) {
                Some(m) => r == Ok::<ParseMode, ParseModeError>(m),
                None => r == Err::<ParseMode, ParseModeError>(ParseModeError::UnknownParseMode),
            },
    {
        if eq_ignoring_case(s, "html") {
            Ok(ParseMode::HTML)
        } else if eq_ignoring_case(s, "markdown") {
            Ok(ParseMode::Markdown)
        } else if eq_ignoring_case(s, "markdownv2") {
            Ok(ParseMode::MarkdownV2)
        } else {
            Err(ParseModeError::UnknownParseMode)
        }
    }
}

impl core::str::FromStr for ParseMode {
    type Err = ParseModeError;

    fn from_str(s: &str) -> Result<ParseMode, ParseModeError> {
        ParseMode::parse(s)
    }
}

} // verus!

verus! {

/// Reading back the name of a mode gives the mode again.
pub proof fn lemma_mode_round_trip(m: ParseMode)
    ensures
        mode_of(mode_name(m)) == Some(m),
{
    reveal_strlit("HTML");
    reveal_strlit("html");
    reveal_strlit("Markdown");
    reveal_strlit("markdown");
    reveal_strlit("MarkdownV2");
    reveal_strlit("markdownv2");
    match m {
        ParseMode::HTML => {
            assert(same_ignoring_case("HTML"@, "html"@));
        },
        ParseMode::Markdown => {
            assert(!same_ignoring_case("Markdown"@, "html"@));
            assert(same_ignoring_case("Markdown"@, "markdown"@));
        },
        ParseMode::MarkdownV2 => {
            assert(!same_ignoring_case("MarkdownV2"@, "html"@));
            assert(!same_ignoring_case("MarkdownV2"@, "markdown"@));
            assert(same_ignoring_case("MarkdownV2"@, "markdownv2"@));
        },
    }
}

} // verus!
