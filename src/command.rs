use crate::content::str_equal;
use vstd::prelude::*;

verus! {

/// A chat message read as a command.
pub enum Command {
    /// `!hello`, answered with a greeting.
    Hello,
    /// `!subscribe` followed by a topic; `rest` is what follows the keyword
    /// and `topic` is `rest` without surrounding whitespace.
    Subscribe { rest: String, topic: String },
    /// Any other message.
    Other,
}

/// Whether `p` is a prefix of `s`.
pub open spec fn starts_with(s: Seq<char>, p: Seq<char>) -> bool {
    p.len() <= s.len() && s.subrange(0, p.len() as int) == p
}

/// `s` with every leading repetition of the non-empty `p` removed.
pub open spec fn strip_repeated(s: Seq<char>, p: Seq<char>) -> Seq<char>
    decreases s.len(),
{
    if p.len() > 0 && starts_with(s, p) {
        strip_repeated(s.subrange(p.len() as int, s.len() as int), p)
    } else {
        s
    }
}

/// What a string is without leading and trailing whitespace.
pub uninterp spec fn trimmed(s: Seq<char>) -> Seq<char>;

/// Relies on `str::trim`: the slice without leading and trailing whitespace,
/// which depends on the characters alone.
#[verifier::external_body]
fn trim_str(s: &str) -> (r: &str)
    ensures
        r@ == trimmed(s@),
{
    s.trim()
}

/// The command that a message's text stands for.
pub open spec fn command_of(text: Seq<char>) -> CommandView {
    if text == "!hello"@ {
        CommandView::Hello
    } else if starts_with(text, "!subscribe"@) {
        let rest = strip_repeated(text, "!subscribe"@);
        CommandView::Subscribe { rest, topic: trimmed(rest) }
    } else {
        CommandView::Other
    }
}

/// A command as plain values.
pub enum CommandView {
    Hello,
    Subscribe { rest: Seq<char>, topic: Seq<char> },
    Other,
}

impl View for Command {
    type V = CommandView;

    open spec fn view(&self) -> CommandView {
        match self {
            Command::Hello => CommandView::Hello,
            Command::Subscribe { rest, topic } => CommandView::Subscribe {
                rest: rest@,
                topic: topic@,
            },
            Command::Other => CommandView::Other,
        }
    }
}

/// Whether `s` begins with `p`.
pub fn has_prefix(s: &str, p: &str) -> (r: bool)
    ensures
        r == starts_with(s@, p@),
{
    let n = p.unicode_len();
    if n > s.unicode_len() {
        return false;
    }
    let mut i: usize = 0;
    while i < n
        invariant
            n == p@.len(),
            n <= s@.len(),
            i <= n,
            s@.subrange(0, i as int) == p@.subrange(0, i as int),
        decreases n - i,
    {
        if s.get_char(i) != p.get_char(i) {
            assert(s@.subrange(0, n as int)[i as int] != p@[i as int]);
            return false;
        }
        assert(s@.subrange(0, i + 1) == s@.subrange(0, i as int).push(s@[i as int]));
        assert(p@.subrange(0, i + 1) == p@.subrange(0, i as int).push(p@[i as int]));
        i = i + 1;
    }
    assert(p@ == p@.subrange(0, n as int));
    true
}

/// `s` with every leading repetition of `p` removed; `s` itself when `p` is
/// empty.
pub fn strip_prefix_repeated<'a>(s: &'a str, p: &str) -> (r: &'a str)
    ensures
        r@ == strip_repeated(s@, p@),
{
    let n = p.unicode_len();
    if n == 0 {
        return s;
    }
    let mut rest = s;
    while has_prefix(rest, p)
        invariant
            n == p@.len(),
            n > 0,
            strip_repeated(rest@, p@) == strip_repeated(s@, p@),
        decreases rest@.len(),
    {
        let len = rest.unicode_len();
        rest = rest.substring_char(n, len);
    }
    rest
}

/// Reads the text of a chat message as a command: `!hello` exactly, or
/// `!subscribe` at the start.
pub fn parse_command(text: &str) -> (r: Command)
    ensures
        r@ == command_of(text@),
{
    if str_equal(text, "!hello") {
        Command::Hello
    } else if has_prefix(text, "!subscribe") {
        let rest = strip_prefix_repeated(text, "!subscribe");
        let topic = trim_str(rest);
        Command::Subscribe { rest: rest.to_string(), topic: topic.to_string() }
    } else {
        Command::Other
    }
}

} // verus!
