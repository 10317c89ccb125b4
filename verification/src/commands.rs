use vstd::prelude::*;

use crate::paths::{char_is_space, is_space, str_eq, trim_str, trim_view};

verus! {

// ---------------------------------------------------------------------------
// The command language of the interactive loop.
//
// One input line becomes one command.  Lines with an argument are recognized
// by their prefix, in a fixed order; anything else is classified by its
// first word.
// ---------------------------------------------------------------------------

/// One parsed input line.
#[derive(Debug, PartialEq)]
pub enum Command {
    /// `cd DIR`; wrapping double quotes around the argument are stripped.
    ChangeDir { target: String },
    /// `edit FILE`.
    Edit { filename: String },
    /// `store url FILE`.
    StoreUrl { filename: String },
    /// `store secret FILE`.
    StoreSecret { filename: String },
    /// `store critical FILE`.
    StoreCritical { filename: String },
    /// `drop`.
    Drop,
    /// `version`.
    Version,
    /// `clear`.
    Clear,
    /// `init`.
    Init,
    /// `ls`.
    List,
    /// `exit` or `quit`.
    Exit,
    /// `help`.
    Help,
    /// A blank line.
    Empty,
    /// Anything else; carries the offending first word.
    Unknown { word: String },
}

/// `s` starts with `p`.
pub open spec fn starts_with_view(s: Seq<char>, p: Seq<char>) -> bool {
    s.len() >= p.len() && s.subrange(0, p.len() as int) == p
}

/// `s` with the prefix `p` removed.
pub open spec fn drop_prefix(s: Seq<char>, p: Seq<char>) -> Seq<char> {
    s.subrange(p.len() as int, s.len() as int)
}

/// The length of the leading run of non-whitespace characters.
pub open spec fn word_end(s: Seq<char>) -> int
    decreases s.len(),
{
    if s.len() == 0 || is_space(s[0]) {
        0
    } else {
        1 + word_end(s.drop_first())
    }
}

/// The first whitespace-delimited word of `s`.
pub open spec fn first_word_view(s: Seq<char>) -> Seq<char> {
    s.subrange(0, word_end(s))
}

/// The `cd` argument of a trimmed line `t`: the rest of the line trimmed,
/// with one wrapping pair of double quotes stripped.
pub open spec fn cd_target_view(t: Seq<char>) -> Seq<char> {
    let raw = trim_view(drop_prefix(t, "cd "@));
    if raw.len() >= 2 && raw[0] == '"' && raw.last() == '"' {
        raw.subrange(1, raw.len() - 1)
    } else {
        raw
    }
}

/// The classification of a line without an argument prefix, by its first
/// word `w`.
pub open spec fn basic_command_ok(w: Seq<char>, r: Command) -> bool {
    if w == "drop"@ {
        r is Drop
    } else if w == "version"@ {
        r is Version
    } else if w == "clear"@ {
        r is Clear
    } else if w == "init"@ {
        r is Init
    } else if w == "ls"@ {
        r is List
    } else if w == "exit"@ || w == "quit"@ {
        r is Exit
    } else if w == "help"@ {
        r is Help
    } else if w.len() == 0 {
        r is Empty
    } else {
        r matches Command::Unknown { word } && word@ == w
    }
}

/// `word_end` is where the leading non-whitespace run stops.
proof fn lemma_word_end_at(s: Seq<char>, i: int)
    requires
        0 <= i <= s.len(),
        forall|j: int| 0 <= j < i ==> !is_space(#[trigger] s[j]),
        i == s.len() || is_space(s[i]),
    ensures
        word_end(s) == i,
    decreases s.len(),
{
    if i == 0 {
    } else {
        assert(!is_space(s[0]));
        let rest = s.drop_first();
        assert forall|j: int| 0 <= j < i - 1 implies !is_space(#[trigger] rest[j]) by {
            assert(rest[j] == s[j + 1]);
        }
        if i < s.len() {
            assert(rest[i - 1] == s[i]);
        }
        lemma_word_end_at(rest, i - 1);
    }
}

/// The first whitespace-delimited word.
fn first_word(s: &str) -> (r: String)
    ensures
        r@ == first_word_view(s@),
{
    let n = s.unicode_len();
    let mut i: usize = 0;
    while i < n && !char_is_space(s.get_char(i))
        invariant
            i <= n,
            n == s@.len(),
            forall|j: int| 0 <= j < i ==> !is_space(#[trigger] s@[j]),
        decreases n - i,
    {
        i = i + 1;
    }
    proof {
        lemma_word_end_at(s@, i as int);
    }
    String::from_str(s.substring_char(0, i))
}

/// The rest of `s` after the prefix `p`, or `None` when `s` does not start
/// with `p`.
fn strip_prefix_str(s: &str, p: &str) -> (r: Option<String>)
    ensures
        match r {
            Some(rest) => starts_with_view(s@, p@) && rest@ == drop_prefix(s@, p@),
            None => !starts_with_view(s@, p@),
        },
{
    let ns = s.unicode_len();
    let np = p.unicode_len();
    if ns < np {
        return None;
    }
    let mut i: usize = 0;
    while i < np
        invariant
            i <= np,
            np == p@.len(),
            ns == s@.len(),
            np <= ns,
            forall|j: int| 0 <= j < i ==> s@[j] == p@[j],
        decreases np - i,
    {
        if s.get_char(i) != p.get_char(i) {
            proof {
                if s@.subrange(0, np as int) == p@ {
                    assert(s@.subrange(0, np as int)[i as int] == s@[i as int]);
                }
            }
            return None;
        }
        i = i + 1;
    }
    proof {
        assert(s@.subrange(0, np as int) =~= p@);
    }
    Some(String::from_str(s.substring_char(np, ns)))
}

/// Parses one input line into a command.  Argument forms are recognized by
/// their prefix on the trimmed line, in a fixed order; any other line is
/// classified by its first word.
pub fn parse_command(line: &str) -> (r: Command)
    ensures
        ({
            let t = trim_view(line@);
            &&& starts_with_view(t, "cd "@) ==> (r matches Command::ChangeDir { target }
                && target@ == cd_target_view(t))
            &&& (!starts_with_view(t, "cd "@) && starts_with_view(t, "edit "@)) ==> (r matches
                Command::Edit { filename } && filename@ == trim_view(drop_prefix(t, "edit "@)))
            &&& (!starts_with_view(t, "cd "@) && !starts_with_view(t, "edit "@)
                && starts_with_view(t, "store url "@)) ==> (r matches Command::StoreUrl {
                filename,
            } && filename@ == trim_view(drop_prefix(t, "store url "@)))
            &&& (!starts_with_view(t, "cd "@) && !starts_with_view(t, "edit "@)
                && !starts_with_view(t, "store url "@) && starts_with_view(t, "store secret "@))
                ==> (r matches Command::StoreSecret { filename } && filename@ == trim_view(
                drop_prefix(t, "store secret "@),
            ))
            &&& (!starts_with_view(t, "cd "@) && !starts_with_view(t, "edit "@)
                && !starts_with_view(t, "store url "@) && !starts_with_view(t, "store secret "@)
                && starts_with_view(t, "store critical "@)) ==> (r matches
                Command::StoreCritical { filename } && filename@ == trim_view(
                drop_prefix(t, "store critical "@),
            ))
            &&& (!starts_with_view(t, "cd "@) && !starts_with_view(t, "edit "@)
                && !starts_with_view(t, "store url "@) && !starts_with_view(t, "store secret "@)
                && !starts_with_view(t, "store critical "@)) ==> basic_command_ok(
                first_word_view(t),
                r,
            )
        }),
{
    let t = trim_str(line);
    let ts = t.as_str();
    if let Some(rest) = strip_prefix_str(ts, "cd ") {
        let raw = trim_str(rest.as_str());
        let n = raw.unicode_len();
        if n >= 2 && raw.as_str().get_char(0) == '"' && raw.as_str().get_char(n - 1) == '"' {
            let inner = String::from_str(raw.as_str().substring_char(1, n - 1));
            Command::ChangeDir { target: inner }
        } else {
            Command::ChangeDir { target: raw }
        }
    } else if let Some(rest) = strip_prefix_str(ts, "edit ") {
        Command::Edit { filename: trim_str(rest.as_str()) }
    } else if let Some(rest) = strip_prefix_str(ts, "store url ") {
        Command::StoreUrl { filename: trim_str(rest.as_str()) }
    } else if let Some(rest) = strip_prefix_str(ts, "store secret ") {
        Command::StoreSecret { filename: trim_str(rest.as_str()) }
    } else if let Some(rest) = strip_prefix_str(ts, "store critical ") {
        Command::StoreCritical { filename: trim_str(rest.as_str()) }
    } else {
        let w = first_word(ts);
        if str_eq(w.as_str(), "drop") {
            Command::Drop
        } else if str_eq(w.as_str(), "version") {
            Command::Version
        } else if str_eq(w.as_str(), "clear") {
            Command::Clear
        } else if str_eq(w.as_str(), "init") {
            Command::Init
        } else if str_eq(w.as_str(), "ls") {
            Command::List
        } else if str_eq(w.as_str(), "exit") || str_eq(w.as_str(), "quit") {
            Command::Exit
        } else if str_eq(w.as_str(), "help") {
            Command::Help
        } else if w.unicode_len() == 0 {
            Command::Empty
        } else {
            Command::Unknown { word: w }
        }
    }
}

} // verus!
