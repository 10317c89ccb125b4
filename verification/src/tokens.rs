use vstd::prelude::*;

use crate::paths::{is_space, trim_str, trim_view};

verus! {

// ---------------------------------------------------------------------------
// Parsing of drag-and-drop terminal input.
//
// A dropped selection arrives as one line holding several paths separated by
// spaces; a path may itself contain spaces when it is wrapped in double
// quotes or when its characters are escaped with a backslash.  The splitter
// is a character-by-character state machine: a backslash makes the next
// character literal, a double quote toggles a region in which spaces do not
// split, and an unterminated quote is tolerated rather than an error.
// ---------------------------------------------------------------------------

/// The splitter's state: inside a quoted region, right after an escaping
/// backslash, the token being built, and the tokens already finished.
pub struct TokenizerState {
    /// Inside an open double-quoted region.
    pub in_quotes: bool,
    /// The previous character was an escaping backslash.
    pub escaped: bool,
    /// The raw token being built.
    pub cur: Seq<char>,
    /// The raw tokens already finished, in order.
    pub done: Seq<Seq<char>>,
}

/// The splitter's starting state.
pub open spec fn tokenizer_init() -> TokenizerState {
    TokenizerState { in_quotes: false, escaped: false, cur: Seq::empty(), done: Seq::empty() }
}

/// One character of input: an escaped character is kept literally, a
/// backslash escapes the next character, a double quote toggles the quoted
/// region and is kept (stripped later), an unquoted space ends the token
/// being built, and everything else is kept.
pub open spec fn tokenizer_step(st: TokenizerState, c: char) -> TokenizerState {
    if st.escaped {
        TokenizerState { escaped: false, cur: st.cur.push(c), ..st }
    } else if c == '\\' {
        TokenizerState { escaped: true, ..st }
    } else if c == '"' {
        TokenizerState { in_quotes: !st.in_quotes, cur: st.cur.push(c), ..st }
    } else if c == ' ' && !st.in_quotes {
        if st.cur.len() > 0 {
            TokenizerState { cur: Seq::empty(), done: st.done.push(st.cur), ..st }
        } else {
            st
        }
    } else {
        TokenizerState { cur: st.cur.push(c), ..st }
    }
}

/// The splitter's state after consuming all of `s`.
pub open spec fn tokenizer_run(s: Seq<char>) -> TokenizerState
    decreases s.len(),
{
    if s.len() == 0 {
        tokenizer_init()
    } else {
        tokenizer_step(tokenizer_run(s.drop_last()), s.last())
    }
}

/// The raw tokens of `s`: the finished tokens, plus the token still being
/// built if any input went into it.
pub open spec fn raw_tokens(s: Seq<char>) -> Seq<Seq<char>> {
    let st = tokenizer_run(s);
    if st.cur.len() > 0 {
        st.done.push(st.cur)
    } else {
        st.done
    }
}

// ---------------------------------------------------------------------------
// Cleaning of one raw token.
// ---------------------------------------------------------------------------

/// `s` without leading occurrences of `q`.
pub open spec fn trim_char_start(s: Seq<char>, q: char) -> Seq<char>
    decreases s.len(),
{
    if s.len() > 0 && s[0] == q {
        trim_char_start(s.drop_first(), q)
    } else {
        s
    }
}

/// `s` without trailing occurrences of `q`.
pub open spec fn trim_char_end(s: Seq<char>, q: char) -> Seq<char>
    decreases s.len(),
{
    if s.len() > 0 && s.last() == q {
        trim_char_end(s.drop_last(), q)
    } else {
        s
    }
}

/// `s` without leading and trailing occurrences of `q`.
pub open spec fn trim_char(s: Seq<char>, q: char) -> Seq<char> {
    trim_char_end(trim_char_start(s, q), q)
}

/// A raw token cleaned into a path: whitespace trimmed, then wrapping double
/// quotes, then wrapping single quotes, then whitespace again.
pub open spec fn clean_view(s: Seq<char>) -> Seq<char> {
    trim_view(trim_char(trim_char(trim_view(s), '"'), '\''))
}

/// The cleaned tokens, in order, with those that clean to nothing dropped.
pub open spec fn cleaned_tokens(ts: Seq<Seq<char>>) -> Seq<Seq<char>>
    decreases ts.len(),
{
    if ts.len() == 0 {
        Seq::empty()
    } else {
        let rest = cleaned_tokens(ts.drop_last());
        let c = clean_view(ts.last());
        if c.len() == 0 {
            rest
        } else {
            rest.push(c)
        }
    }
}

/// The paths of one line of dropped input: the line is trimmed, split into
/// raw tokens, and each token cleaned; empty results are dropped.
pub open spec fn parse_paths_view(input: Seq<char>) -> Seq<Seq<char>> {
    cleaned_tokens(raw_tokens(trim_view(input)))
}

// ---------------------------------------------------------------------------
// Executable parsing.
// ---------------------------------------------------------------------------

/// Relies on String::push: appends exactly one character.
#[verifier::external_body]
fn push_char(s: &mut String, c: char)
    ensures
        final(s)@ == old(s)@.push(c),
{
    s.push(c);
}

/// Strips leading and trailing occurrences of `q`; the edit flow uses it to
/// unwrap a quoted file name before verification.
pub fn trim_matching(s: &str, q: char) -> (r: String)
    ensures
        r@ == trim_char(s@, q),
{
    let n = s.unicode_len();
    proof {
        assert(s@.subrange(0, n as int) =~= s@);
    }
    let mut a: usize = 0;
    while a < n && s.get_char(a) == q
        invariant
            a <= n,
            n == s@.len(),
            trim_char_start(s@, q) == trim_char_start(s@.subrange(a as int, n as int), q),
        decreases n - a,
    {
        proof {
            let t = s@.subrange(a as int, n as int);
            assert(t[0] == s@[a as int]);
            assert(t.drop_first() =~= s@.subrange(a + 1, n as int));
        }
        a = a + 1;
    }
    proof {
        let t = s@.subrange(a as int, n as int);
        if t.len() > 0 {
            assert(t[0] == s@[a as int]);
        }
        assert(trim_char_start(s@, q) == t);
    }
    let mut b: usize = n;
    while b > a && s.get_char(b - 1) == q
        invariant
            a <= b <= n,
            n == s@.len(),
            trim_char_start(s@, q) == s@.subrange(a as int, n as int),
            trim_char(s@, q) == trim_char_end(s@.subrange(a as int, b as int), q),
        decreases b,
    {
        proof {
            let t = s@.subrange(a as int, b as int);
            assert(t.last() == s@[b - 1]);
            assert(t.drop_last() =~= s@.subrange(a as int, b - 1));
        }
        b = b - 1;
    }
    proof {
        let t = s@.subrange(a as int, b as int);
        if t.len() > 0 {
            assert(t.last() == s@[b - 1]);
        }
        assert(trim_char(s@, q) == t);
    }
    String::from_str(s.substring_char(a, b))
}

/// Cleans one raw token into a path: whitespace trimmed, wrapping double and
/// single quotes stripped, whitespace trimmed again.  A token that cleans to
/// nothing is no path.
pub fn clean_path(path: &str) -> (r: Option<String>)
    ensures
        match r {
            Some(p) => p@ == clean_view(path@) && clean_view(path@).len() > 0,
            None => clean_view(path@).len() == 0,
        },
{
    let t1 = trim_str(path);
    let t2 = trim_matching(t1.as_str(), '"');
    let t3 = trim_matching(t2.as_str(), '\'');
    let t4 = trim_str(t3.as_str());
    if t4.unicode_len() == 0 {
        None
    } else {
        Some(t4)
    }
}

/// Splits one line of dropped input into paths: spaces separate tokens
/// except inside double quotes or after a backslash; each token is cleaned
/// of wrapping quotes and whitespace; tokens that clean to nothing are
/// dropped.
pub fn parse_paths(input: &str) -> (r: Vec<String>)
    ensures
        r.deep_view() == parse_paths_view(input@),
{
    let trimmed = trim_str(input);
    let s = trimmed.as_str();
    let n = s.unicode_len();
    let mut paths: Vec<String> = Vec::new();
    let mut current_path = String::new();
    let mut in_quotes = false;
    let mut escaped = false;
    let mut i: usize = 0;
    proof {
        assert(s@.subrange(0, 0) =~= Seq::<char>::empty());
        assert(paths.deep_view() =~= cleaned_tokens(tokenizer_run(s@.subrange(0, 0)).done));
    }
    while i < n
        invariant
            i <= n,
            n == s@.len(),
            s@ == trim_view(input@),
            ({
                let st = tokenizer_run(s@.subrange(0, i as int));
                &&& in_quotes == st.in_quotes
                &&& escaped == st.escaped
                &&& current_path@ == st.cur
                &&& paths.deep_view() == cleaned_tokens(st.done)
            }),
        decreases n - i,
    {
        let ghost st = tokenizer_run(s@.subrange(0, i as int));
        proof {
            let post = s@.subrange(0, i + 1);
            assert(post.drop_last() =~= s@.subrange(0, i as int));
            assert(post.last() == s@[i as int]);
            assert(tokenizer_run(post) == tokenizer_step(st, s@[i as int]));
        }
        let c = s.get_char(i);
        if escaped {
            push_char(&mut current_path, c);
            escaped = false;
        } else if c == '\\' {
            escaped = true;
        } else if c == '"' {
            in_quotes = !in_quotes;
            push_char(&mut current_path, c);
        } else if c == ' ' && !in_quotes {
            if current_path.unicode_len() > 0 {
                proof {
                    let nd = st.done.push(st.cur);
                    assert(nd.drop_last() =~= st.done);
                    assert(nd.last() == st.cur);
                }
                match clean_path(current_path.as_str()) {
                    Some(p) => {
                        paths.push(p);
                        proof {
                            let nd = st.done.push(st.cur);
                            assert(paths.deep_view() =~= cleaned_tokens(nd));
                        }
                    },
                    None => {
                        proof {
                            let nd = st.done.push(st.cur);
                            assert(paths.deep_view() =~= cleaned_tokens(nd));
                        }
                    },
                }
                current_path = String::new();
            }
        } else {
            push_char(&mut current_path, c);
        }
        i = i + 1;
    }
    proof {
        assert(s@.subrange(0, n as int) =~= s@);
    }
    if current_path.unicode_len() > 0 {
        let ghost st = tokenizer_run(s@);
        proof {
            let nd = st.done.push(st.cur);
            assert(nd.drop_last() =~= st.done);
            assert(nd.last() == st.cur);
        }
        match clean_path(current_path.as_str()) {
            Some(p) => {
                paths.push(p);
                proof {
                    let nd = st.done.push(st.cur);
                    assert(paths.deep_view() =~= cleaned_tokens(nd));
                }
            },
            None => {
                proof {
                    let nd = st.done.push(st.cur);
                    assert(paths.deep_view() =~= cleaned_tokens(nd));
                }
            },
        }
    }
    paths
}

} // verus!
