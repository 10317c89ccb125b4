use vstd::prelude::*;

verus! {

// ---------------------------------------------------------------------------
// The mathematical model of paths.
//
// A path is its sequence of characters.  Canonical paths — what the operating
// system's canonicalization hands back — are absolute, free of repeated
// separators and never end in a separator (except the root itself).
// ---------------------------------------------------------------------------

/// An absolute path: it starts with the separator.
pub open spec fn is_abs(s: Seq<char>) -> bool {
    s.len() > 0 && s[0] == '/'
}

/// Joining a relative path onto a base, as path joining does: a single
/// separator stands between them, and an empty base contributes nothing.
pub open spec fn path_join(base: Seq<char>, rel: Seq<char>) -> Seq<char> {
    if base.len() == 0 {
        rel
    } else if base.last() == '/' {
        base + rel
    } else {
        base + seq!['/'] + rel
    }
}

/// Resolving user input against a current directory: absolute input stands
/// alone, relative input is joined onto the current directory.
pub open spec fn resolved_path(current: Seq<char>, p: Seq<char>) -> Seq<char> {
    if is_abs(p) {
        p
    } else {
        path_join(current, p)
    }
}

/// The shape of a canonicalized path: absolute, no doubled separator, and no
/// trailing separator unless it is the root alone.
pub open spec fn is_canonical(s: Seq<char>) -> bool {
    &&& is_abs(s)
    &&& (s.len() == 1 || s.last() != '/')
    &&& forall|i: int| 0 <= i < s.len() - 1 ==> !((#[trigger] s[i]) == '/' && s[i + 1] == '/')
}

/// Containment of one path under another, at component boundaries: `p` is
/// `base` itself, or extends it right after a separator.
pub open spec fn is_under(base: Seq<char>, p: Seq<char>) -> bool {
    ||| p == base
    ||| (p.len() > base.len() && p.subrange(0, base.len() as int) == base && (base
        =~= seq!['/'] || p[base.len() as int] == '/'))
}

/// The index of the last separator in `s`, or -1 if there is none.
pub open spec fn last_slash(s: Seq<char>) -> int
    decreases s.len(),
{
    if s.len() == 0 {
        -1
    } else if s.last() == '/' {
        s.len() - 1
    } else {
        last_slash(s.drop_last())
    }
}

/// The parent of a canonical path: everything before the last separator, or
/// the root when the last separator leads.
pub open spec fn parent_of(s: Seq<char>) -> Seq<char> {
    if last_slash(s) <= 0 {
        seq!['/']
    } else {
        s.subrange(0, last_slash(s))
    }
}

/// The final component of a path: everything after the last separator.  Empty
/// when the path ends in a separator — such a path names no component.
pub open spec fn base_name_of(s: Seq<char>) -> Seq<char> {
    s.subrange(last_slash(s) + 1, s.len() as int)
}

/// The remainder of `p` once the prefix `base` and its separator are removed;
/// meaningful when `is_under(base, p)`.
pub open spec fn relative_to(base: Seq<char>, p: Seq<char>) -> Seq<char> {
    if p == base {
        Seq::<char>::empty()
    } else if base =~= seq!['/'] {
        p.subrange(1, p.len() as int)
    } else {
        p.subrange(base.len() as int + 1, p.len() as int)
    }
}

// ---------------------------------------------------------------------------
// Facts about the model.
// ---------------------------------------------------------------------------

/// `last_slash` points at a separator (when there is one) and nothing after
/// it is a separator.
proof fn lemma_last_slash_bounds(s: Seq<char>)
    ensures
        -1 <= last_slash(s) < s.len(),
        last_slash(s) >= 0 ==> s[last_slash(s)] == '/',
        forall|j: int| last_slash(s) < j < s.len() ==> s[j] != '/',
    decreases s.len(),
{
    if s.len() == 0 {
    } else if s.last() == '/' {
    } else {
        lemma_last_slash_bounds(s.drop_last());
        assert forall|j: int| last_slash(s) < j < s.len() implies s[j] != '/' by {
            if j < s.len() - 1 {
                assert(s.drop_last()[j] != '/');
            }
        }
    }
}

/// A separator at index `k` bounds `last_slash` from below.
proof fn lemma_last_slash_at_least(s: Seq<char>, k: int)
    requires
        0 <= k < s.len(),
        s[k] == '/',
    ensures
        last_slash(s) >= k,
    decreases s.len(),
{
    if s.last() == '/' {
    } else {
        assert(k < s.len() - 1);
        assert(s.drop_last()[k] == '/');
        lemma_last_slash_at_least(s.drop_last(), k);
    }
}

/// The parent of a canonical path strictly below `base` stays under `base`,
/// and is itself canonical.
pub proof fn lemma_parent_stays_under(base: Seq<char>, p: Seq<char>)
    requires
        is_canonical(base),
        is_canonical(p),
        is_under(base, p),
        p != base,
    ensures
        is_canonical(parent_of(p)),
        is_under(base, parent_of(p)),
{
    lemma_last_slash_bounds(p);
    let k = last_slash(p);
    if base =~= seq!['/'] {
        assert(p[0] == '/');
        lemma_last_slash_at_least(p, 0);
        if k == 0 {
            assert(parent_of(p) =~= base);
        } else {
            let q = parent_of(p);
            assert(q == p.subrange(0, k));
            assert(q[0] == '/');
            // no trailing separator: p has no doubled separator and p[k] == '/'
            assert(p[k] == '/');
            assert(q.last() == p[k - 1]);
            assert(!(p[k - 1] == '/' && p[k] == '/'));
            assert(is_canonical(q));
            assert(q.len() > 1) by {
                if k == 1 {
                    assert(p[0] == '/' && p[1] == '/');
                }
            }
            assert(q.subrange(0, 1) =~= base);
            assert(is_under(base, q));
        }
    } else {
        // p extends base after a separator at index base.len()
        assert(p[base.len() as int] == '/');
        lemma_last_slash_at_least(p, base.len() as int);
        if k == base.len() {
            assert(parent_of(p) =~= base);
        } else {
            let q = parent_of(p);
            assert(k > base.len());
            assert(q == p.subrange(0, k));
            assert(q[0] == p[0]);
            assert(p[k] == '/');
            assert(q.last() == p[k - 1]);
            assert(!(p[k - 1] == '/' && p[k] == '/'));
            assert(is_canonical(q));
            assert(q.subrange(0, base.len() as int) =~= p.subrange(0, base.len() as int));
            assert(q[base.len() as int] == p[base.len() as int]);
            assert(is_under(base, q));
        }
    }
}

// ---------------------------------------------------------------------------
// Executable helpers, each proved against the model.
// ---------------------------------------------------------------------------

/// Character-wise string equality.
pub fn str_eq(a: &str, b: &str) -> (r: bool)
    ensures
        r == (a@ == b@),
{
    let n = a.unicode_len();
    if n != b.unicode_len() {
        return false;
    }
    let mut i: usize = 0;
    while i < n
        invariant
            i <= n,
            n == a@.len(),
            n == b@.len(),
            forall|j: int| 0 <= j < i ==> a@[j] == b@[j],
        decreases n - i,
    {
        if a.get_char(i) != b.get_char(i) {
            return false;
        }
        i = i + 1;
    }
    proof {
        assert(a@ =~= b@);
    }
    true
}

/// Whether `s` starts with the separator.
pub fn is_absolute_path(s: &str) -> (r: bool)
    ensures
        r == is_abs(s@),
{
    if s.unicode_len() == 0 {
        false
    } else {
        s.get_char(0) == '/'
    }
}

/// Joins `rel` onto `base` with a single separator.
pub fn join_path(base: &str, rel: &str) -> (r: String)
    ensures
        r@ == path_join(base@, rel@),
{
    let n = base.unicode_len();
    if n == 0 {
        String::from_str(rel)
    } else if base.get_char(n - 1) == '/' {
        String::from_str(base).concat(rel)
    } else {
        let r = String::from_str(base).concat("/").concat(rel);
        proof {
            reveal_strlit("/");
            assert(r@ =~= path_join(base@, rel@));
        }
        r
    }
}

/// Resolves `p` against `current`: absolute input stands alone, relative
/// input is joined onto `current`.
pub fn resolve_against(current: &str, p: &str) -> (r: String)
    ensures
        r@ == resolved_path(current@, p@),
{
    if is_absolute_path(p) {
        String::from_str(p)
    } else {
        join_path(current, p)
    }
}

/// Whether `s` has the canonical shape: absolute, no doubled separator, no
/// trailing separator except the root alone.
pub fn is_canonical_path(s: &str) -> (r: bool)
    ensures
        r == is_canonical(s@),
{
    let n = s.unicode_len();
    if n == 0 {
        return false;
    }
    if s.get_char(0) != '/' {
        return false;
    }
    if n > 1 && s.get_char(n - 1) == '/' {
        return false;
    }
    let mut i: usize = 0;
    while i + 1 < n
        invariant
            n == s@.len(),
            i < n,
            forall|j: int| 0 <= j < i ==> !((#[trigger] s@[j]) == '/' && s@[j + 1] == '/'),
        decreases n - i,
    {
        if s.get_char(i) == '/' && s.get_char(i + 1) == '/' {
            return false;
        }
        i = i + 1;
    }
    true
}

/// Containment at component boundaries: `p` equals `base` or extends it right
/// after a separator.
pub fn path_is_under(base: &str, p: &str) -> (r: bool)
    ensures
        r == is_under(base@, p@),
{
    let nb = base.unicode_len();
    let np = p.unicode_len();
    if np < nb {
        return false;
    }
    let mut i: usize = 0;
    while i < nb
        invariant
            i <= nb,
            nb == base@.len(),
            np == p@.len(),
            nb <= np,
            forall|j: int| 0 <= j < i ==> p@[j] == base@[j],
        decreases nb - i,
    {
        if p.get_char(i) != base.get_char(i) {
            proof {
                assert(p@ != base@);
                assert(nb <= np);
                if p@.len() > base@.len() && p@.subrange(0, nb as int) == base@ {
                    assert(p@.subrange(0, nb as int)[i as int] == p@[i as int]);
                }
            }
            return false;
        }
        i = i + 1;
    }
    if np == nb {
        proof {
            assert(p@ =~= base@);
        }
        return true;
    }
    proof {
        assert(p@.subrange(0, nb as int) =~= base@);
        assert(p@ != base@);
    }
    if nb == 1 && base.get_char(0) == '/' {
        proof {
            assert(base@ =~= seq!['/']);
        }
        return true;
    }
    proof {
        if base@ =~= seq!['/'] {
            assert(base@.len() == 1 && base@[0] == '/');
        }
    }
    p.get_char(nb) == '/'
}

/// Finds the last separator, as an index shifted by one: 0 means none, `k`
/// means the last separator sits at `k - 1`.
fn last_slash_shifted(s: &str) -> (r: usize)
    ensures
        r == last_slash(s@) + 1,
{
    let n = s.unicode_len();
    proof {
        assert(s@.subrange(0, n as int) =~= s@);
    }
    let mut i: usize = n;
    while i > 0
        invariant
            i <= n,
            n == s@.len(),
            last_slash(s@) == last_slash(s@.subrange(0, i as int)),
        decreases i,
    {
        if s.get_char(i - 1) == '/' {
            proof {
                let t = s@.subrange(0, i as int);
                assert(t.last() == s@[i - 1]);
                assert(last_slash(t) == i - 1);
            }
            return i;
        }
        proof {
            let t = s@.subrange(0, i as int);
            assert(t.last() == s@[i - 1]);
            assert(t.last() != '/');
            assert(t.drop_last() =~= s@.subrange(0, i - 1));
        }
        i = i - 1;
    }
    proof {
        assert(s@.subrange(0, 0) =~= Seq::<char>::empty());
    }
    0
}

/// The parent of a canonical path: everything before the last separator, or
/// the root.
pub fn parent_path(s: &str) -> (r: String)
    ensures
        r@ == parent_of(s@),
{
    let k = last_slash_shifted(s);
    if k <= 1 {
        let r = String::from_str("/");
        proof {
            reveal_strlit("/");
            assert(r@ =~= parent_of(s@));
        }
        r
    } else {
        proof {
            lemma_last_slash_bounds(s@);
        }
        String::from_str(s.substring_char(0, k - 1))
    }
}

/// The final component of a path; `None` when the path ends in a separator
/// and so names no component.
pub fn base_name(s: &str) -> (r: Option<String>)
    ensures
        match r {
            Some(name) => name@ == base_name_of(s@) && base_name_of(s@).len() > 0,
            None => base_name_of(s@).len() == 0,
        },
{
    let k = last_slash_shifted(s);
    let n = s.unicode_len();
    proof {
        lemma_last_slash_bounds(s@);
    }
    if k >= n {
        None
    } else {
        Some(String::from_str(s.substring_char(k, n)))
    }
}

/// The remainder of `p` under `base`; meaningful when `is_under(base@, p@)`.
pub fn relative_path_from(base: &str, p: &str) -> (r: String)
    requires
        is_under(base@, p@),
    ensures
        r@ == relative_to(base@, p@),
{
    let nb = base.unicode_len();
    let np = p.unicode_len();
    if np == nb {
        proof {
            assert(p@.subrange(0, nb as int) =~= p@);
            assert(p@ == base@);
        }
        String::new()
    } else if nb == 1 && base.get_char(0) == '/' {
        proof {
            assert(base@ =~= seq!['/']);
        }
        String::from_str(p.substring_char(1, np))
    } else {
        proof {
            assert(!(base@ =~= seq!['/'])) by {
                if base@ =~= seq!['/'] {
                    assert(base@.len() == 1 && base@[0] == '/');
                }
            }
            assert(p@ != base@);
            assert(np > nb);
        }
        String::from_str(p.substring_char(nb + 1, np))
    }
}

// ---------------------------------------------------------------------------
// Whitespace trimming, shared by the input parsers.
// ---------------------------------------------------------------------------

/// The whitespace that terminal input carries.
pub open spec fn is_space(c: char) -> bool {
    c == ' ' || c == '\t' || c == '\n' || c == '\r'
}

/// `s` without leading whitespace.
pub open spec fn trim_start_view(s: Seq<char>) -> Seq<char>
    decreases s.len(),
{
    if s.len() > 0 && is_space(s[0]) {
        trim_start_view(s.drop_first())
    } else {
        s
    }
}

/// `s` without trailing whitespace.
pub open spec fn trim_end_view(s: Seq<char>) -> Seq<char>
    decreases s.len(),
{
    if s.len() > 0 && is_space(s.last()) {
        trim_end_view(s.drop_last())
    } else {
        s
    }
}

/// `s` without leading and trailing whitespace.
pub open spec fn trim_view(s: Seq<char>) -> Seq<char> {
    trim_end_view(trim_start_view(s))
}

/// Whether `c` is whitespace as terminal input carries it.
pub fn char_is_space(c: char) -> (r: bool)
    ensures
        r == is_space(c),
{
    c == ' ' || c == '\t' || c == '\n' || c == '\r'
}

/// Strips leading and trailing whitespace.
pub fn trim_str(s: &str) -> (r: String)
    ensures
        r@ == trim_view(s@),
{
    let n = s.unicode_len();
    proof {
        assert(s@.subrange(0, n as int) =~= s@);
    }
    let mut a: usize = 0;
    while a < n && char_is_space(s.get_char(a))
        invariant
            a <= n,
            n == s@.len(),
            trim_start_view(s@) == trim_start_view(s@.subrange(a as int, n as int)),
        decreases n - a,
    {
        proof {
            let t = s@.subrange(a as int, n as int);
            assert(t[0] == s@[a as int]);
            assert(t.drop_first() =~= s@.subrange(a + 1, n as int));
        }
        a = a + 1;
    }
    proof {
        let t = s@.subrange(a as int, n as int);
        if t.len() > 0 {
            assert(t[0] == s@[a as int]);
        }
        assert(trim_start_view(s@) == t);
    }
    let mut b: usize = n;
    while b > a && char_is_space(s.get_char(b - 1))
        invariant
            a <= b <= n,
            n == s@.len(),
            trim_start_view(s@) == s@.subrange(a as int, n as int),
            trim_view(s@) == trim_end_view(s@.subrange(a as int, b as int)),
        decreases b,
    {
        proof {
            let t = s@.subrange(a as int, b as int);
            assert(t.last() == s@[b - 1]);
            assert(t.drop_last() =~= s@.subrange(a as int, b - 1));
        }
        b = b - 1;
    }
    proof {
        let t = s@.subrange(a as int, b as int);
        if t.len() > 0 {
            assert(t.last() == s@[b - 1]);
        }
        assert(trim_view(s@) == t);
    }
    String::from_str(s.substring_char(a, b))
}

} // verus!
