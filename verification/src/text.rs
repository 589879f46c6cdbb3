//! Character-level helpers on string slices: trimming white space, stripping
//! a leading run of one character, prefix tests and comparison.
use vstd::prelude::*;
use vstd::view::View as _;

verus! {

/// Whether `c` has the Unicode `White_Space` property, which `char::is_whitespace`
/// tests: U+0009 to U+000D, U+0020, U+0085, U+00A0, U+1680, U+2000 to U+200A,
/// U+2028, U+2029, U+202F, U+205F and U+3000.
pub open spec fn unicode_white_space(c: char) -> bool {
    let u = c as u32;
    ||| 0x09 <= u <= 0x0d
    ||| u == 0x20
    ||| u == 0x85
    ||| u == 0xa0
    ||| u == 0x1680
    ||| 0x2000 <= u <= 0x200a
    ||| u == 0x2028
    ||| u == 0x2029
    ||| u == 0x202f
    ||| u == 0x205f
    ||| u == 0x3000
}

/// Whether `c` is white space, as `char::is_whitespace` decides.
pub fn is_white_space(c: char) -> (r: bool)
    ensures
        r == unicode_white_space(c),
{
    let u = c as u32;
    (0x09 <= u && u <= 0x0d) || u == 0x20 || u == 0x85 || u == 0xa0 || u == 0x1680 || (0x2000
        <= u && u <= 0x200a) || u == 0x2028 || u == 0x2029 || u == 0x202f || u == 0x205f || u
        == 0x3000
}

/// `s` without its leading run of characters that satisfy `p`.
pub open spec fn skip_leading(s: Seq<char>, p: spec_fn(char) -> bool) -> Seq<char>
    decreases s.len(),
{
    if s.len() > 0 && p(s[0]) {
        skip_leading(s.drop_first(), p)
    } else {
        s
    }
}

/// `s` without its trailing run of characters that satisfy `p`.
pub open spec fn skip_trailing(s: Seq<char>, p: spec_fn(char) -> bool) -> Seq<char>
    decreases s.len(),
{
    if s.len() > 0 && p(s.last()) {
        skip_trailing(s.drop_last(), p)
    } else {
        s
    }
}

/// `s` with leading and trailing white space removed, as `str::trim` does.
pub open spec fn trimmed(s: Seq<char>) -> Seq<char> {
    skip_trailing(skip_leading(s, |c: char| unicode_white_space(c)), |c: char| unicode_white_space(c))
}

/// `s` without its leading '/' characters, as `str::trim_start_matches('/')` does.
pub open spec fn without_leading_slashes(s: Seq<char>) -> Seq<char> {
    skip_leading(s, |c: char| c == '/')
}

/// Skipping a prefix whose characters all satisfy `p` does not change what
/// `skip_leading` leaves.
pub proof fn lemma_skip_leading_prefix(s: Seq<char>, p: spec_fn(char) -> bool, i: int)
    requires
        0 <= i <= s.len(),
        forall|k: int| 0 <= k < i ==> #[trigger] p(s[k]),
    ensures
        skip_leading(s, p) == skip_leading(s.subrange(i, s.len() as int), p),
    decreases i,
{
    if i > 0 {
        assert(s.drop_first() =~= s.subrange(1, s.len() as int));
        lemma_skip_leading_prefix(s.drop_first(), p, i - 1);
        assert(s.drop_first().subrange(i - 1, s.drop_first().len() as int) =~= s.subrange(
            i,
            s.len() as int,
        ));
    } else {
        assert(s.subrange(0, s.len() as int) =~= s);
    }
}

/// Skipping a suffix whose characters all satisfy `p` does not change what
/// `skip_trailing` leaves.
pub proof fn lemma_skip_trailing_suffix(s: Seq<char>, p: spec_fn(char) -> bool, j: int)
    requires
        0 <= j <= s.len(),
        forall|k: int| j <= k < s.len() ==> #[trigger] p(s[k]),
    ensures
        skip_trailing(s, p) == skip_trailing(s.subrange(0, j), p),
    decreases s.len() - j,
{
    if j < s.len() {
        assert(s.drop_last() =~= s.subrange(0, s.len() - 1));
        lemma_skip_trailing_suffix(s.drop_last(), p, j);
        assert(s.drop_last().subrange(0, j) =~= s.subrange(0, j));
    } else {
        assert(s.subrange(0, j) =~= s);
    }
}

/// Leading and trailing white space removed, as `str::trim` does.
pub fn trim(s: &str) -> (r: &str)
    ensures
        r@ == trimmed(s@),
{
    let ghost ws = |c: char| unicode_white_space(c);
    let n = s.unicode_len();
    let mut i: usize = 0;
    while i < n && is_white_space(s.get_char(i))
        invariant
            n == s@.len(),
            i <= n,
            ws == (|c: char| unicode_white_space(c)),
            forall|k: int| 0 <= k < i ==> #[trigger] ws(s@[k]),
        decreases n - i,
    {
        i = i + 1;
    }
    let ghost rest = s@.subrange(i as int, n as int);
    proof {
        lemma_skip_leading_prefix(s@, ws, i as int);
        assert(skip_leading(rest, ws) == rest);
    }
    let mut j: usize = n;
    while j > i && is_white_space(s.get_char(j - 1))
        invariant
            n == s@.len(),
            i <= j <= n,
            rest == s@.subrange(i as int, n as int),
            ws == (|c: char| unicode_white_space(c)),
            forall|k: int| j - i <= k < rest.len() ==> #[trigger] ws(rest[k]),
        decreases j,
    {
        j = j - 1;
    }
    proof {
        lemma_skip_trailing_suffix(rest, ws, j - i);
        let kept = rest.subrange(0, j - i);
        assert(kept =~= s@.subrange(i as int, j as int));
        assert(skip_trailing(kept, ws) == kept);
    }
    s.substring_char(i, j)
}

/// `s` without its leading '/' characters, as `str::trim_start_matches('/')` does.
pub fn strip_leading_slashes(s: &str) -> (r: &str)
    ensures
        r@ == without_leading_slashes(s@),
{
    let ghost slash = |c: char| c == '/';
    let n = s.unicode_len();
    let mut i: usize = 0;
    while i < n && s.get_char(i) == '/'
        invariant
            n == s@.len(),
            i <= n,
            slash == (|c: char| c == '/'),
            forall|k: int| 0 <= k < i ==> #[trigger] slash(s@[k]),
        decreases n - i,
    {
        i = i + 1;
    }
    proof {
        lemma_skip_leading_prefix(s@, slash, i as int);
        let rest = s@.subrange(i as int, n as int);
        assert(skip_leading(rest, slash) == rest);
    }
    s.substring_char(i, n)
}

/// Whether the last character of `s` is '/'.
pub fn ends_with_slash(s: &str) -> (r: bool)
    ensures
        r == (s@.len() > 0 && s@.last() == '/'),
{
    let n = s.unicode_len();
    n > 0 && s.get_char(n - 1) == '/'
}

/// Whether `a` and `b` hold the same characters.
pub fn same_text(a: &str, b: &str) -> (r: bool)
    ensures
        r == (a@ == b@),
{
    String::from_str(a) == String::from_str(b)
}

/// What follows `prefix` in `s`, where `s` starts with `prefix`, as `str::strip_prefix` does.
pub fn strip_prefix<'a>(s: &'a str, prefix: &str) -> (r: Option<&'a str>)
    ensures
        match r {
            Some(rest) => prefix@.is_prefix_of(s@) && rest@ == s@.skip(prefix@.len() as int),
            None => !prefix@.is_prefix_of(s@),
        },
{
    let n = s.unicode_len();
    let m = prefix.unicode_len();
    if m > n {
        return None;
    }
    let head = s.substring_char(0, m);
    if same_text(head, prefix) {
        Some(s.substring_char(m, n))
    } else {
        proof {
            if prefix@.is_prefix_of(s@) {
                assert(head@ =~= prefix@);
            }
        }
        None
    }
}

/// What `skip_leading` leaves of `s + t`: the rest of `s`, then `t`, where `s`
/// holds a character that does not satisfy `p`; otherwise what it leaves of `t`.
pub proof fn lemma_skip_leading_append(s: Seq<char>, t: Seq<char>, p: spec_fn(char) -> bool)
    ensures
        (exists|k: int| 0 <= k < s.len() && !p(#[trigger] s[k])) ==> skip_leading(s + t, p)
            == skip_leading(s, p) + t,
        (forall|k: int| 0 <= k < s.len() ==> p(#[trigger] s[k])) ==> skip_leading(s + t, p)
            == skip_leading(t, p) && skip_leading(s, p) == Seq::<char>::empty(),
    decreases s.len(),
{
    if s.len() == 0 {
        assert(s + t =~= t);
    } else if p(s[0]) {
        assert((s + t).drop_first() =~= s.drop_first() + t);
        lemma_skip_leading_append(s.drop_first(), t, p);
        if exists|k: int| 0 <= k < s.len() && !p(#[trigger] s[k]) {
            let k = choose|k: int| 0 <= k < s.len() && !p(#[trigger] s[k]);
            assert(!p(s.drop_first()[k - 1]));
        }
        if forall|k: int| 0 <= k < s.len() ==> p(#[trigger] s[k]) {
            assert forall|k: int| 0 <= k < s.drop_first().len() implies p(
                #[trigger] s.drop_first()[k],
            ) by {
                assert(p(s[k + 1]));
            }
        }
    } else {
        assert((s + t)[0] == s[0]);
    }
}

/// Characters that satisfy `p` at the front are all that `skip_leading` drops.
pub proof fn lemma_skip_leading_all(s: Seq<char>, p: spec_fn(char) -> bool)
    requires
        forall|k: int| 0 <= k < s.len() ==> #[trigger] p(s[k]),
    ensures
        skip_leading(s, p) == Seq::<char>::empty(),
{
    lemma_skip_leading_prefix(s, p, s.len() as int);
    assert(s.subrange(s.len() as int, s.len() as int) =~= Seq::<char>::empty());
}

/// White space put before and after a string does not change what trimming leaves.
pub proof fn lemma_trimmed_padding(before: Seq<char>, s: Seq<char>, after: Seq<char>)
    requires
        forall|k: int| 0 <= k < before.len() ==> unicode_white_space(#[trigger] before[k]),
        forall|k: int| 0 <= k < after.len() ==> unicode_white_space(#[trigger] after[k]),
    ensures
        trimmed(before + s + after) == trimmed(s),
{
    let ws = |c: char| unicode_white_space(c);
    let x = before + s + after;
    lemma_skip_leading_prefix(x, ws, before.len() as int);
    assert(x.subrange(before.len() as int, x.len() as int) =~= s + after);
    lemma_skip_leading_append(s, after, ws);
    if exists|k: int| 0 <= k < s.len() && !ws(#[trigger] s[k]) {
        let l = skip_leading(s, ws);
        lemma_skip_trailing_suffix(l + after, ws, l.len() as int);
        assert((l + after).subrange(0, l.len() as int) =~= l);
    } else {
        assert forall|k: int| 0 <= k < s.len() implies ws(#[trigger] s[k]) by {}
        lemma_skip_leading_all(after, ws);
    }
}

/// A '/' put before a path is stripped with the others.
pub proof fn lemma_slash_before(q: Seq<char>)
    ensures
        without_leading_slashes("/"@ + q) == without_leading_slashes(q),
{
    reveal_strlit("/");
    assert(("/"@ + q).drop_first() =~= q);
}

/// Stripping leading '/' characters twice strips no more than once.
pub proof fn lemma_strip_slashes_twice(q: Seq<char>)
    ensures
        without_leading_slashes(without_leading_slashes(q)) == without_leading_slashes(q),
    decreases q.len(),
{
    if q.len() > 0 && q[0] == '/' {
        lemma_strip_slashes_twice(q.drop_first());
    }
}

/// `skip_leading` and `skip_trailing` never lengthen a sequence, and shorten
/// one whose first (last) character satisfies `p`.
pub proof fn lemma_skip_shortens(s: Seq<char>, p: spec_fn(char) -> bool)
    ensures
        skip_leading(s, p).len() <= s.len(),
        skip_trailing(s, p).len() <= s.len(),
        s.len() > 0 && p(s[0]) ==> skip_leading(s, p).len() < s.len(),
        s.len() > 0 && p(s.last()) ==> skip_trailing(s, p).len() < s.len(),
    decreases s.len(),
{
    if s.len() > 0 {
        lemma_skip_shortens(s.drop_first(), p);
        lemma_skip_shortens(s.drop_last(), p);
    }
}

/// A string that trimming leaves as it is neither starts nor ends with white space.
pub proof fn lemma_trimmed_ends(s: Seq<char>)
    requires
        trimmed(s) == s,
        s.len() > 0,
    ensures
        !unicode_white_space(s[0]),
        !unicode_white_space(s.last()),
{
    let ws = |c: char| unicode_white_space(c);
    lemma_skip_shortens(s, ws);
    let l = skip_leading(s, ws);
    lemma_skip_shortens(l, ws);
    assert(l.len() == s.len());
    if unicode_white_space(s.last()) {
        assert(l == s);
        assert(ws(l.last()));
    }
}

/// `skip_leading` drops exactly the leading run of characters that satisfy `p`.
pub proof fn lemma_skip_leading_run(s: Seq<char>, p: spec_fn(char) -> bool) -> (i: int)
    ensures
        0 <= i <= s.len(),
        skip_leading(s, p) == s.subrange(i, s.len() as int),
        forall|k: int| 0 <= k < i ==> #[trigger] p(s[k]),
        i < s.len() ==> !p(s[i]),
    decreases s.len(),
{
    if s.len() > 0 && p(s[0]) {
        let j = lemma_skip_leading_run(s.drop_first(), p);
        assert(s.drop_first().subrange(j, s.drop_first().len() as int) =~= s.subrange(
            j + 1,
            s.len() as int,
        ));
        assert forall|k: int| 0 <= k < j + 1 implies #[trigger] p(s[k]) by {
            if k > 0 {
                assert(p(s.drop_first()[k - 1]));
            }
        }
        if j + 1 < s.len() {
            assert(s[j + 1] == s.drop_first()[j]);
        }
        j + 1
    } else {
        assert(s.subrange(0, s.len() as int) =~= s);
        0
    }
}

/// `skip_trailing` drops exactly the trailing run of characters that satisfy `p`.
pub proof fn lemma_skip_trailing_run(s: Seq<char>, p: spec_fn(char) -> bool) -> (j: int)
    ensures
        0 <= j <= s.len(),
        skip_trailing(s, p) == s.subrange(0, j),
        forall|k: int| j <= k < s.len() ==> #[trigger] p(s[k]),
        j > 0 ==> !p(s[j - 1]),
    decreases s.len(),
{
    if s.len() > 0 && p(s.last()) {
        let j = lemma_skip_trailing_run(s.drop_last(), p);
        assert(s.drop_last().subrange(0, j) =~= s.subrange(0, j));
        assert forall|k: int| j <= k < s.len() implies #[trigger] p(s[k]) by {
            if k < s.len() - 1 {
                assert(p(s.drop_last()[k]));
            }
        }
        if j > 0 {
            assert(s[j - 1] == s.drop_last()[j - 1]);
        }
        j
    } else {
        assert(s.subrange(0, s.len() as int) =~= s);
        s.len() as int
    }
}

/// Trimming removes white space at both ends and nothing else: what it
/// leaves is a stretch of the string, everything before and after that
/// stretch is white space, and the stretch neither starts nor ends with any.
pub proof fn law_trim_removes_only_white_space(s: Seq<char>)
    ensures
        exists|i: int, j: int|
            {
                &&& 0 <= i <= j <= s.len()
                &&& trimmed(s) == s.subrange(i, j)
                &&& forall|k: int| 0 <= k < i ==> unicode_white_space(#[trigger] s[k])
                &&& forall|k: int| j <= k < s.len() ==> unicode_white_space(#[trigger] s[k])
                &&& i < j ==> !unicode_white_space(s[i]) && !unicode_white_space(s[j - 1])
            },
{
    let ws = |c: char| unicode_white_space(c);
    let i = lemma_skip_leading_run(s, ws);
    let rest = s.subrange(i, s.len() as int);
    let j0 = lemma_skip_trailing_run(rest, ws);
    let j = i + j0;
    assert(rest.subrange(0, j0) =~= s.subrange(i, j));
    assert forall|k: int| j <= k < s.len() implies unicode_white_space(#[trigger] s[k]) by {
        assert(ws(rest[k - i]));
    }
    assert forall|k: int| 0 <= k < i implies unicode_white_space(#[trigger] s[k]) by {
        assert(ws(s[k]));
    }
    if i < j {
        assert(rest[0] == s[i]);
        assert(rest[j0 - 1] == s[j - 1]);
    }
}

} // verus!
