//! Character-level helpers over string views: whitespace, trimming, tokens,
//! lines and substring search.

use vstd::prelude::*;
use vstd::std_specs::iter::IteratorSpec;

verus! {

broadcast use vstd::string::group_string_axioms;

/// The characters that Unicode marks `White_Space`, which is what
/// `char::is_whitespace` tests.
pub open spec fn is_white(c: char) -> bool {
    ('\u{9}' <= c && c <= '\u{d}') || c == ' ' || c == '\u{85}' || c == '\u{a0}'
        || c == '\u{1680}' || ('\u{2000}' <= c && c <= '\u{200a}') || c == '\u{2028}'
        || c == '\u{2029}' || c == '\u{202f}' || c == '\u{205f}' || c == '\u{3000}'
}

/// `s` without its leading white space.
pub open spec fn trim_start(s: Seq<char>) -> Seq<char>
    decreases s.len(),
{
    if s.len() > 0 && is_white(s[0]) {
        trim_start(s.drop_first())
    } else {
        s
    }
}

/// `s` without its trailing white space.
pub open spec fn trim_end(s: Seq<char>) -> Seq<char>
    decreases s.len(),
{
    if s.len() > 0 && is_white(s.last()) {
        trim_end(s.drop_last())
    } else {
        s
    }
}

/// `s` without white space at either end.
pub open spec fn trim(s: Seq<char>) -> Seq<char> {
    trim_end(trim_start(s))
}

/// Length of the run of characters that are not white space at the start of `s`.
pub open spec fn token_len(s: Seq<char>) -> nat
    decreases s.len(),
{
    if s.len() > 0 && !is_white(s[0]) {
        1 + token_len(s.drop_first())
    } else {
        0
    }
}

/// The first white-space-delimited token of `s`; empty if `s` holds none.
pub open spec fn first_token(s: Seq<char>) -> Seq<char> {
    let t = trim_start(s);
    t.subrange(0, token_len(t) as int)
}

/// What follows the first white-space-delimited token of `s`.
pub open spec fn after_token(s: Seq<char>) -> Seq<char> {
    let t = trim_start(s);
    t.subrange(token_len(t) as int, t.len() as int)
}

/// The white-space-delimited token of `s` at index `n`, counting from zero;
/// empty if `s` holds fewer tokens.
pub open spec fn nth_token(s: Seq<char>, n: nat) -> Seq<char>
    decreases n,
{
    if n == 0 {
        first_token(s)
    } else {
        nth_token(after_token(s), (n - 1) as nat)
    }
}

/// Whether `p` occurs in `s` as a contiguous run.
pub open spec fn contains(s: Seq<char>, p: Seq<char>) -> bool {
    exists|i: int| 0 <= i && i + p.len() <= s.len() && #[trigger] s.subrange(i, i + p.len()) == p
}

/// Whether `s` begins with `p`.
pub open spec fn starts_with(s: Seq<char>, p: Seq<char>) -> bool {
    p.len() <= s.len() && s.subrange(0, p.len() as int) == p
}

/// Number of characters before the first `c` of `s`, or the length of `s`
/// when it holds no `c`.
pub open spec fn len_before(s: Seq<char>, c: char) -> nat
    decreases s.len(),
{
    if s.len() > 0 && s[0] != c {
        1 + len_before(s.drop_first(), c)
    } else {
        0
    }
}

/// What follows the first `c` of `s`; `None` when `s` holds no `c`.
pub open spec fn after_first(s: Seq<char>, c: char) -> Option<Seq<char>> {
    let k = len_before(s, c);
    if k < s.len() {
        Some(s.subrange((k + 1) as int, s.len() as int))
    } else {
        None
    }
}

/// The lines of `s`: the pieces between newlines, where a final newline ends
/// the last line rather than starting an empty one.
pub open spec fn lines(s: Seq<char>) -> Seq<Seq<char>>
    decreases s.len(),
{
    if s.len() == 0 {
        seq![]
    } else {
        let k = len_before(s, '\n');
        if k < s.len() {
            seq![s.subrange(0, k as int)] + lines(s.subrange((k + 1) as int, s.len() as int))
        } else {
            seq![s]
        }
    }
}

pub proof fn lemma_len_before_bound(s: Seq<char>, c: char)
    ensures
        len_before(s, c) <= s.len(),
        len_before(s, c) < s.len() ==> s[len_before(s, c) as int] == c,
        forall|j: int| 0 <= j < len_before(s, c) ==> s[j] != c,
    decreases s.len(),
{
    if s.len() > 0 && s[0] != c {
        lemma_len_before_bound(s.drop_first(), c);
        assert forall|j: int| 0 <= j < len_before(s, c) implies s[j] != c by {
            if j > 0 {
                assert(s[j] == s.drop_first()[j - 1]);
            }
        }
    }
}

/// Whether `c` is white space.
pub fn is_white_char(c: char) -> (r: bool)
    ensures
        r == is_white(c),
{
    ('\u{9}' <= c && c <= '\u{d}') || c == ' ' || c == '\u{85}' || c == '\u{a0}'
        || c == '\u{1680}' || ('\u{2000}' <= c && c <= '\u{200a}') || c == '\u{2028}'
        || c == '\u{2029}' || c == '\u{202f}' || c == '\u{205f}' || c == '\u{3000}'
}

/// First position at or after `from` and before `to` that does not hold white
/// space, or `to`.
pub fn skip_white(v: &Vec<char>, from: usize, to: usize) -> (r: usize)
    requires
        from <= to <= v@.len(),
    ensures
        from <= r <= to,
        trim_start(v@.subrange(from as int, to as int)) == v@.subrange(r as int, to as int),
{
    let mut i = from;
    while i < to && is_white_char(v[i])
        invariant
            from <= i <= to <= v@.len(),
            trim_start(v@.subrange(from as int, to as int)) == trim_start(
                v@.subrange(i as int, to as int),
            ),
        decreases to - i,
    {
        assert(v@.subrange(i as int, to as int).drop_first() =~= v@.subrange(
            i + 1,
            to as int,
        ));
        i = i + 1;
    }
    i
}

/// Position after the last character before `to` and at or after `from` that
/// is not white space, or `from`.
pub fn back_white(v: &Vec<char>, from: usize, to: usize) -> (r: usize)
    requires
        from <= to <= v@.len(),
    ensures
        from <= r <= to,
        trim_end(v@.subrange(from as int, to as int)) == v@.subrange(from as int, r as int),
{
    let mut j = to;
    while j > from && is_white_char(v[j - 1])
        invariant
            from <= j <= to <= v@.len(),
            trim_end(v@.subrange(from as int, to as int)) == trim_end(
                v@.subrange(from as int, j as int),
            ),
        decreases j - from,
    {
        assert(v@.subrange(from as int, j as int).drop_last() =~= v@.subrange(
            from as int,
            j - 1,
        ));
        j = j - 1;
    }
    j
}

/// End of the run of non-white characters that starts at `from`, bounded by `to`.
pub fn token_end(v: &Vec<char>, from: usize, to: usize) -> (r: usize)
    requires
        from <= to <= v@.len(),
    ensures
        r == from + token_len(v@.subrange(from as int, to as int)),
        r <= to,
{
    let mut i = from;
    while i < to && !is_white_char(v[i])
        invariant
            from <= i <= to <= v@.len(),
            token_len(v@.subrange(from as int, to as int)) == (i - from) + token_len(
                v@.subrange(i as int, to as int),
            ),
        decreases to - i,
    {
        assert(v@.subrange(i as int, to as int).drop_first() =~= v@.subrange(
            i + 1,
            to as int,
        ));
        i = i + 1;
    }
    i
}

/// First position at or after `from` and before `to` that holds `c`, or `to`.
pub fn find_char(v: &Vec<char>, from: usize, to: usize, c: char) -> (r: usize)
    requires
        from <= to <= v@.len(),
    ensures
        r == from + len_before(v@.subrange(from as int, to as int), c),
        r <= to,
{
    let mut i = from;
    while i < to && v[i] != c
        invariant
            from <= i <= to <= v@.len(),
            len_before(v@.subrange(from as int, to as int), c) == (i - from) + len_before(
                v@.subrange(i as int, to as int),
                c,
            ),
        decreases to - i,
    {
        assert(v@.subrange(i as int, to as int).drop_first() =~= v@.subrange(
            i + 1,
            to as int,
        ));
        i = i + 1;
    }
    i
}

/// Whether `p` occurs in `v[from..to]`.
pub fn contains_in(v: &Vec<char>, from: usize, to: usize, p: &Vec<char>) -> (r: bool)
    requires
        from <= to <= v@.len(),
    ensures
        r == contains(v@.subrange(from as int, to as int), p@),
{
    let ghost s = v@.subrange(from as int, to as int);
    if p.len() > to - from {
        return false;
    }
    let last = to - p.len();
    let mut i = from;
    while i <= last
        invariant
            from <= i,
            last + p@.len() == to <= v@.len(),
            s == v@.subrange(from as int, to as int),
            forall|k: int|
                0 <= k < i - from ==> #[trigger] s.subrange(k, k + p@.len()) != p@,
        decreases last + 1 - i,
    {
        let mut j: usize = 0;
        while j < p.len() && v[i + j] == p[j]
            invariant
                j <= p@.len(),
                i <= last,
                last + p@.len() == to <= v@.len(),
                forall|m: int| 0 <= m < j ==> v@[i + m] == p@[m],
            decreases p@.len() - j,
        {
            j = j + 1;
        }
        let k: Ghost<int> = Ghost(i - from);
        if j == p.len() {
            assert(s.subrange(k@, k@ + p@.len()) =~= p@);
            return true;
        }
        assert(s.subrange(k@, k@ + p@.len())[j as int] != p@[j as int]);
        i = i + 1;
    }
    false
}

/// Characters of `s`, in order.
pub fn chars_of(s: &str) -> (r: Vec<char>)
    ensures
        r@ == s@,
{
    let mut it = s.chars();
    let mut r: Vec<char> = Vec::new();
    loop
        invariant
            r@ + it.remaining() == s@,
            it.obeys_prophetic_iter_laws(),
            it.decrease() is Some,
        ensures
            r@ == s@,
        decreases it.decrease()->0,
    {
        match it.next() {
            Some(c) => {
                r.push(c);
            },
            None => {
                assert(r@ =~= r@ + it.remaining());
                break ;
            },
        }
    }
    r
}

} // verus!
