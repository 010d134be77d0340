//! Text as sequences of characters: trimming, searching and building.

use vstd::prelude::*;
use vstd::std_specs::iter::IteratorSpec;
use crate::chars::{white, is_white};

verus! {

/// How many whitespace characters `s` starts with.
pub open spec fn leading_white(s: Seq<char>) -> nat
    decreases s.len(),
{
    if s.len() > 0 && white(s[0]) {
        1 + leading_white(s.drop_first())
    } else {
        0
    }
}

/// How many whitespace characters `s` ends with.
pub open spec fn trailing_white(s: Seq<char>) -> nat
    decreases s.len(),
{
    if s.len() > 0 && white(s.last()) {
        1 + trailing_white(s.drop_last())
    } else {
        0
    }
}

/// `s` without the whitespace at its start and at its end.
pub open spec fn trimmed(s: Seq<char>) -> Seq<char> {
    if leading_white(s) >= s.len() {
        Seq::empty()
    } else {
        s.subrange(leading_white(s) as int, s.len() - trailing_white(s))
    }
}

/// The leading whitespace is the one index `a` up to which every character is
/// whitespace and at which, if `s` goes on, a character that is not stands.
pub proof fn lemma_leading_white(s: Seq<char>, a: int)
    requires
        0 <= a <= s.len(),
        forall|i: int| 0 <= i < a ==> white(#[trigger] s[i]),
        a < s.len() ==> !white(s[a]),
    ensures
        leading_white(s) == a,
    decreases s.len(),
{
    if a > 0 {
        let t = s.drop_first();
        assert forall|i: int| 0 <= i < a - 1 implies white(#[trigger] t[i]) by {
            assert(t[i] == s[i + 1]);
        }
        lemma_leading_white(t, a - 1);
    }
}

/// The trailing whitespace starts at the one index `b` from which every
/// character is whitespace and before which, if there is one, a character that
/// is not stands.
pub proof fn lemma_trailing_white(s: Seq<char>, b: int)
    requires
        0 <= b <= s.len(),
        forall|i: int| b <= i < s.len() ==> white(#[trigger] s[i]),
        b > 0 ==> !white(s[b - 1]),
    ensures
        trailing_white(s) == s.len() - b,
    decreases s.len(),
{
    if b < s.len() {
        let t = s.drop_last();
        assert forall|i: int| b <= i < t.len() implies white(#[trigger] t[i]) by {
            assert(t[i] == s[i]);
        }
        lemma_trailing_white(t, b);
    }
}

/// What the two counts are: in range, whitespace inside, none just beyond.
pub proof fn lemma_white_counts(s: Seq<char>)
    ensures
        leading_white(s) <= s.len(),
        trailing_white(s) <= s.len(),
        forall|i: int| 0 <= i < leading_white(s) ==> white(#[trigger] s[i]),
        forall|i: int| s.len() - trailing_white(s) <= i < s.len() ==> white(#[trigger] s[i]),
        leading_white(s) < s.len() ==> !white(s[leading_white(s) as int]),
        trailing_white(s) < s.len() ==> !white(s[s.len() - trailing_white(s) - 1]),
        leading_white(s) < s.len() ==> leading_white(s) + trailing_white(s) < s.len(),
    decreases s.len(),
{
    if s.len() > 0 {
        let f = s.drop_first();
        let l = s.drop_last();
        lemma_white_counts(f);
        lemma_white_counts(l);
        if white(s[0]) {
            assert forall|i: int| 0 <= i < leading_white(s) implies white(#[trigger] s[i]) by {
                if i > 0 {
                    assert(s[i] == f[i - 1]);
                }
            }
            if leading_white(s) < s.len() {
                assert(s[leading_white(s) as int] == f[leading_white(f) as int]);
            }
        }
        if white(s.last()) {
            assert forall|i: int| s.len() - trailing_white(s) <= i < s.len() implies white(
                #[trigger] s[i],
            ) by {
                if i < s.len() - 1 {
                    assert(s[i] == l[i]);
                }
            }
            if trailing_white(s) < s.len() {
                assert(s[s.len() - trailing_white(s) - 1] == l[l.len() - trailing_white(l) - 1]);
            }
        }
        if leading_white(s) < s.len() && leading_white(s) + trailing_white(s) >= s.len() {
            let k = leading_white(s) as int;
            assert(white(s[k]));
        }
    }
}

/// Trimming a second time changes nothing.
pub proof fn lemma_trimmed_twice(s: Seq<char>)
    ensures
        trimmed(trimmed(s)) == trimmed(s),
{
    let t = trimmed(s);
    lemma_white_counts(s);
    if t.len() > 0 {
        lemma_leading_white(t, 0);
        lemma_trailing_white(t, t.len() as int);
        assert(t.subrange(0, t.len() as int) =~= t);
    } else {
        assert(leading_white(t) == 0);
    }
}

/// A character of `s` that is not whitespace stays when `s` is trimmed: it
/// stands in `trimmed(s)`, moved left by the leading whitespace.
pub proof fn lemma_trim_keeps(s: Seq<char>, i: int)
    requires
        0 <= i < s.len(),
        !white(s[i]),
    ensures
        leading_white(s) <= i < s.len() - trailing_white(s),
        trimmed(s).len() == s.len() - trailing_white(s) - leading_white(s),
        trimmed(s)[i - leading_white(s)] == s[i],
{
    lemma_white_counts(s);
}

/// A sequence of whitespace alone, the empty one among them, trims to nothing.
pub proof fn lemma_trim_blank(s: Seq<char>)
    requires
        forall|i: int| 0 <= i < s.len() ==> white(#[trigger] s[i]),
    ensures
        trimmed(s) == Seq::<char>::empty(),
{
    lemma_leading_white(s, s.len() as int);
}

/// Calls `String::push`: `c` is added at the end of `s`.
#[verifier::external_body]
pub(crate) fn push_char(s: &mut String, c: char)
    ensures
        final(s)@ == old(s)@.push(c),
{
    s.push(c)
}

/// The characters of `s`, in order.
pub fn chars_of(s: &str) -> (out: Vec<char>)
    ensures
        out@ == s@,
{
    let mut it = s.chars();
    let mut out: Vec<char> = Vec::new();
    loop
        invariant
            it.obeys_prophetic_iter_laws(),
            it.decrease() is Some,
            out@ + it.remaining() == s@,
        ensures
            out@ == s@,
        decreases it.decrease()->0,
    {
        let ghost before = it.remaining();
        match it.next() {
            Some(c) => {
                out.push(c);
                assert(out@ + it.remaining() =~= s@) by {
                    assert(before == seq![c] + before.drop_first());
                }
            },
            None => {
                assert(out@ =~= s@);
                break ;
            },
        }
    }
    out
}

/// `s` without the whitespace around it.
pub fn trim(s: &str) -> (t: &str)
    ensures
        t@ == trimmed(s@),
{
    let v = chars_of(s);
    let n: usize = v.len();
    let mut start: usize = 0;
    while start < n && is_white(v[start])
        invariant
            start <= n,
            n == v.len(),
            forall|i: int| 0 <= i < start ==> white(#[trigger] v@[i]),
        decreases n - start,
    {
        start = start + 1;
    }
    proof {
        lemma_leading_white(v@, start as int);
    }
    if start == n {
        let t = s.substring_char(0, 0);
        assert(t@ =~= Seq::<char>::empty());
        return t;
    }
    let mut end: usize = n;
    while end > start && is_white(v[end - 1])
        invariant
            start <= end <= n,
            n == v.len(),
            forall|i: int| end <= i < n ==> white(#[trigger] v@[i]),
        decreases end,
    {
        end = end - 1;
    }
    proof {
        lemma_trailing_white(v@, end as int);
    }
    s.substring_char(start, end)
}

/// `needle` stands in `hay` from index `i` on.
pub open spec fn occurs_at(hay: Seq<char>, needle: Seq<char>, i: int) -> bool {
    0 <= i && i + needle.len() <= hay.len() && hay.subrange(i, i + needle.len()) == needle
}

/// `needle` stands somewhere in `hay`.
pub open spec fn occurs(hay: Seq<char>, needle: Seq<char>) -> bool {
    exists|i: int| occurs_at(hay, needle, i)
}

/// Whether `needle` stands in `hay` from index `i` on.
fn matches_at(hay: &Vec<char>, needle: &Vec<char>, i: usize) -> (r: bool)
    requires
        i + needle.len() <= hay.len(),
    ensures
        r == occurs_at(hay@, needle@, i as int),
{
    let m: usize = needle.len();
    let mut j: usize = 0;
    while j < m
        invariant
            j <= m,
            m == needle.len(),
            i + m <= hay.len(),
            forall|k: int| 0 <= k < j ==> hay@[i + k] == needle@[k],
        decreases m - j,
    {
        if hay[i + j] != needle[j] {
            assert(hay@.subrange(i as int, i + m)[j as int] == hay@[i + j]);
            return false;
        }
        j = j + 1;
    }
    assert(hay@.subrange(i as int, i + m) =~= needle@);
    true
}

/// Whether `needle` stands somewhere in `hay`. The empty text stands in every
/// text.
pub fn contains(hay: &str, needle: &str) -> (r: bool)
    ensures
        r == occurs(hay@, needle@),
{
    let h = chars_of(hay);
    let n = chars_of(needle);
    if n.len() > h.len() {
        return false;
    }
    let last: usize = h.len() - n.len();
    let mut i: usize = 0;
    loop
        invariant
            i <= last,
            last == h.len() - n.len(),
            h@ == hay@,
            n@ == needle@,
            forall|k: int| 0 <= k < i ==> !occurs_at(hay@, needle@, k),
        decreases last - i,
    {
        if matches_at(&h, &n, i) {
            return true;
        }
        if i == last {
            return false;
        }
        i = i + 1;
    }
}

/// `s` with a carriage return put before each line feed.
pub open spec fn crlf(s: Seq<char>) -> Seq<char>
    decreases s.len(),
{
    if s.len() == 0 {
        Seq::empty()
    } else if s.last() == '\n' {
        crlf(s.drop_last()).push('\r').push('\n')
    } else {
        crlf(s.drop_last()).push(s.last())
    }
}

/// In `crlf(s)` a carriage return stands before every line feed, and at
/// most one character was added for each character of `s`.
pub proof fn lemma_crlf_line_ends(s: Seq<char>)
    ensures
        forall|i: int|
            0 <= i < crlf(s).len() && #[trigger] crlf(s)[i] == '\n' ==> i > 0 && crlf(s)[i - 1]
                == '\r',
        s.len() <= crlf(s).len() <= 2 * s.len(),
    decreases s.len(),
{
    if s.len() > 0 {
        let front = s.drop_last();
        lemma_crlf_line_ends(front);
        assert forall|i: int| 0 <= i < crlf(s).len() && #[trigger] crlf(s)[i] == '\n' implies i
            > 0 && crlf(s)[i - 1] == '\r' by {
            if i < crlf(front).len() {
                assert(crlf(s)[i] == crlf(front)[i]);
                assert(crlf(s)[i - 1] == crlf(front)[i - 1]);
            }
        }
    }
}

/// `s` with a carriage return put before each line feed.
pub fn to_crlf(s: &str) -> (out: String)
    ensures
        out@ == crlf(s@),
{
    let v = chars_of(s);
    let n: usize = v.len();
    let mut out = String::new();
    let mut i: usize = 0;
    while i < n
        invariant
            i <= n,
            n == v.len(),
            out@ == crlf(v@.take(i as int)),
        decreases n - i,
    {
        let c: char = v[i];
        assert(v@.take(i + 1).drop_last() =~= v@.take(i as int));
        if c == '\n' {
            push_char(&mut out, '\r');
        }
        push_char(&mut out, c);
        i = i + 1;
    }
    assert(v@.take(n as int) =~= v@);
    out
}

} // verus!
