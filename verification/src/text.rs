//! Character-level helpers on strings.

use vstd::prelude::*;
use vstd::std_specs::iter::IteratorSpec;
use vstd::string::*;

verus! {

/// `needle` stands in `hay` at position `at`.
pub open spec fn occurs_at(hay: Seq<char>, needle: Seq<char>, at: int) -> bool {
    &&& 0 <= at
    &&& at + needle.len() <= hay.len()
    &&& hay.subrange(at, at + needle.len()) == needle
}

/// `needle` is a contiguous part of `hay`.
pub open spec fn contains_seq(hay: Seq<char>, needle: Seq<char>) -> bool {
    exists|at: int| occurs_at(hay, needle, at)
}

/// The characters of `s`, in order.
pub fn chars_of(s: &str) -> (v: Vec<char>)
    ensures
        v@ == s@,
{
    broadcast use vstd::string::group_string_axioms;
    let mut v: Vec<char> = Vec::new();
    for c in it: s.chars()
        invariant
            it.seq() == s@,
            v@ == it.seq().take(it.index()),
    {
        v.push(c);
    }
    v
}

/// Whether two strings hold the same characters.
pub fn text_eq(a: &str, b: &str) -> (r: bool)
    ensures
        r == (a@ == b@),
{
    broadcast use vstd::string::group_string_axioms;
    let mut rest = b.chars();
    for c in it: a.chars()
        invariant
            it.seq() == a@,
            rest.remaining() == b@.skip(it.index()),
            it.index() <= b@.len(),
            a@.take(it.index()) == b@.take(it.index()),
    {
        let ghost i = it.index();
        match rest.next() {
            Some(d) => {
                assert(d == b@[i]);
                assert(c == a@[i]);
                if c != d {
                    return false;
                }
                assert(a@.take(i + 1) == a@.take(i).push(a@[i]));
                assert(b@.take(i + 1) == b@.take(i).push(b@[i]));
                assert(b@.skip(i).drop_first() == b@.skip(i + 1));
            },
            None => {
                return false;
            },
        }
    }
    assert(a@.take(a@.len() as int) == a@);
    let more = rest.next();
    if more.is_none() {
        assert(b@.take(b@.len() as int) == b@);
    }
    more.is_none()
}

/// Whether `needle` is a contiguous part of `hay`, character by character.
pub fn text_contains(hay: &str, needle: &str) -> (r: bool)
    ensures
        r == contains_seq(hay@, needle@),
{
    let h = chars_of(hay);
    let n = chars_of(needle);
    if n.len() > h.len() {
        assert forall|at: int| !occurs_at(hay@, needle@, at) by {}
        return false;
    }
    let last: usize = h.len() - n.len();
    let mut at: usize = 0;
    while at <= last
        invariant
            h@ == hay@,
            n@ == needle@,
            n.len() <= h.len(),
            last == h.len() - n.len(),
            at <= last + 1,
            forall|k: int| 0 <= k < at ==> !occurs_at(hay@, needle@, k),
        decreases last + 1 - at,
    {
        let mut j: usize = 0;
        while j < n.len() && h[at + j] == n[j]
            invariant
                at <= last,
                last == h.len() - n.len(),
                n.len() <= h.len(),
                j <= n.len(),
                forall|k: int| 0 <= k < j ==> h@[at + k] == n@[k],
            decreases n.len() - j,
        {
            j += 1;
        }
        if j == n.len() {
            assert(h@.subrange(at as int, at + n.len()) =~= n@);
            assert(occurs_at(hay@, needle@, at as int));
            return true;
        }
        assert(!occurs_at(hay@, needle@, at as int)) by {
            if occurs_at(hay@, needle@, at as int) {
                assert(h@.subrange(at as int, at + n.len())[j as int] == h@[at + j]);
            }
        }
        at += 1;
    }
    assert forall|k: int| !occurs_at(hay@, needle@, k) by {}
    false
}

/// What follows the last `sep` in `s`; all of `s` where it holds no `sep`.
pub open spec fn trailing_segment(s: Seq<char>, sep: char) -> Seq<char>
    decreases s.len(),
{
    if s.len() == 0 {
        s
    } else if s.last() == sep {
        Seq::empty()
    } else {
        trailing_segment(s.drop_last(), sep).push(s.last())
    }
}

/// The trailing segment is the longest tail of `s` that holds no `sep`.
pub proof fn lemma_trailing_segment(s: Seq<char>, sep: char)
    ensures
        trailing_segment(s, sep).len() <= s.len(),
        trailing_segment(s, sep) == s.subrange(
            s.len() - trailing_segment(s, sep).len(),
            s.len() as int,
        ),
        forall|i: int|
            0 <= i < trailing_segment(s, sep).len() ==> trailing_segment(s, sep)[i] != sep,
        trailing_segment(s, sep).len() < s.len() ==> s[s.len() - trailing_segment(s, sep).len()
            - 1] == sep,
    decreases s.len(),
{
    if s.len() > 0 && s.last() != sep {
        let front = s.drop_last();
        lemma_trailing_segment(front, sep);
        let t = trailing_segment(front, sep);
        assert(t.push(s.last()) =~= s.subrange(s.len() - t.len() - 1, s.len() as int));
    } else {
        assert(trailing_segment(s, sep) =~= s.subrange(s.len() as int, s.len() as int));
    }
}

/// The part of `s` after its last `sep`, as a string of its own.
pub fn last_segment(s: &str, sep: char) -> (r: String)
    ensures
        r@ == trailing_segment(s@, sep),
{
    broadcast use vstd::string::group_string_axioms;
    let total = s.unicode_len();
    let mut start: usize = 0;
    let mut seen: usize = 0;
    for c in it: s.chars()
        invariant
            it.seq() == s@,
            total == s@.len(),
            seen == it.index(),
            start <= seen,
            trailing_segment(s@.take(seen as int), sep) == s@.subrange(start as int, seen as int),
    {
        assert(s@.take(seen + 1).drop_last() == s@.take(seen as int));
        seen += 1;
        if c == sep {
            start = seen;
        }
        assert(s@.subrange(start as int, seen as int) =~= if c == sep {
            Seq::empty()
        } else {
            s@.subrange(start as int, seen - 1).push(c)
        });
    }
    assert(s@.take(total as int) == s@);
    s.substring_char(start, total).to_owned()
}

/// The order of texts: by the first character in which they differ, a text
/// coming before every text that it begins.
pub open spec fn text_less(a: Seq<char>, b: Seq<char>) -> bool
    decreases a.len(),
{
    if b.len() == 0 {
        false
    } else if a.len() == 0 {
        true
    } else if a[0] != b[0] {
        (a[0] as u32) < (b[0] as u32)
    } else {
        text_less(a.drop_first(), b.drop_first())
    }
}

/// No text comes before itself.
pub proof fn lemma_text_less_irreflexive(a: Seq<char>)
    ensures
        !text_less(a, a),
    decreases a.len(),
{
    if a.len() > 0 {
        lemma_text_less_irreflexive(a.drop_first());
    }
}

/// Of two different texts, one comes before the other.
pub proof fn lemma_text_less_total(a: Seq<char>, b: Seq<char>)
    ensures
        text_less(a, b) || text_less(b, a) || a == b,
        !(text_less(a, b) && text_less(b, a)),
    decreases a.len(),
{
    if a.len() == 0 || b.len() == 0 {
        if a.len() == 0 && b.len() == 0 {
            assert(a =~= b);
        }
    } else if a[0] == b[0] {
        lemma_text_less_total(a.drop_first(), b.drop_first());
        if a.drop_first() == b.drop_first() {
            assert(a =~= seq![a[0]] + a.drop_first());
            assert(b =~= seq![b[0]] + b.drop_first());
        }
    } else {
        assert(a[0] as u32 != b[0] as u32) by {
            vstd::utf8::char_u32_cast(a[0], a[0] as u32);
            vstd::utf8::char_u32_cast(b[0], b[0] as u32);
        }
    }
}

/// What comes before a text comes before all that the text comes before.
pub proof fn lemma_text_less_transitive(a: Seq<char>, b: Seq<char>, c: Seq<char>)
    requires
        text_less(a, b),
        text_less(b, c),
    ensures
        text_less(a, c),
    decreases a.len(),
{
    if a.len() > 0 && a[0] == b[0] && b[0] == c[0] {
        lemma_text_less_transitive(a.drop_first(), b.drop_first(), c.drop_first());
    }
}

/// Texts that begin alike are ordered as what follows the common beginning.
pub proof fn lemma_text_less_after_prefix(a: Seq<char>, b: Seq<char>, k: int)
    requires
        0 <= k <= a.len(),
        k <= b.len(),
        a.take(k) == b.take(k),
    ensures
        text_less(a, b) == text_less(a.skip(k), b.skip(k)),
    decreases k,
{
    if k == 0 {
        assert(a.skip(0) =~= a);
        assert(b.skip(0) =~= b);
    } else {
        assert(a[0] == a.take(k)[0]);
        assert(b[0] == b.take(k)[0]);
        let a1 = a.drop_first();
        let b1 = b.drop_first();
        assert(a1.take(k - 1) =~= a.take(k).drop_first());
        assert(b1.take(k - 1) =~= b.take(k).drop_first());
        lemma_text_less_after_prefix(a1, b1, k - 1);
        assert(a1.skip(k - 1) =~= a.skip(k));
        assert(b1.skip(k - 1) =~= b.skip(k));
    }
}

/// Whether `a` comes before `b` in the order of texts.
pub fn text_lt(a: &str, b: &str) -> (r: bool)
    ensures
        r == text_less(a@, b@),
{
    broadcast use vstd::string::group_string_axioms;
    let mut rest = b.chars();
    for c in it: a.chars()
        invariant
            it.seq() == a@,
            rest.remaining() == b@.skip(it.index()),
            it.index() <= b@.len(),
            a@.take(it.index()) == b@.take(it.index()),
    {
        let ghost i = it.index();
        proof {
            lemma_text_less_after_prefix(a@, b@, i);
        }
        match rest.next() {
            Some(d) => {
                assert(d == b@[i]);
                assert(c == a@[i]);
                if c != d {
                    return (c as u32) < (d as u32);
                }
                assert(a@.take(i + 1) == a@.take(i).push(a@[i]));
                assert(b@.take(i + 1) == b@.take(i).push(b@[i]));
                assert(b@.skip(i).drop_first() == b@.skip(i + 1));
            },
            None => {
                return false;
            },
        }
    }
    proof {
        lemma_text_less_after_prefix(a@, b@, a@.len() as int);
    }
    rest.next().is_some()
}

} // verus!
