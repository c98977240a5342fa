//! Whitespace and trimming of the lines that clients send.

use vstd::prelude::*;

verus! {

/// Whether `c` is whitespace as Unicode defines it (White_Space).
pub open spec fn is_space(c: char) -> bool {
    let n = c as u32;
    ||| 0x09 <= n <= 0x0D
    ||| n == 0x20
    ||| n == 0x85
    ||| n == 0xA0
    ||| n == 0x1680
    ||| 0x2000 <= n <= 0x200A
    ||| n == 0x2028
    ||| n == 0x2029
    ||| n == 0x202F
    ||| n == 0x205F
    ||| n == 0x3000
}

/// `s` without its leading whitespace.
pub open spec fn trim_start(s: Seq<char>) -> Seq<char>
    decreases s.len(),
{
    if s.len() > 0 && is_space(s.first()) {
        trim_start(s.drop_first())
    } else {
        s
    }
}

/// `s` without its trailing whitespace.
pub open spec fn trim_end(s: Seq<char>) -> Seq<char>
    decreases s.len(),
{
    if s.len() > 0 && is_space(s.last()) {
        trim_end(s.drop_last())
    } else {
        s
    }
}

/// `s` without its leading and trailing whitespace.
pub open spec fn trimmed(s: Seq<char>) -> Seq<char> {
    trim_end(trim_start(s))
}

/// Whether every character of `s` is whitespace.
pub open spec fn all_space(s: Seq<char>) -> bool {
    forall|i: int| 0 <= i < s.len() ==> is_space(#[trigger] s[i])
}

/// Tells whether `c` is whitespace.
pub fn is_whitespace(c: char) -> (b: bool)
    ensures
        b == is_space(c),
{
    let n: u32 = c as u32;
    (0x09 <= n && n <= 0x0D) || n == 0x20 || n == 0x85 || n == 0xA0 || n == 0x1680 || (0x2000 <= n
        && n <= 0x200A) || n == 0x2028 || n == 0x2029 || n == 0x202F || n == 0x205F || n == 0x3000
}

/// Where the whitespace before index `a` of `s` ends, `trim_start` cuts.
pub proof fn lemma_trim_start_at(s: Seq<char>, a: int)
    requires
        0 <= a <= s.len(),
        all_space(s.subrange(0, a)),
        a < s.len() ==> !is_space(s[a]),
    ensures
        trim_start(s) == s.subrange(a, s.len() as int),
    decreases a,
{
    if a == 0 {
        assert(s.subrange(0, s.len() as int) =~= s);
    } else {
        assert(s.subrange(0, a)[0] == s[0]);
        let t = s.drop_first();
        assert forall|i: int| 0 <= i < a - 1 implies is_space(#[trigger] t.subrange(0, a - 1)[i]) by {
            assert(s.subrange(0, a)[i + 1] == t.subrange(0, a - 1)[i]);
        }
        lemma_trim_start_at(t, a - 1);
        assert(t.subrange(a - 1, t.len() as int) =~= s.subrange(a, s.len() as int));
    }
}

/// Where the whitespace from index `b` of `s` on begins, `trim_end` cuts.
pub proof fn lemma_trim_end_at(s: Seq<char>, b: int)
    requires
        0 <= b <= s.len(),
        all_space(s.subrange(b, s.len() as int)),
        0 < b ==> !is_space(s[b - 1]),
    ensures
        trim_end(s) == s.subrange(0, b),
    decreases s.len() - b,
{
    if b == s.len() {
        assert(s.subrange(0, b) =~= s);
    } else {
        let n = s.len() as int;
        assert(s.subrange(b, n)[n - 1 - b] == s[n - 1]);
        let t = s.drop_last();
        assert forall|i: int| 0 <= i < n - 1 - b implies is_space(
            #[trigger] t.subrange(b, n - 1)[i],
        ) by {
            assert(s.subrange(b, n)[i] == t.subrange(b, n - 1)[i]);
        }
        lemma_trim_end_at(t, b);
        assert(t.subrange(0, b) =~= s.subrange(0, b));
    }
}

/// The text between the first and the last character of `s` that is no
/// whitespace, both included, is what `trimmed` keeps.
pub proof fn lemma_trimmed_between(s: Seq<char>, a: int, b: int)
    requires
        0 <= a < b <= s.len(),
        all_space(s.subrange(0, a)),
        all_space(s.subrange(b, s.len() as int)),
        !is_space(s[a]),
        !is_space(s[b - 1]),
    ensures
        trimmed(s) == s.subrange(a, b),
{
    let n = s.len() as int;
    lemma_trim_start_at(s, a);
    let t = s.subrange(a, n);
    assert(t.subrange(b - a, t.len() as int) =~= s.subrange(b, n));
    assert(t[b - a - 1] == s[b - 1]);
    lemma_trim_end_at(t, b - a);
    assert(t.subrange(0, b - a) =~= s.subrange(a, b));
}

/// A text of whitespace alone is trimmed to nothing.
pub proof fn lemma_trimmed_blank(s: Seq<char>)
    requires
        all_space(s),
    ensures
        trimmed(s) == Seq::<char>::empty(),
{
    assert(s.subrange(0, s.len() as int) =~= s);
    lemma_trim_start_at(s, s.len() as int);
    assert(s.subrange(s.len() as int, s.len() as int) =~= Seq::<char>::empty());
}

/// What `trim_start` leaves does not begin with whitespace.
pub proof fn lemma_trim_start_edge(s: Seq<char>)
    ensures
        trim_start(s).len() > 0 ==> !is_space(trim_start(s).first()),
    decreases s.len(),
{
    if s.len() > 0 && is_space(s.first()) {
        lemma_trim_start_edge(s.drop_first());
    }
}

/// What `trim_end` leaves does not end with whitespace, and a text that does
/// not begin with whitespace keeps its first character.
pub proof fn lemma_trim_end_edge(s: Seq<char>)
    ensures
        trim_end(s).len() > 0 ==> !is_space(trim_end(s).last()),
        s.len() > 0 && !is_space(s.first()) ==> trim_end(s).len() > 0 && trim_end(s).first()
            == s.first(),
    decreases s.len(),
{
    if s.len() > 0 && is_space(s.last()) {
        lemma_trim_end_edge(s.drop_last());
    }
}

/// Trimmed text has no whitespace at either end.
pub proof fn lemma_trimmed_edges(s: Seq<char>)
    ensures
        trimmed(s).len() > 0 ==> !is_space(trimmed(s).first()) && !is_space(trimmed(s).last()),
{
    lemma_trim_start_edge(s);
    lemma_trim_end_edge(trim_start(s));
}

/// Removes the leading and trailing whitespace of `s`.
pub fn trim(s: &str) -> (t: String)
    ensures
        t@ == trimmed(s@),
{
    let n: usize = s.unicode_len();
    let mut first: usize = 0;
    let mut last: usize = 0;
    let mut inked: bool = false;
    let mut at: usize = 0;
    for c in it: s.chars()
        invariant
            it.seq() == s@,
            at == it.index(),
            n == s@.len(),
            !inked ==> all_space(s@.subrange(0, at as int)),
            inked ==> first < last <= at,
            inked ==> all_space(s@.subrange(0, first as int)),
            inked ==> all_space(s@.subrange(last as int, at as int)),
            inked ==> !is_space(s@[first as int]) && !is_space(s@[last - 1]),
    {
        if !is_whitespace(c) {
            if !inked {
                first = at;
                inked = true;
            }
            last = at + 1;
        }
        at = at + 1;
    }
    assert(at == n);
    if inked {
        proof {
            lemma_trimmed_between(s@, first as int, last as int);
        }
        String::from_str(s.substring_char(first, last))
    } else {
        proof {
            assert(s@.subrange(0, at as int) =~= s@);
            lemma_trimmed_blank(s@);
        }
        String::new()
    }
}

} // verus!
