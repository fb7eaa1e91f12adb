//! Splitting an input line into a command word and its argument.

use vstd::prelude::*;
use vstd::string::*;

verus! {

/// The characters that `char::is_whitespace` accepts: Unicode `White_Space`.
pub open spec fn is_ws(c: char) -> bool {
    ('\u{9}' <= c && c <= '\u{d}') || c == ' ' || c == '\u{85}' || c == '\u{a0}' || c
        == '\u{1680}' || ('\u{2000}' <= c && c <= '\u{200a}') || c == '\u{2028}' || c
        == '\u{2029}' || c == '\u{202f}' || c == '\u{205f}' || c == '\u{3000}'
}

/// `s` without its leading whitespace.
pub open spec fn trim_start(s: Seq<char>) -> Seq<char>
    decreases s.len(),
{
    if s.len() > 0 && is_ws(s[0]) {
        trim_start(s.drop_first())
    } else {
        s
    }
}

/// `s` without its trailing whitespace.
pub open spec fn trim_end(s: Seq<char>) -> Seq<char>
    decreases s.len(),
{
    if s.len() > 0 && is_ws(s.last()) {
        trim_end(s.drop_last())
    } else {
        s
    }
}

pub open spec fn trim(s: Seq<char>) -> Seq<char> {
    trim_end(trim_start(s))
}

/// Length of the run of non-whitespace characters that starts `s`.
pub open spec fn word_len(s: Seq<char>) -> nat
    decreases s.len(),
{
    if s.len() == 0 || is_ws(s[0]) {
        0
    } else {
        1 + word_len(s.drop_first())
    }
}

/// The command word and the argument of a line: the line is trimmed, the word
/// runs up to the first whitespace, and the argument is what follows with its
/// leading whitespace removed.
pub open spec fn split_spec(s: Seq<char>) -> (Seq<char>, Seq<char>) {
    let t = trim(s);
    let p = word_len(t) as int;
    (t.take(p), trim_start(t.skip(p)))
}

/// Whether a sequence holds no whitespace.
pub open spec fn no_ws(s: Seq<char>) -> bool {
    forall|i: int| 0 <= i < s.len() ==> !is_ws(#[trigger] s[i])
}

/// Whether a sequence neither starts nor ends with whitespace.
pub open spec fn is_trimmed(s: Seq<char>) -> bool {
    s.len() > 0 ==> !is_ws(s[0]) && !is_ws(s.last())
}

/// Decides `char::is_whitespace` by the list of Unicode `White_Space` code points.
pub fn is_whitespace(c: char) -> (r: bool)
    ensures
        r == is_ws(c),
{
    ('\u{9}' <= c && c <= '\u{d}') || c == ' ' || c == '\u{85}' || c == '\u{a0}' || c
        == '\u{1680}' || ('\u{2000}' <= c && c <= '\u{200a}') || c == '\u{2028}' || c
        == '\u{2029}' || c == '\u{202f}' || c == '\u{205f}' || c == '\u{3000}'
}

proof fn lemma_trim_start_skip(s: Seq<char>, i: int)
    requires
        0 <= i < s.len(),
        is_ws(s[i]),
    ensures
        trim_start(s.skip(i)) == trim_start(s.skip(i + 1)),
{
    assert(s.skip(i).drop_first() =~= s.skip(i + 1));
}

/// Splits a line into its command word and its argument.
pub fn split_first_word(s: &str) -> (r: (&str, &str))
    ensures
        (r.0@, r.1@) == split_spec(s@),
        no_ws(r.0@),
        is_trimmed(r.1@),
        trim(s@).len() == 0 <==> r.0@.len() == 0 && r.1@.len() == 0,
{
    let n = s.unicode_len();
    let mut a: usize = 0;
    assert(s@.skip(0) =~= s@);
    while a < n && is_whitespace(s.get_char(a))
        invariant
            n == s@.len(),
            a <= n,
            trim_start(s@) == trim_start(s@.skip(a as int)),
        decreases n - a,
    {
        proof {
            lemma_trim_start_skip(s@, a as int);
        }
        a = a + 1;
    }
    assert(trim_start(s@) == s@.subrange(a as int, n as int)) by {
        assert(s@.skip(a as int) =~= s@.subrange(a as int, n as int));
    }
    let mut j: usize = n;
    while j > a && is_whitespace(s.get_char(j - 1))
        invariant
            n == s@.len(),
            a <= j <= n,
            trim(s@) == trim_end(s@.subrange(a as int, j as int)),
        decreases j,
    {
        assert(s@.subrange(a as int, j as int).drop_last() =~= s@.subrange(
            a as int,
            j - 1,
        ));
        j = j - 1;
    }
    let ghost t = s@.subrange(a as int, j as int);
    assert(trim(s@) == t);
    let mut k: usize = a;
    while k < j && !is_whitespace(s.get_char(k))
        invariant
            n == s@.len(),
            a <= k <= j <= n,
            t == s@.subrange(a as int, j as int),
            word_len(t) == (k - a) + word_len(s@.subrange(k as int, j as int)),
            forall|i: int| a <= i < k ==> !is_ws(#[trigger] s@[i]),
        decreases j - k,
    {
        assert(s@.subrange(k as int, j as int).drop_first() =~= s@.subrange(k + 1, j as int));
        k = k + 1;
    }
    assert(word_len(t) == k - a);
    let mut m: usize = k;
    while m < j && is_whitespace(s.get_char(m))
        invariant
            n == s@.len(),
            a <= k <= m <= j <= n,
            trim_start(s@.subrange(k as int, j as int)) == trim_start(
                s@.subrange(m as int, j as int),
            ),
        decreases j - m,
    {
        assert(s@.subrange(m as int, j as int).drop_first() =~= s@.subrange(m + 1, j as int));
        m = m + 1;
    }
    let word = s.substring_char(a, k);
    let rest = s.substring_char(m, j);
    proof {
        assert(t.take(k - a) =~= word@);
        assert(t.skip(k - a) =~= s@.subrange(k as int, j as int));
        assert(trim_start(s@.subrange(m as int, j as int)) == rest@) by {
            if rest@.len() > 0 {
                assert(!is_ws(s@[m as int]));
            }
        }
        assert(no_ws(word@)) by {
            assert forall|i: int| 0 <= i < word@.len() implies !is_ws(#[trigger] word@[i]) by {
                assert(word@[i] == s@[a + i]);
            }
        }
        if rest@.len() > 0 {
            assert(rest@[0] == s@[m as int]);
            assert(rest@.last() == s@[j - 1]);
        }
    }
    (word, rest)
}

/// A line that is empty or all whitespace splits into an empty word and an
/// empty argument.
pub proof fn lemma_split_blank(s: Seq<char>)
    requires
        forall|i: int| 0 <= i < s.len() ==> is_ws(#[trigger] s[i]),
    ensures
        split_spec(s) == (Seq::<char>::empty(), Seq::<char>::empty()),
{
    lemma_trim_start_blank(s);
    assert(trim(s) =~= Seq::<char>::empty());
    assert(trim(s).take(0) =~= Seq::<char>::empty());
    assert(trim(s).skip(0) =~= Seq::<char>::empty());
}

proof fn lemma_trim_start_blank(s: Seq<char>)
    requires
        forall|i: int| 0 <= i < s.len() ==> is_ws(#[trigger] s[i]),
    ensures
        trim_start(s).len() == 0,
    decreases s.len(),
{
    if s.len() > 0 {
        assert forall|i: int| 0 <= i < s.drop_first().len() implies is_ws(
            #[trigger] s.drop_first()[i],
        ) by {
            assert(s.drop_first()[i] == s[i + 1]);
        }
        lemma_trim_start_blank(s.drop_first());
    }
}

} // verus!
