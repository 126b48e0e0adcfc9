use vstd::prelude::*;
use vstd::string::*;

verus! {

/// Whether a character has the Unicode `White_Space` property: the
/// characters U+0009 to U+000D, U+0020, U+0085, U+00A0, U+1680, U+2000 to
/// U+200A, U+2028, U+2029, U+202F, U+205F and U+3000.
pub open spec fn white_space(c: char) -> bool {
    let u = c as u32;
    ||| 0x09 <= u <= 0x0D
    ||| u == 0x20
    ||| u == 0x85
    ||| u == 0xA0
    ||| u == 0x1680
    ||| 0x2000 <= u <= 0x200A
    ||| u == 0x2028
    ||| u == 0x2029
    ||| u == 0x202F
    ||| u == 0x205F
    ||| u == 0x3000
}

/// Calls `char::is_whitespace`, which holds exactly of the characters with
/// the Unicode `White_Space` property.
#[verifier::external_body]
pub(crate) fn is_whitespace(c: char) -> (b: bool)
    ensures
        b == white_space(c),
{
    c.is_whitespace()
}

/// Whether a word begins at position `i` of `s`: a character that is not
/// white space, at the start or after white space.
pub open spec fn starts_word(s: Seq<char>, i: int) -> bool {
    &&& !white_space(s[i])
    &&& (i == 0 || white_space(s[i - 1]))
}

/// The number of words that begin among the first `k` characters of `s`.
pub open spec fn words_before(s: Seq<char>, k: int) -> nat
    decreases k,
{
    if k <= 0 {
        0
    } else {
        words_before(s, k - 1) + if starts_word(s, k - 1) { 1nat } else { 0nat }
    }
}

/// The number of maximal runs of non-white-space characters in `s`, which is
/// the number of items that `str::split_whitespace` yields.
pub open spec fn word_count(s: Seq<char>) -> nat {
    words_before(s, s.len() as int)
}

proof fn lemma_words_before_bounded(s: Seq<char>, k: int)
    ensures
        words_before(s, k) <= if k < 0 { 0 } else { k },
    decreases k,
{
    if k > 0 {
        lemma_words_before_bounded(s, k - 1);
    }
}

/// More characters never hold fewer words.
pub proof fn lemma_words_before_monotonic(s: Seq<char>, a: int, b: int)
    requires
        a <= b,
    ensures
        words_before(s, a) <= words_before(s, b),
    decreases b - a,
{
    if a < b {
        lemma_words_before_monotonic(s, a, b - 1);
    }
}

/// Counting the words of a prefix of `s` is counting the words that begin
/// within that prefix.
pub proof fn lemma_words_of_prefix(s: Seq<char>, j: int, k: int)
    requires
        0 <= k <= j <= s.len(),
    ensures
        words_before(s.take(j), k) == words_before(s, k),
    decreases k,
{
    if k > 0 {
        lemma_words_of_prefix(s, j, k - 1);
        assert(s.take(j)[k - 1] == s[k - 1]);
        if k - 1 > 0 {
            assert(s.take(j)[k - 2] == s[k - 2]);
        }
    }
}

/// Every character of `w` is white space.
pub open spec fn all_white(w: Seq<char>) -> bool {
    forall|i: int| 0 <= i < w.len() ==> white_space(#[trigger] w[i])
}

/// No character of `w` is white space.
pub open spec fn no_white(w: Seq<char>) -> bool {
    forall|i: int| 0 <= i < w.len() ==> !white_space(#[trigger] w[i])
}

/// After a text that is empty or ends in white space, the words of what
/// follows are counted as in that text alone.
proof fn lemma_words_after_break(x: Seq<char>, y: Seq<char>, m: int)
    requires
        x.len() == 0 || white_space(x.last()),
        0 <= m <= y.len(),
    ensures
        words_before(x + y, x.len() + m) == word_count(x) + words_before(y, m),
    decreases m,
{
    let s = x + y;
    if m == 0 {
        assert(s.take(x.len() as int) =~= x);
        lemma_words_of_prefix(s, x.len() as int, x.len() as int);
    } else {
        lemma_words_after_break(x, y, m - 1);
        let i = x.len() + m - 1;
        assert(s[i] == y[m - 1]);
        if m - 1 > 0 {
            assert(s[i - 1] == y[m - 2]);
        } else if x.len() > 0 {
            assert(s[i - 1] == x.last());
        }
        assert(starts_word(s, i) == starts_word(y, m - 1));
    }
}

/// White space adds no word.
proof fn lemma_white_adds_nothing(a: Seq<char>, w: Seq<char>, m: int)
    requires
        all_white(w),
        0 <= m <= w.len(),
    ensures
        words_before(a + w, a.len() + m) == word_count(a),
    decreases m,
{
    let s = a + w;
    if m == 0 {
        assert(s.take(a.len() as int) =~= a);
        lemma_words_of_prefix(s, a.len() as int, a.len() as int);
    } else {
        lemma_white_adds_nothing(a, w, m - 1);
        assert(s[a.len() + m - 1] == w[m - 1]);
    }
}

/// Words are the runs of characters between white space: two texts joined
/// by a run of white space hold the words of the one plus the words of the
/// other, whatever the white space is.
pub proof fn lemma_word_count_split(a: Seq<char>, w: Seq<char>, b: Seq<char>)
    requires
        w.len() > 0,
        all_white(w),
    ensures
        word_count(a + w + b) == word_count(a) + word_count(b),
{
    lemma_white_adds_nothing(a, w, w.len() as int);
    assert((a + w).last() == w[w.len() - 1]);
    lemma_words_after_break(a + w, b, b.len() as int);
}

/// A non-empty text without white space is one word; a text of white space
/// alone holds none.
pub proof fn lemma_word_count_single(s: Seq<char>)
    ensures
        s.len() > 0 && no_white(s) ==> word_count(s) == 1,
        all_white(s) ==> word_count(s) == 0,
{
    if s.len() > 0 && no_white(s) {
        lemma_one_word(s, s.len() as int);
    }
    if all_white(s) {
        lemma_white_adds_nothing(Seq::<char>::empty(), s, s.len() as int);
        assert(Seq::<char>::empty() + s =~= s);
    }
}

proof fn lemma_one_word(s: Seq<char>, k: int)
    requires
        no_white(s),
        1 <= k <= s.len(),
    ensures
        words_before(s, k) == 1,
    decreases k,
{
    if k > 1 {
        lemma_one_word(s, k - 1);
        assert(!white_space(s[k - 2]));
    } else {
        assert(!white_space(s[0]));
        assert(words_before(s, 0) == 0);
    }
}

/// Where `s` is cut so that at most `k` words remain: `j` characters are
/// kept, they hold at most `k` words, and keeping one more character would
/// begin word `k + 1` (or there is no character left).
pub open spec fn is_word_cut(s: Seq<char>, k: nat, j: int) -> bool {
    &&& 0 <= j <= s.len()
    &&& words_before(s, j) <= k
    &&& (j == s.len() || words_before(s, j + 1) > k)
}

/// There is exactly one place to cut.
pub proof fn lemma_word_cut_unique(s: Seq<char>, k: nat, j1: int, j2: int)
    requires
        is_word_cut(s, k, j1),
        is_word_cut(s, k, j2),
    ensures
        j1 == j2,
{
    if j1 < j2 {
        lemma_words_before_monotonic(s, j1 + 1, j2);
    } else if j2 < j1 {
        lemma_words_before_monotonic(s, j2 + 1, j1);
    }
}

/// The number of characters of `s` kept when it is cut to `k` words.
pub open spec fn word_cut(s: Seq<char>, k: nat) -> int {
    choose|j: int| is_word_cut(s, k, j)
}

/// `s` cut to its first `k` words, with the white space that follows them.
pub open spec fn first_words(s: Seq<char>, k: nat) -> Seq<char> {
    s.take(word_cut(s, k))
}

/// The number of characters of `s` that are kept when `s` is cut to
/// `budget` words.
pub fn find_word_cut(s: &str, budget: usize) -> (j: usize)
    ensures
        is_word_cut(s@, budget as nat, j as int),
        j == word_cut(s@, budget as nat),
{
    let len = s.unicode_len();
    let mut n: usize = 0;
    let mut prev_space = true;
    let mut i: usize = 0;
    for c in it: s.chars()
        invariant
            len == s@.len(),
            it.seq() == s@,
            i == it.index(),
            i <= len,
            n == words_before(s@, i as int),
            n <= budget,
            i > 0 ==> prev_space == white_space(s@[i - 1]),
            i == 0 ==> prev_space,
    {
        let space = is_whitespace(c);
        if !space && prev_space {
            if n == budget {
                proof {
                    lemma_word_cut_unique(s@, budget as nat, i as int, word_cut(s@, budget as nat));
                }
                return i;
            }
            n = n + 1;
        }
        prev_space = space;
        i = i + 1;
    }
    proof {
        lemma_word_cut_unique(s@, budget as nat, i as int, word_cut(s@, budget as nat));
    }
    i
}

/// Counts the whitespace-separated words of `s`.
pub fn count_words(s: &str) -> (n: usize)
    ensures
        n == word_count(s@),
{
    let len = s.unicode_len();
    let mut n: usize = 0;
    let mut prev_space = true;
    let mut i: usize = 0;
    for c in it: s.chars()
        invariant
            len == s@.len(),
            it.seq() == s@,
            i == it.index(),
            i <= len,
            n == words_before(s@, i as int),
            i > 0 ==> prev_space == white_space(s@[i - 1]),
            i == 0 ==> prev_space,
    {
        proof {
            lemma_words_before_bounded(s@, i as int);
        }
        let space = is_whitespace(c);
        if !space && prev_space {
            n = n + 1;
        }
        prev_space = space;
        i = i + 1;
    }
    n
}

} // verus!
