//! Whitespace handling: trimming a line and splitting it into tokens.

use vstd::prelude::*;

verus! {

/// The characters the shell treats as whitespace: Unicode's White_Space
/// set, exactly as `str::trim` and `str::split_whitespace` treat them.
pub open spec fn is_space(c: char) -> bool {
    c == ' ' || c == '\t' || c == '\n' || c == '\u{b}' || c == '\u{c}' || c == '\r' || c
        == '\u{85}' || c == '\u{a0}' || c == '\u{1680}' || (0x2000 <= c as u32 && c as u32
        <= 0x200a) || c == '\u{2028}' || c == '\u{2029}' || c == '\u{202f}' || c == '\u{205f}'
        || c == '\u{3000}'
}

/// `s` with its leading whitespace removed.
pub open spec fn trim_start_spec(s: Seq<char>) -> Seq<char>
    decreases s.len(),
{
    if s.len() > 0 && is_space(s[0]) {
        trim_start_spec(s.subrange(1, s.len() as int))
    } else {
        s
    }
}

/// `s` with its trailing whitespace removed.
pub open spec fn trim_end_spec(s: Seq<char>) -> Seq<char>
    decreases s.len(),
{
    if s.len() > 0 && is_space(s[s.len() - 1]) {
        trim_end_spec(s.subrange(0, s.len() - 1))
    } else {
        s
    }
}

/// `s` with leading and trailing whitespace removed.
pub open spec fn trim_spec(s: Seq<char>) -> Seq<char> {
    trim_end_spec(trim_start_spec(s))
}

/// Length of the leading run of non-whitespace characters of `s`.
pub open spec fn word_len(s: Seq<char>) -> nat
    decreases s.len(),
{
    if s.len() > 0 && !is_space(s[0]) {
        1 + word_len(s.subrange(1, s.len() as int))
    } else {
        0
    }
}

/// The whitespace-separated tokens of `s`: its maximal runs of
/// non-whitespace characters, in order.
pub open spec fn tokens(s: Seq<char>) -> Seq<Seq<char>>
    decreases s.len(),
    via tokens_decreases
{
    if s.len() == 0 {
        Seq::<Seq<char>>::empty()
    } else if is_space(s[0]) {
        tokens(s.subrange(1, s.len() as int))
    } else {
        seq![s.subrange(0, word_len(s) as int)] + tokens(
            s.subrange(word_len(s) as int, s.len() as int),
        )
    }
}

#[via_fn]
proof fn tokens_decreases(s: Seq<char>) {
    if s.len() > 0 && !is_space(s[0]) {
        lemma_word_len_bound(s);
        assert(word_len(s) >= 1);
    }
}

/// If the first `k` characters of `s` are whitespace, trimming from the
/// start skips at least them.
proof fn lemma_trim_start_skips(s: Seq<char>, k: int)
    requires
        0 <= k <= s.len(),
        forall|j: int| 0 <= j < k ==> is_space(s[j]),
        k == s.len() || !is_space(s[k]),
    ensures
        trim_start_spec(s) == s.subrange(k, s.len() as int),
    decreases k,
{
    if k == 0 {
        assert(trim_start_spec(s) == s.subrange(0, s.len() as int)) by {
            assert(s.subrange(0, s.len() as int) =~= s);
        }
    } else {
        let t = s.subrange(1, s.len() as int);
        lemma_trim_start_skips(t, k - 1);
        assert(t.subrange(k - 1, t.len() as int) =~= s.subrange(k, s.len() as int));
    }
}

/// If the characters of `s` from `k` on are whitespace, trimming from the
/// end removes at least them.
proof fn lemma_trim_end_cuts(s: Seq<char>, k: int)
    requires
        0 <= k <= s.len(),
        forall|j: int| k <= j < s.len() ==> is_space(s[j]),
        k == 0 || !is_space(s[k - 1]),
    ensures
        trim_end_spec(s) == s.subrange(0, k),
    decreases s.len() - k,
{
    if k == s.len() {
        assert(s.subrange(0, s.len() as int) =~= s);
    } else {
        let t = s.subrange(0, s.len() - 1);
        lemma_trim_end_cuts(t, k);
    }
}

/// Trim a string: the result's characters are `trim_spec` of the input's.
pub fn trim_str(s: &str) -> (r: String)
    ensures
        r@ == trim_spec(s@),
{
    let n: usize = s.unicode_len();
    let mut i: usize = 0;
    while i < n && is_space_char(s.get_char(i))
        invariant
            0 <= i <= n,
            n == s@.len(),
            forall|j: int| 0 <= j < i ==> is_space(s@[j]),
        decreases n - i,
    {
        i = i + 1;
    }
    proof {
        lemma_trim_start_skips(s@, i as int);
    }
    let mut j: usize = n;
    while j > i && is_space_char(s.get_char(j - 1))
        invariant
            i <= j <= n,
            n == s@.len(),
            forall|k: int| j <= k < n ==> is_space(s@[k]),
        decreases j,
    {
        j = j - 1;
    }
    let r = s.substring_char(i, j).to_owned();
    proof {
        let t = s@.subrange(i as int, n as int);
        lemma_trim_end_cuts(t, j - i);
        assert(t.subrange(0, j - i) =~= s@.subrange(i as int, j as int));
    }
    r
}

/// Whether `c` is one of the shell's whitespace characters.
pub fn is_space_char(c: char) -> (r: bool)
    ensures
        r == is_space(c),
{
    let u: u32 = c as u32;
    c == ' ' || c == '\t' || c == '\n' || c == '\u{b}' || c == '\u{c}' || c == '\r' || c
        == '\u{85}' || c == '\u{a0}' || c == '\u{1680}' || (0x2000 <= u && u <= 0x200a) || c
        == '\u{2028}' || c == '\u{2029}' || c == '\u{202f}' || c == '\u{205f}' || c == '\u{3000}'
}

/// The leading word of `s` is exactly `s[0..k]` when the first `k`
/// characters are non-whitespace and the run stops at `k`.
proof fn lemma_word_len_is(s: Seq<char>, k: int)
    requires
        0 <= k <= s.len(),
        forall|j: int| 0 <= j < k ==> !is_space(s[j]),
        k == s.len() || is_space(s[k]),
    ensures
        word_len(s) == k,
    decreases k,
{
    if k == 0 {
    } else {
        let t = s.subrange(1, s.len() as int);
        lemma_word_len_is(t, k - 1);
    }
}

/// A whitespace character at the front contributes no token.
proof fn lemma_tokens_skip_space(s: Seq<char>, i: int)
    requires
        0 <= i < s.len(),
        is_space(s[i]),
    ensures
        tokens(s.subrange(i, s.len() as int)) == tokens(s.subrange(i + 1, s.len() as int)),
{
    let t = s.subrange(i, s.len() as int);
    assert(t.subrange(1, t.len() as int) =~= s.subrange(i + 1, s.len() as int));
}

/// Splitting off the word `s[start..end]` at the front of the suffix at
/// `start` leaves the tokens of the suffix at `end`.
proof fn lemma_tokens_take_word(s: Seq<char>, start: int, end: int)
    requires
        0 <= start < end <= s.len(),
        forall|j: int| start <= j < end ==> !is_space(s[j]),
        end == s.len() || is_space(s[end]),
    ensures
        tokens(s.subrange(start, s.len() as int)) == seq![s.subrange(start, end)] + tokens(
            s.subrange(end, s.len() as int),
        ),
{
    let t = s.subrange(start, s.len() as int);
    lemma_word_len_is(t, end - start);
    assert(t.subrange(0, end - start) =~= s.subrange(start, end));
    assert(t.subrange(end - start, t.len() as int) =~= s.subrange(end, s.len() as int));
}

/// Split a string into its whitespace-separated tokens.
pub fn split_line(s: &str) -> (r: Vec<String>)
    ensures
        r@.len() == tokens(s@).len(),
        forall|k: int| 0 <= k < r@.len() ==> r@[k]@ == tokens(s@)[k],
{
    let n: usize = s.unicode_len();
    let mut r: Vec<String> = Vec::new();
    let mut i: usize = 0;
    proof {
        assert(s@.subrange(0, n as int) =~= s@);
    }
    while i < n
        invariant
            0 <= i <= n,
            n == s@.len(),
            tokens(s@) == r@.map_values(|t: String| t@) + tokens(s@.subrange(i as int, n as int)),
        decreases n - i,
    {
        if is_space_char(s.get_char(i)) {
            proof {
                lemma_tokens_skip_space(s@, i as int);
            }
            i = i + 1;
        } else {
            let start: usize = i;
            let mut j: usize = i;
            while j < n && !is_space_char(s.get_char(j))
                invariant
                    start <= j <= n,
                    n == s@.len(),
                    forall|k: int| start <= k < j ==> !is_space(s@[k]),
                decreases n - j,
            {
                j = j + 1;
            }
            let w = s.substring_char(start, j).to_owned();
            proof {
                lemma_tokens_take_word(s@, start as int, j as int);
            }
            r.push(w);
            proof {
                let ghost before = r@.drop_last();
                assert(r@.map_values(|t: String| t@) =~= before.map_values(|t: String| t@)
                    + seq![s@.subrange(start as int, j as int)]);
            }
            i = j;
        }
    }
    proof {
        assert(s@.subrange(i as int, n as int) =~= Seq::<char>::empty());
        assert(tokens(s@) =~= r@.map_values(|t: String| t@));
    }
    r
}

/// A line of nothing but whitespace has no tokens.
pub proof fn lemma_tokens_all_space(s: Seq<char>)
    requires
        forall|j: int| 0 <= j < s.len() ==> is_space(s[j]),
    ensures
        tokens(s).len() == 0,
    decreases s.len(),
{
    if s.len() > 0 {
        lemma_tokens_all_space(s.subrange(1, s.len() as int));
    }
}

/// Every token is a nonempty run of non-whitespace characters.
pub proof fn lemma_tokens_are_words(s: Seq<char>, k: int)
    requires
        0 <= k < tokens(s).len(),
    ensures
        tokens(s)[k].len() > 0,
        forall|j: int| 0 <= j < tokens(s)[k].len() ==> !is_space(tokens(s)[k][j]),
    decreases s.len(),
{
    if s.len() == 0 {
    } else if is_space(s[0]) {
        lemma_tokens_are_words(s.subrange(1, s.len() as int), k);
    } else {
        if k == 0 {
            lemma_word_positive(s);
            assert forall|j: int| 0 <= j < tokens(s)[0].len() implies !is_space(tokens(s)[0][j]) by {
                lemma_word_char_at(s, j);
            }
        } else {
            lemma_word_positive(s);
            lemma_tokens_are_words(s.subrange(word_len(s) as int, s.len() as int), k - 1);
        }
    }
}

/// A suffix that starts with a non-whitespace character has a nonempty word.
proof fn lemma_word_positive(s: Seq<char>)
    requires
        s.len() > 0,
        !is_space(s[0]),
    ensures
        1 <= word_len(s) <= s.len(),
{
    lemma_word_len_bound(s);
}

proof fn lemma_word_len_bound(s: Seq<char>)
    ensures
        word_len(s) <= s.len(),
    decreases s.len(),
{
    if s.len() > 0 && !is_space(s[0]) {
        lemma_word_len_bound(s.subrange(1, s.len() as int));
    }
}

/// Each position inside the leading word holds a non-whitespace character.
proof fn lemma_word_char_at(s: Seq<char>, j: int)
    requires
        0 <= j < word_len(s),
    ensures
        j < s.len(),
        !is_space(s[j]),
    decreases j,
{
    if j > 0 {
        lemma_word_char_at(s.subrange(1, s.len() as int), j - 1);
    }
}

/// Trimming a string that has no leading or trailing whitespace keeps it.
pub proof fn lemma_trim_of_word(s: Seq<char>)
    requires
        s.len() == 0 || (!is_space(s[0]) && !is_space(s[s.len() - 1])),
    ensures
        trim_spec(s) == s,
{
    assert(trim_start_spec(s) == s);
    assert(trim_end_spec(s) == s);
}

} // verus!
