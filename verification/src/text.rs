//! Text primitives shared by the editor and the command grammar.

use vstd::prelude::*;
use unicode_width::UnicodeWidthStr;

verus! {

/// The number of terminal columns that a text occupies, as
/// `unicode_width::UnicodeWidthStr::width` computes it. The value depends on
/// the characters alone; nothing else is claimed of it.
pub uninterp spec fn display_width(s: Seq<char>) -> nat;

/// Calls `unicode_width::UnicodeWidthStr::width` on `s`. Trusted: the result
/// is the display width of the characters of `s`.
#[verifier::external_body]
pub(crate) fn str_width(s: &str) -> (w: usize)
    ensures
        w == display_width(s@),
{
    s.width()
}

/// `String::push` appends one character at the end of the string.
pub assume_specification[ String::push ](s: &mut String, c: char)
    ensures
        final(s)@ == old(s)@.push(c),
;

/// The text `s` with `c` put in front of the character at index `at`.
pub open spec fn inserted(s: Seq<char>, at: int, c: char) -> Seq<char> {
    s.subrange(0, at).push(c) + s.subrange(at, s.len() as int)
}

/// Builds the text that holds `c` at index `at` and the characters of `s`
/// around it, in their order.
pub fn insert_char(s: &str, at: usize, c: char) -> (r: String)
    requires
        at <= s@.len(),
    ensures
        r@ == inserted(s@, at as int, c),
{
    let n: usize = s.unicode_len();
    let mut r = String::from_str(s.substring_char(0, at));
    r.push(c);
    r.append(s.substring_char(at, n));
    r
}

/// The text `s` without the character at index `at`.
pub open spec fn removed(s: Seq<char>, at: int) -> Seq<char> {
    s.subrange(0, at) + s.subrange(at + 1, s.len() as int)
}

/// Builds the text that holds the characters of `s` but the one at index
/// `at`, in their order.
pub fn remove_char(s: &str, at: usize) -> (r: String)
    requires
        at < s@.len(),
    ensures
        r@ == removed(s@, at as int),
{
    let n: usize = s.unicode_len();
    let mut r = String::from_str(s.substring_char(0, at));
    r.append(s.substring_char(at + 1, n));
    r
}

/// The characters of `s`, one element each, for indexing in constant time.
pub fn chars_of(s: &str) -> (v: Vec<char>)
    ensures
        v@ == s@,
{
    let n: usize = s.unicode_len();
    let mut v: Vec<char> = Vec::new();
    let mut i: usize = 0;
    while i < n
        invariant
            n == s@.len(),
            i <= n,
            v@ == s@.subrange(0, i as int),
        decreases n - i,
    {
        v.push(s.get_char(i));
        i += 1;
        assert(v@ =~= s@.subrange(0, i as int));
    }
    assert(s@.subrange(0, n as int) =~= s@);
    v
}

/// The views of a list of strings, in the list's order.
pub open spec fn texts(v: Seq<String>) -> Seq<Seq<char>> {
    Seq::new(v.len(), |i: int| v[i]@)
}

/// Whether `c` is white space: the characters with the Unicode property
/// `White_Space`, which are those that `char::is_whitespace` accepts.
pub open spec fn white_space(c: char) -> bool {
    let n = c as u32;
    ||| 0x09 <= n <= 0x0d
    ||| n == 0x20
    ||| n == 0x85
    ||| n == 0xa0
    ||| n == 0x1680
    ||| 0x2000 <= n <= 0x200a
    ||| n == 0x2028
    ||| n == 0x2029
    ||| n == 0x202f
    ||| n == 0x205f
    ||| n == 0x3000
}

/// Tells whether `c` is white space.
pub fn is_white_space(c: char) -> (b: bool)
    ensures
        b == white_space(c),
{
    let n: u32 = c as u32;
    (0x09 <= n && n <= 0x0d) || n == 0x20 || n == 0x85 || n == 0xa0 || n == 0x1680 || (0x2000
        <= n && n <= 0x200a) || n == 0x2028 || n == 0x2029 || n == 0x202f || n == 0x205f || n
        == 0x3000
}

/// The length of the longest run of characters that are not white space and
/// that starts at index `from` of `s`.
pub open spec fn word_len(s: Seq<char>, from: int) -> nat
    decreases s.len() - from,
{
    if 0 <= from < s.len() && !white_space(s[from]) {
        1 + word_len(s, from + 1)
    } else {
        0
    }
}

/// The index just behind the word that holds the character at `from`.
pub open spec fn word_end(s: Seq<char>, from: int) -> int {
    from + 1 + word_len(s, from + 1)
}

/// The words of `s` that start at index `from` or later: the maximal runs of
/// characters that are not white space, from left to right.
pub open spec fn tokens_from(s: Seq<char>, from: int) -> Seq<Seq<char>>
    decreases s.len() - from,
{
    if from < 0 || from >= s.len() {
        Seq::empty()
    } else if white_space(s[from]) {
        tokens_from(s, from + 1)
    } else {
        proof {
            lemma_word_len_bound(s, from + 1);
        }
        seq![s.subrange(from, word_end(s, from))] + tokens_from(s, word_end(s, from))
    }
}

/// The words of `s`: what is left when it is cut at every run of white space.
/// No word is empty, and a text of white space alone has none.
pub open spec fn tokens(s: Seq<char>) -> Seq<Seq<char>> {
    tokens_from(s, 0)
}

/// A run of words never passes the end of the text.
pub proof fn lemma_word_len_bound(s: Seq<char>, from: int)
    requires
        0 <= from <= s.len(),
    ensures
        from + word_len(s, from) <= s.len(),
    decreases s.len() - from,
{
    if from < s.len() && !white_space(s[from]) {
        lemma_word_len_bound(s, from + 1);
    }
}

/// The characters from `from` up to the end of the word that starts there
/// are not white space.
pub proof fn lemma_word_is_solid(s: Seq<char>, from: int)
    requires
        0 <= from,
    ensures
        forall|j: int| from <= j < from + word_len(s, from) ==> !white_space(#[trigger] s[j]),
    decreases s.len() - from,
{
    if from < s.len() && !white_space(s[from]) {
        lemma_word_is_solid(s, from + 1);
    }
}

/// No word is empty, and no word holds white space.
pub proof fn law_words_are_solid(s: Seq<char>, from: int)
    ensures
        forall|i: int|
            0 <= i < tokens_from(s, from).len() ==> (#[trigger] tokens_from(s, from)[i]).len()
                > 0,
        forall|i: int, j: int|
            0 <= i < tokens_from(s, from).len() && 0 <= j < tokens_from(s, from)[i].len()
                ==> !white_space(#[trigger] tokens_from(s, from)[i][j]),
    decreases s.len() - from,
{
    if from < 0 || from >= s.len() {
        assert(tokens_from(s, from).len() == 0);
    } else if white_space(s[from]) {
        law_words_are_solid(s, from + 1);
        assert(tokens_from(s, from) == tokens_from(s, from + 1));
    } else {
        let end = word_end(s, from);
        lemma_word_len_bound(s, from + 1);
        lemma_word_is_solid(s, from + 1);
        law_words_are_solid(s, end);
        let word = s.subrange(from, end);
        let rest = tokens_from(s, end);
        assert(tokens_from(s, from) == seq![word] + rest);
        assert forall|i: int| 0 <= i < tokens_from(s, from).len() implies (
        #[trigger] tokens_from(s, from)[i]).len() > 0 by {
            if i > 0 {
                assert(tokens_from(s, from)[i] == rest[i - 1]);
            }
        }
        assert forall|i: int, j: int|
            0 <= i < tokens_from(s, from).len() && 0 <= j < tokens_from(s, from)[i].len()
                implies !white_space(#[trigger] tokens_from(s, from)[i][j]) by {
            if i > 0 {
                assert(tokens_from(s, from)[i] == rest[i - 1]);
            } else {
                assert(word[j] == s[from + j]);
            }
        }
    }
}

/// A text without white space is its own single word.
pub proof fn law_solid_text_is_one_word(s: Seq<char>)
    requires
        s.len() > 0,
        forall|j: int| 0 <= j < s.len() ==> !white_space(#[trigger] s[j]),
    ensures
        tokens(s) == seq![s],
{
    lemma_solid_run(s, 1);
    assert(s.subrange(0, s.len() as int) =~= s);
    assert(tokens_from(s, s.len() as int) =~= Seq::<Seq<char>>::empty());
    assert(seq![s] + Seq::<Seq<char>>::empty() =~= seq![s]);
}

/// In a text without white space a word runs to the end.
proof fn lemma_solid_run(s: Seq<char>, from: int)
    requires
        0 <= from <= s.len(),
        forall|j: int| 0 <= j < s.len() ==> !white_space(#[trigger] s[j]),
    ensures
        from + word_len(s, from) == s.len(),
    decreases s.len() - from,
{
    if from < s.len() {
        lemma_solid_run(s, from + 1);
    }
}

/// Cuts `s` into its words.
pub fn split_tokens(s: &str) -> (r: Vec<String>)
    ensures
        texts(r@) == tokens(s@),
{
    let cs = chars_of(s);
    let n: usize = cs.len();
    let mut out: Vec<String> = Vec::new();
    let mut i: usize = 0;
    assert(texts(out@) =~= Seq::<Seq<char>>::empty());
    while i < n
        invariant
            cs@ == s@,
            n == cs@.len(),
            i <= n,
            texts(out@) + tokens_from(s@, i as int) == tokens(s@),
        decreases n - i,
    {
        if is_white_space(cs[i]) {
            i += 1;
        } else {
            let start: usize = i;
            i += 1;
            while i < n && !is_white_space(cs[i])
                invariant
                    cs@ == s@,
                    n == cs@.len(),
                    start < i <= n,
                    word_len(s@, start as int + 1) == (i - start - 1) + word_len(s@, i as int),
                decreases n - i,
            {
                i += 1;
            }
            let word = String::from_str(s.substring_char(start, i));
            proof {
                let ghost_before = texts(out@);
                assert(word_len(s@, i as int) == 0);
                assert(texts(out@.push(word)) =~= ghost_before.push(word@));
                assert(ghost_before.push(word@) + tokens_from(s@, i as int)
                    =~= ghost_before + (seq![word@] + tokens_from(s@, i as int)));
            }
            out.push(word);
        }
    }
    assert(texts(out@) + tokens_from(s@, n as int) =~= texts(out@));
    out
}


/// Whether `pat` stands in `s` at index `at`.
pub open spec fn occurs_at(s: Seq<char>, pat: Seq<char>, at: int) -> bool {
    0 <= at && at + pat.len() <= s.len() && s.subrange(at, at + pat.len()) == pat
}

/// The least index at or after `from` at which `pat` stands in `s`, or -1
/// where it stands at none.
pub open spec fn find_from(s: Seq<char>, pat: Seq<char>, from: int) -> int
    decreases s.len() + 1 - from,
{
    if from < 0 || from + pat.len() > s.len() {
        -1
    } else if occurs_at(s, pat, from) {
        from
    } else {
        find_from(s, pat, from + 1)
    }
}

/// `s` without the first occurrence of `pat`; `s` itself where `pat` does
/// not occur in it.
pub open spec fn without_first(s: Seq<char>, pat: Seq<char>) -> Seq<char> {
    let at = find_from(s, pat, 0);
    if at < 0 {
        s
    } else {
        s.subrange(0, at) + s.subrange(at + pat.len(), s.len() as int)
    }
}

/// `find_from` gives the first occurrence: `pat` stands at the index found
/// and at none between `from` and it; where it finds none, `pat` stands at no
/// index from `from` on.
pub proof fn law_first_occurrence(s: Seq<char>, pat: Seq<char>, from: int)
    requires
        0 <= from,
    ensures
        find_from(s, pat, from) >= 0 ==> from <= find_from(s, pat, from) && occurs_at(
            s,
            pat,
            find_from(s, pat, from),
        ),
        find_from(s, pat, from) < 0 ==> find_from(s, pat, from) == -1,
        forall|j: int|
            from <= j && (j < find_from(s, pat, from) || find_from(s, pat, from) < 0)
                ==> !occurs_at(s, pat, j),
    decreases s.len() + 1 - from,
{
    if from + pat.len() > s.len() {
    } else if occurs_at(s, pat, from) {
    } else {
        law_first_occurrence(s, pat, from + 1);
    }
}

/// Whether `pat` stands in `s` at index `at`.
fn matches_at(s: &Vec<char>, pat: &Vec<char>, at: usize) -> (b: bool)
    requires
        at + pat@.len() <= s@.len(),
    ensures
        b == occurs_at(s@, pat@, at as int),
{
    let m: usize = pat.len();
    let n: usize = s.len();
    let mut k: usize = 0;
    while k < m
        invariant
            m == pat@.len(),
            n == s@.len(),
            at + m <= n,
            k <= m,
            forall|j: int| 0 <= j < k ==> s@[at + j] == pat@[j],
        decreases m - k,
    {
        if s[at + k] != pat[k] {
            proof {
                assert(s@.subrange(at as int, at + m)[k as int] == s@[at + k]);
            }
            return false;
        }
        k += 1;
    }
    assert(s@.subrange(at as int, at + m) =~= pat@);
    true
}

/// Removes the first occurrence of `pat` from `s`.
pub fn remove_first(s: &str, pat: &str) -> (r: String)
    ensures
        r@ == without_first(s@, pat@),
{
    let cs = chars_of(s);
    let cp = chars_of(pat);
    let n: usize = cs.len();
    let m: usize = cp.len();
    if m > n {
        return String::from_str(s);
    }
    let last: usize = n - m;
    let mut i: usize = 0;
    let mut found: bool = matches_at(&cs, &cp, 0);
    while !found && i < last
        invariant
            cs@ == s@,
            cp@ == pat@,
            n == s@.len(),
            m == pat@.len(),
            last == n - m,
            i <= last,
            found == occurs_at(s@, pat@, i as int),
            find_from(s@, pat@, 0) == find_from(s@, pat@, i as int),
        decreases last - i,
    {
        i += 1;
        found = matches_at(&cs, &cp, i);
    }
    if found {
        let mut r = String::from_str(s.substring_char(0, i));
        r.append(s.substring_char(i + m, n));
        r
    } else {
        assert(find_from(s@, pat@, i as int + 1) == -1);
        String::from_str(s)
    }
}


/// Whether two texts hold the same characters.
pub fn same_text(a: &str, b: &str) -> (same: bool)
    ensures
        same == (a@ == b@),
{
    let ca = chars_of(a);
    let cb = chars_of(b);
    let n: usize = ca.len();
    if cb.len() != n {
        return false;
    }
    let mut i: usize = 0;
    while i < n
        invariant
            ca@ == a@,
            cb@ == b@,
            n == ca@.len(),
            n == cb@.len(),
            i <= n,
            forall|j: int| 0 <= j < i ==> ca@[j] == cb@[j],
        decreases n - i,
    {
        if ca[i] != cb[i] {
            return false;
        }
        i += 1;
    }
    assert(a@ =~= b@);
    true
}

} // verus!
