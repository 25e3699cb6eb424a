//! Text helpers shared by the analysis views: word-bounded previews, blank
//! detection, substring search and bounded snippets.
//!
//! Every contract speaks of a string through its view, the sequence of its
//! characters.

use vstd::prelude::*;
use vstd::string::StringExecFns;

verus! {

/// Whether `c` has the `White_Space` property of the Unicode Character
/// Database: the controls U+0009 to U+000D, the space, U+0085, the no-break
/// space, U+1680, U+2000 to U+200A, the line and paragraph separators, U+202F,
/// U+205F and U+3000.
pub open spec fn is_whitespace(c: char) -> bool {
    let u = c as u32;
    ||| 0x0009 <= u <= 0x000D
    ||| u == 0x0020
    ||| u == 0x0085
    ||| u == 0x00A0
    ||| u == 0x1680
    ||| 0x2000 <= u <= 0x200A
    ||| u == 0x2028
    ||| u == 0x2029
    ||| u == 0x202F
    ||| u == 0x205F
    ||| u == 0x3000
}

/// Calls `char::is_whitespace`, which tells whether a character has the
/// `White_Space` property of the Unicode Character Database.
#[verifier::external_body]
pub(crate) fn char_is_whitespace(c: char) -> (b: bool)
    ensures
        b == is_whitespace(c),
{
    c.is_whitespace()
}

/// Calls `String::push`, which appends one character to the end of the string.
#[verifier::external_body]
pub(crate) fn push_char(s: &mut String, c: char)
    ensures
        final(s)@ == old(s)@.push(c),
{
    s.push(c)
}

/// The characters of a string slice, as a vector.
pub fn chars_of(s: &str) -> (v: Vec<char>)
    ensures
        v@ == s@,
{
    let mut v: Vec<char> = Vec::new();
    for c in it: s.chars()
        invariant
            v@ == it.seq().take(it.index() as int),
            it.seq() == s@,
    {
        v.push(c);
    }
    v
}

/// Appends `src[from..to]` to `out`.
pub fn push_range(out: &mut String, src: &Vec<char>, from: usize, to: usize)
    requires
        from <= to <= src.len(),
    ensures
        final(out)@ == old(out)@ + src@.subrange(from as int, to as int),
{
    let mut i: usize = from;
    while i < to
        invariant
            from <= i <= to <= src.len(),
            out@ == old(out)@ + src@.subrange(from as int, i as int),
        decreases to - i,
    {
        push_char(out, src[i]);
        i += 1;
    }
}

/// A string holding exactly the characters `src[from..to]`.
pub fn string_of_range(src: &Vec<char>, from: usize, to: usize) -> (s: String)
    requires
        from <= to <= src.len(),
    ensures
        s@ == src@.subrange(from as int, to as int),
{
    let mut s = String::new();
    push_range(&mut s, src, from, to);
    s
}

/// The maximal runs of non-whitespace characters of `s`, in order.
///
/// Read from the left: a whitespace character adds nothing, a character that
/// follows a non-whitespace one extends the last word, and any other character
/// starts a new word.
pub open spec fn words(s: Seq<char>) -> Seq<Seq<char>>
    decreases s.len(),
{
    if s.len() == 0 {
        Seq::empty()
    } else {
        let before = words(s.drop_last());
        let c = s.last();
        if is_whitespace(c) {
            before
        } else if s.len() >= 2 && !is_whitespace(s[s.len() - 2]) && before.len() > 0 {
            before.drop_last().push(before.last().push(c))
        } else {
            before.push(seq![c])
        }
    }
}

/// The words of `w` with one space between neighbours.
pub open spec fn joined(w: Seq<Seq<char>>) -> Seq<char>
    decreases w.len(),
{
    if w.len() == 0 {
        Seq::empty()
    } else if w.len() == 1 {
        w[0]
    } else {
        joined(w.drop_last()) + seq![' '] + w.last()
    }
}

/// The marker that ends a clipped preview: a space and a horizontal ellipsis.
pub open spec fn ellipsis() -> Seq<char> {
    seq![' ', '\u{2026}']
}

/// The first `max` members of `w`, or all of `w` where it has fewer.
pub open spec fn leading(w: Seq<Seq<char>>, max: nat) -> Seq<Seq<char>> {
    if w.len() > max {
        w.take(max as int)
    } else {
        w
    }
}

/// The preview of `s` at `max` words: `s` itself where it has no more words
/// than that, else its first `max` words, single-spaced, followed by the
/// ellipsis marker.
pub open spec fn truncated(s: Seq<char>, max: nat) -> Seq<char> {
    let w = words(s);
    if w.len() <= max {
        s
    } else {
        joined(leading(w, max)) + ellipsis()
    }
}

/// Whether every character of `s` is whitespace; the empty string is blank.
pub open spec fn blank(s: Seq<char>) -> bool {
    forall|i: int| 0 <= i < s.len() ==> is_whitespace(#[trigger] s[i])
}

/// Whether `pat` stands in `s` at index `i`.
pub open spec fn occurs_at(s: Seq<char>, pat: Seq<char>, i: int) -> bool {
    0 <= i && i + pat.len() <= s.len() && s.subrange(i, i + pat.len()) == pat
}

/// Whether `i` is the least index at which `pat` stands in `s`.
pub open spec fn is_first_occurrence(s: Seq<char>, pat: Seq<char>, i: int) -> bool {
    occurs_at(s, pat, i) && forall|j: int| 0 <= j < i ==> !occurs_at(s, pat, j)
}

/// The least index at which `pat` stands in `s`, if it stands anywhere.
pub open spec fn first_occurrence(s: Seq<char>, pat: Seq<char>) -> Option<int> {
    if exists|i: int| is_first_occurrence(s, pat, i) {
        Some(choose|i: int| is_first_occurrence(s, pat, i))
    } else {
        None
    }
}

/// `s` itself when it has at most `limit` characters, else its first `limit`
/// characters followed by `marker`.
pub open spec fn clipped(s: Seq<char>, limit: nat, marker: Seq<char>) -> Seq<char> {
    if s.len() > limit {
        s.take(limit as int) + marker
    } else {
        s
    }
}

/// A first occurrence, once found, is what `first_occurrence` names.
pub proof fn lemma_first_occurrence_found(s: Seq<char>, pat: Seq<char>, i: int)
    requires
        is_first_occurrence(s, pat, i),
    ensures
        first_occurrence(s, pat) == Some(i),
{
    let k = choose|k: int| is_first_occurrence(s, pat, k);
    if k < i {
        assert(!occurs_at(s, pat, k));
    } else if i < k {
        assert(!occurs_at(s, pat, i));
    }
}

/// Where `pat` stands nowhere in `s`, `first_occurrence` names nothing.
pub proof fn lemma_first_occurrence_absent(s: Seq<char>, pat: Seq<char>)
    requires
        forall|j: int| 0 <= j ==> !occurs_at(s, pat, j),
    ensures
        first_occurrence(s, pat) is None,
{
    if exists|i: int| is_first_occurrence(s, pat, i) {
        let k = choose|k: int| is_first_occurrence(s, pat, k);
        assert(occurs_at(s, pat, k));
    }
}

/// Appending a word to a non-empty list adds a space and the word.
pub proof fn lemma_joined_push(w: Seq<Seq<char>>, x: Seq<char>)
    ensures
        joined(w.push(x)) == if w.len() == 0 {
            x
        } else {
            joined(w) + seq![' '] + x
        },
{
    assert(w.push(x).drop_last() =~= w);
}

/// Growing the last word by one character grows the joined text by it.
pub proof fn lemma_joined_extend_last(w: Seq<Seq<char>>, c: char)
    requires
        w.len() > 0,
    ensures
        joined(w.drop_last().push(w.last().push(c))) == joined(w).push(c),
{
    let grown = w.drop_last().push(w.last().push(c));
    assert(grown.drop_last() =~= w.drop_last());
    if w.len() == 1 {
        assert(joined(grown) =~= joined(w).push(c));
    } else {
        assert(joined(grown) =~= joined(w).push(c));
    }
}

/// An occurrence in the tail of `s` behind `start` is one in `s`, `start`
/// further on.
pub proof fn lemma_occurs_in_tail(s: Seq<char>, start: int, pat: Seq<char>, i: int)
    requires
        0 <= start <= s.len(),
        0 <= i,
        start + i + pat.len() <= s.len(),
    ensures
        occurs_at(s.skip(start), pat, i) == occurs_at(s, pat, start + i),
{
    assert(s.skip(start).subrange(i, i + pat.len()) =~= s.subrange(
        start + i,
        start + i + pat.len(),
    ));
}

/// Whether the pattern stands in `hay` at `at`.
fn matches_at(hay: &Vec<char>, at: usize, pat: &Vec<char>) -> (b: bool)
    requires
        at + pat.len() <= hay.len(),
    ensures
        b == occurs_at(hay@, pat@, at as int),
{
    let mut k: usize = 0;
    while k < pat.len()
        invariant
            k <= pat.len(),
            at + pat.len() <= hay.len(),
            forall|j: int| 0 <= j < k ==> hay@[at + j] == pat@[j],
        decreases pat.len() - k,
    {
        if hay[at + k] != pat[k] {
            proof {
                let sub = hay@.subrange(at as int, at + pat.len());
                assert(sub[k as int] == hay@[at + k]);
            }
            return false;
        }
        k += 1;
    }
    proof {
        assert(hay@.subrange(at as int, at + pat.len()) =~= pat@);
    }
    true
}

/// The least index at or after `start` at which `pat` stands in `hay`, counted
/// from `start`.
pub fn find_from(hay: &Vec<char>, start: usize, pat: &Vec<char>) -> (r: Option<usize>)
    requires
        start <= hay.len(),
    ensures
        match r {
            Some(i) => first_occurrence(hay@.skip(start as int), pat@) == Some(i as int),
            None => first_occurrence(hay@.skip(start as int), pat@) is None,
        },
{
    let ghost tail = hay@.skip(start as int);
    if pat.len() > hay.len() - start {
        proof {
            lemma_first_occurrence_absent(tail, pat@);
        }
        return None;
    }
    let last: usize = hay.len() - start - pat.len();
    let mut i: usize = 0;
    while i < last
        invariant
            start + pat.len() <= hay.len(),
            last == hay.len() - start - pat.len(),
            i <= last,
            tail == hay@.skip(start as int),
            forall|j: int| 0 <= j < i ==> !occurs_at(tail, pat@, j),
        decreases last - i,
    {
        let hit = matches_at(hay, start + i, pat);
        proof {
            lemma_occurs_in_tail(hay@, start as int, pat@, i as int);
        }
        if hit {
            proof {
                lemma_first_occurrence_found(tail, pat@, i as int);
            }
            return Some(i);
        }
        i += 1;
    }
    let hit = matches_at(hay, start + last, pat);
    proof {
        lemma_occurs_in_tail(hay@, start as int, pat@, last as int);
    }
    if hit {
        proof {
            lemma_first_occurrence_found(tail, pat@, last as int);
        }
        return Some(last);
    }
    proof {
        lemma_first_occurrence_absent(tail, pat@);
    }
    None
}

/// Whether `s` holds nothing but whitespace.
pub fn is_blank(s: &str) -> (b: bool)
    ensures
        b == blank(s@),
{
    let v = chars_of(s);
    let mut i: usize = 0;
    while i < v.len()
        invariant
            i <= v.len(),
            v@ == s@,
            forall|j: int| 0 <= j < i ==> is_whitespace(#[trigger] v@[j]),
        decreases v.len() - i,
    {
        if !char_is_whitespace(v[i]) {
            return false;
        }
        i += 1;
    }
    true
}

/// A preview of `s`. A text of at most `max_words` words passes through
/// unchanged. Of a longer one the first `max_words` words are kept, separated
/// by single spaces, and the ellipsis marker is put behind them.
pub fn truncate_words(s: &str, max_words: usize) -> (out: String)
    ensures
        out@ == truncated(s@, max_words as nat),
{
    let v = chars_of(s);
    let mut out = String::new();
    let mut count: usize = 0;
    let mut in_word = false;
    let mut i: usize = 0;
    while i < v.len()
        invariant
            i <= v.len(),
            v@ == s@,
            count <= i,
            count == words(v@.take(i as int)).len(),
            in_word == (i > 0 && !is_whitespace(v@[i - 1])),
            in_word ==> count > 0,
            out@ == joined(leading(words(v@.take(i as int)), max_words as nat)),
        decreases v.len() - i,
    {
        let c = v[i];
        let ghost before = words(v@.take(i as int));
        proof {
            assert(v@.take(i + 1).drop_last() =~= v@.take(i as int));
            assert(v@.take(i + 1).last() == c);
            if i > 0 {
                assert(v@.take(i + 1)[i - 1] == v@[i - 1]);
            }
        }
        if char_is_whitespace(c) {
            in_word = false;
        } else if in_word {
            let ghost grown = before.drop_last().push(before.last().push(c));
            if count <= max_words {
                push_char(&mut out, c);
                proof {
                    lemma_joined_extend_last(before, c);
                }
            } else {
                proof {
                    assert(grown.take(max_words as int) =~= before.take(max_words as int));
                }
            }
        } else {
            let ghost more = before.push(seq![c]);
            if count < max_words {
                if count > 0 {
                    push_char(&mut out, ' ');
                }
                push_char(&mut out, c);
                proof {
                    lemma_joined_push(before, seq![c]);
                    assert(joined(more) =~= out@);
                }
            } else {
                proof {
                    assert(more.take(max_words as int) =~= leading(before, max_words as nat));
                }
            }
            count += 1;
            in_word = true;
        }
        i += 1;
    }
    proof {
        assert(v@.take(v.len() as int) =~= v@);
    }
    if count <= max_words {
        return s.to_owned();
    }
    push_char(&mut out, ' ');
    push_char(&mut out, '\u{2026}');
    proof {
        assert(out@ =~= joined(leading(words(s@), max_words as nat)) + ellipsis());
    }
    out
}

/// `s`, cut to its first `limit` characters with `marker` behind them when it
/// is longer than that.
pub fn clip_chars(s: &str, limit: usize, marker: &str) -> (out: String)
    ensures
        out@ == clipped(s@, limit as nat, marker@),
{
    let v = chars_of(s);
    if v.len() > limit {
        let mut out = string_of_range(&v, 0, limit);
        out.append(marker);
        out
    } else {
        proof {
            assert(v@.subrange(0, v.len() as int) =~= v@);
        }
        string_of_range(&v, 0, v.len())
    }
}

/// The character that writes the digit `d`.
pub open spec fn digit_char(d: nat) -> char {
    if d == 0 {
        '0'
    } else if d == 1 {
        '1'
    } else if d == 2 {
        '2'
    } else if d == 3 {
        '3'
    } else if d == 4 {
        '4'
    } else if d == 5 {
        '5'
    } else if d == 6 {
        '6'
    } else if d == 7 {
        '7'
    } else if d == 8 {
        '8'
    } else {
        '9'
    }
}

/// The decimal digits of `n`, most significant first, with no leading zero.
pub open spec fn digits(n: nat) -> Seq<char>
    decreases n,
{
    if n < 10 {
        seq![digit_char(n)]
    } else {
        digits(n / 10).push(digit_char(n % 10))
    }
}

/// `n` written in decimal, with a minus sign before a negative number.
pub open spec fn decimal(n: int) -> Seq<char> {
    if n < 0 {
        seq!['-'] + digits((-n) as nat)
    } else {
        digits(n as nat)
    }
}

/// The character that writes a digit below ten.
fn digit(d: u64) -> (c: char)
    requires
        d < 10,
    ensures
        c == digit_char(d as nat),
{
    if d == 0 {
        '0'
    } else if d == 1 {
        '1'
    } else if d == 2 {
        '2'
    } else if d == 3 {
        '3'
    } else if d == 4 {
        '4'
    } else if d == 5 {
        '5'
    } else if d == 6 {
        '6'
    } else if d == 7 {
        '7'
    } else if d == 8 {
        '8'
    } else {
        '9'
    }
}

/// Appends the decimal digits of `n` to `out`.
fn push_digits(out: &mut String, n: u64)
    ensures
        final(out)@ == old(out)@ + digits(n as nat),
    decreases n,
{
    if n >= 10 {
        push_digits(out, n / 10);
    }
    push_char(out, digit(n % 10));
    proof {
        if n >= 10 {
            assert(out@ =~= old(out)@ + digits((n / 10) as nat).push(digit_char((n % 10) as nat)));
        } else {
            assert(out@ =~= old(out)@ + seq![digit_char(n as nat)]);
        }
    }
}

/// Appends `n`, written in decimal, to `out`.
pub fn push_decimal(out: &mut String, n: i64)
    ensures
        final(out)@ == old(out)@ + decimal(n as int),
{
    if n < 0 {
        push_char(out, '-');
        let magnitude: u64 = (-(n as i128)) as u64;
        push_digits(out, magnitude);
        proof {
            assert(out@ =~= old(out)@ + (seq!['-'] + digits((-n) as nat)));
        }
    } else {
        push_digits(out, n as u64);
    }
}

/// Whether two string slices hold the same characters.
pub fn str_eq(a: &str, b: &str) -> (same: bool)
    ensures
        same == (a@ == b@),
{
    let x = chars_of(a);
    let y = chars_of(b);
    if x.len() != y.len() {
        return false;
    }
    let mut i: usize = 0;
    while i < x.len()
        invariant
            i <= x.len(),
            x.len() == y.len(),
            x@ == a@,
            y@ == b@,
            forall|j: int| 0 <= j < i ==> x@[j] == y@[j],
        decreases x.len() - i,
    {
        if x[i] != y[i] {
            return false;
        }
        i += 1;
    }
    proof {
        assert(x@ =~= y@);
    }
    true
}

/// A text within the limit passes through unchanged. A text with more words
/// is cut to its first `max` words and ends with the ellipsis marker.
pub proof fn lemma_truncated(s: Seq<char>, max: nat)
    ensures
        words(s).len() <= max ==> truncated(s, max) == s,
        words(s).len() > max ==> truncated(s, max) == joined(words(s).take(max as int))
            + ellipsis(),
        words(s).len() > max ==> ellipsis().is_suffix_of(truncated(s, max)),
{
    if words(s).len() > max {
        let head = joined(words(s).take(max as int));
        let whole = head + ellipsis();
        assert(whole.subrange(whole.len() - ellipsis().len(), whole.len() as int) =~= ellipsis());
    }
}

/// Words are what their name says: no word is empty, no word holds
/// whitespace, and a text has a word exactly when it is not blank.
pub proof fn lemma_words(s: Seq<char>)
    ensures
        forall|i: int|
            0 <= i < words(s).len() ==> (#[trigger] words(s)[i]).len() > 0 && !exists|j: int|
                0 <= j < words(s)[i].len() && is_whitespace(words(s)[i][j]),
        s.len() > 0 && !is_whitespace(s.last()) ==> words(s).len() > 0,
        words(s).len() == 0 <==> blank(s),
    decreases s.len(),
{
    if s.len() > 0 {
        let front = s.drop_last();
        let before = words(front);
        let c = s.last();
        lemma_words(front);
        if is_whitespace(c) {
            assert(blank(s) <==> blank(front)) by {
                if blank(front) {
                    assert forall|i: int| 0 <= i < s.len() implies is_whitespace(#[trigger] s[i]) by {
                        if i < front.len() {
                            assert(s[i] == front[i]);
                        }
                    }
                }
                if blank(s) {
                    assert forall|i: int| 0 <= i < front.len() implies is_whitespace(
                        #[trigger] front[i],
                    ) by {
                        assert(front[i] == s[i]);
                    }
                }
            }
        } else {
            assert(!blank(s)) by {
                assert(s[s.len() - 1] == c);
            }
            if s.len() >= 2 && !is_whitespace(s[s.len() - 2]) {
                assert(front.last() == s[s.len() - 2]);
                let grown = before.last().push(c);
                let after = before.drop_last().push(grown);
                assert forall|i: int| 0 <= i < after.len() implies (#[trigger] after[i]).len() > 0
                    && !exists|j: int| 0 <= j < after[i].len() && is_whitespace(after[i][j]) by {
                    if i < after.len() - 1 {
                        assert(after[i] == before[i]);
                    } else {
                        assert(after[i] == grown);
                        assert forall|j: int| 0 <= j < grown.len() implies !is_whitespace(
                            grown[j],
                        ) by {
                            if j < before.last().len() {
                                assert(grown[j] == before.last()[j]);
                                assert(before[before.len() - 1] == before.last());
                            }
                        }
                    }
                }
            } else {
                let after = before.push(seq![c]);
                assert forall|i: int| 0 <= i < after.len() implies (#[trigger] after[i]).len() > 0
                    && !exists|j: int| 0 <= j < after[i].len() && is_whitespace(after[i][j]) by {
                    if i < before.len() {
                        assert(after[i] == before[i]);
                    } else {
                        assert(after[i] == seq![c]);
                    }
                }
            }
        }
    }
}

} // verus!
