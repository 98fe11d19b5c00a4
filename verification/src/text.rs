//! Text as sequences of characters: white space, lines, words and fields.
//!
//! The functions here work on slices of characters and hand out sub-slices,
//! so that nothing is copied before a result is turned into a `String`.

use vstd::prelude::*;
use vstd::slice::slice_subrange;
use vstd::utf8::{decode_utf8, valid_utf8};

verus! {

/// White space: the code points that carry the Unicode property `White_Space`.
pub open spec fn white_space(c: char) -> bool {
    let u = c as u32;
    ||| 0x09 <= u <= 0x0d
    ||| u == 0x20
    ||| u == 0x85
    ||| u == 0xa0
    ||| u == 0x1680
    ||| 0x2000 <= u <= 0x200a
    ||| u == 0x2028
    ||| u == 0x2029
    ||| u == 0x202f
    ||| u == 0x205f
    ||| u == 0x3000
}

/// Index of the first character at or after `from` that is not white space;
/// the length of `s` where there is none.
pub open spec fn text_start(s: Seq<char>, from: int) -> int
    decreases s.len() - from,
{
    if 0 <= from < s.len() && white_space(s[from]) {
        text_start(s, from + 1)
    } else {
        from
    }
}

/// Index just behind the last character before `to` that is not white space;
/// 0 where there is none.
pub open spec fn text_end(s: Seq<char>, to: int) -> int
    decreases to,
{
    if 0 < to <= s.len() && white_space(s[to - 1]) {
        text_end(s, to - 1)
    } else {
        to
    }
}

/// Index at which the run of characters other than white space that ends
/// before `to` begins.
pub open spec fn word_start(s: Seq<char>, to: int) -> int
    decreases to,
{
    if 0 < to <= s.len() && !white_space(s[to - 1]) {
        word_start(s, to - 1)
    } else {
        to
    }
}

/// Index of the first white space at or after `from`; the length of `s`
/// where there is none.
pub open spec fn word_end(s: Seq<char>, from: int) -> int
    decreases s.len() - from,
{
    if 0 <= from < s.len() && !white_space(s[from]) {
        word_end(s, from + 1)
    } else {
        from
    }
}

/// Index of the first `c` at or after `from`; the length of `s` where there is none.
pub open spec fn position(s: Seq<char>, c: char, from: int) -> int
    decreases s.len() - from,
{
    if 0 <= from < s.len() && s[from] != c {
        position(s, c, from + 1)
    } else {
        from
    }
}

/// `s` without its leading white space.
pub open spec fn trimmed_start(s: Seq<char>) -> Seq<char> {
    s.skip(text_start(s, 0))
}

/// `s` without its trailing white space.
pub open spec fn trimmed_end(s: Seq<char>) -> Seq<char> {
    s.take(text_end(s, s.len() as int))
}

/// `s` without leading and trailing white space.
pub open spec fn trimmed(s: Seq<char>) -> Seq<char> {
    trimmed_end(trimmed_start(s))
}

/// The last word of `s`: the longest run of characters other than white space
/// that nothing but white space follows. Empty where `s` holds no word.
pub open spec fn last_word(s: Seq<char>) -> Seq<char> {
    let end = text_end(s, s.len() as int);
    s.subrange(word_start(s, end), end)
}

/// The first word of `s`: the first run of characters other than white
/// space, as long as it can be. Empty where `s` holds no word.
pub open spec fn first_word(s: Seq<char>) -> Seq<char> {
    let start = text_start(s, 0);
    s.subrange(start, word_end(s, start))
}

/// What follows the first word of `s`, the white space behind the word
/// included. Empty where the word ends `s`.
pub open spec fn after_first_word(s: Seq<char>) -> Seq<char> {
    s.skip(word_end(s, text_start(s, 0)))
}

/// `line` without one carriage return at its end.
pub open spec fn without_cr(line: Seq<char>) -> Seq<char> {
    if line.len() > 0 && line.last() == '\r' {
        line.drop_last()
    } else {
        line
    }
}

/// The lines of `s` that begin at or after `from`. A line ends with a line
/// feed, or with a carriage return and a line feed; neither belongs to the
/// line. The last line needs no line end, and what follows the last line end
/// is a line only if it is not empty.
pub open spec fn lines_from(s: Seq<char>, from: int) -> Seq<Seq<char>>
    decreases s.len() - from,
{
    if from < 0 || from >= s.len() {
        Seq::empty()
    } else {
        let end = position(s, '\n', from);
        if end >= s.len() {
            seq![s.subrange(from, s.len() as int)]
        } else {
            proof {
                lemma_position_bounds(s, '\n', from);
            }
            seq![without_cr(s.subrange(from, end))] + lines_from(s, end + 1)
        }
    }
}

/// The lines of `s`.
pub open spec fn lines(s: Seq<char>) -> Seq<Seq<char>> {
    lines_from(s, 0)
}

/// What `s` holds before its first `c` and what it holds behind it; `None`
/// where `c` does not occur.
pub open spec fn split_at_first(s: Seq<char>, c: char) -> Option<(Seq<char>, Seq<char>)> {
    let at = position(s, c, 0);
    if at < s.len() {
        Some((s.take(at), s.skip(at + 1)))
    } else {
        None
    }
}

/// The second of the fields that `c` separates in `s`; `None` where `c` does
/// not occur, so that there is one field only.
pub open spec fn second_field(s: Seq<char>, c: char) -> Option<Seq<char>> {
    match split_at_first(s, c) {
        Some((_, rest)) => Some(rest.take(position(rest, c, 0))),
        None => None,
    }
}

/// `s` with every `c` taken out.
pub open spec fn without(s: Seq<char>, c: char) -> Seq<char>
    decreases s.len(),
{
    if s.len() == 0 {
        s
    } else if s.last() == c {
        without(s.drop_last(), c)
    } else {
        without(s.drop_last(), c).push(s.last())
    }
}

/// The contents of each slice of `v`.
pub open spec fn contents(v: Seq<&[char]>) -> Seq<Seq<char>> {
    v.map_values(|l: &[char]| l@)
}

/// The first `c` at or after `from` is not before `from` and not behind the end.
pub proof fn lemma_position_bounds(s: Seq<char>, c: char, from: int)
    requires
        0 <= from <= s.len(),
    ensures
        from <= position(s, c, from) <= s.len(),
    decreases s.len() - from,
{
    if from < s.len() && s[from] != c {
        lemma_position_bounds(s, c, from + 1);
    }
}

/// `position` finds the first occurrence: no `c` stands between `from` and
/// the index it gives, and a `c` stands at that index unless it is the end.
pub proof fn lemma_position_is_first(s: Seq<char>, c: char, from: int)
    requires
        0 <= from <= s.len(),
    ensures
        forall|i: int| from <= i < position(s, c, from) ==> s[i] != c,
        position(s, c, from) < s.len() ==> s[position(s, c, from)] == c,
    decreases s.len() - from,
{
    if from < s.len() && s[from] != c {
        lemma_position_is_first(s, c, from + 1);
    }
}

/// `text_start` skips white space and nothing else: it gives an index from
/// `from` on, only white space stands between `from` and that index, and
/// what stands at that index is not white space unless it is the end.
pub proof fn lemma_text_start_skips_white_space(s: Seq<char>, from: int)
    requires
        0 <= from <= s.len(),
    ensures
        from <= text_start(s, from) <= s.len(),
        forall|i: int| from <= i < text_start(s, from) ==> white_space(s[i]),
        text_start(s, from) < s.len() ==> !white_space(s[text_start(s, from)]),
    decreases s.len() - from,
{
    if from < s.len() && white_space(s[from]) {
        lemma_text_start_skips_white_space(s, from + 1);
    }
}

/// `text_end` drops white space and nothing else: it gives an index up to
/// `to`, only white space stands between that index and `to`, and what stands
/// before that index is not white space unless it is the beginning.
pub proof fn lemma_text_end_drops_white_space(s: Seq<char>, to: int)
    requires
        0 <= to <= s.len(),
    ensures
        0 <= text_end(s, to) <= to,
        forall|i: int| text_end(s, to) <= i < to ==> white_space(s[i]),
        text_end(s, to) > 0 ==> !white_space(s[text_end(s, to) - 1]),
    decreases to,
{
    if 0 < to && white_space(s[to - 1]) {
        lemma_text_end_drops_white_space(s, to - 1);
    }
}

/// `word_start` goes back over a word and no further: it gives an index up
/// to `to`, no white space stands between that index and `to`, and white
/// space stands before that index unless it is the beginning.
pub proof fn lemma_word_start_begins_word(s: Seq<char>, to: int)
    requires
        0 <= to <= s.len(),
    ensures
        0 <= word_start(s, to) <= to,
        forall|i: int| word_start(s, to) <= i < to ==> !white_space(s[i]),
        word_start(s, to) > 0 ==> white_space(s[word_start(s, to) - 1]),
    decreases to,
{
    if 0 < to && !white_space(s[to - 1]) {
        lemma_word_start_begins_word(s, to - 1);
    }
}

/// `word_end` goes over a word and no further: it gives an index from `from`
/// on, no white space stands between `from` and that index, and white space
/// stands at that index unless it is the end.
pub proof fn lemma_word_end_ends_word(s: Seq<char>, from: int)
    requires
        0 <= from <= s.len(),
    ensures
        from <= word_end(s, from) <= s.len(),
        forall|i: int| from <= i < word_end(s, from) ==> !white_space(s[i]),
        word_end(s, from) < s.len() ==> white_space(s[word_end(s, from)]),
    decreases s.len() - from,
{
    if from < s.len() && !white_space(s[from]) {
        lemma_word_end_ends_word(s, from + 1);
    }
}

/// The first word holds no white space, only white space stands before it,
/// and what follows it is empty or begins with white space.
pub proof fn lemma_first_word_is_a_word(s: Seq<char>)
    ensures
        forall|i: int| 0 <= i < first_word(s).len() ==> !white_space(#[trigger] first_word(s)[i]),
        forall|i: int| 0 <= i < text_start(s, 0) ==> white_space(s[i]),
        after_first_word(s).len() > 0 ==> white_space(after_first_word(s)[0]),
        s == s.take(text_start(s, 0)) + first_word(s) + after_first_word(s),
{
    lemma_text_start_skips_white_space(s, 0);
    lemma_word_end_ends_word(s, text_start(s, 0));
}

/// What is trimmed neither begins nor ends with white space.
pub proof fn lemma_trimmed_is_bare(s: Seq<char>)
    ensures
        trimmed(s).len() > 0 ==> !white_space(trimmed(s).first()) && !white_space(
            trimmed(s).last(),
        ),
{
    let head = trimmed_start(s);
    lemma_text_start_skips_white_space(s, 0);
    lemma_text_end_drops_white_space(head, head.len() as int);
}

/// To trim what is trimmed changes nothing.
pub proof fn lemma_trimmed_stays_trimmed(s: Seq<char>)
    ensures
        trimmed(trimmed(s)) == trimmed(s),
{
    let core = trimmed(s);
    lemma_trimmed_is_bare(s);
    assert(core.skip(0) == core);
    assert(core.take(core.len() as int) == core);
}

/// The last word holds no white space, and is empty only where `s` holds
/// nothing but white space.
pub proof fn lemma_last_word_is_a_word(s: Seq<char>)
    ensures
        forall|i: int| 0 <= i < last_word(s).len() ==> !white_space(#[trigger] last_word(s)[i]),
        last_word(s).len() == 0 ==> forall|i: int| 0 <= i < s.len() ==> white_space(s[i]),
{
    let end = text_end(s, s.len() as int);
    lemma_text_end_drops_white_space(s, s.len() as int);
    lemma_word_start_begins_word(s, end);
}

/// `without` takes out every `c` and nothing else: no `c` is left, and a
/// text that holds no `c` stays as it is.
pub proof fn lemma_without_takes_all_out(s: Seq<char>, c: char)
    ensures
        forall|i: int| 0 <= i < without(s, c).len() ==> #[trigger] without(s, c)[i] != c,
        (forall|i: int| 0 <= i < s.len() ==> s[i] != c) ==> without(s, c) == s,
    decreases s.len(),
{
    if s.len() > 0 {
        lemma_without_takes_all_out(s.drop_last(), c);
        let rest = without(s.drop_last(), c);
        assert forall|i: int| 0 <= i < without(s, c).len() implies #[trigger] without(s, c)[i]
            != c by {
            if s.last() != c && i < rest.len() {
                assert(without(s, c)[i] == rest[i]);
            }
        }
    }
}

/// No line holds a line feed.
pub proof fn lemma_lines_hold_no_line_feed(s: Seq<char>, from: int)
    requires
        0 <= from <= s.len(),
    ensures
        forall|i: int, j: int|
            0 <= i < lines_from(s, from).len() && 0 <= j < lines_from(s, from)[i].len()
                ==> #[trigger] lines_from(s, from)[i][j] != '\n',
    decreases s.len() - from,
{
    if from < s.len() {
        let end = position(s, '\n', from);
        lemma_position_bounds(s, '\n', from);
        lemma_position_is_first(s, '\n', from);
        if end < s.len() {
            lemma_lines_hold_no_line_feed(s, end + 1);
            let rest = lines_from(s, end + 1);
            assert forall|i: int, j: int|
                0 <= i < lines_from(s, from).len() && 0 <= j < lines_from(s, from)[i].len()
                implies #[trigger] lines_from(s, from)[i][j] != '\n' by {
                if i > 0 {
                    assert(lines_from(s, from)[i] == rest[i - 1]);
                }
            }
        }
    }
}

/// Whether `c` is white space.
pub fn is_whitespace(c: char) -> (b: bool)
    ensures
        b == white_space(c),
{
    let u: u32 = c as u32;
    (0x09 <= u && u <= 0x0d) || u == 0x20 || u == 0x85 || u == 0xa0 || u == 0x1680 || (0x2000 <= u
        && u <= 0x200a) || u == 0x2028 || u == 0x2029 || u == 0x202f || u == 0x205f || u == 0x3000
}

/// The characters of `s`, in order.
pub fn to_chars(s: &str) -> (chars: Vec<char>)
    ensures
        chars@ == s@,
{
    let mut chars: Vec<char> = Vec::new();
    for c in it: s.chars()
        invariant
            it.seq() == s@,
            chars@ == s@.take(it.index() as int),
    {
        chars.push(c);
    }
    chars
}

/// `String::push`: the string is afterwards what it was, with `c` added at its end.
#[verifier::external_body]
fn push_char(s: &mut String, c: char)
    ensures
        final(s)@ == old(s)@.push(c),
{
    s.push(c)
}

/// `String::from_utf8`: the text that `bytes` encode in UTF-8, where they encode one.
#[verifier::external_body]
pub(crate) fn from_utf8(bytes: Vec<u8>) -> (text: Option<String>)
    ensures
        text is Some <==> valid_utf8(bytes@),
        text matches Some(t) ==> t@ == decode_utf8(bytes@),
{
    match String::from_utf8(bytes) {
        Ok(text) => Some(text),
        Err(_) => None,
    }
}

/// The string that is made of `chars`.
pub fn to_string(chars: &[char]) -> (s: String)
    ensures
        s@ == chars@,
{
    let mut s = String::new();
    let mut i: usize = 0;
    while i < chars.len()
        invariant
            0 <= i <= chars.len(),
            s@ == chars@.take(i as int),
        decreases chars.len() - i,
    {
        push_char(&mut s, chars[i]);
        i += 1;
    }
    s
}

/// Whether `a` and `b` hold the same characters.
pub fn same(a: &[char], b: &[char]) -> (r: bool)
    ensures
        r == (a@ == b@),
{
    if a.len() != b.len() {
        return false;
    }
    let mut i: usize = 0;
    while i < a.len()
        invariant
            0 <= i <= a.len(),
            a.len() == b.len(),
            a@.take(i as int) == b@.take(i as int),
        decreases a.len() - i,
    {
        if a[i] != b[i] {
            return false;
        }
        i += 1;
    }
    proof {
        assert(a@.take(a.len() as int) == a@);
        assert(b@.take(b.len() as int) == b@);
    }
    true
}

/// Whether `s` begins with `prefix`.
pub fn starts_with(s: &[char], prefix: &[char]) -> (r: bool)
    ensures
        r == prefix@.is_prefix_of(s@),
{
    if prefix.len() > s.len() {
        return false;
    }
    same(slice_subrange(s, 0, prefix.len()), prefix)
}

/// The index of the first `c` in `s` at or after `from`.
pub fn find(s: &[char], c: char, from: usize) -> (at: usize)
    ensures
        at == position(s@, c, from as int),
        from <= at,
        from <= s.len() ==> at <= s.len(),
{
    let mut i: usize = from;
    while i < s.len() && s[i] != c
        invariant
            from <= i,
            from <= s.len() ==> i <= s.len(),
            position(s@, c, from as int) == position(s@, c, i as int),
        decreases s.len() - i,
    {
        i += 1;
    }
    i
}

/// `s` without its leading white space.
pub fn trim_start(s: &[char]) -> (r: &[char])
    ensures
        r@ == trimmed_start(s@),
{
    let mut i: usize = 0;
    while i < s.len() && is_whitespace(s[i])
        invariant
            0 <= i <= s.len(),
            text_start(s@, 0) == text_start(s@, i as int),
        decreases s.len() - i,
    {
        i += 1;
    }
    slice_subrange(s, i, s.len())
}

/// The index behind the last character of `s` that is not white space.
fn end_of_text(s: &[char]) -> (end: usize)
    ensures
        end == text_end(s@, s.len() as int),
        end <= s.len(),
{
    let mut i: usize = s.len();
    while i > 0 && is_whitespace(s[i - 1])
        invariant
            0 <= i <= s.len(),
            text_end(s@, s.len() as int) == text_end(s@, i as int),
        decreases i,
    {
        i -= 1;
    }
    i
}

/// `s` without its trailing white space.
pub fn trim_end(s: &[char]) -> (r: &[char])
    ensures
        r@ == trimmed_end(s@),
{
    let end = end_of_text(s);
    slice_subrange(s, 0, end)
}

/// `s` without leading and trailing white space.
pub fn trim(s: &[char]) -> (r: &[char])
    ensures
        r@ == trimmed(s@),
{
    trim_end(trim_start(s))
}

/// The last word of `s`.
pub fn last_token(s: &[char]) -> (r: &[char])
    ensures
        r@ == last_word(s@),
{
    let end = end_of_text(s);
    let mut i: usize = end;
    while i > 0 && !is_whitespace(s[i - 1])
        invariant
            0 <= i <= end <= s.len(),
            word_start(s@, end as int) == word_start(s@, i as int),
        decreases i,
    {
        i -= 1;
    }
    slice_subrange(s, i, end)
}

/// The first word of `s` and what follows it.
pub fn split_first_word(s: &[char]) -> (r: (&[char], &[char]))
    ensures
        r.0@ == first_word(s@),
        r.1@ == after_first_word(s@),
{
    let mut start: usize = 0;
    while start < s.len() && is_whitespace(s[start])
        invariant
            0 <= start <= s.len(),
            text_start(s@, 0) == text_start(s@, start as int),
        decreases s.len() - start,
    {
        start += 1;
    }
    let mut end: usize = start;
    while end < s.len() && !is_whitespace(s[end])
        invariant
            start <= end <= s.len(),
            word_end(s@, start as int) == word_end(s@, end as int),
        decreases s.len() - end,
    {
        end += 1;
    }
    (slice_subrange(s, start, end), slice_subrange(s, end, s.len()))
}

/// The lines of `s`, in order.
pub fn split_lines<'a>(s: &'a [char]) -> (out: Vec<&'a [char]>)
    ensures
        contents(out@) == lines(s@),
{
    let mut out: Vec<&'a [char]> = Vec::new();
    let mut from: usize = 0;
    while from < s.len()
        invariant
            0 <= from <= s.len(),
            lines(s@) == contents(out@) + lines_from(s@, from as int),
        decreases s.len() - from,
    {
        let end = find(s, '\n', from);
        if end >= s.len() {
            let line = slice_subrange(s, from, s.len());
            out.push(line);
            from = s.len();
        } else {
            let stop = if end > from && s[end - 1] == '\r' {
                end - 1
            } else {
                end
            };
            let line = slice_subrange(s, from, stop);
            assert(line@ == without_cr(s@.subrange(from as int, end as int)));
            out.push(line);
            from = end + 1;
        }
    }
    out
}

/// What `s` holds before its first `c` and what it holds behind it.
pub fn split_once(s: &[char], c: char) -> (r: Option<(&[char], &[char])>)
    ensures
        match r {
            Some((head, rest)) => split_at_first(s@, c) == Some((head@, rest@)),
            None => split_at_first(s@, c) is None,
        },
{
    let at = find(s, c, 0);
    if at < s.len() {
        Some((slice_subrange(s, 0, at), slice_subrange(s, at + 1, s.len())))
    } else {
        None
    }
}

/// The second of the fields that `c` separates in `s`.
pub fn take_second_field(s: &[char], c: char) -> (r: Option<&[char]>)
    ensures
        match r {
            Some(field) => second_field(s@, c) == Some(field@),
            None => second_field(s@, c) is None,
        },
{
    match split_once(s, c) {
        Some((_, rest)) => {
            let stop = find(rest, c, 0);
            Some(slice_subrange(rest, 0, stop))
        },
        None => None,
    }
}

/// `s` with every `c` taken out.
pub fn remove_all(s: &[char], c: char) -> (out: Vec<char>)
    ensures
        out@ == without(s@, c),
{
    let mut out: Vec<char> = Vec::new();
    let mut i: usize = 0;
    while i < s.len()
        invariant
            0 <= i <= s.len(),
            out@ == without(s@.take(i as int), c),
        decreases s.len() - i,
    {
        proof {
            assert(s@.take(i + 1).drop_last() == s@.take(i as int));
        }
        if s[i] != c {
            out.push(s[i]);
        }
        i += 1;
    }
    proof {
        assert(s@.take(s.len() as int) == s@);
    }
    out
}

} // verus!
