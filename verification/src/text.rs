//! The few `std` string operations the library needs that `vstd` gives no
//! specification for.

use vstd::prelude::*;

verus! {

/// `char::to_string` (std's `ToString` for `char`): the one-character
/// string holding `c`.
#[verifier::external_body]
pub fn char_to_string(c: char) -> (s: String)
    ensures
        s@ == seq![c],
{
    c.to_string()
}

/// `String::push` (std): appends `c` to the end of `s`.
#[verifier::external_body]
pub fn push_char(s: &mut String, c: char)
    ensures
        final(s)@ == old(s)@.push(c),
{
    s.push(c)
}

/// The characters of `s` as a vector, in order.
pub fn chars_of(s: &str) -> (chars: Vec<char>)
    ensures
        chars@ == s@,
{
    let n = s.unicode_len();
    let mut chars: Vec<char> = Vec::new();
    let mut i: usize = 0;
    while i < n
        invariant
            n == s@.len(),
            i <= n,
            chars@ == s@.subrange(0, i as int),
        decreases n - i,
    {
        chars.push(s.get_char(i));
        i = i + 1;
    }
    assert(chars@ == s@);
    chars
}

/// The string holding `chars[from..to]`.
pub fn string_of(chars: &Vec<char>, from: usize, to: usize) -> (s: String)
    requires
        from <= to <= chars@.len(),
    ensures
        s@ == chars@.subrange(from as int, to as int),
{
    let mut s = String::new();
    let mut i = from;
    while i < to
        invariant
            from <= i <= to <= chars@.len(),
            s@ == chars@.subrange(from as int, i as int),
        decreases to - i,
    {
        push_char(&mut s, chars[i]);
        i = i + 1;
    }
    s
}

/// Whether two strings hold the same characters.
pub fn str_eq(a: &str, b: &str) -> (equal: bool)
    ensures
        equal == (a@ == b@),
{
    let a_chars = chars_of(a);
    let b_chars = chars_of(b);
    if a_chars.len() != b_chars.len() {
        return false;
    }
    let mut i: usize = 0;
    while i < a_chars.len()
        invariant
            a_chars@ == a@,
            b_chars@ == b@,
            a_chars@.len() == b_chars@.len(),
            i <= a_chars@.len(),
            forall|j: int| 0 <= j < i ==> a_chars@[j] == b_chars@[j],
        decreases a_chars@.len() - i,
    {
        if a_chars[i] != b_chars[i] {
            return false;
        }
        i = i + 1;
    }
    assert(a@ =~= b@);
    true
}

/// Unicode `White_Space`, what `char::is_whitespace` (and so `str::trim`)
/// treats as white space.
pub open spec fn is_white(c: char) -> bool {
    ('\u{9}' <= c <= '\u{D}') || c == ' ' || c == '\u{85}' || c == '\u{A0}' || c == '\u{1680}'
        || ('\u{2000}' <= c <= '\u{200A}') || c == '\u{2028}' || c == '\u{2029}' || c
        == '\u{202F}' || c == '\u{205F}' || c == '\u{3000}'
}

pub fn is_whitespace(c: char) -> (white: bool)
    ensures
        white == is_white(c),
{
    ('\u{9}' <= c && c <= '\u{D}') || c == ' ' || c == '\u{85}' || c == '\u{A0}' || c
        == '\u{1680}' || ('\u{2000}' <= c && c <= '\u{200A}') || c == '\u{2028}' || c
        == '\u{2029}' || c == '\u{202F}' || c == '\u{205F}' || c == '\u{3000}'
}

/// `text` without its trailing white space (`str::trim_end`).
pub open spec fn trim_end(text: Seq<char>) -> Seq<char>
    decreases text.len(),
{
    if text.len() > 0 && is_white(text.last()) {
        trim_end(text.drop_last())
    } else {
        text
    }
}

/// `text` without its leading white space (`str::trim_start`).
pub open spec fn trim_start(text: Seq<char>) -> Seq<char>
    decreases text.len(),
{
    if text.len() > 0 && is_white(text[0]) {
        trim_start(text.drop_first())
    } else {
        text
    }
}

/// `text` without white space at either end (`str::trim`).
pub open spec fn trim(text: Seq<char>) -> Seq<char> {
    trim_end(trim_start(text))
}

/// The end of `chars[from..to]` once trailing white space is dropped.
pub fn trimmed_end(chars: &Vec<char>, from: usize, to: usize) -> (end: usize)
    requires
        from <= to <= chars@.len(),
    ensures
        from <= end <= to,
        chars@.subrange(from as int, end as int) == trim_end(
            chars@.subrange(from as int, to as int),
        ),
{
    let mut end = to;
    while end > from && is_whitespace(chars[end - 1])
        invariant
            from <= end <= to <= chars@.len(),
            trim_end(chars@.subrange(from as int, end as int)) == trim_end(
                chars@.subrange(from as int, to as int),
            ),
        decreases end - from,
    {
        let ghost piece = chars@.subrange(from as int, end as int);
        assert(piece.drop_last() =~= chars@.subrange(from as int, end - 1));
        end = end - 1;
    }
    let ghost piece = chars@.subrange(from as int, end as int);
    assert(trim_end(piece) == piece);
    end
}

/// The start of `chars[from..to]` once leading white space is dropped.
pub fn trimmed_start(chars: &Vec<char>, from: usize, to: usize) -> (start: usize)
    requires
        from <= to <= chars@.len(),
    ensures
        from <= start <= to,
        chars@.subrange(start as int, to as int) == trim_start(
            chars@.subrange(from as int, to as int),
        ),
{
    let mut start = from;
    while start < to && is_whitespace(chars[start])
        invariant
            from <= start <= to <= chars@.len(),
            trim_start(chars@.subrange(start as int, to as int)) == trim_start(
                chars@.subrange(from as int, to as int),
            ),
        decreases to - start,
    {
        let ghost piece = chars@.subrange(start as int, to as int);
        assert(piece.drop_first() =~= chars@.subrange(start + 1, to as int));
        start = start + 1;
    }
    let ghost piece = chars@.subrange(start as int, to as int);
    assert(trim_start(piece) == piece);
    start
}

/// Whether `chars[from..to]` begins with `prefix`.
pub fn has_prefix_at(chars: &Vec<char>, from: usize, to: usize, prefix: &str) -> (found: bool)
    requires
        from <= to <= chars@.len(),
    ensures
        found == starts_with(chars@.subrange(from as int, to as int), prefix@),
{
    let p = chars_of(prefix);
    if to - from < p.len() {
        return false;
    }
    let mut i: usize = 0;
    while i < p.len()
        invariant
            p@ == prefix@,
            from <= to <= chars@.len(),
            to - from >= p@.len(),
            i <= p@.len(),
            forall|j: int| 0 <= j < i ==> chars@[from + j] == p@[j],
        decreases p@.len() - i,
    {
        if chars[from + i] != p[i] {
            assert(chars@.subrange(from as int, to as int).take(p@.len() as int)[i as int]
                != prefix@[i as int]);
            return false;
        }
        i = i + 1;
    }
    assert(chars@.subrange(from as int, to as int).take(p@.len() as int) =~= prefix@);
    true
}

/// Whether `text` begins with `prefix`.
pub open spec fn starts_with(text: Seq<char>, prefix: Seq<char>) -> bool {
    text.len() >= prefix.len() && text.take(prefix.len() as int) == prefix
}

/// Where the line starting at `from` ends: the next `\n`, or the end.
pub open spec fn line_end(contents: Seq<char>, from: int) -> int
    decreases contents.len() - from,
{
    if from < 0 || from >= contents.len() {
        contents.len() as int
    } else if contents[from] == '\n' {
        from
    } else {
        line_end(contents, from + 1)
    }
}

pub proof fn lemma_line_end_bounds(contents: Seq<char>, from: int)
    requires
        0 <= from <= contents.len(),
    ensures
        from <= line_end(contents, from) <= contents.len(),
    decreases contents.len() - from,
{
    if from < contents.len() && contents[from] != '\n' {
        lemma_line_end_bounds(contents, from + 1);
    }
}

pub proof fn lemma_line_end_is_next_newline(contents: Seq<char>, from: int, end: int)
    requires
        0 <= from <= end <= contents.len(),
        forall|i: int| from <= i < end ==> contents[i] != '\n',
        end < contents.len() ==> contents[end] == '\n',
    ensures
        line_end(contents, from) == end,
    decreases end - from,
{
    if from < end {
        lemma_line_end_is_next_newline(contents, from + 1, end);
    }
}

/// The decimal spelling of `n`, most significant digit first, no leading
/// zeros (`0` for zero).
pub open spec fn decimal(n: nat) -> Seq<char>
    decreases n,
{
    if n < 10 {
        seq![digit_char(n)]
    } else {
        decimal(n / 10).push(digit_char(n % 10))
    }
}

pub open spec fn digit_char(d: nat) -> char {
    ((d + '0' as nat) as u32) as char
}

/// `u64`'s `Display`: the decimal spelling of `n`.
pub fn decimal_text(n: u64) -> (text: String)
    ensures
        text@ == decimal(n as nat),
    decreases n,
{
    if n < 10 {
        let c = ((n as u8) + 48u8) as char;
        assert(c == digit_char(n as nat));
        char_to_string(c)
    } else {
        let mut text = decimal_text(n / 10);
        let d = n % 10;
        let c = ((d as u8) + 48u8) as char;
        assert(c == digit_char(d as nat));
        push_char(&mut text, c);
        text
    }
}

} // verus!
