//! Text helpers shared by the other modules: decimal digits, substring
//! search and lossy decoding of bytes.

use vstd::prelude::*;
use vstd::string::StrSliceExecFns;
use vstd::string::StringExecFns;
use vstd::utf8::decode_utf8;
use vstd::utf8::encode_utf8;
use vstd::utf8::encode_utf8_decode_utf8;
use vstd::utf8::encode_utf8_valid_utf8;
use vstd::utf8::is_ascii_chars;
use vstd::utf8::is_ascii_chars_encode_utf8;
use vstd::utf8::valid_utf8;

verus! {

/// `needle` occurs in `haystack` as a run of consecutive characters.
pub open spec fn contains_text(haystack: Seq<char>, needle: Seq<char>) -> bool {
    exists|at: int|
        0 <= at && at + needle.len() <= haystack.len() && #[trigger] haystack.subrange(
            at,
            at + needle.len(),
        ) == needle
}

/// What lossy decoding makes of a run of bytes: the text that
/// `String::from_utf8_lossy` returns for them.
pub uninterp spec fn lossy_text(bytes: Seq<u8>) -> Seq<char>;

/// Calls `str::contains` of std with a string pattern. Claimed of it: the
/// answer is `true` exactly when the pattern occurs in the text as a run of
/// consecutive characters, which every text does for the empty pattern.
#[verifier::external_body]
pub(crate) fn text_contains(haystack: &str, needle: &str) -> (found: bool)
    ensures
        found == contains_text(haystack@, needle@),
{
    haystack.contains(needle)
}

/// Calls `String::from_utf8_lossy` of std and takes ownership of what it
/// returns. Claimed of it: the text depends on the bytes alone, and bytes
/// that are valid UTF-8 are decoded as they stand, with nothing replaced.
#[verifier::external_body]
pub(crate) fn decode_lossy(bytes: &Vec<u8>) -> (text: String)
    ensures
        text@ == lossy_text(bytes@),
        valid_utf8(bytes@) ==> text@ == decode_utf8(bytes@),
{
    String::from_utf8_lossy(bytes).into_owned()
}

/// Lossy decoding loses nothing of these bytes: where they are valid
/// UTF-8, their text is their decoding.
pub open spec fn decoded_faithfully(bytes: Seq<u8>) -> bool {
    valid_utf8(bytes) ==> lossy_text(bytes) == decode_utf8(bytes)
}

/// Every byte is an ASCII character.
pub open spec fn is_ascii_bytes(bytes: Seq<u8>) -> bool {
    forall|i: int| 0 <= i < bytes.len() ==> #[trigger] bytes[i] < 0x80
}

/// The text of ASCII bytes: each byte is one character.
pub open spec fn ascii_text(bytes: Seq<u8>) -> Seq<char> {
    Seq::new(bytes.len(), |i: int| bytes[i] as char)
}

/// ASCII bytes are valid UTF-8, and their decoding has one character for
/// each byte.
pub proof fn law_ascii_decodes_byte_by_byte(bytes: Seq<u8>)
    requires
        is_ascii_bytes(bytes),
    ensures
        valid_utf8(bytes),
        decode_utf8(bytes) == ascii_text(bytes),
{
    let chars = ascii_text(bytes);
    assert(is_ascii_chars(chars)) by {
        assert forall|i: int| 0 <= i < chars.len() implies '\0' <= #[trigger] chars[i]
            <= '\u{7f}' by {
            assert(bytes[i] < 0x80);
        }
    }
    is_ascii_chars_encode_utf8(chars);
    assert(encode_utf8(chars) =~= bytes) by {
        assert forall|i: int| 0 <= i < bytes.len() implies encode_utf8(chars)[i] == bytes[i] by {
            assert(chars[i] as u8 == encode_utf8(chars)[i]);
            assert(bytes[i] < 0x80);
        }
    }
    encode_utf8_valid_utf8(chars);
    encode_utf8_decode_utf8(chars);
}

/// The character that writes the decimal digit `d`.
pub open spec fn digit_char(d: int) -> char {
    if d == 0 {
        '0'
    } else if d == 1 {
        '1'
    } else if d == 2 {
        '2'
    } else if d == 3 {
        '3'
    } else if d == 4 {
        '4'
    } else if d == 5 {
        '5'
    } else if d == 6 {
        '6'
    } else if d == 7 {
        '7'
    } else if d == 8 {
        '8'
    } else {
        '9'
    }
}

/// `n` written with exactly two decimal digits (meant for `n < 100`).
pub open spec fn two_digits(n: int) -> Seq<char> {
    seq![digit_char(n / 10), digit_char(n % 10)]
}

/// `n` written with at least three decimal digits, padded with zeros on the
/// left (meant for `n < 10000`).
pub open spec fn three_digits(n: int) -> Seq<char> {
    if n < 1000 {
        seq![digit_char(n / 100), digit_char((n / 10) % 10), digit_char(n % 10)]
    } else {
        seq![
            digit_char(n / 1000),
            digit_char((n / 100) % 10),
            digit_char((n / 10) % 10),
            digit_char(n % 10),
        ]
    }
}

/// The one-character text of a decimal digit.
pub(crate) fn digit_str(d: u32) -> (r: &'static str)
    requires
        d < 10,
    ensures
        r@ == seq![digit_char(d as int)],
{
    proof {
        reveal_strlit("0");
        reveal_strlit("1");
        reveal_strlit("2");
        reveal_strlit("3");
        reveal_strlit("4");
        reveal_strlit("5");
        reveal_strlit("6");
        reveal_strlit("7");
        reveal_strlit("8");
        reveal_strlit("9");
    }
    let r = if d == 0 {
        "0"
    } else if d == 1 {
        "1"
    } else if d == 2 {
        "2"
    } else if d == 3 {
        "3"
    } else if d == 4 {
        "4"
    } else if d == 5 {
        "5"
    } else if d == 6 {
        "6"
    } else if d == 7 {
        "7"
    } else if d == 8 {
        "8"
    } else {
        "9"
    };
    assert(r@ =~= seq![digit_char(d as int)]);
    r
}

/// Appends `n` in two decimal digits to `out`.
pub(crate) fn push_two_digits(out: &mut String, n: u32)
    requires
        n < 100,
    ensures
        final(out)@ == old(out)@ + two_digits(n as int),
{
    out.append(digit_str(n / 10));
    out.append(digit_str(n % 10));
    assert(out@ =~= old(out)@ + two_digits(n as int));
}

/// Appends `n` in at least three decimal digits to `out`.
pub(crate) fn push_three_digits(out: &mut String, n: u32)
    requires
        n < 10000,
    ensures
        final(out)@ == old(out)@ + three_digits(n as int),
{
    if n >= 1000 {
        out.append(digit_str(n / 1000));
    }
    out.append(digit_str((n / 100) % 10));
    out.append(digit_str((n / 10) % 10));
    out.append(digit_str(n % 10));
    assert(out@ =~= old(out)@ + three_digits(n as int));
}

/// Calls `String::push` of std. Claimed of it: the character is appended
/// to the end of the text.
#[verifier::external_body]
pub(crate) fn push_char(text: &mut String, c: char)
    ensures
        final(text)@ == old(text)@.push(c),
{
    text.push(c);
}

/// The characters of a text, one by one.
pub fn chars_of(text: &str) -> (chars: Vec<char>)
    ensures
        chars@ == text@,
{
    let n = text.unicode_len();
    let mut chars: Vec<char> = Vec::new();
    let mut i: usize = 0;
    while i < n
        invariant
            i <= n,
            n == text@.len(),
            chars@ == text@.take(i as int),
        decreases n - i,
    {
        chars.push(text.get_char(i));
        assert(chars@ =~= text@.take(i + 1));
        i += 1;
    }
    assert(text@.take(n as int) =~= text@);
    chars
}

/// The text made of the characters from `from` up to, not with, `to`.
pub(crate) fn string_of(chars: &Vec<char>, from: usize, to: usize) -> (text: String)
    requires
        from <= to <= chars.len(),
    ensures
        text@ == chars@.subrange(from as int, to as int),
{
    let mut text = String::new();
    let mut i: usize = from;
    assert(chars@.subrange(from as int, from as int) =~= Seq::<char>::empty());
    while i < to
        invariant
            from <= i <= to <= chars.len(),
            text@ == chars@.subrange(from as int, i as int),
        decreases to - i,
    {
        push_char(&mut text, chars[i]);
        assert(text@ =~= chars@.subrange(from as int, i + 1));
        i += 1;
    }
    text
}

/// ASCII white space: space, tab, line feed, form feed, carriage return.
pub open spec fn is_space(c: char) -> bool {
    c == ' ' || c == '\t' || c == '\n' || c == '\x0C' || c == '\r'
}

/// A text read from left to right: the words that are closed, and the
/// word that is open at the end, empty after white space.
pub struct Scan {
    pub closed: Seq<Seq<char>>,
    pub open: Seq<char>,
}

/// Reads `text` from left to right: a character that is no white space
/// joins the open word, white space closes it.
pub open spec fn scan(text: Seq<char>) -> Scan
    decreases text.len(),
{
    if text.len() == 0 {
        Scan { closed: Seq::empty(), open: Seq::empty() }
    } else {
        let before = scan(text.drop_last());
        if !is_space(text.last()) {
            Scan { open: before.open.push(text.last()), ..before }
        } else if before.open.len() > 0 {
            Scan { closed: before.closed.push(before.open), open: Seq::empty() }
        } else {
            before
        }
    }
}

/// The words of a text: its runs of characters that are no ASCII white
/// space, in order. No word is empty.
pub open spec fn words(text: Seq<char>) -> Seq<Seq<char>> {
    let s = scan(text);
    if s.open.len() > 0 {
        s.closed.push(s.open)
    } else {
        s.closed
    }
}

/// `run` holds no white space.
pub open spec fn space_free(run: Seq<char>) -> bool {
    forall|j: int| 0 <= j < run.len() ==> !is_space(#[trigger] run[j])
}

/// `word` is a word: it is not empty and holds no white space.
pub open spec fn is_word(word: Seq<char>) -> bool {
    word.len() > 0 && space_free(word)
}

/// Every closed word of a scan is a word, and the open word holds no
/// white space.
proof fn lemma_scan_words(text: Seq<char>)
    ensures
        forall|i: int|
            0 <= i < scan(text).closed.len() ==> is_word(#[trigger] scan(text).closed[i]),
        space_free(scan(text).open),
    decreases text.len(),
{
    if text.len() > 0 {
        lemma_scan_words(text.drop_last());
        let before = scan(text.drop_last());
        let now = scan(text);
        assert forall|i: int| 0 <= i < now.closed.len() implies is_word(
            #[trigger] now.closed[i],
        ) by {
            if i < before.closed.len() {
                assert(now.closed[i] == before.closed[i]);
            }
        }
    }
}

/// Every word of a text is a word: none is empty, none holds white space.
pub proof fn law_words_hold_no_space(text: Seq<char>)
    ensures
        forall|i: int| 0 <= i < words(text).len() ==> is_word(#[trigger] words(text)[i]),
{
    lemma_scan_words(text);
    let s = scan(text);
    assert forall|i: int| 0 <= i < words(text).len() implies is_word(
        #[trigger] words(text)[i],
    ) by {
        if i < s.closed.len() {
            assert(words(text)[i] == s.closed[i]);
        }
    }
}

/// Tells whether a character is ASCII white space.
pub fn is_space_char(c: char) -> (r: bool)
    ensures
        r == is_space(c),
{
    c == ' ' || c == '\t' || c == '\n' || c == '\x0C' || c == '\r'
}

/// Splits a text into its words.
pub fn split_words(text: &str) -> (out: Vec<String>)
    ensures
        out.deep_view() == words(text@),
{
    let chars = chars_of(text);
    let mut out: Vec<String> = Vec::new();
    let mut start: usize = 0;
    let mut i: usize = 0;
    proof {
        assert(chars@.take(0) =~= Seq::<char>::empty());
        assert(out.deep_view() =~= Seq::<Seq<char>>::empty());
        assert(chars@.subrange(0, 0) =~= Seq::<char>::empty());
    }
    while i < chars.len()
        invariant
            start <= i <= chars.len(),
            chars@ == text@,
            out.deep_view() == scan(chars@.take(i as int)).closed,
            chars@.subrange(start as int, i as int) == scan(chars@.take(i as int)).open,
        decreases chars.len() - i,
    {
        let c = chars[i];
        let ghost before = scan(chars@.take(i as int));
        proof {
            assert(chars@.take(i + 1).drop_last() =~= chars@.take(i as int));
            assert(chars@.take(i + 1).last() == c);
        }
        if is_space_char(c) {
            if start < i {
                let word = string_of(&chars, start, i);
                let ghost closed = out.deep_view();
                out.push(word);
                assert(out.deep_view() =~= closed.push(word@));
            }
            start = i + 1;
            assert(chars@.subrange(start as int, i + 1) =~= Seq::<char>::empty());
        } else {
            assert(chars@.subrange(start as int, i + 1) =~= chars@.subrange(
                start as int,
                i as int,
            ).push(c));
        }
        i += 1;
    }
    assert(chars@.take(chars.len() as int) =~= chars@);
    if start < i {
        let word = string_of(&chars, start, i);
        let ghost closed = out.deep_view();
        out.push(word);
        assert(out.deep_view() =~= closed.push(word@));
    }
    out
}

/// The position of the first `c` in `text`, or the length of `text`
/// where there is none.
pub open spec fn first_index_of(text: Seq<char>, c: char) -> int
    decreases text.len(),
{
    if text.len() == 0 {
        0
    } else if text[0] == c {
        0
    } else {
        1 + first_index_of(text.skip(1), c)
    }
}

/// `first_index_of` names the first occurrence.
pub proof fn lemma_first_index_of(text: Seq<char>, c: char)
    ensures
        0 <= first_index_of(text, c) <= text.len(),
        first_index_of(text, c) < text.len() ==> text[first_index_of(text, c)] == c,
        forall|j: int| 0 <= j < first_index_of(text, c) ==> #[trigger] text[j] != c,
    decreases text.len(),
{
    if text.len() > 0 && text[0] != c {
        lemma_first_index_of(text.skip(1), c);
        assert forall|j: int| 0 <= j < first_index_of(text, c) implies #[trigger] text[j] != c by {
            if j > 0 {
                assert(text.skip(1)[j - 1] == text[j]);
            }
        }
    }
}

/// `text` with its first `c` replaced by `with`; `text` itself where it
/// holds no `c`.
pub open spec fn replace_first(text: Seq<char>, c: char, with: Seq<char>) -> Seq<char> {
    let at = first_index_of(text, c);
    if at < text.len() {
        text.take(at) + with + text.skip(at + 1)
    } else {
        text
    }
}

/// Replaces the first `c` of a text by `with`.
pub fn replace_first_char(text: &str, c: char, with: &str) -> (out: String)
    ensures
        out@ == replace_first(text@, c, with@),
{
    let chars = chars_of(text);
    let mut i: usize = 0;
    proof {
        lemma_first_index_of(chars@, c);
    }
    while i < chars.len() && chars[i] != c
        invariant
            i <= chars.len(),
            forall|j: int| 0 <= j < i ==> #[trigger] chars@[j] != c,
        decreases chars.len() - i,
    {
        i += 1;
    }
    assert(i == first_index_of(chars@, c));
    if i < chars.len() {
        let mut out = string_of(&chars, 0, i);
        out.append(with);
        let rest = string_of(&chars, i + 1, chars.len());
        out.append(rest.as_str());
        assert(out@ =~= replace_first(text@, c, with@));
        out
    } else {
        let out = string_of(&chars, 0, chars.len());
        assert(out@ =~= text@);
        out
    }
}

} // verus!
