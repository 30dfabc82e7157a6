//! Text as sequences of characters: equality, trimming, searching and splitting.

use vstd::prelude::*;
use vstd::string::*;
use vstd::utf8::*;

use crate::outside::str_from_utf8;

verus! {

/// The characters with the Unicode property White_Space.
pub open spec fn is_space(c: char) -> bool {
    let code = c as u32;
    ||| 0x09 <= code <= 0x0d
    ||| code == 0x20
    ||| code == 0x85
    ||| code == 0xa0
    ||| code == 0x1680
    ||| 0x2000 <= code <= 0x200a
    ||| code == 0x2028
    ||| code == 0x2029
    ||| code == 0x202f
    ||| code == 0x205f
    ||| code == 0x3000
}

/// A text without its leading white space.
pub open spec fn trim_front(s: Seq<char>) -> Seq<char>
    decreases s.len(),
{
    if s.len() > 0 && is_space(s[0]) {
        trim_front(s.drop_first())
    } else {
        s
    }
}

/// A text without its trailing white space.
pub open spec fn trim_back(s: Seq<char>) -> Seq<char>
    decreases s.len(),
{
    if s.len() > 0 && is_space(s.last()) {
        trim_back(s.drop_last())
    } else {
        s
    }
}

/// A text without the white space around it.
pub open spec fn trimmed(s: Seq<char>) -> Seq<char> {
    trim_back(trim_front(s))
}

/// Whether `part` occurs somewhere in `s`.
pub open spec fn has_part(s: Seq<char>, part: Seq<char>) -> bool {
    exists|i: int|
        0 <= i <= s.len() - part.len() && #[trigger] s.subrange(i, i + part.len()) == part
}

/// A character with the ASCII capitals mapped to small letters.
pub open spec fn lower_char(c: char) -> char {
    if 'A' <= c <= 'Z' {
        (c as u32 + 32) as char
    } else {
        c
    }
}

/// A text with the ASCII capitals mapped to small letters.
pub open spec fn lowered(s: Seq<char>) -> Seq<char> {
    s.map_values(|c: char| lower_char(c))
}

/// The position of the first white space in `s`, or its length.
pub open spec fn word_len(s: Seq<char>) -> nat
    decreases s.len(),
{
    if s.len() == 0 || is_space(s[0]) {
        0
    } else {
        1 + word_len(s.drop_first())
    }
}

proof fn lemma_trim_front_len(s: Seq<char>)
    ensures
        trim_front(s).len() <= s.len(),
        trim_front(s).len() > 0 ==> !is_space(trim_front(s)[0]),
    decreases s.len(),
{
    if s.len() > 0 && is_space(s[0]) {
        lemma_trim_front_len(s.drop_first());
    }
}

proof fn lemma_word_len_bound(s: Seq<char>)
    ensures
        word_len(s) <= s.len(),
    decreases s.len(),
{
    if s.len() > 0 && !is_space(s[0]) {
        lemma_word_len_bound(s.drop_first());
    }
}

/// The maximal runs of `s` without white space, in order.
pub open spec fn words(s: Seq<char>) -> Seq<Seq<char>>
    decreases s.len(),
    via words_decreases
{
    let rest = trim_front(s);
    if rest.len() == 0 {
        Seq::empty()
    } else {
        seq![rest.take(word_len(rest) as int)] + words(rest.skip(word_len(rest) as int))
    }
}

#[via_fn]
proof fn words_decreases(s: Seq<char>) {
    lemma_trim_front_len(s);
    let rest = trim_front(s);
    lemma_word_len_bound(rest);
    if rest.len() > 0 {
        assert(word_len(rest) > 0);
    }
}

/// The position of the first line feed in `s`, or its length.
pub open spec fn line_len(s: Seq<char>) -> nat
    decreases s.len(),
{
    if s.len() == 0 || s[0] == '\n' {
        0
    } else {
        1 + line_len(s.drop_first())
    }
}

proof fn lemma_line_len_bound(s: Seq<char>)
    ensures
        line_len(s) <= s.len(),
    decreases s.len(),
{
    if s.len() > 0 && s[0] != '\n' {
        lemma_line_len_bound(s.drop_first());
    }
}

/// A line whose end was a line feed, without a carriage return before it.
pub open spec fn without_return(line: Seq<char>) -> Seq<char> {
    if line.len() > 0 && line.last() == '\r' {
        line.drop_last()
    } else {
        line
    }
}

/// The lines of `s`, without their ends; the last line needs none.
pub open spec fn lines(s: Seq<char>) -> Seq<Seq<char>>
    decreases s.len(),
    via lines_decreases
{
    if s.len() == 0 {
        Seq::empty()
    } else if line_len(s) == s.len() {
        seq![s]
    } else {
        seq![without_return(s.take(line_len(s) as int))] + lines(s.skip(line_len(s) as int + 1))
    }
}

#[via_fn]
proof fn lines_decreases(s: Seq<char>) {
    lemma_line_len_bound(s);
}

/// Whether a line holds more than white space.
pub open spec fn is_filled(line: Seq<char>) -> bool {
    trimmed(line).len() > 0
}

/// The lines of `s` that hold more than white space.
pub open spec fn filled_lines(s: Seq<char>) -> Seq<Seq<char>> {
    lines(s).filter(|line: Seq<char>| is_filled(line))
}

/// The characters of a text.
pub fn to_chars(s: &str) -> (chars: Vec<char>)
    ensures
        chars@ == s@,
{
    let mut chars: Vec<char> = Vec::new();
    for c in iter: s.chars()
        invariant
            iter.seq() == s@,
            chars@ == s@.take(iter.index()),
    {
        chars.push(c);
        assert(chars@ =~= s@.take(iter.index() + 1));
    }
    assert(chars@ =~= s@);
    chars
}

/// The view of an optional value.
pub open spec fn option_view<T: View>(value: Option<T>) -> Option<T::V> {
    match value {
        Some(v) => Some(v@),
        None => None,
    }
}

/// The views of a value or of an error.
pub open spec fn result_view<T: View, E: View>(value: Result<T, E>) -> Result<T::V, E::V> {
    match value {
        Ok(v) => Ok(v@),
        Err(e) => Err(e@),
    }
}

/// The texts of a sequence of strings.
pub open spec fn texts(list: Seq<String>) -> Seq<Seq<char>> {
    list.map_values(|item: String| item@)
}

/// A copy of an optional text.
pub fn copy_option(text: &Option<String>) -> (copy: Option<String>)
    ensures
        option_view(copy) == option_view(*text),
{
    match text {
        Some(value) => Some(value.clone()),
        None => None,
    }
}

/// Whether two texts are the same.
pub fn same_text(left: &str, right: &str) -> (same: bool)
    ensures
        same == (left@ == right@),
{
    let same = crate::bytes::same_bytes(left.as_bytes(), right.as_bytes());
    proof {
        if same {
            encode_utf8_decode_utf8(left@);
            encode_utf8_decode_utf8(right@);
        }
    }
    same
}

/// Whether a character is white space.
pub fn is_space_char(c: char) -> (space: bool)
    ensures
        space == is_space(c),
{
    let code: u32 = c as u32;
    (0x09 <= code && code <= 0x0d) || code == 0x20 || code == 0x85 || code == 0xa0
        || code == 0x1680 || (0x2000 <= code && code <= 0x200a) || code == 0x2028 || code == 0x2029
        || code == 0x202f || code == 0x205f || code == 0x3000
}

/// A text without the white space around it.
pub fn trim(s: &str) -> (rest: &str)
    ensures
        rest@ == trimmed(s@),
{
    let chars = to_chars(s);
    let mut from: usize = 0;
    assert(chars@.skip(0) =~= chars@);
    while from < chars.len() && is_space_char(chars[from])
        invariant
            from <= chars@.len(),
            trim_front(chars@) == trim_front(chars@.skip(from as int)),
        decreases chars@.len() - from,
    {
        assert(chars@.skip(from as int).drop_first() =~= chars@.skip(from as int + 1));
        from = from + 1;
    }
    let mut to: usize = chars.len();
    let ghost front = chars@.skip(from as int);
    assert(trim_front(chars@) == front);
    assert(chars@.subrange(from as int, to as int) =~= front);
    while from < to && is_space_char(chars[to - 1])
        invariant
            from <= to <= chars@.len(),
            trim_back(front) == trim_back(chars@.subrange(from as int, to as int)),
        decreases to,
    {
        let ghost part = chars@.subrange(from as int, to as int);
        assert(part.drop_last() =~= chars@.subrange(from as int, to as int - 1));
        assert(part.last() == chars@[to as int - 1]);
        to = to - 1;
    }
    proof {
        let part = chars@.subrange(from as int, to as int);
        if from < to {
            assert(part.last() == chars@[to as int - 1]);
        }
        assert(trim_back(part) == part);
    }
    s.substring_char(from, to)
}

/// Whether a text begins with `prefix`.
pub fn starts_with(s: &str, prefix: &str) -> (found: bool)
    ensures
        found == prefix@.is_prefix_of(s@),
{
    let chars = to_chars(s);
    let start = to_chars(prefix);
    if start.len() > chars.len() {
        return false;
    }
    let mut index: usize = 0;
    while index < start.len()
        invariant
            index <= start@.len() <= chars@.len(),
            chars@ == s@,
            start@ == prefix@,
            forall|i: int| 0 <= i < index ==> start@[i] == chars@[i],
        decreases start@.len() - index,
    {
        if start[index] != chars[index] {
            assert(chars@.subrange(0, start@.len() as int)[index as int] == chars@[index as int]);
            return false;
        }
        index = index + 1;
    }
    assert(start@ =~= chars@.subrange(0, start@.len() as int));
    true
}

fn part_at(chars: &Vec<char>, part: &Vec<char>, at: usize) -> (found: bool)
    requires
        at + part@.len() <= chars@.len(),
    ensures
        found == (chars@.subrange(at as int, at + part@.len()) == part@),
{
    let mut index: usize = 0;
    assert(chars.len() <= usize::MAX);
    while index < part.len()
        invariant
            index <= part@.len(),
            at + part@.len() <= chars@.len() <= usize::MAX,
            forall|i: int| 0 <= i < index ==> part@[i] == chars@[at + i],
        decreases part@.len() - index,
    {
        if part[index] != chars[at + index] {
            assert(chars@.subrange(at as int, at + part@.len())[index as int] == chars@[at + index]);
            return false;
        }
        index = index + 1;
    }
    assert(chars@.subrange(at as int, at + part@.len()) =~= part@);
    true
}

/// Whether `part` occurs somewhere in `chars`.
pub fn contains_part(chars: &Vec<char>, part: &str) -> (found: bool)
    ensures
        found == has_part(chars@, part@),
{
    let needle = to_chars(part);
    if needle.len() > chars.len() {
        return false;
    }
    let last: usize = chars.len() - needle.len();
    let mut at: usize = 0;
    while at <= last
        invariant
            needle@ == part@,
            part@.len() <= chars@.len(),
            last == chars@.len() - part@.len(),
            at <= last + 1,
            forall|i: int|
                0 <= i < at ==> #[trigger] chars@.subrange(i, i + part@.len()) != part@,
        decreases last + 1 - at,
    {
        if part_at(chars, &needle, at) {
            return true;
        }
        if at == last {
            return false;
        }
        at = at + 1;
    }
    false
}

/// A character with the ASCII capitals mapped to small letters.
pub fn to_lower_char(c: char) -> (lower: char)
    ensures
        lower == lower_char(c),
{
    if 'A' <= c && c <= 'Z' {
        (c as u8 + 32) as char
    } else {
        c
    }
}

/// The characters of a text, with the ASCII capitals mapped to small letters.
pub fn to_lower_chars(s: &str) -> (lower: Vec<char>)
    ensures
        lower@ == lowered(s@),
{
    let chars = to_chars(s);
    let mut lower: Vec<char> = Vec::new();
    let mut index: usize = 0;
    while index < chars.len()
        invariant
            index <= chars@.len(),
            lower@.len() == index,
            forall|i: int| 0 <= i < index ==> lower@[i] == lower_char(chars@[i]),
        decreases chars@.len() - index,
    {
        lower.push(to_lower_char(chars[index]));
        index = index + 1;
    }
    assert(lower@ =~= lowered(s@));
    lower
}

/// The maximal runs of a text without white space, in order.
pub fn split_words(s: &str) -> (list: Vec<String>)
    ensures
        texts(list@) == words(s@),
{
    let chars = to_chars(s);
    let mut list: Vec<String> = Vec::new();
    let mut at: usize = 0;
    assert(chars@.skip(0) =~= chars@);
    assert(texts(list@) + words(chars@) =~= words(chars@));
    while at < chars.len()
        invariant
            chars@ == s@,
            at <= chars@.len(),
            texts(list@) + words(chars@.skip(at as int)) == words(s@),
        decreases chars@.len() - at,
    {
        let ghost rest = chars@.skip(at as int);
        if is_space_char(chars[at]) {
            assert(trim_front(rest) == trim_front(rest.drop_first()));
            assert(rest.drop_first() =~= chars@.skip(at as int + 1));
            assert(words(rest) == words(rest.drop_first()));
            at = at + 1;
        } else {
            let mut end: usize = at;
            while end < chars.len() && !is_space_char(chars[end])
                invariant
                    at <= end <= chars@.len(),
                    rest == chars@.skip(at as int),
                    word_len(rest) == end - at + word_len(chars@.skip(end as int)),
                decreases chars@.len() - end,
            {
                assert(chars@.skip(end as int).drop_first() =~= chars@.skip(end as int + 1));
                end = end + 1;
            }
            assert(word_len(chars@.skip(end as int)) == 0);
            assert(word_len(rest) == end - at);
            assert(trim_front(rest) == rest);
            let ghost before = list@;
            list.push(s.substring_char(at, end).to_owned());
            proof {
                assert(rest.take(end - at) =~= s@.subrange(at as int, end as int));
                assert(rest.skip(end - at) =~= chars@.skip(end as int));
                assert(texts(list@) =~= texts(before).push(rest.take(end - at)));
                assert(texts(list@) + words(chars@.skip(end as int)) =~= texts(before) + words(
                    rest,
                ));
                assert(word_len(rest) > 0);
            }
            at = end;
        }
    }
    proof {
        assert(chars@.skip(at as int) =~= Seq::<char>::empty());
        assert(words(chars@.skip(at as int)) =~= Seq::<Seq<char>>::empty());
        assert(texts(list@) + Seq::<Seq<char>>::empty() =~= texts(list@));
    }
    list
}

/// The digit of a value below sixteen, in hexadecimal notation.
pub open spec fn hex_digit(value: int) -> char {
    if value < 10 {
        (('0' as u32) + value) as char
    } else {
        (('a' as u32) + value - 10) as char
    }
}

/// The hexadecimal notation of a byte sequence, two small digits for each byte.
pub open spec fn hex_text(bytes: Seq<u8>) -> Seq<char> {
    Seq::new(
        2 * bytes.len(),
        |i: int| hex_digit(if i % 2 == 0 { bytes[i / 2] / 16 } else { bytes[i / 2] % 16 } as int),
    )
}

/// The decimal notation of a number.
pub open spec fn decimal_text(n: nat) -> Seq<char>
    decreases n,
{
    if n < 10 {
        seq![hex_digit(n as int)]
    } else {
        decimal_text(n / 10).push(hex_digit((n % 10) as int))
    }
}

/// The text whose characters have the codes `bytes`.
pub open spec fn ascii_text(bytes: Seq<u8>) -> Seq<char> {
    bytes.map_values(|b: u8| b as char)
}

proof fn lemma_ascii_text(bytes: Seq<u8>)
    requires
        forall|i: int| 0 <= i < bytes.len() ==> bytes[i] < 128,
    ensures
        valid_utf8(bytes),
        encode_utf8(ascii_text(bytes)) == bytes,
{
    let chars = ascii_text(bytes);
    assert(is_ascii_chars(chars));
    is_ascii_chars_encode_utf8(chars);
    encode_utf8_valid_utf8(chars);
    assert(encode_utf8(chars) =~= bytes);
}

/// The text whose characters have the codes `bytes`.
pub fn ascii_string(bytes: &Vec<u8>) -> (s: String)
    requires
        forall|i: int| 0 <= i < bytes@.len() ==> bytes@[i] < 128,
    ensures
        s@ == ascii_text(bytes@),
{
    proof {
        lemma_ascii_text(bytes@);
    }
    match str_from_utf8(bytes.as_slice()) {
        Some(s) => {
            proof {
                encode_utf8_decode_utf8(s@);
                encode_utf8_decode_utf8(ascii_text(bytes@));
            }
            s.to_owned()
        },
        None => String::new(),
    }
}

/// The text of `s` with its capitals mapped to small letters.
pub fn to_lower_ascii(s: &str) -> (lower: String)
    requires
        is_ascii_chars(s@),
    ensures
        lower@ == lowered(s@),
{
    let chars = to_lower_chars(s);
    let mut codes: Vec<u8> = Vec::new();
    let mut index: usize = 0;
    assert(is_ascii_chars(chars@)) by {
        assert forall|i: int| 0 <= i < chars@.len() implies '\0' <= #[trigger] chars@[i]
            <= '\u{7f}' by {
            assert('\0' <= s@[i] <= '\u{7f}');
        }
    }
    while index < chars.len()
        invariant
            index <= chars@.len(),
            codes@.len() == index,
            is_ascii_chars(chars@),
            forall|i: int| 0 <= i < index ==> #[trigger] codes@[i] as char == chars@[i],
            forall|i: int| 0 <= i < index ==> codes@[i] < 128,
        decreases chars@.len() - index,
    {
        let c = chars[index];
        assert('\0' <= c <= '\u{7f}');
        codes.push(c as u8);
        index = index + 1;
    }
    assert(ascii_text(codes@) =~= chars@);
    ascii_string(&codes)
}

fn hex_code(value: u8) -> (code: u8)
    requires
        value < 16,
    ensures
        code < 128,
        code as char == hex_digit(value as int),
{
    if value < 10 {
        48 + value
    } else {
        87 + value
    }
}

/// The hexadecimal notation of a byte sequence.
pub fn to_hex(bytes: &[u8]) -> (s: String)
    ensures
        s@ == hex_text(bytes@),
{
    let mut codes: Vec<u8> = Vec::new();
    let mut index: usize = 0;
    while index < bytes.len()
        invariant
            index <= bytes@.len(),
            codes@.len() == 2 * index,
            forall|i: int| 0 <= i < codes@.len() ==> codes@[i] < 128,
            forall|i: int|
                0 <= i < codes@.len() ==> #[trigger] codes@[i] as char == hex_text(bytes@)[i],
        decreases bytes@.len() - index,
    {
        codes.push(hex_code(bytes[index] / 16));
        codes.push(hex_code(bytes[index] % 16));
        index = index + 1;
    }
    assert(ascii_text(codes@) =~= hex_text(bytes@));
    ascii_string(&codes)
}

fn put_decimal(codes: &mut Vec<u8>, n: u64)
    requires
        forall|i: int| 0 <= i < old(codes)@.len() ==> old(codes)@[i] < 128,
    ensures
        forall|i: int| 0 <= i < final(codes)@.len() ==> final(codes)@[i] < 128,
        ascii_text(final(codes)@) == ascii_text(old(codes)@) + decimal_text(n as nat),
    decreases n,
{
    if n >= 10 {
        put_decimal(codes, n / 10);
    }
    let ghost before = codes@;
    codes.push(hex_code((n % 10) as u8));
    assert(ascii_text(codes@) =~= ascii_text(before).push(hex_digit(n as int % 10)));
    assert(ascii_text(codes@) =~= ascii_text(old(codes)@) + decimal_text(n as nat));
}

/// The decimal notation of a number.
pub fn to_decimal(n: u64) -> (s: String)
    ensures
        s@ == decimal_text(n as nat),
{
    let mut codes: Vec<u8> = Vec::new();
    put_decimal(&mut codes, n);
    assert(ascii_text(Seq::<u8>::empty()) + decimal_text(n as nat) =~= decimal_text(n as nat));
    ascii_string(&codes)
}

/// The text of `left` followed by that of `right`.
pub fn join(left: &str, right: &str) -> (s: String)
    ensures
        s@ == left@ + right@,
{
    let mut s = left.to_owned();
    s.append(right);
    s
}

/// The lines of a text that hold more than white space.
pub fn split_filled_lines(s: &str) -> (list: Vec<String>)
    ensures
        texts(list@) == filled_lines(s@),
{
    let chars = to_chars(s);
    let mut list: Vec<String> = Vec::new();
    let mut at: usize = 0;
    let ghost filled = |line: Seq<char>| is_filled(line);
    let ghost mut done: Seq<Seq<char>> = Seq::empty();
    proof {
        assert(chars@.skip(0) =~= chars@);
        assert(done + lines(chars@) =~= lines(chars@));
        reveal(Seq::filter);
        assert(texts(list@) =~= done.filter(filled));
    }
    while at < chars.len()
        invariant
            chars@ == s@,
            at <= chars@.len(),
            filled == (|line: Seq<char>| is_filled(line)),
            done + lines(chars@.skip(at as int)) == lines(s@),
            texts(list@) == done.filter(filled),
        decreases chars@.len() - at,
    {
        let ghost rest = chars@.skip(at as int);
        let mut end: usize = at;
        while end < chars.len() && chars[end] != '\n'
            invariant
                at <= end <= chars@.len(),
                rest == chars@.skip(at as int),
                line_len(rest) == end - at + line_len(chars@.skip(end as int)),
            decreases chars@.len() - end,
        {
            assert(chars@.skip(end as int).drop_first() =~= chars@.skip(end as int + 1));
            end = end + 1;
        }
        assert(line_len(chars@.skip(end as int)) == 0);
        assert(line_len(rest) == end - at);
        let mut stop: usize = end;
        if end < chars.len() && at < end && chars[end - 1] == '\r' {
            stop = end - 1;
        }
        let line = s.substring_char(at, stop);
        proof {
            if end == chars@.len() {
                assert(line@ =~= rest);
                assert(lines(rest) =~= seq![line@] + lines(chars@.skip(end as int)));
            } else {
                let whole = rest.take(end - at);
                if at < end {
                    assert(whole.last() == chars@[end as int - 1]);
                }
                assert(line@ =~= without_return(whole));
                assert(rest.skip(end - at + 1) =~= chars@.skip(end as int + 1));
            }
        }
        let ghost next = if end == chars@.len() { end as int } else { end as int + 1 };
        let ghost before = list@;
        if !trim(line).is_empty() {
            list.push(line.to_owned());
            assert(texts(list@) =~= texts(before).push(line@));
        }
        proof {
            assert(lines(rest) == seq![line@] + lines(chars@.skip(next)));
            assert(done + lines(rest) =~= done.push(line@) + lines(chars@.skip(next)));
            assert(done.push(line@).drop_last() =~= done);
            reveal(Seq::filter);
            done = done.push(line@);
        }
        at = if end < chars.len() { end + 1 } else { end };
    }
    proof {
        assert(chars@.skip(at as int) =~= Seq::<char>::empty());
        assert(done + Seq::<Seq<char>>::empty() =~= done);
    }
    list
}

/// Law: white space are the characters that Unicode counts as such, and no others.
pub proof fn law_white_space_by_its_codes(c: char)
    ensures
        is_space(c) <==> c == '\t' || c == '\n' || c == '\u{b}' || c == '\u{c}' || c == '\r' || c
            == ' ' || c == '\u{85}' || c == '\u{a0}' || c == '\u{1680}' || '\u{2000}' <= c
            <= '\u{200a}' || c == '\u{2028}' || c == '\u{2029}' || c == '\u{202f}' || c
            == '\u{205f}' || c == '\u{3000}',
{
}

proof fn lemma_trim_front_cut(s: Seq<char>) -> (cut: int)
    ensures
        0 <= cut <= s.len(),
        trim_front(s) == s.skip(cut),
        forall|i: int| 0 <= i < cut ==> is_space(#[trigger] s[i]),
        cut < s.len() ==> !is_space(s[cut]),
    decreases s.len(),
{
    if s.len() > 0 && is_space(s[0]) {
        let rest = s.drop_first();
        let cut = lemma_trim_front_cut(rest);
        assert(s.skip(cut + 1) =~= rest.skip(cut));
        assert forall|i: int| 0 <= i < cut + 1 implies is_space(#[trigger] s[i]) by {
            if i > 0 {
                assert(rest[i - 1] == s[i]);
            }
        }
        if cut < rest.len() {
            assert(rest[cut] == s[cut + 1]);
        }
        cut + 1
    } else {
        assert(s.skip(0) =~= s);
        0
    }
}

proof fn lemma_trim_back_cut(s: Seq<char>) -> (cut: int)
    ensures
        0 <= cut <= s.len(),
        trim_back(s) == s.take(cut),
        forall|i: int| cut <= i < s.len() ==> is_space(#[trigger] s[i]),
        cut > 0 ==> !is_space(s[cut - 1]),
    decreases s.len(),
{
    if s.len() > 0 && is_space(s.last()) {
        let rest = s.drop_last();
        let cut = lemma_trim_back_cut(rest);
        assert(s.take(cut) =~= rest.take(cut));
        assert forall|i: int| cut <= i < s.len() implies is_space(#[trigger] s[i]) by {
            if i < rest.len() {
                assert(rest[i] == s[i]);
            }
        }
        cut
    } else {
        assert(s.take(s.len() as int) =~= s);
        s.len() as int
    }
}

/// Law: trimming takes away all the white space at both ends of a text and nothing else: what is
/// left stands in the text between white space, and neither begins nor ends with any.
pub proof fn law_trimming_takes_only_the_ends(s: Seq<char>) -> (part: (int, int))
    ensures
        0 <= part.0 <= part.1 <= s.len(),
        trimmed(s) == s.subrange(part.0, part.1),
        forall|i: int| 0 <= i < part.0 ==> is_space(#[trigger] s[i]),
        forall|i: int| part.1 <= i < s.len() ==> is_space(#[trigger] s[i]),
        part.0 < part.1 ==> !is_space(s[part.0]) && !is_space(s[part.1 - 1]),
{
    let from = lemma_trim_front_cut(s);
    let rest = s.skip(from);
    let count = lemma_trim_back_cut(rest);
    assert(trimmed(s) =~= s.subrange(from, from + count));
    assert forall|i: int| from + count <= i < s.len() implies is_space(#[trigger] s[i]) by {
        assert(rest[i - from] == s[i]);
    }
    if count > 0 {
        assert(rest[count - 1] == s[from + count - 1]);
        assert(rest[0] == s[from]);
        if is_space(rest[0]) {
            assert(false);
        }
    }
    (from, from + count)
}

/// Law: a text occurs in another exactly where that is made of something, the text, and something
/// more.
pub proof fn law_parts_stand_between(before: Seq<char>, part: Seq<char>, after: Seq<char>, s: Seq<char>)
    ensures
        has_part(before + part + after, part),
        has_part(s, part) ==> exists|at: int|
            0 <= at <= s.len() - part.len() && #[trigger] s.subrange(at, at + part.len()) == part,
        s.len() < part.len() ==> !has_part(s, part),
{
    let whole = before + part + after;
    let at = before.len() as int;
    assert(whole.subrange(at, at + part.len()) =~= part);
}

/// Law: only the capitals from A to Z change when a text is put into small letters, each into the
/// letter thirty-two places on.
pub proof fn law_small_letters(s: Seq<char>, i: int)
    requires
        0 <= i < s.len(),
    ensures
        lowered(s).len() == s.len(),
        'A' <= s[i] <= 'Z' ==> lowered(s)[i] as u32 == s[i] as u32 + 32,
        !('A' <= s[i] <= 'Z') ==> lowered(s)[i] == s[i],
{
}

/// Law: the hexadecimal notation of a byte is its sixteens and its ones, each as a digit or one of
/// the small letters from a to f, and that of bytes is theirs in order.
pub proof fn law_hexadecimal_digits(bytes: Seq<u8>, i: int)
    requires
        0 <= i < bytes.len(),
    ensures
        ({
            let high = bytes[i] / 16;
            let low = bytes[i] % 16;
            let first = hex_text(bytes)[2 * i] as u32;
            let second = hex_text(bytes)[2 * i + 1] as u32;
            &&& hex_text(bytes).len() == 2 * bytes.len()
            &&& first == if high < 10 {
                48 + high
            } else {
                87 + high
            }
            &&& second == if low < 10 {
                48 + low
            } else {
                87 + low
            }
        }),
{
}

/// Law: the decimal notation of a number below ten is its digit, and that of a larger one is the
/// notation of its tens with the digit of its ones behind it.
pub proof fn law_decimal_digits(tens: nat, ones: nat)
    requires
        ones < 10,
    ensures
        decimal_text(ones) == seq![(48 + ones) as char],
        tens > 0 ==> decimal_text(10 * tens + ones) == decimal_text(tens).push(
            (48 + ones) as char,
        ),
{
    assert(decimal_text(ones) =~= seq![(48 + ones) as char]);
    if tens > 0 {
        let n = 10 * tens + ones;
        assert(n / 10 == tens && n % 10 == ones) by (nonlinear_arith)
            requires
                n == 10 * tens + ones,
                ones < 10,
        ;
    }
}

/// Law: white space before a text does not change its words.
pub proof fn law_words_need_no_indent(space: Seq<char>, s: Seq<char>)
    requires
        forall|i: int| 0 <= i < space.len() ==> is_space(#[trigger] space[i]),
    ensures
        words(space + s) == words(s),
    decreases space.len(),
{
    if space.len() == 0 {
        assert(space + s =~= s);
    } else {
        let rest = space.drop_first();
        assert forall|i: int| 0 <= i < rest.len() implies is_space(#[trigger] rest[i]) by {
            assert(rest[i] == space[i + 1]);
        }
        law_words_need_no_indent(rest, s);
        assert((space + s).drop_first() =~= rest + s);
        assert((space + s)[0] == space[0]);
        assert(trim_front(space + s) == trim_front(rest + s));
    }
}

proof fn lemma_word_len_of(word: Seq<char>, rest: Seq<char>)
    requires
        forall|i: int| 0 <= i < word.len() ==> !is_space(#[trigger] word[i]),
        rest.len() > 0 ==> is_space(rest[0]),
    ensures
        word_len(word + rest) == word.len(),
    decreases word.len(),
{
    if word.len() == 0 {
        assert(word + rest =~= rest);
    } else {
        assert((word + rest)[0] == word[0]);
        assert((word + rest).drop_first() =~= word.drop_first() + rest);
        lemma_word_len_of(word.drop_first(), rest);
    }
}

/// Law: a text without white space that is followed by white space, or by nothing, is the first
/// word, and the words of what follows come after it; a text of white space has no words.
pub proof fn law_words_end_at_white_space(word: Seq<char>, rest: Seq<char>)
    requires
        word.len() > 0,
        forall|i: int| 0 <= i < word.len() ==> !is_space(#[trigger] word[i]),
        rest.len() > 0 ==> is_space(rest[0]),
    ensures
        words(word + rest) == seq![word] + words(rest),
        words(Seq::<char>::empty()) == Seq::<Seq<char>>::empty(),
{
    lemma_word_len_of(word, rest);
    let whole = word + rest;
    assert(whole[0] == word[0]);
    assert(trim_front(whole) == whole);
    assert(whole.take(word.len() as int) =~= word);
    assert(whole.skip(word.len() as int) =~= rest);
}

proof fn lemma_line_len_of(line: Seq<char>, rest: Seq<char>)
    requires
        forall|i: int| 0 <= i < line.len() ==> #[trigger] line[i] != '\n',
        rest.len() > 0 ==> rest[0] == '\n',
    ensures
        line_len(line + rest) == line.len(),
    decreases line.len(),
{
    if line.len() == 0 {
        assert(line + rest =~= rest);
    } else {
        assert((line + rest)[0] == line[0]);
        assert((line + rest).drop_first() =~= line.drop_first() + rest);
        lemma_line_len_of(line.drop_first(), rest);
    }
}

/// Law: a line ends at its line feed, without a carriage return before that, and the lines of what
/// follows come after it; the last line needs no end, and an empty text has no lines.
pub proof fn law_lines_end_at_line_feeds(line: Seq<char>, rest: Seq<char>)
    requires
        forall|i: int| 0 <= i < line.len() ==> #[trigger] line[i] != '\n',
    ensures
        lines(line + seq!['\n'] + rest) == seq![
            if line.len() > 0 && line.last() == '\r' {
                line.drop_last()
            } else {
                line
            },
        ] + lines(rest),
        line.len() > 0 ==> lines(line) == seq![line],
        lines(Seq::<char>::empty()) == Seq::<Seq<char>>::empty(),
{
    let end = seq!['\n'] + rest;
    let whole = line + seq!['\n'] + rest;
    assert(whole =~= line + end);
    lemma_line_len_of(line, end);
    assert(whole.take(line.len() as int) =~= line);
    assert(whole.skip(line.len() as int + 1) =~= rest);
    lemma_line_len_of(line, Seq::empty());
    assert(line + Seq::<char>::empty() =~= line);
}

/// Law: the lines that count are those that hold more than white space.
pub proof fn law_filled_lines_hold_text(s: Seq<char>, line: Seq<char>)
    ensures
        is_filled(line) <==> trimmed(line) != Seq::<char>::empty(),
        filled_lines(s) == lines(s).filter(|line: Seq<char>| trimmed(line).len() > 0),
{
    assert((|line: Seq<char>| is_filled(line)) =~= (|line: Seq<char>| trimmed(line).len() > 0));
    if trimmed(line).len() == 0 {
        assert(trimmed(line) =~= Seq::<char>::empty());
    }
}

/// Law: what may be missing or may have failed is seen through to what is there.
pub proof fn law_outcomes_are_seen_through(text: String, cause: String)
    ensures
        option_view(Some(text)) == Some(text@),
        option_view::<String>(None) is None,
        result_view(Ok::<String, String>(text)) == Ok::<Seq<char>, Seq<char>>(text@),
        result_view(Err::<String, String>(cause)) == Err::<Seq<char>, Seq<char>>(cause@),
{
}

} // verus!
