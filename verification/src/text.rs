//! Text helpers: what the standard library does on strings, stated over
//! character sequences, and the small parsers and joiners built on it.

use vstd::prelude::*;
use vstd::string::*;

verus! {

/// The character sequences of a list of strings.
pub open spec fn texts(v: Seq<String>) -> Seq<Seq<char>> {
    v.map_values(|s: String| s@)
}

/// Copies a list of strings.
pub fn copy_texts(list: &Vec<String>) -> (copy: Vec<String>)
    ensures
        texts(copy@) == texts(list@),
        copy@.len() == list@.len(),
{
    let mut copy: Vec<String> = Vec::new();
    let mut i: usize = 0;
    while i < list.len()
        invariant
            i <= list.len(),
            copy@.len() == i,
            texts(copy@) == texts(list@).take(i as int),
        decreases list.len() - i,
    {
        let ghost before = copy@;
        copy.push(list[i].clone());
        assert forall|k: int| 0 <= k < i + 1 implies #[trigger] texts(copy@)[k] == texts(
            list@,
        ).take(i + 1)[k] by {
            if k < i {
                assert(texts(before)[k] == texts(list@).take(i as int)[k]);
            }
        }
        assert(texts(copy@) =~= texts(list@).take(i + 1));
        i += 1;
    }
    assert(texts(list@).take(list.len() as int) =~= texts(list@));
    copy
}

/// `String::push` appends one character.
pub assume_specification[ String::push ](s: &mut String, ch: char)
    ensures
        final(s)@ == old(s)@.push(ch),
;

/// `String::pop` removes the last character and returns it, or returns
/// `None` and leaves an empty string as it is.
pub assume_specification[ String::pop ](s: &mut String) -> (last: Option<char>)
    ensures
        old(s)@.len() == 0 ==> last is None && final(s)@ == old(s)@,
        old(s)@.len() > 0 ==> last == Some(old(s)@.last()) && final(s)@ == old(s)@.drop_last(),
;

/// `str::starts_with` on a string pattern: whether `text` begins with
/// `prefix`.
#[verifier::external_body]
pub(crate) fn starts_with(text: &str, prefix: &str) -> (yes: bool)
    ensures
        yes == prefix@.is_prefix_of(text@),
{
    text.starts_with(prefix)
}

/// Whether `c` has the Unicode property `White_Space`: the tabulator,
/// the line feed and the three controls after it, the space, the next
/// line, the no-break space, the Ogham space mark, the spaces from the en
/// quad to the hair space, the line and the paragraph separator, the
/// narrow no-break space, the medium mathematical space and the
/// ideographic space.
pub open spec fn white_space(c: char) -> bool {
    ('\u{9}' <= c && c <= '\u{D}') || c == ' ' || c == '\u{85}' || c == '\u{A0}' || c
        == '\u{1680}' || ('\u{2000}' <= c && c <= '\u{200A}') || c == '\u{2028}' || c
        == '\u{2029}' || c == '\u{202F}' || c == '\u{205F}' || c == '\u{3000}'
}

/// `s` without the whitespace it begins with.
pub open spec fn trim_start_of(s: Seq<char>) -> Seq<char>
    decreases s.len(),
{
    if s.len() > 0 && white_space(s[0]) {
        trim_start_of(s.drop_first())
    } else {
        s
    }
}

/// `s` without the whitespace it ends with.
pub open spec fn trim_end_of(s: Seq<char>) -> Seq<char>
    decreases s.len(),
{
    if s.len() > 0 && white_space(s.last()) {
        trim_end_of(s.drop_last())
    } else {
        s
    }
}

/// `s` without the whitespace at either end.
pub open spec fn trimmed(s: Seq<char>) -> Seq<char> {
    trim_end_of(trim_start_of(s))
}

/// `char::is_whitespace` tells whether a character has the property
/// `White_Space`. Not proved: that the characters with that property are
/// the ones that [`white_space`] lists.
pub assume_specification[ char::is_whitespace ](c: char) -> (yes: bool)
    ensures
        yes == white_space(c),
;

proof fn lemma_trim_start(s: Seq<char>, start: int)
    requires
        0 <= start <= s.len(),
        forall|k: int| 0 <= k < start ==> white_space(#[trigger] s[k]),
        start < s.len() ==> !white_space(s[start]),
    ensures
        trim_start_of(s) == s.skip(start),
    decreases start,
{
    if start == 0 {
        assert(s.skip(0) =~= s);
    } else {
        assert(white_space(s[0]));
        let rest = s.drop_first();
        assert forall|k: int| 0 <= k < start - 1 implies white_space(#[trigger] rest[k]) by {
            assert(rest[k] == s[k + 1]);
        }
        lemma_trim_start(rest, start - 1);
        assert(rest.skip(start - 1) =~= s.skip(start));
    }
}

proof fn lemma_trim_end(s: Seq<char>, end: int)
    requires
        0 <= end <= s.len(),
        forall|k: int| end <= k < s.len() ==> white_space(#[trigger] s[k]),
        end > 0 ==> !white_space(s[end - 1]),
    ensures
        trim_end_of(s) == s.take(end),
    decreases s.len() - end,
{
    if end == s.len() {
        assert(s.take(end) =~= s);
    } else {
        assert(white_space(s.last()));
        let rest = s.drop_last();
        lemma_trim_end(rest, end);
        assert(rest.take(end) =~= s.take(end));
    }
}

/// Removes the whitespace at either end of `s`.
pub fn trim(s: &str) -> (t: String)
    ensures
        t@ == trimmed(s@),
{
    let chars = chars_of(s);
    let mut start: usize = 0;
    while start < chars.len() && chars[start].is_whitespace()
        invariant
            start <= chars@.len(),
            forall|k: int| 0 <= k < start ==> white_space(#[trigger] chars@[k]),
        decreases chars.len() - start,
    {
        start += 1;
    }
    let mut end: usize = chars.len();
    while end > start && chars[end - 1].is_whitespace()
        invariant
            start <= end <= chars@.len(),
            forall|k: int| end <= k < chars@.len() ==> white_space(#[trigger] chars@[k]),
        decreases end,
    {
        end -= 1;
    }
    let ghost kept = s@.skip(start as int);
    proof {
        lemma_trim_start(s@, start as int);
        assert forall|k: int| end - start <= k < kept.len() implies white_space(
            #[trigger] kept[k],
        ) by {
            assert(kept[k] == chars@[k + start]);
        }
        lemma_trim_end(kept, end - start);
    }
    let mut t = String::new();
    let mut i: usize = start;
    while i < end
        invariant
            start <= i <= end <= chars@.len(),
            kept == chars@.skip(start as int),
            t@ == kept.take(i - start),
        decreases end - i,
    {
        t.push(chars[i]);
        assert(t@ =~= kept.take(i - start + 1));
        i += 1;
    }
    t
}

/// The lower-case form of `s` under the Unicode case mapping.
pub uninterp spec fn lowercase_of(s: Seq<char>) -> Seq<char>;

/// `str::to_lowercase` returns the lower-case form as a new string.
pub assume_specification[ str::to_lowercase ](s: &str) -> (lower: String)
    ensures
        lower@ == lowercase_of(s@),
;

/// Whether `needle` occurs in `hay` as a run of neighbouring characters.
pub open spec fn has_substring(hay: Seq<char>, needle: Seq<char>) -> bool {
    exists|i: int|
        0 <= i <= hay.len() - needle.len() && #[trigger] hay.subrange(i, i + needle.len())
            == needle
}

/// `str::contains` on a string pattern: whether `needle` occurs in `hay`.
#[verifier::external_body]
pub(crate) fn contains(hay: &str, needle: &str) -> (found: bool)
    ensures
        found == has_substring(hay@, needle@),
{
    hay.contains(needle)
}

/// The length of `s` in bytes of UTF-8, which is what `len` counts.
pub open spec fn utf8_len(s: Seq<char>) -> nat {
    vstd::utf8::encode_utf8(s).len()
}

/// Whether `c` is a number of Unicode: of one of the general categories
/// `Nd`, `Nl` and `No`.
pub uninterp spec fn numeric(c: char) -> bool;

/// `char::is_numeric` tells whether a character is a number.
pub assume_specification[ char::is_numeric ](c: char) -> (yes: bool)
    ensures
        yes == numeric(c),
;

/// Whether `a` comes before `b` in the order of dictionaries, byte by
/// byte: at the first place where they differ `a` has the smaller byte,
/// or `a` ends there and `b` goes on.
pub open spec fn bytes_less(a: Seq<u8>, b: Seq<u8>) -> bool
    decreases a.len(),
{
    if b.len() == 0 {
        false
    } else if a.len() == 0 {
        true
    } else if a[0] != b[0] {
        a[0] < b[0]
    } else {
        bytes_less(a.drop_first(), b.drop_first())
    }
}

/// Of two byte strings not each is less than the other.
pub proof fn lemma_bytes_order_is_one_way(a: Seq<u8>, b: Seq<u8>)
    ensures
        !(bytes_less(a, b) && bytes_less(b, a)),
    decreases a.len(),
{
    if a.len() > 0 && b.len() > 0 && a[0] == b[0] {
        lemma_bytes_order_is_one_way(a.drop_first(), b.drop_first());
    }
}

/// A byte string that is not less than a second, which is not less than a
/// third, is not less than the third.
pub proof fn lemma_bytes_order_carries_over(a: Seq<u8>, b: Seq<u8>, c: Seq<u8>)
    requires
        !bytes_less(a, b),
        !bytes_less(b, c),
    ensures
        !bytes_less(a, c),
    decreases a.len(),
{
    if c.len() > 0 {
        assert(b.len() > 0);
        assert(a.len() > 0);
        if a[0] == b[0] && b[0] == c[0] {
            lemma_bytes_order_carries_over(a.drop_first(), b.drop_first(), c.drop_first());
        }
    }
}

/// Whether `a` is less than `b` as strings are ordered: by their bytes of
/// UTF-8.
pub open spec fn text_less(a: Seq<char>, b: Seq<char>) -> bool {
    bytes_less(vstd::utf8::encode_utf8(a), vstd::utf8::encode_utf8(b))
}

/// Decides whether `a` is less than `b`.
pub fn is_text_less(a: &str, b: &str) -> (less: bool)
    ensures
        less == text_less(a@, b@),
{
    let x = a.as_bytes();
    let y = b.as_bytes();
    let mut i: usize = 0;
    proof {
        assert(x@.skip(0) =~= x@);
        assert(y@.skip(0) =~= y@);
    }
    while i < x.len() && i < y.len()
        invariant
            i <= x@.len(),
            i <= y@.len(),
            x@ == vstd::utf8::encode_utf8(a@),
            y@ == vstd::utf8::encode_utf8(b@),
            bytes_less(x@, y@) == bytes_less(x@.skip(i as int), y@.skip(i as int)),
        decreases x.len() - i,
    {
        proof {
            assert(x@.skip(i as int)[0] == x@[i as int]);
            assert(y@.skip(i as int)[0] == y@[i as int]);
            assert(x@.skip(i as int).drop_first() =~= x@.skip(i + 1));
            assert(y@.skip(i as int).drop_first() =~= y@.skip(i + 1));
        }
        if x[i] != y[i] {
            assert(x@.skip(i as int).len() > 0 && y@.skip(i as int).len() > 0);
            assert(bytes_less(x@.skip(i as int), y@.skip(i as int)) == (x@[i as int]
                < y@[i as int]));
            return x[i] < y[i];
        }
        i += 1;
    }
    x.len() < y.len()
}

/// The length of `s` in bytes.
pub fn byte_len(s: &str) -> (n: usize)
    ensures
        n == utf8_len(s@),
{
    s.as_bytes().len()
}

/// The pieces of `s` between the occurrences of `sep`: one more than
/// there are occurrences, empty pieces included.
pub open spec fn split_at(s: Seq<char>, sep: char) -> Seq<Seq<char>>
    decreases s.len(),
{
    if s.len() == 0 {
        seq![Seq::empty()]
    } else {
        let before = split_at(s.drop_last(), sep);
        if s.last() == sep {
            before.push(Seq::empty())
        } else {
            before.drop_last().push(before.last().push(s.last()))
        }
    }
}

/// Splitting gives at least one piece.
pub proof fn lemma_split_is_nonempty(s: Seq<char>, sep: char)
    ensures
        split_at(s, sep).len() >= 1,
    decreases s.len(),
{
    if s.len() > 0 {
        lemma_split_is_nonempty(s.drop_last(), sep);
    }
}

/// Splits `s` at every occurrence of `sep`.
pub fn split(s: &str, sep: char) -> (pieces: Vec<String>)
    ensures
        texts(pieces@) == split_at(s@, sep),
{
    let mut pieces: Vec<String> = Vec::new();
    let mut current = String::new();
    proof {
        assert(s@.take(0) =~= Seq::<char>::empty());
        assert(texts(pieces@).push(current@) =~= split_at(s@.take(0), sep));
    }
    for c in it: s.chars()
        invariant
            it.seq() == s@,
            texts(pieces@).push(current@) == split_at(s@.take(it.index()), sep),
    {
        let ghost done = s@.take(it.index());
        let ghost next = s@.take(it.index() + 1);
        let ghost before = pieces@;
        proof {
            assert(next.drop_last() =~= done);
            assert(next.last() == c);
            assert(texts(before).push(current@).drop_last() =~= texts(before));
        }
        if c == sep {
            pieces.push(current);
            current = String::new();
            assert(texts(pieces@) =~= texts(before).push(pieces@.last()@));
        } else {
            current.push(c);
        }
        assert(texts(pieces@).push(current@) =~= split_at(next, sep));
    }
    proof {
        assert(s@.take(s@.len() as int) =~= s@);
    }
    let ghost before = pieces@;
    pieces.push(current);
    assert(texts(pieces@) =~= texts(before).push(pieces@.last()@));
    pieces
}

/// The parts joined, with `sep` between each two neighbours.
pub open spec fn joined(parts: Seq<Seq<char>>, sep: Seq<char>) -> Seq<char>
    decreases parts.len(),
{
    if parts.len() == 0 {
        Seq::empty()
    } else if parts.len() == 1 {
        parts[0]
    } else {
        joined(parts.drop_last(), sep) + sep + parts.last()
    }
}

/// Joins the parts, with `sep` between each two neighbours.
pub fn join(parts: &Vec<String>, sep: &str) -> (out: String)
    ensures
        out@ == joined(texts(parts@), sep@),
{
    let mut out = String::new();
    let mut i: usize = 0;
    while i < parts.len()
        invariant
            i <= parts.len(),
            out@ == joined(texts(parts@).take(i as int), sep@),
        decreases parts.len() - i,
    {
        let ghost before = texts(parts@).take(i as int);
        let ghost after = texts(parts@).take(i + 1);
        assert(after.drop_last() =~= before);
        assert(after.last() == parts@[i as int]@);
        if i > 0 {
            out.append(sep);
        } else {
            assert(out@ + parts@[i as int]@ =~= parts@[i as int]@);
        }
        out.append(parts[i].as_str());
        i += 1;
    }
    assert(texts(parts@).take(parts.len() as int) =~= texts(parts@));
    out
}

/// Whether `c` is one of the ten ASCII digits.
pub open spec fn is_digit(c: char) -> bool {
    '0' <= c <= '9'
}

/// The value of an ASCII digit, and 0 for any other character.
pub open spec fn digit_value(c: char) -> nat {
    if is_digit(c) {
        (c as nat - '0' as nat) as nat
    } else {
        0
    }
}

/// Whether every character of `s` is an ASCII digit.
pub open spec fn all_digits(s: Seq<char>) -> bool {
    forall|i: int| 0 <= i < s.len() ==> is_digit(#[trigger] s[i])
}

/// The number that a sequence of decimal digits denotes.
pub open spec fn decimal_value(digits: Seq<char>) -> nat
    decreases digits.len(),
{
    if digits.len() == 0 {
        0
    } else {
        decimal_value(digits.drop_last()) * 10 + digit_value(digits.last())
    }
}

/// Collects the characters of a string.
pub fn chars_of(s: &str) -> (out: Vec<char>)
    ensures
        out@ == s@,
{
    let mut out: Vec<char> = Vec::new();
    for c in it: s.chars()
        invariant
            out@ == it.seq().take(it.index()),
            it.seq() == s@,
    {
        out.push(c);
    }
    out
}

/// The digits of an unsigned decimal number: what follows an optional
/// `+`, if that is at least one character and all of it digits.
pub open spec fn unsigned_digits(s: Seq<char>) -> Option<Seq<char>> {
    let body = if s.len() > 0 && s[0] == '+' {
        s.drop_first()
    } else {
        s
    };
    if body.len() > 0 && all_digits(body) {
        Some(body)
    } else {
        None
    }
}

/// The number that `s` denotes as an unsigned decimal no greater than
/// `max`: an optional `+`, then digits only.
pub open spec fn parsed_unsigned(s: Seq<char>, max: nat) -> Option<nat> {
    match unsigned_digits(s) {
        Some(digits) => if decimal_value(digits) <= max {
            Some(decimal_value(digits))
        } else {
            None
        },
        None => None,
    }
}

/// The number that `s` denotes as a `u32`, as `str::parse::<u32>` reads it.
pub open spec fn parsed_u32(s: Seq<char>) -> Option<u32> {
    match parsed_unsigned(s, u32::MAX as nat) {
        Some(value) => Some(value as u32),
        None => None,
    }
}

/// The number that `s` denotes as an `i32`, as `str::parse::<i32>` reads
/// it: an optional sign, then digits only.
pub open spec fn parsed_i32(s: Seq<char>) -> Option<i32> {
    if s.len() > 0 && s[0] == '-' {
        let digits = s.drop_first();
        if digits.len() > 0 && all_digits(digits) && decimal_value(digits) <= 0x8000_0000 {
            Some((-(decimal_value(digits) as int)) as i32)
        } else {
            None
        }
    } else {
        match parsed_unsigned(s, i32::MAX as nat) {
            Some(value) => Some(value as i32),
            None => None,
        }
    }
}

/// A number does not shrink when digits are appended.
pub proof fn lemma_decimal_value_grows(digits: Seq<char>, i: int)
    requires
        0 <= i <= digits.len(),
    ensures
        decimal_value(digits.take(i)) <= decimal_value(digits),
    decreases digits.len() - i,
{
    if i == digits.len() {
        assert(digits.take(i) =~= digits);
    } else {
        lemma_decimal_value_grows(digits, i + 1);
        assert(digits.take(i + 1).drop_last() =~= digits.take(i));
    }
}

/// The value of `c` if it is an ASCII digit.
pub fn digit_of(c: char) -> (digit: Option<u64>)
    ensures
        digit == if is_digit(c) {
            Some(digit_value(c) as u64)
        } else {
            None
        },
{
    match c {
        '0' => Some(0),
        '1' => Some(1),
        '2' => Some(2),
        '3' => Some(3),
        '4' => Some(4),
        '5' => Some(5),
        '6' => Some(6),
        '7' => Some(7),
        '8' => Some(8),
        '9' => Some(9),
        _ => None,
    }
}

/// Reads the digits `chars[from..]` as a number no greater than `max`.
fn read_digits(chars: &Vec<char>, from: usize, max: u64) -> (value: Option<u64>)
    requires
        from <= chars@.len(),
    ensures
        ({
            let digits = chars@.skip(from as int);
            value == if digits.len() > 0 && all_digits(digits) && decimal_value(digits) <= max {
                Some(decimal_value(digits) as u64)
            } else {
                None
            }
        }),
{
    let ghost digits = chars@.skip(from as int);
    if from >= chars.len() {
        return None;
    }
    let mut value: u64 = 0;
    let mut i: usize = from;
    proof {
        assert(digits.take(0) =~= Seq::<char>::empty());
    }
    while i < chars.len()
        invariant
            from <= i <= chars@.len(),
            digits == chars@.skip(from as int),
            all_digits(digits.take(i - from)),
            value == decimal_value(digits.take(i - from)),
            value <= max,
        decreases chars.len() - i,
    {
        proof {
            assert(digits[i - from] == chars@[i as int]);
            assert(digits.take(i - from + 1).drop_last() =~= digits.take(i - from));
            assert(digits.take(i - from + 1).last() == chars@[i as int]);
        }
        let digit: u64 = match digit_of(chars[i]) {
            Some(digit) => digit,
            None => {
                assert(!is_digit(digits[i - from]));
                return None;
            },
        };
        proof {
            lemma_decimal_value_grows(digits, i - from + 1);
            assert(decimal_value(digits.take(i - from + 1)) == value * 10 + digit);
        }
        if value > max / 10 {
            return None;
        }
        let shifted = value * 10;
        if digit > max - shifted {
            return None;
        }
        assert forall|k: int| 0 <= k < i - from + 1 implies is_digit(
            #[trigger] digits.take(i - from + 1)[k],
        ) by {
            if k < i - from {
                assert(digits.take(i - from)[k] == digits.take(i - from + 1)[k]);
            }
        }
        value = value * 10 + digit;
        i += 1;
    }
    proof {
        assert(digits.take(chars@.len() - from) =~= digits);
    }
    Some(value)
}

/// Reads `s` as an unsigned decimal number no greater than `max`.
pub fn parse_unsigned(s: &str, max: u64) -> (value: Option<u64>)
    ensures
        match value {
            Some(value) => parsed_unsigned(s@, max as nat) == Some(value as nat),
            None => parsed_unsigned(s@, max as nat) is None,
        },
{
    let chars = chars_of(s);
    let from: usize = if chars.len() > 0 && chars[0] == '+' {
        1
    } else {
        0
    };
    proof {
        if from == 1 {
            assert(chars@.skip(1) =~= s@.drop_first());
        } else {
            assert(chars@.skip(0) =~= s@);
        }
    }
    read_digits(&chars, from, max)
}

/// The character of a digit.
pub open spec fn digit_char(d: int) -> char {
    if d == 0 {
        '0'
    } else if d == 1 {
        '1'
    } else if d == 2 {
        '2'
    } else if d == 3 {
        '3'
    } else if d == 4 {
        '4'
    } else if d == 5 {
        '5'
    } else if d == 6 {
        '6'
    } else if d == 7 {
        '7'
    } else if d == 8 {
        '8'
    } else {
        '9'
    }
}

/// A number in decimal digits, without leading zeros.
pub open spec fn decimal_text(n: nat) -> Seq<char>
    decreases n,
{
    if n < 10 {
        seq![digit_char(n as int)]
    } else {
        decimal_text(n / 10).push(digit_char(n as int % 10))
    }
}

/// As many zeros as `count` says, none if it is negative.
pub open spec fn zeros(count: int) -> Seq<char> {
    Seq::new(
        if count > 0 {
            count as nat
        } else {
            0
        },
        |i: int| '0',
    )
}

/// A number in decimal digits, with zeros in front up to `width` digits.
pub open spec fn zero_padded(n: nat, width: nat) -> Seq<char> {
    zeros(width - decimal_text(n).len()) + decimal_text(n)
}

/// A written number is made of digits, at least one, and reads back as
/// the number it was written from.
pub proof fn lemma_written_number_reads_back(n: nat)
    ensures
        decimal_text(n).len() >= 1,
        all_digits(decimal_text(n)),
        decimal_value(decimal_text(n)) == n,
    decreases n,
{
    if n < 10 {
        let text = seq![digit_char(n as int)];
        assert(text.drop_last() =~= Seq::<char>::empty());
        assert(decimal_value(Seq::<char>::empty()) == 0);
        assert(decimal_value(text) == n);
    } else {
        lemma_written_number_reads_back(n / 10);
        let head = decimal_text(n / 10);
        let last = digit_char(n as int % 10);
        assert(head.push(last).drop_last() =~= head);
        assert(digit_value(last) == n % 10);
        assert forall|i: int| 0 <= i < head.push(last).len() implies is_digit(
            #[trigger] head.push(last)[i],
        ) by {
            if i < head.len() {
                assert(head.push(last)[i] == head[i]);
            }
        }
    }
}

/// Different numbers are written differently.
pub proof fn lemma_numbers_are_written_apart(a: nat, b: nat)
    requires
        a != b,
    ensures
        decimal_text(a) != decimal_text(b),
{
    lemma_written_number_reads_back(a);
    lemma_written_number_reads_back(b);
}

/// The digits of `n`.
pub fn decimal_digits(n: u64) -> (digits: Vec<char>)
    ensures
        digits@ == decimal_text(n as nat),
    decreases n,
{
    let mut digits = if n >= 10 {
        decimal_digits(n / 10)
    } else {
        Vec::new()
    };
    let ghost before = digits@;
    let last: char = match n % 10 {
        0 => '0',
        1 => '1',
        2 => '2',
        3 => '3',
        4 => '4',
        5 => '5',
        6 => '6',
        7 => '7',
        8 => '8',
        _ => '9',
    };
    digits.push(last);
    proof {
        if n < 10 {
            assert(digits@ =~= seq![digit_char(n as int)]);
        }
    }
    digits
}

/// Writes `n` in decimal digits, with zeros in front up to `width` digits.
pub fn zero_pad(n: u64, width: usize) -> (text: String)
    ensures
        text@ == zero_padded(n as nat, width as nat),
{
    let digits = decimal_digits(n);
    let mut text = String::new();
    let mut written: usize = digits.len();
    while written < width
        invariant
            digits@.len() <= written,
            written <= width || written == digits@.len(),
            text@ == zeros(written - digits@.len()),
        decreases width - written,
    {
        text.push('0');
        assert(text@ =~= zeros(written + 1 - digits@.len()));
        written += 1;
    }
    let ghost padding = text@;
    assert(padding == zeros(width - digits@.len())) by {
        if width <= digits@.len() {
            assert(zeros(width - digits@.len()) =~= zeros(0));
        }
    }
    let mut i: usize = 0;
    while i < digits.len()
        invariant
            i <= digits@.len(),
            text@ == padding + digits@.take(i as int),
        decreases digits.len() - i,
    {
        text.push(digits[i]);
        assert(text@ =~= padding + digits@.take(i + 1));
        i += 1;
    }
    assert(digits@.take(digits@.len() as int) =~= digits@);
    text
}

/// Reads `s` as a `u32`.
pub fn parse_u32(s: &str) -> (value: Option<u32>)
    ensures
        value == parsed_u32(s@),
{
    match parse_unsigned(s, 0xffff_ffff) {
        Some(value) => Some(value as u32),
        None => None,
    }
}

/// Reads `s` as an `i32`.
pub fn parse_i32(s: &str) -> (value: Option<i32>)
    ensures
        value == parsed_i32(s@),
{
    let chars = chars_of(s);
    if chars.len() > 0 && chars[0] == '-' {
        proof {
            assert(chars@.skip(1) =~= s@.drop_first());
        }
        match read_digits(&chars, 1, 0x8000_0000) {
            Some(magnitude) => Some((0 - (magnitude as i64)) as i32),
            None => None,
        }
    } else {
        match parse_unsigned(s, 0x7fff_ffff) {
            Some(value) => Some(value as i32),
            None => None,
        }
    }
}

} // verus!
