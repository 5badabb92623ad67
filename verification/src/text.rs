//! Byte-level helpers for the text the encoder and prober exchange with us.

use vstd::prelude::*;

verus! {

/// Whether two byte slices hold the same bytes.
pub fn bytes_eq(a: &[u8], b: &[u8]) -> (same: bool)
    ensures
        same == (a@ == b@),
{
    if a.len() != b.len() {
        return false;
    }
    let mut i: usize = 0;
    while i < a.len()
        invariant
            a@.len() == b@.len(),
            i <= a@.len(),
            a@.subrange(0, i as int) == b@.subrange(0, i as int),
        decreases a@.len() - i,
    {
        if a[i] != b[i] {
            assert(a@[i as int] != b@[i as int]);
            return false;
        }
        assert(a@.subrange(0, i + 1) == a@.subrange(0, i as int).push(a@[i as int]));
        assert(b@.subrange(0, i + 1) == b@.subrange(0, i as int).push(b@[i as int]));
        i += 1;
    }
    assert(a@ == a@.subrange(0, i as int));
    assert(b@ == b@.subrange(0, i as int));
    true
}

/// Two strings with the same UTF-8 encoding are the same string.
proof fn lemma_same_bytes_same_text(a: Seq<char>, b: Seq<char>)
    requires
        vstd::utf8::encode_utf8(a) == vstd::utf8::encode_utf8(b),
    ensures
        a == b,
{
    vstd::utf8::encode_utf8_decode_utf8(a);
    vstd::utf8::encode_utf8_decode_utf8(b);
}

/// Whether two strings are equal, character for character.
pub fn str_eq(a: &str, b: &str) -> (same: bool)
    ensures
        same == (a@ == b@),
{
    let same = bytes_eq(a.as_bytes(), b.as_bytes());
    proof {
        if same {
            lemma_same_bytes_same_text(a@, b@);
        }
    }
    same
}

/// Whether `needle` stands in `hay` starting at index `at`.
pub open spec fn occurs_at(needle: Seq<u8>, hay: Seq<u8>, at: int) -> bool {
    0 <= at && at + needle.len() <= hay.len() && hay.subrange(at, at + needle.len()) == needle
}

/// Whether `needle` stands somewhere in `hay`.
pub open spec fn occurs_in(needle: Seq<u8>, hay: Seq<u8>) -> bool {
    exists|at: int| occurs_at(needle, hay, at)
}

/// Whether `text` begins with `prefix`.
pub open spec fn begins_with(text: Seq<u8>, prefix: Seq<u8>) -> bool {
    occurs_at(prefix, text, 0)
}

/// Whether `needle` stands in `hay` at index `at`.
pub fn bytes_match_at(hay: &[u8], needle: &[u8], at: usize) -> (found: bool)
    ensures
        found == occurs_at(needle@, hay@, at as int),
{
    if at > hay.len() || needle.len() > hay.len() - at {
        return false;
    }
    let mut i: usize = 0;
    while i < needle.len()
        invariant
            at + needle@.len() <= hay@.len() <= usize::MAX,
            i <= needle@.len(),
            hay@.subrange(at as int, at + i) == needle@.subrange(0, i as int),
        decreases needle@.len() - i,
    {
        if hay[at + i] != needle[i] {
            assert(hay@.subrange(at as int, at + needle@.len())[i as int] != needle@[i as int]);
            return false;
        }
        assert(hay@.subrange(at as int, at + i + 1) == hay@.subrange(at as int, at + i).push(
            hay@[at + i],
        ));
        assert(needle@.subrange(0, i + 1) == needle@.subrange(0, i as int).push(needle@[i as int]));
        i += 1;
    }
    assert(needle@ == needle@.subrange(0, i as int));
    true
}

/// Whether `needle` stands somewhere in `hay`.
pub fn bytes_contain(hay: &[u8], needle: &[u8]) -> (found: bool)
    ensures
        found == occurs_in(needle@, hay@),
{
    if needle.len() > hay.len() {
        return false;
    }
    let last: usize = hay.len() - needle.len();
    let mut at: usize = 0;
    loop
        invariant
            last == hay@.len() - needle@.len(),
            at <= last,
            forall|k: int| 0 <= k < at ==> !occurs_at(needle@, hay@, k),
        decreases last - at,
    {
        if bytes_match_at(hay, needle, at) {
            return true;
        }
        if at == last {
            return false;
        }
        at += 1;
    }
}

/// Whether the text `needle` stands somewhere in the text `hay`, compared by
/// their UTF-8 bytes.
pub fn str_contains(hay: &str, needle: &str) -> (found: bool)
    ensures
        found == occurs_in(vstd::utf8::encode_utf8(needle@), vstd::utf8::encode_utf8(hay@)),
{
    bytes_contain(hay.as_bytes(), needle.as_bytes())
}

/// The character of a decimal digit.
pub open spec fn digit_char(d: int) -> char {
    if d == 0 {
        '0'
    } else if d == 1 {
        '1'
    } else if d == 2 {
        '2'
    } else if d == 3 {
        '3'
    } else if d == 4 {
        '4'
    } else if d == 5 {
        '5'
    } else if d == 6 {
        '6'
    } else if d == 7 {
        '7'
    } else if d == 8 {
        '8'
    } else {
        '9'
    }
}

/// A number written in decimal, without sign or leading zeros.
pub open spec fn decimal_text(n: nat) -> Seq<char>
    decreases n,
{
    if n < 10 {
        seq![digit_char(n as int)]
    } else {
        decimal_text(n / 10).push(digit_char((n % 10) as int))
    }
}

/// A number below one hundred written with exactly two digits.
pub open spec fn two_digit_text(n: nat) -> Seq<char> {
    seq![digit_char((n / 10) as int), digit_char((n % 10) as int)]
}

/// The one-character text of a decimal digit.
pub(crate) fn digit_str(d: u64) -> (s: &'static str)
    requires
        d < 10,
    ensures
        s@ == seq![digit_char(d as int)],
{
    proof {
        reveal_strlit("0");
        reveal_strlit("1");
        reveal_strlit("2");
        reveal_strlit("3");
        reveal_strlit("4");
        reveal_strlit("5");
        reveal_strlit("6");
        reveal_strlit("7");
        reveal_strlit("8");
        reveal_strlit("9");
    }
    let s = if d == 0 {
        "0"
    } else if d == 1 {
        "1"
    } else if d == 2 {
        "2"
    } else if d == 3 {
        "3"
    } else if d == 4 {
        "4"
    } else if d == 5 {
        "5"
    } else if d == 6 {
        "6"
    } else if d == 7 {
        "7"
    } else if d == 8 {
        "8"
    } else {
        "9"
    };
    assert(s@ =~= seq![digit_char(d as int)]);
    s
}

/// Writes a number in decimal.
pub fn u64_to_string(n: u64) -> (s: String)
    ensures
        s@ == decimal_text(n as nat),
    decreases n,
{
    if n < 10 {
        String::from_str(digit_str(n))
    } else {
        let mut s = u64_to_string(n / 10);
        s.append(digit_str(n % 10));
        assert(s@ =~= decimal_text((n / 10) as nat).push(digit_char((n % 10) as int)));
        s
    }
}

/// Appends a number below one hundred as two digits.
pub(crate) fn push_two_digits(out: &mut String, n: u64)
    requires
        n < 100,
    ensures
        final(out)@ == old(out)@ + two_digit_text(n as nat),
{
    out.append(digit_str(n / 10));
    out.append(digit_str(n % 10));
    assert(out@ =~= old(out)@ + two_digit_text(n as nat));
}

/// Whether a byte is an ASCII decimal digit.
pub open spec fn is_digit(b: u8) -> bool {
    0x30 <= b <= 0x39
}

/// Whether every byte is an ASCII decimal digit.
pub open spec fn all_digits(s: Seq<u8>) -> bool {
    forall|i: int| 0 <= i < s.len() ==> is_digit(#[trigger] s[i])
}

/// The number that a run of decimal digits writes; zero for the empty run.
pub open spec fn digits_value(s: Seq<u8>) -> nat
    decreases s.len(),
{
    if s.len() == 0 {
        0
    } else {
        digits_value(s.drop_last()) * 10 + (s.last() - 0x30) as nat
    }
}

/// The number that a text of nothing but decimal digits writes, where there
/// is a digit at least and the number is no more than a `u64` holds.
pub open spec fn plain_number(digits: Seq<u8>) -> Option<u64> {
    if digits.len() > 0 && all_digits(digits) && digits_value(digits) <= u64::MAX {
        Some(digits_value(digits) as u64)
    } else {
        None
    }
}

/// The number that a text writes in the way Rust reads a `u64`: a plain
/// number after an optional plus sign.
pub open spec fn unsigned_value(s: Seq<u8>) -> Option<u64> {
    if s.len() > 0 && s[0] == 0x2B {
        plain_number(s.drop_first())
    } else {
        plain_number(s)
    }
}

/// A run of digits is worth at least as much as any of its prefixes.
proof fn lemma_digits_value_prefix(s: Seq<u8>, k: int)
    requires
        0 <= k <= s.len(),
        all_digits(s),
    ensures
        digits_value(s.subrange(0, k)) <= digits_value(s),
    decreases s.len() - k,
{
    if k == s.len() {
        assert(s.subrange(0, k) == s);
    } else {
        lemma_digits_value_prefix(s, k + 1);
        let longer = s.subrange(0, k + 1);
        assert(longer.drop_last() == s.subrange(0, k));
        assert(is_digit(s[k]));
        assert(longer.last() == s[k]);
    }
}

/// The plain number that stands in a text from `start` to its end.
pub open spec fn number_from(text: Seq<u8>, start: int) -> Option<u64> {
    if 0 <= start <= text.len() {
        plain_number(text.subrange(start, text.len() as int))
    } else {
        None
    }
}

/// Reads the plain number that stands in `text` from `start` to its end.
/// `None` where no digit stands there, where another byte stands among the
/// digits, or where the number is beyond a `u64`.
pub fn parse_digits(text: &[u8], start: usize) -> (value: Option<u64>)
    ensures
        value == number_from(text@, start as int),
{
    if start >= text.len() {
        return None;
    }
    let ghost digits = text@.subrange(start as int, text@.len() as int);
    let mut acc: u64 = 0;
    let mut i: usize = start;
    while i < text.len()
        invariant
            start <= i <= text@.len(),
            digits == text@.subrange(start as int, text@.len() as int),
            all_digits(digits.subrange(0, i - start)),
            acc == digits_value(digits.subrange(0, i - start)),
        decreases text@.len() - i,
    {
        let b = text[i];
        if b < 0x30 || b > 0x39 {
            assert(!is_digit(digits[i - start]));
            return None;
        }
        let ghost longer = digits.subrange(0, i - start + 1);
        proof {
            assert(longer.drop_last() == digits.subrange(0, i - start));
            assert(longer.last() == b);
            assert forall|j: int| 0 <= j < longer.len() implies is_digit(#[trigger] longer[j]) by {
                if j < i - start {
                    assert(digits.subrange(0, i - start)[j] == longer[j]);
                }
            }
        }
        let d: u64 = (b - 0x30) as u64;
        if acc > (u64::MAX - d) / 10 {
            proof {
                assert(digits_value(longer) > u64::MAX);
                if all_digits(digits) {
                    lemma_digits_value_prefix(digits, i - start + 1);
                }
            }
            return None;
        }
        acc = acc * 10 + d;
        i += 1;
    }
    assert(digits.subrange(0, i - start) == digits);
    Some(acc)
}

/// Reads a `u64` as Rust does: decimal digits after an optional plus sign.
pub fn parse_u64(text: &[u8]) -> (value: Option<u64>)
    ensures
        value == unsigned_value(text@),
{
    if text.len() > 0 && text[0] == 0x2B {
        assert(text@.drop_first() == text@.subrange(1, text@.len() as int));
        parse_digits(text, 1)
    } else {
        assert(text@ == text@.subrange(0, text@.len() as int));
        parse_digits(text, 0)
    }
}

/// A time in whole seconds as minutes and seconds: the minutes, held at
/// what a `u32` takes, a colon, and the seconds in two digits.
pub open spec fn clock_text(seconds: nat) -> Seq<char> {
    decimal_text(
        if seconds / 60 > u32::MAX {
            u32::MAX as nat
        } else {
            seconds / 60
        },
    ) + seq![':'] + two_digit_text(seconds % 60)
}

/// Writes a time in whole seconds as minutes and seconds.
pub fn clock_string(seconds: u64) -> (text: String)
    ensures
        text@ == clock_text(seconds as nat),
{
    let minutes: u64 = if seconds / 60 > u32::MAX as u64 {
        u32::MAX as u64
    } else {
        seconds / 60
    };
    let mut text = u64_to_string(minutes);
    proof {
        reveal_strlit(":");
        assert(":"@ =~= seq![':']);
    }
    text.append(":");
    push_two_digits(&mut text, seconds % 60);
    text
}

/// Texts put together with a separator between each two.
pub open spec fn joined(parts: Seq<Seq<char>>, separator: Seq<char>) -> Seq<char>
    decreases parts.len(),
{
    if parts.len() == 0 {
        seq![]
    } else if parts.len() == 1 {
        parts[0]
    } else {
        joined(parts.drop_last(), separator) + separator + parts.last()
    }
}

/// Puts texts together with a separator between each two.
pub fn join(parts: &Vec<String>, separator: &str) -> (text: String)
    ensures
        text@ == joined(parts.deep_view(), separator@),
{
    let mut text = String::new();
    if parts.len() == 0 {
        assert(parts.deep_view().len() == 0);
        return text;
    }
    text.append(parts[0].as_str());
    assert(parts.deep_view().subrange(0, 1).len() == 1);
    assert(text@ =~= joined(parts.deep_view().subrange(0, 1), separator@));
    let mut i: usize = 1;
    while i < parts.len()
        invariant
            1 <= i <= parts@.len(),
            text@ == joined(parts.deep_view().subrange(0, i as int), separator@),
        decreases parts@.len() - i,
    {
        let ghost longer = parts.deep_view().subrange(0, i + 1);
        assert(longer.drop_last() == parts.deep_view().subrange(0, i as int));
        assert(longer.last() == parts@[i as int]@);
        text.append(separator);
        text.append(parts[i].as_str());
        i += 1;
    }
    assert(parts.deep_view().subrange(0, i as int) == parts.deep_view());
    text
}

/// Whether a character has Unicode's `White_Space` property.
pub open spec fn is_whitespace(c: char) -> bool {
    let u = c as u32;
    ||| 0x09 <= u <= 0x0D
    ||| u == 0x20
    ||| u == 0x85
    ||| u == 0xA0
    ||| u == 0x1680
    ||| 0x2000 <= u <= 0x200A
    ||| u == 0x2028
    ||| u == 0x2029
    ||| u == 0x202F
    ||| u == 0x205F
    ||| u == 0x3000
}

/// A text without its leading whitespace.
pub open spec fn trim_start(s: Seq<char>) -> Seq<char>
    decreases s.len(),
{
    if s.len() > 0 && is_whitespace(s.first()) {
        trim_start(s.drop_first())
    } else {
        s
    }
}

/// A text without its trailing whitespace.
pub open spec fn trim_end(s: Seq<char>) -> Seq<char>
    decreases s.len(),
{
    if s.len() > 0 && is_whitespace(s.last()) {
        trim_end(s.drop_last())
    } else {
        s
    }
}

/// A text without its leading and trailing whitespace.
pub open spec fn trimmed(s: Seq<char>) -> Seq<char> {
    trim_end(trim_start(s))
}

/// Whether a character has Unicode's `White_Space` property.
pub fn is_space(c: char) -> (yes: bool)
    ensures
        yes == is_whitespace(c),
{
    let u: u32 = c as u32;
    (0x09 <= u && u <= 0x0D) || u == 0x20 || u == 0x85 || u == 0xA0 || u == 0x1680 || (0x2000 <= u
        && u <= 0x200A) || u == 0x2028 || u == 0x2029 || u == 0x202F || u == 0x205F || u == 0x3000
}

/// A text whose first `k` characters are whitespace, and the next one is
/// not, loses exactly those at its start.
proof fn lemma_trim_start(s: Seq<char>, k: int)
    requires
        0 <= k <= s.len(),
        forall|i: int| 0 <= i < k ==> is_whitespace(s[i]),
        k < s.len() ==> !is_whitespace(s[k]),
    ensures
        trim_start(s) == s.subrange(k, s.len() as int),
    decreases k,
{
    if k == 0 {
        assert(s.subrange(0, s.len() as int) == s);
    } else {
        let rest = s.drop_first();
        assert forall|i: int| 0 <= i < k - 1 implies is_whitespace(rest[i]) by {
            assert(rest[i] == s[i + 1]);
        }
        lemma_trim_start(rest, k - 1);
        assert(rest.subrange(k - 1, rest.len() as int) == s.subrange(k, s.len() as int));
    }
}

/// A text whose characters from index `m` on are whitespace, and the one
/// before is not, loses exactly those at its end.
proof fn lemma_trim_end(s: Seq<char>, m: int)
    requires
        0 <= m <= s.len(),
        forall|i: int| m <= i < s.len() ==> is_whitespace(s[i]),
        m > 0 ==> !is_whitespace(s[m - 1]),
    ensures
        trim_end(s) == s.subrange(0, m),
    decreases s.len() - m,
{
    if m == s.len() {
        assert(s.subrange(0, m) == s);
    } else {
        let rest = s.drop_last();
        assert forall|i: int| m <= i < rest.len() implies is_whitespace(rest[i]) by {
            assert(rest[i] == s[i]);
        }
        lemma_trim_end(rest, m);
        assert(rest.subrange(0, m) == s.subrange(0, m));
    }
}

/// Cuts the whitespace off both ends of a text.
pub fn trim(s: &str) -> (t: &str)
    ensures
        t@ == trimmed(s@),
{
    let total = s.unicode_len();
    let mut start: usize = 0;
    let mut end: usize = 0;
    let mut leading = true;
    let mut i: usize = 0;
    for c in it: s.chars()
        invariant
            total == s@.len(),
            it.seq() == s@,
            i == it.index(),
            start <= i,
            end <= i,
            leading ==> start == i && end == 0,
            !leading ==> start < end && !is_whitespace(s@[start as int]),
            forall|k: int| 0 <= k < start ==> is_whitespace(s@[k]),
            forall|k: int| end <= k < i ==> is_whitespace(s@[k]),
            end > 0 ==> !is_whitespace(s@[end - 1]),
    {
        if !is_space(c) {
            leading = false;
            end = i + 1;
        } else if leading {
            start = i + 1;
        }
        i = i + 1;
    }
    proof {
        lemma_trim_start(s@, start as int);
        let rest = s@.subrange(start as int, s@.len() as int);
        if leading {
            lemma_trim_end(rest, 0);
            assert(rest.subrange(0, 0) == s@.subrange(start as int, start as int));
        } else {
            assert forall|k: int| end - start <= k < rest.len() implies is_whitespace(rest[k]) by {
                assert(rest[k] == s@[start + k]);
            }
            lemma_trim_end(rest, end - start);
            assert(rest.subrange(0, end - start) == s@.subrange(start as int, end as int));
        }
    }
    if leading {
        s.substring_char(start, start)
    } else {
        s.substring_char(start, end)
    }
}

} // verus!
