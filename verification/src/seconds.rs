//! Reading a length of time that is written in seconds.
//!
//! The prober writes durations the way Rust writes floating-point numbers.
//! They are read here in whole numbers: a text becomes a count of
//! microseconds, with whatever is below a microsecond dropped.

use vstd::prelude::*;
use crate::text::{all_digits, clock_string, clock_text, digits_value, is_digit};

verus! {

/// Where the run of digits ends that begins at `from`.
pub open spec fn digit_run(s: Seq<u8>, from: int) -> int
    decreases s.len() - from,
{
    if 0 <= from < s.len() && is_digit(s[from]) {
        digit_run(s, from + 1)
    } else {
        from
    }
}

/// A run of digits ends within the text, and holds digits only.
proof fn lemma_digit_run(s: Seq<u8>, from: int)
    requires
        0 <= from <= s.len(),
    ensures
        from <= digit_run(s, from) <= s.len(),
        all_digits(s.subrange(from, digit_run(s, from))),
        digit_run(s, from) < s.len() ==> !is_digit(s[digit_run(s, from)]),
    decreases s.len() - from,
{
    if from < s.len() && is_digit(s[from]) {
        lemma_digit_run(s, from + 1);
        let end = digit_run(s, from);
        assert forall|i: int| 0 <= i < end - from implies is_digit(
            #[trigger] s.subrange(from, end)[i],
        ) by {
            if i > 0 {
                assert(s.subrange(from, end)[i] == s.subrange(from + 1, end)[i - 1]);
            }
        }
    }
}

/// Finds where the run of digits ends that begins at `from`.
fn scan_digits(text: &[u8], from: usize) -> (end: usize)
    requires
        from <= text@.len(),
    ensures
        end == digit_run(text@, from as int),
        from <= end <= text@.len(),
        all_digits(text@.subrange(from as int, end as int)),
{
    let mut end: usize = from;
    while end < text.len() && text[end] >= 0x30 && text[end] <= 0x39
        invariant
            from <= end <= text@.len(),
            digit_run(text@, from as int) == digit_run(text@, end as int),
        decreases text@.len() - end,
    {
        end += 1;
    }
    proof {
        lemma_digit_run(text@, from as int);
    }
    end
}

/// Ten to the power of `n`.
pub open spec fn pow10(n: nat) -> nat
    decreases n,
{
    if n == 0 {
        1
    } else {
        10 * pow10((n - 1) as nat)
    }
}

/// What a text of seconds reads as.
#[derive(Clone, Copy, Debug, PartialEq, Eq, Structural)]
pub enum Span {
    /// So many whole microseconds.
    Micros(u64),
    /// More than can be counted: infinity, or microseconds beyond a `u64`.
    Endless,
}

/// A letter in lower case; any other byte as it is.
pub open spec fn lower(b: u8) -> u8 {
    if 0x41 <= b <= 0x5A {
        (b + 0x20) as u8
    } else {
        b
    }
}

/// Whether a text spells a word, written in lower case, in letters of
/// either case.
pub open spec fn spells(s: Seq<u8>, word: Seq<u8>) -> bool {
    s.len() == word.len() && forall|i: int| 0 <= i < s.len() ==> lower(#[trigger] s[i]) == word[i]
}

/// Whether a text begins with a minus sign.
pub open spec fn is_negative(s: Seq<u8>) -> bool {
    s.len() > 0 && s[0] == 0x2D
}

/// A text without the plus or minus sign at its start, if it has one.
pub open spec fn unsigned_part(s: Seq<u8>) -> Seq<u8> {
    if s.len() > 0 && (s[0] == 0x2B || s[0] == 0x2D) {
        s.drop_first()
    } else {
        s
    }
}

/// The number that an exponent writes: digits, at least one, after an
/// optional sign.
pub open spec fn exponent_value(s: Seq<u8>) -> Option<int> {
    let digits = unsigned_part(s);
    if digits.len() > 0 && all_digits(digits) {
        Some(
            if is_negative(s) {
                -(digits_value(digits) as int)
            } else {
                digits_value(digits) as int
            },
        )
    } else {
        None
    }
}

/// Where the digits of an unsigned decimal number end: after the digits
/// that follow its point, or after the first run of digits if it has no
/// point.
pub open spec fn mantissa_end(t: Seq<u8>) -> int {
    let whole_end = digit_run(t, 0);
    if whole_end < t.len() && t[whole_end] == 0x2E {
        digit_run(t, whole_end + 1)
    } else {
        whole_end
    }
}

/// The digits of an unsigned decimal number, without its point.
pub open spec fn mantissa_digits(t: Seq<u8>) -> Seq<u8> {
    let whole_end = digit_run(t, 0);
    if whole_end < t.len() && t[whole_end] == 0x2E {
        t.subrange(0, whole_end) + t.subrange(whole_end + 1, mantissa_end(t))
    } else {
        t.subrange(0, whole_end)
    }
}

/// What an unsigned decimal number is made of: its digits without the
/// point, and the place of the point, counted in digits from the left and
/// moved by the exponent. The number is written as digits, optionally a
/// point and more digits, with a digit on one side of the point at least,
/// optionally followed by `e` or `E` and an exponent.
pub open spec fn decimal_of(t: Seq<u8>) -> Option<(Seq<u8>, int)> {
    let end = mantissa_end(t);
    if mantissa_digits(t).len() == 0 {
        None
    } else if end == t.len() {
        Some((mantissa_digits(t), digit_run(t, 0)))
    } else if lower(t[end]) == 0x65 {
        match exponent_value(t.subrange(end + 1, t.len() as int)) {
            Some(exponent) => Some((mantissa_digits(t), digit_run(t, 0) + exponent)),
            None => None,
        }
    } else {
        None
    }
}

/// The whole part of the number whose digits are `digits` with the point
/// after the first `point` of them: nothing where the point stands at or
/// before the first digit, and the digits followed by zeros where it stands
/// beyond the last.
pub open spec fn shifted(digits: Seq<u8>, point: int) -> nat {
    if point <= 0 {
        0
    } else if point <= digits.len() {
        digits_value(digits.subrange(0, point))
    } else {
        digits_value(digits) * pow10((point - digits.len()) as nat)
    }
}

/// A number of microseconds as a span: a negative number counts as none,
/// and one beyond a `u64` as endless.
pub open spec fn span_of(negative: bool, micros: nat) -> Span {
    if negative {
        Span::Micros(0)
    } else if micros > u64::MAX {
        Span::Endless
    } else {
        Span::Micros(micros as u64)
    }
}

/// The microseconds in a number of seconds that is written the way Rust
/// writes floating-point numbers: an optional sign, then `inf`, `infinity`
/// or `nan` in letters of either case, or a decimal number with an optional
/// exponent. The part below a microsecond is dropped. Whatever is negative
/// or no number counts as no time at all, and infinity as endless. `None`
/// for any other text.
pub open spec fn micros_value(s: Seq<u8>) -> Option<Span> {
    let t = unsigned_part(s);
    if spells(t, vstd::utf8::encode_utf8("inf"@)) || spells(
        t,
        vstd::utf8::encode_utf8("infinity"@),
    ) {
        Some(
            if is_negative(s) {
                Span::Micros(0)
            } else {
                Span::Endless
            },
        )
    } else if spells(t, vstd::utf8::encode_utf8("nan"@)) {
        Some(Span::Micros(0))
    } else {
        match decimal_of(t) {
            Some((digits, point)) => Some(span_of(is_negative(s), shifted(digits, point + 6))),
            None => None,
        }
    }
}

/// A number held at a cap.
spec fn capped(value: nat, cap: nat) -> nat {
    if value >= cap {
        cap
    } else {
        value
    }
}

/// The highest cap that is taken: numbers below it can be followed by
/// another digit without leaving a `u128`.
const CAP_LIMIT: u128 = 0x1_0000_0000_0000_0000_0000_0000;

/// One more than a `u64` holds.
const BEYOND_U64: u128 = 0x1_0000_0000_0000_0000;

/// Powers of ten grow, and start at one.
proof fn lemma_pow10_grows(a: nat, b: nat)
    requires
        a <= b,
    ensures
        1 <= pow10(a) <= pow10(b),
    decreases b,
{
    if a == 0 {
        if b > 0 {
            lemma_pow10_grows(0, (b - 1) as nat);
        }
    } else {
        lemma_pow10_grows((a - 1) as nat, (b - 1) as nat);
    }
}

/// A number followed by more zeros is no less.
proof fn lemma_scale_grows(value: nat, a: nat, b: nat)
    requires
        a <= b,
    ensures
        value <= value * pow10(a) <= value * pow10(b),
{
    lemma_pow10_grows(a, b);
    lemma_pow10_grows(0, a);
    let pa = pow10(a);
    let pb = pow10(b);
    assert(value <= value * pa <= value * pb) by (nonlinear_arith)
        requires
            1 <= pa <= pb,
    ;
}

/// Twenty zeros take any number but zero beyond a `u64`.
proof fn lemma_twenty_zeros(value: nat, zeros: nat)
    requires
        value >= 1,
        zeros >= 20,
    ensures
        value * pow10(zeros) > u64::MAX,
{
    reveal_with_fuel(pow10, 21);
    assert(pow10(20) == 100_000_000_000_000_000_000nat);
    lemma_pow10_grows(20, zeros);
    let p = pow10(zeros);
    assert(value * p >= p) by (nonlinear_arith)
        requires
            value >= 1,
    ;
}

/// The number that the digits of `text` between `from` and `to` write, held
/// at `cap`. No digits write zero.
fn capped_digits(text: &[u8], from: usize, to: usize, cap: u128) -> (value: u128)
    requires
        from <= to <= text@.len(),
        all_digits(text@.subrange(from as int, to as int)),
        cap <= CAP_LIMIT,
    ensures
        value == capped(digits_value(text@.subrange(from as int, to as int)), cap as nat),
{
    let ghost digits = text@.subrange(from as int, to as int);
    let mut acc: u128 = 0;
    let mut i: usize = from;
    assert(digits.subrange(0, 0).len() == 0);
    while i < to
        invariant
            from <= i <= to <= text@.len(),
            digits == text@.subrange(from as int, to as int),
            all_digits(digits),
            cap <= CAP_LIMIT,
            acc == capped(digits_value(digits.subrange(0, i - from)), cap as nat),
        decreases to - i,
    {
        let ghost longer = digits.subrange(0, i - from + 1);
        proof {
            assert(longer.drop_last() == digits.subrange(0, i - from));
            assert(longer.last() == text@[i as int]);
            assert(is_digit(digits[i - from]));
        }
        let d: u128 = (text[i] - 0x30) as u128;
        let next: u128 = acc * 10 + d;
        acc = if next >= cap {
            cap
        } else {
            next
        };
        i += 1;
    }
    assert(digits.subrange(0, i - from) == digits);
    acc
}

/// A number followed by so many zeros, held at `cap`.
fn capped_scale(value: u128, zeros: u128, cap: u128) -> (scaled: u128)
    requires
        value <= cap <= CAP_LIMIT,
    ensures
        scaled == capped(value as nat * pow10(zeros as nat), cap as nat),
{
    if value == 0 {
        assert(0 * pow10(zeros as nat) == 0) by (nonlinear_arith);
        return 0;
    }
    let mut acc: u128 = value;
    let mut done: u128 = 0;
    assert(value as nat * pow10(0) == value) by (nonlinear_arith)
        requires
            pow10(0) == 1,
    ;
    while done < zeros && acc < cap
        invariant
            done <= zeros,
            1 <= value <= cap <= CAP_LIMIT,
            acc == capped(value as nat * pow10(done as nat), cap as nat),
        decreases zeros - done,
    {
        proof {
            let p = pow10(done as nat);
            assert(pow10((done + 1) as nat) == 10 * p);
            assert(value as nat * (10 * p) == 10 * (value as nat * p)) by (nonlinear_arith);
        }
        let next: u128 = acc * 10;
        acc = if next >= cap {
            cap
        } else {
            next
        };
        done += 1;
    }
    proof {
        if done < zeros {
            lemma_scale_grows(value as nat, done as nat, zeros as nat);
        }
    }
    acc
}

/// Whether every byte is a digit.
fn only_digits(text: &[u8]) -> (yes: bool)
    ensures
        yes == all_digits(text@),
{
    let end = scan_digits(text, 0);
    proof {
        if end == text@.len() {
            assert(text@.subrange(0, end as int) == text@);
        } else {
            lemma_digit_run(text@, 0);
        }
    }
    end == text.len()
}

/// Whether a text spells a word, written in lower case, in letters of
/// either case.
fn spells_word(text: &[u8], word: &[u8]) -> (yes: bool)
    ensures
        yes == spells(text@, word@),
{
    if text.len() != word.len() {
        return false;
    }
    let mut i: usize = 0;
    while i < text.len()
        invariant
            text@.len() == word@.len(),
            i <= text@.len(),
            forall|k: int| 0 <= k < i ==> lower(#[trigger] text@[k]) == word@[k],
        decreases text@.len() - i,
    {
        let b = text[i];
        let folded: u8 = if b >= 0x41 && b <= 0x5A {
            b + 0x20
        } else {
            b
        };
        if folded != word[i] {
            return false;
        }
        i += 1;
    }
    true
}

/// Appends the bytes of `text` between `from` and `to`.
fn push_range(out: &mut Vec<u8>, text: &[u8], from: usize, to: usize)
    requires
        from <= to <= text@.len(),
    ensures
        final(out)@ == old(out)@ + text@.subrange(from as int, to as int),
{
    let mut i: usize = from;
    assert(out@ =~= old(out)@ + text@.subrange(from as int, from as int));
    while i < to
        invariant
            from <= i <= to <= text@.len(),
            out@ == old(out)@ + text@.subrange(from as int, i as int),
        decreases to - i,
    {
        out.push(text[i]);
        assert(out@ =~= old(out)@ + text@.subrange(from as int, i + 1));
        i += 1;
    }
}

/// The whole part of the number whose digits are `digits` with the point
/// after the first `point` of them, held at one more than a `u64` holds.
fn shift_digits(digits: &[u8], point: u128) -> (value: u128)
    requires
        all_digits(digits@),
    ensures
        value == capped(shifted(digits@, point as int), BEYOND_U64 as nat),
{
    if point == 0 {
        0
    } else if point <= digits.len() as u128 {
        capped_digits(digits, 0, point as usize, BEYOND_U64)
    } else {
        assert(digits@.subrange(0, digits@.len() as int) == digits@);
        let written = capped_digits(digits, 0, digits.len(), BEYOND_U64);
        let zeros: u128 = point - digits.len() as u128;
        proof {
            let full = digits_value(digits@);
            if full >= BEYOND_U64 {
                lemma_scale_grows(full, 0, zeros as nat);
                lemma_scale_grows(BEYOND_U64 as nat, 0, zeros as nat);
            }
        }
        capped_scale(written, zeros, BEYOND_U64)
    }
}

/// Cuts the sign off a text and tells whether it was a minus.
fn split_sign(text: &[u8]) -> (parts: (bool, &[u8]))
    ensures
        parts.0 == is_negative(text@),
        parts.1@ == unsigned_part(text@),
{
    if text.len() > 0 && (text[0] == 0x2B || text[0] == 0x2D) {
        assert(text@.drop_first() == text@.subrange(1, text@.len() as int));
        (text[0] == 0x2D, vstd::slice::slice_subrange(text, 1, text.len()))
    } else {
        (false, text)
    }
}

/// Reads an exponent: whether it is negative, and its size held at the
/// highest cap. `None` where the text is no exponent.
fn read_exponent(text: &[u8]) -> (exponent: Option<(bool, u128)>)
    ensures
        match exponent {
            Some((shrinks, size)) => exponent_value(text@) is Some && shrinks == is_negative(text@)
                && size == capped(digits_value(unsigned_part(text@)), CAP_LIMIT as nat),
            None => exponent_value(text@) is None,
        },
{
    let (shrinks, digits) = split_sign(text);
    if digits.len() == 0 || !only_digits(digits) {
        return None;
    }
    assert(digits@.subrange(0, digits@.len() as int) == digits@);
    Some((shrinks, capped_digits(digits, 0, digits.len(), CAP_LIMIT)))
}

/// Gathers the digits of an unsigned decimal number, and tells where its
/// whole part and its digits end.
fn read_mantissa(t: &[u8]) -> (parts: (Vec<u8>, usize, usize))
    ensures
        parts.0@ == mantissa_digits(t@),
        all_digits(parts.0@),
        parts.1 == digit_run(t@, 0),
        parts.2 == mantissa_end(t@),
        parts.1 <= parts.2 <= t@.len(),
{
    let whole_end = scan_digits(t, 0);
    let mut digits: Vec<u8> = Vec::new();
    push_range(&mut digits, t, 0, whole_end);
    let ghost whole = t@.subrange(0, whole_end as int);
    assert(digits@ =~= whole);
    if whole_end < t.len() && t[whole_end] == 0x2E {
        let end = scan_digits(t, whole_end + 1);
        push_range(&mut digits, t, whole_end + 1, end);
        proof {
            let fraction = t@.subrange(whole_end + 1, end as int);
            assert forall|i: int| 0 <= i < digits@.len() implies is_digit(
                #[trigger] digits@[i],
            ) by {
                if i < whole.len() {
                    assert(digits@[i] == whole[i]);
                } else {
                    assert(digits@[i] == fraction[i - whole.len()]);
                }
            }
        }
        (digits, whole_end, end)
    } else {
        (digits, whole_end, whole_end)
    }
}

/// The whole part of the number whose digits are `digits` with the point
/// after the first `whole` of them and then moved by an exponent, held at
/// one more than a `u64` holds. The exponent is given by its sign and its
/// size, held at the highest cap.
fn move_point(
    digits: &[u8],
    whole: u128,
    shrinks: bool,
    size: u128,
    Ghost(exponent): Ghost<int>,
) -> (value: u128)
    requires
        all_digits(digits@),
        digits@.len() > 0,
        whole <= usize::MAX + 6,
        shrinks ==> exponent <= 0,
        !shrinks ==> exponent >= 0,
        size == capped(
            (if shrinks {
                -exponent
            } else {
                exponent
            }) as nat,
            CAP_LIMIT as nat,
        ),
    ensures
        value == capped(shifted(digits@, whole + exponent), BEYOND_U64 as nat),
{
    if shrinks {
        if size >= whole {
            0
        } else {
            shift_digits(digits, whole - size)
        }
    } else if size >= CAP_LIMIT {
        assert(digits@.subrange(0, digits@.len() as int) == digits@);
        let written = capped_digits(digits, 0, digits.len(), BEYOND_U64);
        proof {
            let zeros = (whole + exponent - digits@.len()) as nat;
            if written != 0 {
                lemma_twenty_zeros(digits_value(digits@), zeros);
            } else {
                assert(0 * pow10(zeros) == 0) by (nonlinear_arith);
            }
        }
        if written == 0 {
            0
        } else {
            BEYOND_U64
        }
    } else {
        shift_digits(digits, whole + size)
    }
}

/// Reads a number of seconds, written the way Rust writes floating-point
/// numbers, as microseconds. The number is taken digit for digit as it is
/// written, never rounded to what a floating-point number can hold.
pub fn parse_micros(text: &[u8]) -> (value: Option<Span>)
    ensures
        value == micros_value(text@),
{
    let (negative, t) = split_sign(text);
    if spells_word(t, "inf".as_bytes()) || spells_word(t, "infinity".as_bytes()) {
        return Some(
            if negative {
                Span::Micros(0)
            } else {
                Span::Endless
            },
        );
    }
    if spells_word(t, "nan".as_bytes()) {
        return Some(Span::Micros(0));
    }
    let (digits, whole_end, end) = read_mantissa(t);
    if digits.len() == 0 {
        return None;
    }
    let mut shrinks = false;
    let mut size: u128 = 0;
    let ghost mut exponent: int = 0;
    if end < t.len() {
        if t[end] != 0x65 && t[end] != 0x45 {
            return None;
        }
        let tail = vstd::slice::slice_subrange(t, end + 1, t.len());
        match read_exponent(tail) {
            Some((negative_exponent, held)) => {
                shrinks = negative_exponent;
                size = held;
                proof {
                    exponent = exponent_value(tail@)->0;
                }
            },
            None => {
                return None;
            },
        }
    }
    assert(decimal_of(t@) == Some((digits@, whole_end + exponent)));
    if negative {
        return Some(Span::Micros(0));
    }
    let micros = move_point(
        digits.as_slice(),
        whole_end as u128 + 6,
        shrinks,
        size,
        Ghost(exponent),
    );
    if micros >= BEYOND_U64 {
        Some(Span::Endless)
    } else {
        Some(Span::Micros(micros as u64))
    }
}

/// A span as minutes and seconds. An endless span fills the minutes with
/// what a `u32` takes and has no seconds over.
pub open spec fn span_text(span: Span) -> Seq<char> {
    match span {
        Span::Micros(micros) => clock_text((micros / 1_000_000) as nat),
        Span::Endless => "4294967295:00"@,
    }
}

/// Writes a span as minutes and seconds.
pub fn span_string(span: Span) -> (text: String)
    ensures
        text@ == span_text(span),
{
    match span {
        Span::Micros(micros) => clock_string(micros / 1_000_000),
        Span::Endless => String::from_str("4294967295:00"),
    }
}

} // verus!
