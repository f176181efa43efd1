//! Checks and rendering of the identities that the owners write and read.

use vstd::prelude::*;
use vstd::string::{StrSliceExecFns, StringExecFns};
use vstd::utf8::{encode_scalar, encode_utf8};

verus! {

/// The digit `d` as a character.
pub open spec fn digit_char(d: nat) -> char {
    (('0' as u32) + d) as char
}

/// True of the ten decimal digits.
pub open spec fn is_digit(c: char) -> bool {
    '0' <= c && c <= '9'
}

/// The value of a decimal digit.
pub open spec fn digit_value(c: char) -> nat {
    (c as u32 - '0' as u32) as nat
}

/// The decimal digits of `n`, most significant first; one digit for zero.
pub open spec fn digits_of(n: nat) -> Seq<char>
    decreases n,
{
    if n < 10 {
        seq![digit_char(n)]
    } else {
        digits_of(n / 10).push(digit_char(n % 10))
    }
}

/// The number that a sequence of decimal digits stands for.
pub open spec fn value_of(digits: Seq<char>) -> nat
    decreases digits.len(),
{
    if digits.len() == 0 {
        0
    } else {
        10 * value_of(digits.drop_last()) + digit_value(digits.last())
    }
}

/// Every character is a decimal digit.
pub open spec fn all_digits(text: Seq<char>) -> bool {
    forall|i: int| 0 <= i < text.len() ==> is_digit(#[trigger] text[i])
}

/// `digits` with zeros before it up to a length of at least `width`.
pub open spec fn zero_padded(digits: Seq<char>, width: nat) -> Seq<char> {
    zeros((width - digits.len()) as int) + digits
}

/// `count` zeros; none for a negative count.
pub open spec fn zeros(count: int) -> Seq<char> {
    Seq::new(
        if count > 0 {
            count as nat
        } else {
            0
        },
        |i: int| '0',
    )
}

/// The number that a text of digits stands for, with an optional plus sign
/// before them, if there is a digit and the number fits in 64 bits.
pub open spec fn parsed_u64(text: Seq<char>) -> Option<u64> {
    let digits = if text.len() > 0 && text[0] == '+' {
        text.skip(1)
    } else {
        text
    };
    if digits.len() > 0 && all_digits(digits) && value_of(digits) <= u64::MAX {
        Some(value_of(digits) as u64)
    } else {
        None
    }
}

/// The characters that an identity of a task, a source or an exchange may hold.
pub open spec fn is_identity_char(c: char) -> bool {
    ('a' <= c && c <= 'z') || ('A' <= c && c <= 'Z') || is_digit(c) || c == '-' || c == '_' || c
        == '.' || c == ':' || c == '/' || c == '@'
}

/// Every character may stand in an identity.
pub open spec fn all_identity_chars(text: Seq<char>) -> bool {
    forall|i: int| 0 <= i < text.len() ==> is_identity_char(#[trigger] text[i])
}

/// The characters with the Unicode property `White_Space`.
pub open spec fn is_white_space(c: char) -> bool {
    ('\u{9}' <= c && c <= '\u{d}') || c == ' ' || c == '\u{85}' || c == '\u{a0}' || c == '\u{1680}'
        || ('\u{2000}' <= c && c <= '\u{200a}') || c == '\u{2028}' || c == '\u{2029}' || c
        == '\u{202f}' || c == '\u{205f}' || c == '\u{3000}'
}

/// The control characters: those of the Unicode category `Cc`.
pub open spec fn is_control_char(c: char) -> bool {
    c <= '\u{1f}' || ('\u{7f}' <= c && c <= '\u{9f}')
}

/// The text without the white space at its beginning.
pub open spec fn trim_start_of(text: Seq<char>) -> Seq<char>
    decreases text.len(),
{
    if text.len() > 0 && is_white_space(text[0]) {
        trim_start_of(text.skip(1))
    } else {
        text
    }
}

/// The text without the white space at its end.
pub open spec fn trim_end_of(text: Seq<char>) -> Seq<char>
    decreases text.len(),
{
    if text.len() > 0 && is_white_space(text.last()) {
        trim_end_of(text.drop_last())
    } else {
        text
    }
}

/// The text without the white space at its two ends.
pub open spec fn trim_of(text: Seq<char>) -> Seq<char> {
    trim_end_of(trim_start_of(text))
}

/// The length of a text in bytes.
pub open spec fn byte_length(text: Seq<char>) -> nat {
    encode_utf8(text).len()
}

/// The two texts hold the same characters.
pub fn same_text(a: &str, b: &str) -> (r: bool)
    ensures
        r == (a@ == b@),
{
    let left: String = a.to_owned();
    let right: String = b.to_owned();
    left == right
}

/// The characters of a text, in order.
pub fn characters(text: &str) -> (r: Vec<char>)
    ensures
        r@ == text@,
{
    let mut out: Vec<char> = Vec::new();
    for c in it: text.chars()
        invariant
            out@ == it.seq().take(it.index()),
            it.seq() == text@,
    {
        out.push(c);
    }
    out
}

/// The length of a text in bytes.
pub fn byte_len(text: &str) -> (r: usize)
    ensures
        r == byte_length(text@),
{
    text.as_bytes().len()
}

/// The character is white space.
pub fn white_space(c: char) -> (r: bool)
    ensures
        r == is_white_space(c),
{
    ('\u{9}' <= c && c <= '\u{d}') || c == ' ' || c == '\u{85}' || c == '\u{a0}' || c == '\u{1680}'
        || ('\u{2000}' <= c && c <= '\u{200a}') || c == '\u{2028}' || c == '\u{2029}' || c
        == '\u{202f}' || c == '\u{205f}' || c == '\u{3000}'
}

/// The text without the white space at its two ends.
pub fn trimmed(text: &str) -> (r: String)
    ensures
        r@ == trim_of(text@),
{
    let chars: Vec<char> = characters(text);
    let mut from: usize = 0;
    assert(text@.skip(0) =~= text@);
    while from < chars.len() && white_space(chars[from])
        invariant
            from <= chars.len(),
            chars@ == text@,
            trim_start_of(text@) == trim_start_of(text@.skip(from as int)),
        decreases chars.len() - from,
    {
        assert(text@.skip(from as int).skip(1) =~= text@.skip(from + 1));
        from = from + 1;
    }
    let ghost rest = text@.skip(from as int);
    assert(trim_start_of(text@) == rest);
    let mut to: usize = chars.len();
    assert(text@.subrange(from as int, to as int) =~= rest);
    while to > from && white_space(chars[to - 1])
        invariant
            from <= to <= chars.len(),
            chars@ == text@,
            trim_end_of(rest) == trim_end_of(text@.subrange(from as int, to as int)),
        decreases to,
    {
        assert(text@.subrange(from as int, to as int).drop_last() =~= text@.subrange(
            from as int,
            to - 1,
        ));
        to = to - 1;
    }
    text.substring_char(from, to).to_owned()
}

/// Every character may stand in an identity.
pub fn safe_identity(value: &str) -> (r: bool)
    ensures
        r == all_identity_chars(value@),
{
    let chars: Vec<char> = characters(value);
    let mut i: usize = 0;
    while i < chars.len()
        invariant
            i <= chars.len(),
            chars@ == value@,
            forall|j: int| 0 <= j < i ==> is_identity_char(#[trigger] chars@[j]),
        decreases chars.len() - i,
    {
        let c: char = chars[i];
        if !(('a' <= c && c <= 'z') || ('A' <= c && c <= 'Z') || ('0' <= c && c <= '9') || c == '-'
            || c == '_' || c == '.' || c == ':' || c == '/' || c == '@') {
            assert(!is_identity_char(value@[i as int]));
            return false;
        }
        i = i + 1;
    }
    true
}

/// The text of one digit.
fn digit_text(d: u64) -> (r: &'static str)
    requires
        d < 10,
    ensures
        r@ == seq![digit_char(d as nat)],
{
    proof {
        reveal_strlit("0");
        reveal_strlit("1");
        reveal_strlit("2");
        reveal_strlit("3");
        reveal_strlit("4");
        reveal_strlit("5");
        reveal_strlit("6");
        reveal_strlit("7");
        reveal_strlit("8");
        reveal_strlit("9");
    }
    if d == 0 {
        "0"
    } else if d == 1 {
        "1"
    } else if d == 2 {
        "2"
    } else if d == 3 {
        "3"
    } else if d == 4 {
        "4"
    } else if d == 5 {
        "5"
    } else if d == 6 {
        "6"
    } else if d == 7 {
        "7"
    } else if d == 8 {
        "8"
    } else {
        "9"
    }
}

/// Appends the decimal digits of a number.
fn append_digits(out: &mut String, n: u64)
    ensures
        final(out)@ == old(out)@ + digits_of(n as nat),
    decreases n,
{
    if n >= 10 {
        append_digits(out, n / 10);
    }
    out.append(digit_text(n % 10));
}

/// The number of decimal digits of a number.
fn digit_count(n: u64) -> (r: usize)
    ensures
        r == digits_of(n as nat).len(),
        1 <= r <= 20,
        n < 10 ==> r == 1,
    decreases n,
{
    proof {
        lemma_digit_count_bound(n);
    }
    if n < 10 {
        1
    } else {
        1 + digit_count(n / 10)
    }
}

/// A 64-bit number has at most twenty digits.
proof fn lemma_digit_count_bound(n: u64)
    ensures
        1 <= digits_of(n as nat).len() <= 20,
{
    reveal_with_fuel(crate::decimal::pow10, 21);
    lemma_digits_len(n as nat, 20);
}

/// A number below ten to the power of `k` has at most `k` digits.
pub proof fn lemma_digits_len(n: nat, k: nat)
    requires
        k >= 1,
        n < crate::decimal::pow10(k),
    ensures
        1 <= digits_of(n).len() <= k,
    decreases n,
{
    if n >= 10 {
        assert(k >= 2) by {
            if k == 1 {
                assert(crate::decimal::pow10(1) == 10 * crate::decimal::pow10(0));
            }
        }
        assert(crate::decimal::pow10(k) == 10 * crate::decimal::pow10((k - 1) as nat));
        lemma_digits_len(n / 10, (k - 1) as nat);
    }
}

/// The decimal digits of a number, with zeros before them up to a width.
pub fn padded_number(n: u64, width: usize) -> (r: String)
    ensures
        r@ == zero_padded(digits_of(n as nat), width as nat),
{
    let mut out: String = String::new();
    let count: usize = digit_count(n);
    let mut written: usize = count;
    while written < width
        invariant
            count == digits_of(n as nat).len(),
            written <= width || written == count,
            written >= count,
            out@ == zeros((written - count) as int),
        decreases width - written,
    {
        out.append(digit_text(0));
        written = written + 1;
        assert(out@ =~= zeros((written - count) as int));
    }
    append_digits(&mut out, n);
    out
}

/// The number that a text stands for, as `str::parse` reads a `u64`.
pub fn parse_u64(text: &str) -> (r: Option<u64>)
    ensures
        r == parsed_u64(text@),
{
    let chars: Vec<char> = characters(text);
    let mut i: usize = 0;
    if chars.len() > 0 && chars[0] == '+' {
        i = 1;
    }
    let start: usize = i;
    let ghost digits = if text@.len() > 0 && text@[0] == '+' {
        text@.skip(1)
    } else {
        text@
    };
    assert(digits =~= chars@.skip(start as int));
    if i == chars.len() {
        return None;
    }
    let mut value: u64 = 0;
    while i < chars.len()
        invariant
            start <= i <= chars.len(),
            digits == chars@.skip(start as int),
            digits.len() == chars@.len() - start,
            forall|j: int| 0 <= j < i - start ==> is_digit(#[trigger] digits[j]),
            value == value_of(digits.take(i - start)),
            text@ == chars@,
            digits == (if text@.len() > 0 && text@[0] == '+' {
                text@.skip(1)
            } else {
                text@
            }),
        decreases chars.len() - i,
    {
        let c: char = chars[i];
        assert(c == digits[i - start]);
        if !('0' <= c && c <= '9') {
            assert(!is_digit(digits[i - start]));
            return None;
        }
        let digit: u64 = (c as u32 - '0' as u32) as u64;
        let ghost longer = digits.take(i - start + 1);
        assert(longer.drop_last() =~= digits.take(i - start));
        assert(value_of(longer) == 10 * value + digit);
        if value > (u64::MAX - digit) / 10 {
            proof {
                lemma_value_grows(digits, i - start + 1);
            }
            return None;
        }
        value = value * 10 + digit;
        i = i + 1;
    }
    assert(digits.take(i - start) =~= digits);
    Some(value)
}

/// The value of digits is at least that of their beginning.
proof fn lemma_value_grows(digits: Seq<char>, k: int)
    requires
        0 <= k <= digits.len(),
    ensures
        value_of(digits) >= value_of(digits.take(k)),
    decreases digits.len(),
{
    if k == digits.len() {
        assert(digits.take(k) =~= digits);
    } else {
        lemma_value_grows(digits.drop_last(), k);
        assert(digits.drop_last().take(k) =~= digits.take(k));
    }
}

/// Reading the digits of a number gives the number back, also with zeros
/// before them.
pub proof fn lemma_digits_read_back(n: nat, width: nat)
    ensures
        all_digits(zero_padded(digits_of(n), width)),
        zero_padded(digits_of(n), width).len() >= 1,
        value_of(zero_padded(digits_of(n), width)) == n,
{
    lemma_digits_value(n);
    lemma_zeros_value(zeros(width - digits_of(n).len()), digits_of(n));
}

proof fn lemma_digits_value(n: nat)
    ensures
        all_digits(digits_of(n)),
        digits_of(n).len() >= 1,
        value_of(digits_of(n)) == n,
    decreases n,
{
    if n >= 10 {
        lemma_digits_value(n / 10);
        assert(digits_of(n).drop_last() =~= digits_of(n / 10));
    } else {
        assert(digits_of(n).drop_last() =~= Seq::<char>::empty());
        assert(value_of(Seq::<char>::empty()) == 0);
    }
}

proof fn lemma_zeros_value(lead: Seq<char>, digits: Seq<char>)
    requires
        forall|i: int| 0 <= i < lead.len() ==> #[trigger] lead[i] == '0',
        all_digits(digits),
    ensures
        all_digits(lead + digits),
        value_of(lead + digits) == value_of(digits),
    decreases lead.len() + digits.len(),
{
    let whole = lead + digits;
    if digits.len() > 0 {
        assert(whole.drop_last() =~= lead + digits.drop_last());
        lemma_zeros_value(lead, digits.drop_last());
    } else if lead.len() > 0 {
        assert(whole.drop_last() =~= lead.drop_last() + digits);
        lemma_zeros_value(lead.drop_last(), digits);
        assert(whole.last() == '0');
    } else {
        assert(whole =~= digits);
    }
}

/// The text starts with the prefix.
pub open spec fn starts_with(text: Seq<char>, prefix: Seq<char>) -> bool {
    prefix.len() <= text.len() && text.take(prefix.len() as int) == prefix
}

/// What follows the prefix, if the text starts with it.
pub fn after_prefix(text: &str, prefix: &str) -> (r: Option<String>)
    ensures
        r is Some <==> starts_with(text@, prefix@),
        r is Some ==> r->0@ == text@.skip(prefix@.len() as int),
{
    let chars: Vec<char> = characters(text);
    let lead: Vec<char> = characters(prefix);
    if lead.len() > chars.len() {
        return None;
    }
    let mut i: usize = 0;
    while i < lead.len()
        invariant
            i <= lead.len() <= chars.len(),
            chars@ == text@,
            lead@ == prefix@,
            forall|j: int| 0 <= j < i ==> chars@[j] == #[trigger] lead@[j],
        decreases lead.len() - i,
    {
        if chars[i] != lead[i] {
            assert(text@.take(prefix@.len() as int)[i as int] != prefix@[i as int]);
            return None;
        }
        i = i + 1;
    }
    assert(text@.take(prefix@.len() as int) =~= prefix@);
    assert(text@.subrange(lead@.len() as int, chars@.len() as int) =~= text@.skip(
        prefix@.len() as int,
    ));
    Some(text.substring_char(lead.len(), chars.len()).to_owned())
}

/// The text ends with the suffix.
pub open spec fn ends_with(text: Seq<char>, suffix: Seq<char>) -> bool {
    suffix.len() <= text.len() && text.skip(text.len() - suffix.len()) == suffix
}

/// The text ends with the suffix.
pub fn has_suffix(text: &str, suffix: &str) -> (r: bool)
    ensures
        r == ends_with(text@, suffix@),
{
    let chars: Vec<char> = characters(text);
    let tail: Vec<char> = characters(suffix);
    if tail.len() > chars.len() {
        return false;
    }
    let from: usize = chars.len() - tail.len();
    let mut i: usize = 0;
    while i < tail.len()
        invariant
            i <= tail.len() <= chars.len(),
            from == chars.len() - tail.len(),
            chars@ == text@,
            tail@ == suffix@,
            forall|j: int| 0 <= j < i ==> chars@[from + j] == #[trigger] tail@[j],
        decreases tail.len() - i,
    {
        if chars[from + i] != tail[i] {
            assert(text@.skip(from as int)[i as int] != suffix@[i as int]);
            return false;
        }
        i = i + 1;
    }
    assert(text@.skip(from as int) =~= suffix@);
    true
}

/// A control character stands in the text.
pub open spec fn holds_control(text: Seq<char>) -> bool {
    exists|i: int| 0 <= i < text.len() && is_control_char(#[trigger] text[i])
}

/// A control character stands in the text.
pub fn has_control(text: &str) -> (r: bool)
    ensures
        r == holds_control(text@),
{
    let chars: Vec<char> = characters(text);
    let mut i: usize = 0;
    while i < chars.len()
        invariant
            i <= chars.len(),
            chars@ == text@,
            forall|j: int| 0 <= j < i ==> !is_control_char(#[trigger] chars@[j]),
        decreases chars.len() - i,
    {
        let c: char = chars[i];
        if c <= '\u{1f}' || ('\u{7f}' <= c && c <= '\u{9f}') {
            assert(is_control_char(text@[i as int]));
            return true;
        }
        i = i + 1;
    }
    false
}

/// The number of bytes of one character.
pub open spec fn char_bytes(c: char) -> nat {
    encode_scalar(c as u32).len()
}

/// How many bytes a character takes, by its code point.
proof fn lemma_char_bytes(c: char)
    ensures
        c <= '\u{7f}' ==> char_bytes(c) == 1,
        '\u{7f}' < c <= '\u{7ff}' ==> char_bytes(c) == 2,
        '\u{7ff}' < c <= '\u{ffff}' ==> char_bytes(c) == 3,
        '\u{ffff}' < c ==> char_bytes(c) == 4,
{
    let code = c as u32;
    assert(code as int == c as int);
    vstd::utf8::char_is_scalar(c);
    if c <= '\u{7f}' {
        assert(vstd::utf8::has_width_1_encoding(code));
        assert(encode_scalar(code).len() == 1);
    } else if c <= '\u{7ff}' {
        assert(vstd::utf8::has_width_2_encoding(code));
        assert(encode_scalar(code).len() == 2);
    } else if c <= '\u{ffff}' {
        assert(vstd::utf8::has_width_3_encoding(code));
        assert(encode_scalar(code).len() == 3);
    } else {
        assert(encode_scalar(code).len() == 4);
    }
}

/// One more character adds its own bytes.
pub proof fn lemma_byte_length_push(text: Seq<char>, c: char)
    ensures
        byte_length(text.push(c)) == byte_length(text) + char_bytes(c),
    decreases text.len(),
{
    let longer = text.push(c);
    if text.len() == 0 {
        assert(longer.drop_first() =~= Seq::<char>::empty());
        assert(encode_utf8(longer) =~= encode_scalar(c as u32) + encode_utf8(longer.drop_first()));
    } else {
        assert(longer.drop_first() =~= text.drop_first().push(c));
        lemma_byte_length_push(text.drop_first(), c);
    }
}

/// `part` is the longest beginning of `text` that takes at most `limit` bytes.
pub open spec fn is_longest_prefix_within(text: Seq<char>, part: Seq<char>, limit: nat) -> bool {
    &&& part.len() <= text.len()
    &&& part == text.take(part.len() as int)
    &&& byte_length(part) <= limit
    &&& part.len() < text.len() ==> byte_length(text.take((part.len() + 1) as int)) > limit
}

/// The longest beginning of a text that takes at most `limit` bytes.
pub fn prefix_within(text: &str, limit: usize) -> (r: String)
    ensures
        is_longest_prefix_within(text@, r@, limit as nat),
{
    let chars: Vec<char> = characters(text);
    let mut end: usize = 0;
    let mut used: usize = 0;
    assert(text@.take(0) =~= Seq::<char>::empty());
    while end < chars.len()
        invariant
            end <= chars.len(),
            chars@ == text@,
            used == byte_length(text@.take(end as int)),
            used <= limit,
        decreases chars.len() - end,
    {
        let c: char = chars[end];
        let width: usize = if c <= '\u{7f}' {
            1
        } else if c <= '\u{7ff}' {
            2
        } else if c <= '\u{ffff}' {
            3
        } else {
            4
        };
        proof {
            lemma_byte_length_push(text@.take(end as int), c);
            assert(text@.take(end + 1) =~= text@.take(end as int).push(c));
        }
        proof {
            lemma_char_bytes(c);
        }
        if width > limit - used {
            let part: String = text.substring_char(0, end).to_owned();
            assert(part@ =~= text@.take(end as int));
            return part;
        }
        used = used + width;
        end = end + 1;
    }
    assert(text@.take(end as int) =~= text@);
    text.to_owned()
}

/// The longest beginning of a text within a limit is fixed.
pub proof fn law_longest_prefix_is_unique(text: Seq<char>, a: Seq<char>, b: Seq<char>, limit: nat)
    requires
        is_longest_prefix_within(text, a, limit),
        is_longest_prefix_within(text, b, limit),
    ensures
        a == b,
{
    if a.len() < b.len() {
        lemma_take_bytes(text, (a.len() + 1) as int, b.len() as int);
    } else if b.len() < a.len() {
        lemma_take_bytes(text, (b.len() + 1) as int, a.len() as int);
    }
}

proof fn lemma_take_bytes(text: Seq<char>, i: int, j: int)
    requires
        0 <= i <= j <= text.len(),
    ensures
        byte_length(text.take(i)) <= byte_length(text.take(j)),
    decreases j - i,
{
    if i < j {
        lemma_take_bytes(text, i, j - 1);
        lemma_byte_length_push(text.take(j - 1), text[j - 1]);
        assert(text.take(j) =~= text.take(j - 1).push(text[j - 1]));
    }
}

/// The lower-case form of an ASCII letter; any other character as it is.
pub open spec fn ascii_lower(c: char) -> char {
    if 'A' <= c && c <= 'Z' {
        ((c as u32) + 32) as char
    } else {
        c
    }
}

/// The texts are equal but for the case of ASCII letters.
pub open spec fn equal_ignoring_case(a: Seq<char>, b: Seq<char>) -> bool {
    &&& a.len() == b.len()
    &&& forall|i: int| 0 <= i < a.len() ==> ascii_lower(#[trigger] a[i]) == ascii_lower(b[i])
}

fn lower(c: char) -> (r: char)
    ensures
        r == ascii_lower(c),
{
    if 'A' <= c && c <= 'Z' {
        (((c as u32) + 32) as u8) as char
    } else {
        c
    }
}

/// The texts are equal but for the case of ASCII letters.
pub fn same_ignoring_case(a: &str, b: &str) -> (r: bool)
    ensures
        r == equal_ignoring_case(a@, b@),
{
    let left: Vec<char> = characters(a);
    let right: Vec<char> = characters(b);
    if left.len() != right.len() {
        return false;
    }
    let mut i: usize = 0;
    while i < left.len()
        invariant
            i <= left.len() == right.len(),
            left@ == a@,
            right@ == b@,
            forall|j: int| 0 <= j < i ==> ascii_lower(#[trigger] a@[j]) == ascii_lower(b@[j]),
        decreases left.len() - i,
    {
        if lower(left[i]) != lower(right[i]) {
            assert(ascii_lower(a@[i as int]) != ascii_lower(b@[i as int]));
            return false;
        }
        i = i + 1;
    }
    true
}

/// Two texts one after the other.
pub fn joined(a: &str, b: &str) -> (r: String)
    ensures
        r@ == a@ + b@,
{
    let mut out: String = a.to_owned();
    out.append(b);
    out
}

/// The first text comes before the second in the order of their characters.
pub open spec fn text_before(a: Seq<char>, b: Seq<char>) -> bool
    decreases a.len(),
{
    if b.len() == 0 {
        false
    } else if a.len() == 0 {
        true
    } else if a[0] != b[0] {
        (a[0] as u32) < (b[0] as u32)
    } else {
        text_before(a.skip(1), b.skip(1))
    }
}

/// No text comes before itself.
pub proof fn lemma_text_not_before_itself(a: Seq<char>)
    ensures
        !text_before(a, a),
    decreases a.len(),
{
    if a.len() > 0 {
        lemma_text_not_before_itself(a.skip(1));
    }
}

/// Characters with the same code are the same character.
proof fn lemma_code_tells_characters_apart(x: char, y: char)
    ensures
        x as u32 == y as u32 ==> x == y,
{
}

/// Of two different texts one comes before the other.
pub proof fn lemma_text_order_is_total(a: Seq<char>, b: Seq<char>)
    requires
        !text_before(a, b),
        !text_before(b, a),
    ensures
        a == b,
    decreases a.len(),
{
    if a.len() > 0 && b.len() > 0 {
        let (x, y): (char, char) = (a[0], b[0]);
        lemma_code_tells_characters_apart(x, y);
        lemma_text_order_is_total(a.skip(1), b.skip(1));
        assert(a =~= seq![a[0]] + a.skip(1));
        assert(b =~= seq![b[0]] + b.skip(1));
    } else {
        assert(a =~= b);
    }
}

/// Of two texts at most one comes before the other.
pub proof fn lemma_text_order_is_asymmetric(a: Seq<char>, b: Seq<char>)
    ensures
        !(text_before(a, b) && text_before(b, a)),
    decreases a.len(),
{
    if a.len() > 0 && b.len() > 0 {
        lemma_text_order_is_asymmetric(a.skip(1), b.skip(1));
    }
}

/// What does not come before a text that does not come before a third one does
/// not come before the third.
pub proof fn lemma_text_not_before_transitive(a: Seq<char>, b: Seq<char>, c: Seq<char>)
    requires
        !text_before(a, b),
        !text_before(b, c),
    ensures
        !text_before(a, c),
    decreases a.len(),
{
    if a.len() > 0 && b.len() > 0 && c.len() > 0 {
        let (x, y, z): (char, char, char) = (a[0], b[0], c[0]);
        lemma_code_tells_characters_apart(x, y);
        lemma_code_tells_characters_apart(y, z);
        if x == y && y == z {
            lemma_text_not_before_transitive(a.skip(1), b.skip(1), c.skip(1));
        }
    }
}

/// The first text comes before the second in the order of their characters.
pub fn is_text_before(a: &str, b: &str) -> (r: bool)
    ensures
        r == text_before(a@, b@),
{
    let first: Vec<char> = characters(a);
    let second: Vec<char> = characters(b);
    let mut i: usize = 0;
    assert(a@.skip(0) =~= a@);
    assert(b@.skip(0) =~= b@);
    while i < first.len() && i < second.len()
        invariant
            first@ == a@,
            second@ == b@,
            i <= first.len(),
            i <= second.len(),
            text_before(a@, b@) == text_before(a@.skip(i as int), b@.skip(i as int)),
        decreases first.len() - i,
    {
        assert(a@.skip(i as int)[0] == a@[i as int]);
        assert(b@.skip(i as int)[0] == b@[i as int]);
        assert(a@.skip(i as int).skip(1) =~= a@.skip(i + 1));
        assert(b@.skip(i as int).skip(1) =~= b@.skip(i + 1));
        if first[i] != second[i] {
            return (first[i] as u32) < (second[i] as u32);
        }
        i = i + 1;
    }
    i < second.len()
}

} // verus!
