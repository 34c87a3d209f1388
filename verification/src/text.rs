//! Character-level helpers shared by the text parsers and formatters.
//!
//! Parsers work on the `Seq<char>` view of a `&str`; formatters build a
//! `String` one character at a time so that every result has an exact
//! character-sequence specification.
use vstd::prelude::*;
use vstd::utf8::*;

verus! {

/// The Unicode `White_Space` property, which `char::is_whitespace` and
/// `str::trim` use.
pub open spec fn is_whitespace(c: char) -> bool {
    ||| '\u{9}' <= c <= '\u{d}'
    ||| c == ' '
    ||| c == '\u{85}'
    ||| c == '\u{a0}'
    ||| c == '\u{1680}'
    ||| '\u{2000}' <= c <= '\u{200a}'
    ||| c == '\u{2028}'
    ||| c == '\u{2029}'
    ||| c == '\u{202f}'
    ||| c == '\u{205f}'
    ||| c == '\u{3000}'
}

/// `s` with leading whitespace removed.
pub open spec fn trim_start(s: Seq<char>) -> Seq<char>
    decreases s.len(),
{
    if s.len() > 0 && is_whitespace(s[0]) {
        trim_start(s.drop_first())
    } else {
        s
    }
}

/// `s` with trailing whitespace removed.
pub open spec fn trim_end(s: Seq<char>) -> Seq<char>
    decreases s.len(),
{
    if s.len() > 0 && is_whitespace(s.last()) {
        trim_end(s.drop_last())
    } else {
        s
    }
}

/// `s` with whitespace removed at both ends, as `str::trim` does.
pub open spec fn trim(s: Seq<char>) -> Seq<char> {
    trim_end(trim_start(s))
}

pub open spec fn is_ascii_digit(c: char) -> bool {
    '0' <= c <= '9'
}

pub open spec fn digit_value(c: char) -> int {
    c as int - '0' as int
}

/// True when every character of `s` is an ASCII digit.
pub open spec fn all_digits(s: Seq<char>) -> bool {
    forall|i: int| 0 <= i < s.len() ==> is_ascii_digit(#[trigger] s[i])
}

/// The base-10 value of a string of digits, most significant first.
pub open spec fn decimal_value(s: Seq<char>) -> nat
    decreases s.len(),
{
    if s.len() == 0 {
        0
    } else {
        (decimal_value(s.drop_last()) * 10 + digit_value(s.last())) as nat
    }
}

/// What `str::parse` gives for an unsigned integer type whose largest value
/// is `max`: an optional leading `+`, then at least one ASCII digit, with a
/// value that fits the type.
pub open spec fn parse_unsigned(s: Seq<char>, max: int) -> Option<nat> {
    let digits = if s.len() > 0 && s[0] == '+' {
        s.drop_first()
    } else {
        s
    };
    if digits.len() > 0 && all_digits(digits) && decimal_value(digits) <= max {
        Some(decimal_value(digits))
    } else {
        None
    }
}

/// The decimal digits of `n` with no leading zero, as `Display` prints it.
pub open spec fn decimal_chars(n: nat) -> Seq<char>
    decreases n,
{
    if n < 10 {
        seq![digit_char(n)]
    } else {
        decimal_chars(n / 10).push(digit_char(n % 10))
    }
}

pub open spec fn digit_char(n: nat) -> char {
    ((n % 10) + '0' as nat) as char
}

/// Upper-case hexadecimal digit for a value below 16.
pub open spec fn hex_upper(n: int) -> char {
    if n < 10 {
        (n + '0' as int) as char
    } else {
        (n - 10 + 'A' as int) as char
    }
}

/// Lower-case hexadecimal digit for a value below 16.
pub open spec fn hex_lower(n: int) -> char {
    if n < 10 {
        (n + '0' as int) as char
    } else {
        (n - 10 + 'a' as int) as char
    }
}

/// A byte as two upper-case hexadecimal digits (`{:02X}`).
pub open spec fn byte_hex_upper(b: u8) -> Seq<char> {
    seq![hex_upper(b as int / 16), hex_upper(b as int % 16)]
}

/// A byte as two lower-case hexadecimal digits (`{:02x}`).
pub open spec fn byte_hex_lower(b: u8) -> Seq<char> {
    seq![hex_lower(b as int / 16), hex_lower(b as int % 16)]
}

/// A 16-bit value as four upper-case hexadecimal digits (`{:04X}`).
pub open spec fn u16_hex_upper(v: u16) -> Seq<char> {
    byte_hex_upper((v / 256) as u8) + byte_hex_upper((v % 256) as u8)
}

/// Collect the characters of a string slice.
pub fn str_chars(s: &str) -> (out: Vec<char>)
    ensures
        out@ == s@,
{
    let mut out: Vec<char> = Vec::new();
    for c in it: s.chars()
        invariant
            it.seq() == s@,
            out@ == it.seq().take(it.index() as int),
    {
        out.push(c);
    }
    out
}

/// `String::push`: append one character.
#[verifier::external_body]
pub(crate) fn string_push(s: &mut String, c: char)
    ensures
        final(s)@ == old(s)@.push(c),
{
    s.push(c);
}

/// Append a string slice.
pub(crate) fn string_push_str(s: &mut String, tail: &str)
    ensures
        final(s)@ == old(s)@ + tail@,
{
    s.append(tail);
}

/// `String::from_utf8`: the decoded text when `bytes` is valid UTF-8.
#[verifier::external_body]
pub(crate) fn string_from_utf8(bytes: Vec<u8>) -> (res: Option<String>)
    ensures
        res is Some <==> valid_utf8(bytes@),
        res matches Some(s) ==> s@ == decode_utf8(bytes@),
{
    String::from_utf8(bytes).ok()
}

/// Append a sequence of characters to a string.
pub fn push_chars(s: &mut String, chars: &[char])
    ensures
        final(s)@ == old(s)@ + chars@,
{
    let ghost start = s@;
    let mut i: usize = 0;
    while i < chars.len()
        invariant
            i <= chars@.len(),
            s@ == start + chars@.take(i as int),
        decreases chars.len() - i,
    {
        string_push(s, chars[i]);
        i += 1;
        assert(chars@.take(i as int) == chars@.take((i - 1) as int).push(chars@[i - 1]));
    }
    assert(chars@.take(i as int) == chars@);
}

/// Build a string from a sequence of characters.
pub fn string_from_chars(chars: &[char]) -> (s: String)
    ensures
        s@ == chars@,
{
    let mut s = String::new();
    push_chars(&mut s, chars);
    s
}

/// True exactly when the characters equal the characters of `lit`.
pub fn chars_eq_str(chars: &[char], lit: &str) -> (eq: bool)
    ensures
        eq == (chars@ == lit@),
{
    let other = str_chars(lit);
    if chars.len() != other.len() {
        return false;
    }
    let mut i: usize = 0;
    while i < chars.len()
        invariant
            chars@.len() == other@.len(),
            other@ == lit@,
            i <= chars@.len(),
            forall|j: int| 0 <= j < i ==> chars@[j] == other@[j],
        decreases chars.len() - i,
    {
        if chars[i] != other[i] {
            return false;
        }
        i += 1;
    }
    assert(chars@ =~= other@);
    true
}

/// The characters `chars[start..end]`.
pub fn sub_chars(chars: &[char], start: usize, end: usize) -> (out: Vec<char>)
    requires
        start <= end <= chars@.len(),
    ensures
        out@ == chars@.subrange(start as int, end as int),
{
    let mut out: Vec<char> = Vec::new();
    let mut i = start;
    while i < end
        invariant
            start <= i <= end <= chars@.len(),
            out@ == chars@.subrange(start as int, i as int),
        decreases end - i,
    {
        out.push(chars[i]);
        i += 1;
        assert(out@ =~= chars@.subrange(start as int, i as int));
    }
    out
}

proof fn lemma_trim_start_suffix(s: Seq<char>)
    ensures
        exists|k: int| 0 <= k <= s.len() && trim_start(s) == s.subrange(k, s.len() as int),
        trim_start(s).len() > 0 ==> !is_whitespace(trim_start(s)[0]),
    decreases s.len(),
{
    if s.len() > 0 && is_whitespace(s[0]) {
        lemma_trim_start_suffix(s.drop_first());
        let k = choose|k: int|
            0 <= k <= s.drop_first().len() && trim_start(s.drop_first())
                == s.drop_first().subrange(k, s.drop_first().len() as int);
        assert(s.drop_first().subrange(k, s.drop_first().len() as int) =~= s.subrange(
            k + 1,
            s.len() as int,
        ));
    } else {
        assert(s.subrange(0, s.len() as int) =~= s);
    }
}

/// Index of the first character of `chars[from..]` that is not whitespace.
fn skip_leading_whitespace(chars: &[char], from: usize) -> (k: usize)
    requires
        from <= chars@.len(),
    ensures
        from <= k <= chars@.len(),
        trim_start(chars@.subrange(from as int, chars@.len() as int)) == chars@.subrange(
            k as int,
            chars@.len() as int,
        ),
{
    let mut k = from;
    while k < chars.len() && is_whitespace_char(chars[k])
        invariant
            from <= k <= chars@.len(),
            trim_start(chars@.subrange(from as int, chars@.len() as int)) == trim_start(
                chars@.subrange(k as int, chars@.len() as int),
            ),
        decreases chars.len() - k,
    {
        assert(chars@.subrange(k as int, chars@.len() as int).drop_first() =~= chars@.subrange(
            k + 1,
            chars@.len() as int,
        ));
        k += 1;
    }
    k
}

/// `char::is_whitespace`.
pub fn is_whitespace_char(c: char) -> (ws: bool)
    ensures
        ws == is_whitespace(c),
{
    ('\u{9}' <= c && c <= '\u{d}') || c == ' ' || c == '\u{85}' || c == '\u{a0}' || c
        == '\u{1680}' || ('\u{2000}' <= c && c <= '\u{200a}') || c == '\u{2028}' || c
        == '\u{2029}' || c == '\u{202f}' || c == '\u{205f}' || c == '\u{3000}'
}

/// `chars[start..end]` without its trailing whitespace, as an end index.
fn trailing_whitespace_start(chars: &[char], start: usize, end: usize) -> (e: usize)
    requires
        start <= end <= chars@.len(),
    ensures
        start <= e <= end,
        trim_end(chars@.subrange(start as int, end as int)) == chars@.subrange(
            start as int,
            e as int,
        ),
{
    let mut e = end;
    while e > start && is_whitespace_char(chars[e - 1])
        invariant
            start <= e <= end <= chars@.len(),
            trim_end(chars@.subrange(start as int, end as int)) == trim_end(
                chars@.subrange(start as int, e as int),
            ),
        decreases e - start,
    {
        assert(chars@.subrange(start as int, e as int).drop_last() =~= chars@.subrange(
            start as int,
            e - 1,
        ));
        e -= 1;
    }
    e
}

/// The characters of `chars[start..end]` with surrounding whitespace removed.
pub fn trim_range(chars: &[char], start: usize, end: usize) -> (out: Vec<char>)
    requires
        start <= end <= chars@.len(),
    ensures
        out@ == trim(chars@.subrange(start as int, end as int)),
{
    let part = sub_chars(chars, start, end);
    let k = skip_leading_whitespace(&part, 0);
    assert(part@.subrange(0, part@.len() as int) =~= part@);
    let e = trailing_whitespace_start(&part, k, part.len());
    sub_chars(&part, k, e)
}

proof fn lemma_decimal_value_monotone(s: Seq<char>)
    requires
        s.len() > 0,
        all_digits(s),
    ensures
        decimal_value(s.drop_last()) <= decimal_value(s),
{
}

proof fn lemma_decimal_prefix(s: Seq<char>, i: int)
    requires
        0 <= i < s.len(),
    ensures
        s.take(i + 1).drop_last() == s.take(i),
        s.take(i + 1).last() == s[i],
{
    assert(s.take(i + 1).drop_last() =~= s.take(i));
}

proof fn lemma_decimal_value_prefix_bound(s: Seq<char>, i: int)
    requires
        0 <= i <= s.len(),
        all_digits(s),
    ensures
        decimal_value(s.take(i)) <= decimal_value(s),
    decreases s.len() - i,
{
    if i < s.len() {
        lemma_decimal_value_prefix_bound(s, i + 1);
        lemma_decimal_prefix(s, i);
        assert(all_digits(s.take(i + 1)));
        lemma_decimal_value_monotone(s.take(i + 1));
    } else {
        assert(s.take(i) =~= s);
    }
}

/// `str::parse` for an unsigned integer type whose largest value is `max`,
/// applied to `chars[start..end]`.
pub fn parse_unsigned_range(chars: &[char], start: usize, end: usize, max: u64) -> (res: Option<
    u64,
>)
    requires
        start <= end <= chars@.len(),
    ensures
        res matches Some(v) ==> parse_unsigned(chars@.subrange(start as int, end as int), max as int)
            == Some(v as nat),
        res is None ==> parse_unsigned(chars@.subrange(start as int, end as int), max as int)
            is None,
{
    let ghost s = chars@.subrange(start as int, end as int);
    let mut i = start;
    if i < end && chars[i] == '+' {
        i += 1;
    }
    let ghost digits = chars@.subrange(i as int, end as int);
    assert(digits =~= (if s.len() > 0 && s[0] == '+' {
        s.drop_first()
    } else {
        s
    }));
    if i == end {
        return None;
    }
    let first = i;
    let mut value: u64 = 0;
    while i < end
        invariant
            start <= first <= i <= end <= chars@.len(),
            digits == chars@.subrange(first as int, end as int),
            s == chars@.subrange(start as int, end as int),
            digits == (if s.len() > 0 && s[0] == '+' {
                s.drop_first()
            } else {
                s
            }),
            digits.len() > 0,
            all_digits(digits.take(i - first)),
            value as nat == decimal_value(digits.take(i - first)),
            value <= max,
        decreases end - i,
    {
        let c = chars[i];
        proof {
            lemma_decimal_prefix(digits, i - first);
        }
        if !('0' <= c && c <= '9') {
            assert(digits[i - first] == c);
            assert(!all_digits(digits));
            return None;
        }
        let d = (c as u32 - '0' as u32) as u64;
        if d > max || value > (max - d) / 10 {
            proof {
                assert(decimal_value(digits.take(i - first + 1)) > max) by (nonlinear_arith)
                    requires
                        decimal_value(digits.take(i - first + 1)) == value * 10 + d,
                        d > max || value > (max - d) / 10,
                        d <= 9,
                        d <= max || value * 10 + d > max,
                ;
                if all_digits(digits) {
                    assert(all_digits(digits.take(i - first + 1)));
                    lemma_decimal_value_prefix_bound(digits, i - first + 1);
                }
            }
            return None;
        }
        proof {
            assert(value * 10 + d <= max) by (nonlinear_arith)
                requires
                    value <= (max - d) / 10,
                    d <= max,
            ;
        }
        value = value * 10 + d;
        i += 1;
        proof {
            assert(all_digits(digits.take(i - first)));
        }
    }
    assert(digits.take(i - first) =~= digits);
    Some(value)
}

proof fn lemma_decimal_chars_len(n: nat)
    ensures
        decimal_chars(n).len() >= 1,
    decreases n,
{
    if n >= 10 {
        lemma_decimal_chars_len(n / 10);
    }
}

/// Append the decimal digits of `n`, as `Display` prints an integer.
pub fn push_decimal(s: &mut String, n: u64)
    ensures
        final(s)@ == old(s)@ + decimal_chars(n as nat),
    decreases n,
{
    if n >= 10 {
        push_decimal(s, n / 10);
    }
    let d = (n % 10) as u8;
    let c = (48u8 + d) as char;
    string_push(s, c);
    proof {
        if n >= 10 {
            assert(decimal_chars(n as nat) == decimal_chars((n / 10) as nat).push(
                digit_char((n % 10) as nat),
            ));
        }
    }
}

/// The decimal text of `n`.
pub fn decimal_string(n: u64) -> (s: String)
    ensures
        s@ == decimal_chars(n as nat),
{
    let mut s = String::new();
    push_decimal(&mut s, n);
    s
}

/// Upper-case hexadecimal digit.
pub fn hex_upper_char(n: u8) -> (c: char)
    requires
        n < 16,
    ensures
        c == hex_upper(n as int),
{
    if n < 10 {
        (48u8 + n) as char
    } else {
        (65u8 + n - 10) as char
    }
}

/// Lower-case hexadecimal digit.
pub fn hex_lower_char(n: u8) -> (c: char)
    requires
        n < 16,
    ensures
        c == hex_lower(n as int),
{
    if n < 10 {
        (48u8 + n) as char
    } else {
        (97u8 + n - 10) as char
    }
}

/// Append a byte as two upper-case hexadecimal digits.
pub fn push_byte_hex_upper(s: &mut String, b: u8)
    ensures
        final(s)@ == old(s)@ + byte_hex_upper(b),
{
    string_push(s, hex_upper_char(b / 16));
    string_push(s, hex_upper_char(b % 16));
}

/// Append a byte as two lower-case hexadecimal digits.
pub fn push_byte_hex_lower(s: &mut String, b: u8)
    ensures
        final(s)@ == old(s)@ + byte_hex_lower(b),
{
    string_push(s, hex_lower_char(b / 16));
    string_push(s, hex_lower_char(b % 16));
}

/// Append a 16-bit value as four upper-case hexadecimal digits.
pub fn push_u16_hex_upper(s: &mut String, v: u16)
    ensures
        final(s)@ == old(s)@ + u16_hex_upper(v),
{
    push_byte_hex_upper(s, (v / 256) as u8);
    push_byte_hex_upper(s, (v % 256) as u8);
}

pub open spec fn is_hex_digit(c: char) -> bool {
    ||| '0' <= c <= '9'
    ||| 'a' <= c <= 'f'
    ||| 'A' <= c <= 'F'
}

pub open spec fn hex_value(c: char) -> int {
    if '0' <= c <= '9' {
        c as int - '0' as int
    } else if 'a' <= c <= 'f' {
        c as int - 'a' as int + 10
    } else {
        c as int - 'A' as int + 10
    }
}

/// Value of a hexadecimal digit, if it is one.
pub fn hex_digit_value(c: char) -> (v: Option<u8>)
    ensures
        v is Some <==> is_hex_digit(c),
        v matches Some(d) ==> d == hex_value(c) && d < 16,
{
    if '0' <= c && c <= '9' {
        Some((c as u32 - '0' as u32) as u8)
    } else if 'a' <= c && c <= 'f' {
        Some((c as u32 - 'a' as u32 + 10) as u8)
    } else if 'A' <= c && c <= 'F' {
        Some((c as u32 - 'A' as u32 + 10) as u8)
    } else {
        None
    }
}

pub open spec fn ascii_upper(c: char) -> char {
    if 'a' <= c <= 'z' {
        (c as int - 32) as char
    } else {
        c
    }
}

pub open spec fn ascii_lower(c: char) -> char {
    if 'A' <= c <= 'Z' {
        (c as int + 32) as char
    } else {
        c
    }
}

/// `char::to_ascii_uppercase`.
pub fn ascii_upper_char(c: char) -> (u: char)
    ensures
        u == ascii_upper(c),
{
    if 'a' <= c && c <= 'z' {
        ((c as u32 - 32) as u8) as char
    } else {
        c
    }
}

/// `char::to_ascii_lowercase`.
pub fn ascii_lower_char(c: char) -> (l: char)
    ensures
        l == ascii_lower(c),
{
    if 'A' <= c && c <= 'Z' {
        ((c as u32 + 32) as u8) as char
    } else {
        c
    }
}

/// The upper-case hexadecimal digits of `n` with no leading zero.
pub open spec fn hex_digits_upper(n: nat) -> Seq<char>
    decreases n,
{
    if n < 16 {
        seq![hex_upper(n as int)]
    } else {
        hex_digits_upper(n / 16).push(hex_upper((n % 16) as int))
    }
}

/// `{:0w$X}`: upper-case hexadecimal, zero-padded on the left to at least
/// `width` digits.
pub open spec fn hex_upper_padded(n: nat, width: nat) -> Seq<char> {
    let digits = hex_digits_upper(n);
    if digits.len() >= width {
        digits
    } else {
        Seq::new((width - digits.len()) as nat, |i: int| '0') + digits
    }
}

fn hex_digit_chars(n: u64) -> (digits: Vec<char>)
    ensures
        digits@ == hex_digits_upper(n as nat),
    decreases n,
{
    if n < 16 {
        let mut v: Vec<char> = Vec::new();
        v.push(hex_upper_char(n as u8));
        v
    } else {
        let mut v = hex_digit_chars(n / 16);
        v.push(hex_upper_char((n % 16) as u8));
        v
    }
}

/// Append `n` as upper-case hexadecimal zero-padded to `width` digits.
pub fn push_hex_upper_padded(s: &mut String, n: u64, width: usize)
    ensures
        final(s)@ == old(s)@ + hex_upper_padded(n as nat, width as nat),
{
    let digits = hex_digit_chars(n);
    let ghost start = s@;
    let mut k: usize = digits.len();
    while k < width
        invariant
            digits.len() <= k,
            k <= width || k == digits.len(),
            s@ == start + Seq::new((k - digits.len()) as nat, |i: int| '0'),
        decreases width - k,
    {
        let ghost prev = s@;
        string_push(s, '0');
        assert(Seq::new((k + 1 - digits.len()) as nat, |i: int| '0') =~= Seq::new((k - digits.len()) as nat, |i: int| '0').push('0'));
        k += 1;
    }
    let ghost zeros = Seq::new((k - digits.len()) as nat, |i: int| '0');
    push_chars(s, digits.as_slice());
    if digits.len() >= width {
        assert(zeros =~= Seq::<char>::empty());
        assert(s@ =~= start + digits@);
    } else {
        assert(k == width);
        assert(s@ =~= start + (zeros + digits@));
    }
}

} // verus!
