//! Text captures of raw reports: one report per line, and the byte-level
//! differences between two captures.
use vstd::prelude::*;
use crate::color::radix16_pair;
use crate::text::{ascii_upper, is_whitespace, is_whitespace_char, str_chars, string_from_chars};
use crate::wire::Direction;

verus! {

#[derive(Clone, Debug, PartialEq, Eq)]
pub struct CapturedReport {
    pub direction: Option<Direction>,
    pub bytes: Vec<u8>,
}

#[derive(Clone, Copy, Debug, PartialEq, Eq, Structural)]
pub struct ByteChange {
    pub offset: usize,
    pub before: Option<u8>,
    pub after: Option<u8>,
}

#[derive(Clone, Debug, PartialEq, Eq)]
pub struct ReportDiff {
    pub index: usize,
    pub before_direction: Option<Direction>,
    pub after_direction: Option<Direction>,
    pub before_len: usize,
    pub after_len: usize,
    pub changes: Vec<ByteChange>,
}

#[derive(Clone, Debug, PartialEq, Eq)]
pub enum CaptureParseError {
    EmptyReport { line: usize },
    InvalidByte { line: usize, token: String },
}

/// Length of the longest prefix of `s` without the character `c`.
pub open spec fn run_until(s: Seq<char>, c: char) -> nat
    decreases s.len(),
{
    if s.len() == 0 || s[0] == c {
        0
    } else {
        1 + run_until(s.drop_first(), c)
    }
}

/// Length of the longest prefix of `s` without whitespace.
pub open spec fn run_non_whitespace(s: Seq<char>) -> nat
    decreases s.len(),
{
    if s.len() == 0 || is_whitespace(s[0]) {
        0
    } else {
        1 + run_non_whitespace(s.drop_first())
    }
}

/// The lines of a text, as `str::lines` splits it at `\n`; a carriage
/// return before the newline stays in the line, where the whitespace
/// splitting below drops it.
pub open spec fn lines_of(s: Seq<char>) -> Seq<Seq<char>>
    decreases s.len(),
{
    if s.len() == 0 {
        seq![]
    } else {
        let n = run_until(s, '\n');
        if n < s.len() {
            seq![s.take(n as int)] + lines_of(s.skip(n as int + 1))
        } else {
            seq![s]
        }
    }
}

/// A run of non-blank characters lies within its text, and is not empty
/// when the text starts with a non-blank character.
pub proof fn lemma_run_non_whitespace_bound(s: Seq<char>)
    ensures
        run_non_whitespace(s) <= s.len(),
        s.len() > 0 && !is_whitespace(s[0]) ==> run_non_whitespace(s) >= 1,
    decreases s.len(),
{
    if s.len() > 0 && !is_whitespace(s[0]) {
        lemma_run_non_whitespace_bound(s.drop_first());
    }
}

proof fn lemma_run_until_bound(s: Seq<char>, c: char)
    ensures
        run_until(s, c) <= s.len(),
        run_until(s, c) < s.len() ==> s[run_until(s, c) as int] == c,
    decreases s.len(),
{
    if s.len() > 0 && s[0] != c {
        lemma_run_until_bound(s.drop_first(), c);
    }
}

/// The whitespace-separated words of `s`.
pub open spec fn tokens_of(s: Seq<char>) -> Seq<Seq<char>>
    decreases s.len(),
{
    if s.len() == 0 {
        seq![]
    } else if is_whitespace(s[0]) {
        tokens_of(s.drop_first())
    } else {
        proof {
            lemma_run_non_whitespace_bound(s);
        }
        let n = run_non_whitespace(s);
        seq![s.take(n as int)] + tokens_of(s.skip(n as int))
    }
}

/// A line without its `#` comment.
pub open spec fn strip_comment(line: Seq<char>) -> Seq<char> {
    line.take(run_until(line, '#') as int)
}

/// The direction named by a first word, compared without ASCII case.
pub open spec fn direction_word(word: Seq<char>) -> Option<Direction> {
    if word.len() == 2 && ascii_upper(word[0]) == 'T' && ascii_upper(word[1]) == 'X' {
        Some(Direction::Tx)
    } else if word.len() == 2 && ascii_upper(word[0]) == 'R' && ascii_upper(word[1]) == 'X' {
        Some(Direction::Rx)
    } else {
        None
    }
}

/// A byte word without an optional `0x` or `0X` prefix.
pub open spec fn strip_hex_prefix(word: Seq<char>) -> Seq<char> {
    if word.len() >= 2 && word[0] == '0' && (word[1] == 'x' || word[1] == 'X') {
        word.skip(2)
    } else {
        word
    }
}

/// The byte a word denotes: two hexadecimal digits after an optional
/// `0x`, read as `u8::from_str_radix` reads two ASCII bytes.
pub open spec fn word_byte(word: Seq<char>) -> Option<u8> {
    let hex = strip_hex_prefix(word);
    if hex.len() == 2 && (hex[0] as u32) < 128 && (hex[1] as u32) < 128 {
        radix16_pair(hex[0] as u8, hex[1] as u8)
    } else {
        None
    }
}

/// The error of a capture, with its token as characters.
pub enum CaptureErrorView {
    EmptyReport { line: usize },
    InvalidByte { line: usize, token: Seq<char> },
}

pub open spec fn capture_error_view(e: CaptureParseError) -> CaptureErrorView {
    match e {
        CaptureParseError::EmptyReport { line } => CaptureErrorView::EmptyReport { line },
        CaptureParseError::InvalidByte { line, token } => CaptureErrorView::InvalidByte { line, token: token@ },
    }
}

/// Bytes of words `k..` appended to `acc`, or the first word that is not a
/// byte.
pub open spec fn words_bytes(words: Seq<Seq<char>>, k: nat, acc: Seq<u8>) -> Result<Seq<u8>, Seq<char>>
    decreases words.len() - k,
{
    if k >= words.len() {
        Ok(acc)
    } else {
        match word_byte(words[k as int]) {
            None => Err(words[k as int]),
            Some(b) => words_bytes(words, k + 1, acc.push(b)),
        }
    }
}

/// What one line contributes: nothing, a report, or an error.
pub enum LineOutcome {
    Skip,
    Report(Option<Direction>, Seq<u8>),
    Fail(CaptureErrorView),
}

pub open spec fn line_outcome(line: Seq<char>, number: usize) -> LineOutcome {
    words_outcome(tokens_of(strip_comment(line)), number)
}

/// What a line with these words contributes.
pub open spec fn words_outcome(words: Seq<Seq<char>>, number: usize) -> LineOutcome {
    if words.len() == 0 {
        LineOutcome::Skip
    } else {
        let direction = direction_word(words[0]);
        let byte_words = if direction is Some {
            words.skip(1)
        } else {
            words
        };
        match words_bytes(byte_words, 0, seq![]) {
            Err(token) => LineOutcome::Fail(CaptureErrorView::InvalidByte { line: number, token }),
            Ok(bytes) => if bytes.len() == 0 {
                LineOutcome::Fail(CaptureErrorView::EmptyReport { line: number })
            } else {
                LineOutcome::Report(direction, bytes)
            },
        }
    }
}

/// Reports of lines `k..` (numbered from one) appended to `acc`.
pub open spec fn capture_from(
    lines: Seq<Seq<char>>,
    k: nat,
    acc: Seq<(Option<Direction>, Seq<u8>)>,
) -> Result<Seq<(Option<Direction>, Seq<u8>)>, CaptureErrorView>
    decreases lines.len() - k,
{
    if k >= lines.len() {
        Ok(acc)
    } else {
        match line_outcome(lines[k as int], (k + 1) as usize) {
            LineOutcome::Skip => capture_from(lines, k + 1, acc),
            LineOutcome::Report(d, b) => capture_from(lines, k + 1, acc.push((d, b))),
            LineOutcome::Fail(e) => Err(e),
        }
    }
}

pub open spec fn report_view(r: CapturedReport) -> (Option<Direction>, Seq<u8>) {
    (r.direction, r.bytes@)
}

proof fn lemma_run_until_skip(s: Seq<char>, c: char, i: int)
    requires
        0 <= i < s.len(),
        s[i] != c,
    ensures
        run_until(s.skip(i), c) == 1 + run_until(s.skip(i + 1), c),
{
    assert(s.skip(i).drop_first() =~= s.skip(i + 1));
}

proof fn lemma_run_non_whitespace_skip(s: Seq<char>, i: int)
    requires
        0 <= i < s.len(),
        !is_whitespace(s[i]),
    ensures
        run_non_whitespace(s.skip(i)) == 1 + run_non_whitespace(s.skip(i + 1)),
{
    assert(s.skip(i).drop_first() =~= s.skip(i + 1));
}

/// First index at or after `from` holding `c`, or the end.
fn find_char(s: &[char], from: usize, c: char) -> (k: usize)
    requires
        from <= s@.len(),
    ensures
        from <= k <= s@.len(),
        run_until(s@.skip(from as int), c) == k - from,
        k < s@.len() ==> s@[k as int] == c,
{
    let mut k = from;
    while k < s.len() && s[k] != c
        invariant
            from <= k <= s@.len(),
            run_until(s@.skip(from as int), c) == (k - from) + run_until(s@.skip(k as int), c),
        decreases s.len() - k,
    {
        proof {
            lemma_run_until_skip(s@, c, k as int);
        }
        k += 1;
    }
    proof {
        if k < s@.len() {
            assert(s@.skip(k as int)[0] == c);
        } else {
            assert(s@.skip(k as int).len() == 0);
        }
    }
    k
}

/// The words of `s[start..end]`.
fn split_words(s: &[char], start: usize, end: usize) -> (words: Vec<Vec<char>>)
    requires
        start <= end <= s@.len(),
    ensures
        words@.map_values(|w: Vec<char>| w@) == tokens_of(s@.subrange(start as int, end as int)),
{
    let ghost line = s@.subrange(start as int, end as int);
    let mut words: Vec<Vec<char>> = Vec::new();
    let mut i = start;
    while i < end
        invariant
            start <= i <= end <= s@.len(),
            line == s@.subrange(start as int, end as int),
            tokens_of(line) == words@.map_values(|w: Vec<char>| w@) + tokens_of(
                s@.subrange(i as int, end as int),
            ),
        decreases end - i,
    {
        let ghost rest = s@.subrange(i as int, end as int);
        if is_whitespace_char(s[i]) {
            assert(rest.drop_first() =~= s@.subrange(i + 1, end as int));
            i += 1;
        } else {
            let mut j = i;
            while j < end && !is_whitespace_char(s[j])
                invariant
                    i <= j <= end <= s@.len(),
                    rest == s@.subrange(i as int, end as int),
                    run_non_whitespace(rest) == (j - i) + run_non_whitespace(
                        s@.subrange(j as int, end as int),
                    ),
                decreases end - j,
            {
                assert(s@.subrange(j as int, end as int).drop_first() =~= s@.subrange(
                    j + 1,
                    end as int,
                ));
                j += 1;
            }
            proof {
                if j < end {
                    assert(s@.subrange(j as int, end as int)[0] == s@[j as int]);
                }
            }
            let mut word: Vec<char> = Vec::new();
            let mut k = i;
            while k < j
                invariant
                    i <= k <= j <= end <= s@.len(),
                    word@ == s@.subrange(i as int, k as int),
                decreases j - k,
            {
                word.push(s[k]);
                k += 1;
                assert(word@ =~= s@.subrange(i as int, k as int));
            }
            let ghost before = words@.map_values(|w: Vec<char>| w@);
            words.push(word);
            assert(words@.map_values(|w: Vec<char>| w@) =~= before.push(s@.subrange(i as int, j as int)));
            assert(rest.take((j - i) as int) =~= s@.subrange(i as int, j as int));
            assert(rest.skip((j - i) as int) =~= s@.subrange(j as int, end as int));
            assert(tokens_of(rest) == seq![s@.subrange(i as int, j as int)] + tokens_of(
                s@.subrange(j as int, end as int),
            ));
            assert(before + tokens_of(rest) =~= before.push(s@.subrange(i as int, j as int))
                + tokens_of(s@.subrange(j as int, end as int)));
            i = j;
        }
    }
    assert(s@.subrange(i as int, end as int).len() == 0);
    assert(words@.map_values(|w: Vec<char>| w@) + tokens_of(s@.subrange(i as int, end as int))
        =~= words@.map_values(|w: Vec<char>| w@));
    words
}

fn direction_of(word: &[char]) -> (direction: Option<Direction>)
    ensures
        direction == direction_word(word@),
{
    if word.len() == 2 {
        let a = crate::text::ascii_upper_char(word[0]);
        let b = crate::text::ascii_upper_char(word[1]);
        if a == 'T' && b == 'X' {
            return Some(Direction::Tx);
        }
        if a == 'R' && b == 'X' {
            return Some(Direction::Rx);
        }
    }
    None
}

fn hex_pair(a: char, b: char) -> (byte: Option<u8>)
    requires
        (a as u32) < 128,
        (b as u32) < 128,
    ensures
        byte == radix16_pair(a as u8, b as u8),
{
    let hi = crate::text::hex_digit_value(a);
    let lo = crate::text::hex_digit_value(b);
    match (hi, lo) {
        (Some(h), Some(l)) => Some(h * 16 + l),
        (None, Some(l)) => {
            if a == '+' {
                Some(l)
            } else {
                None
            }
        },
        _ => None,
    }
}

fn parse_word(word: &[char]) -> (byte: Option<u8>)
    ensures
        byte == word_byte(word@),
{
    let start: usize = if word.len() >= 2 && word[0] == '0' && (word[1] == 'x' || word[1] == 'X') {
        2
    } else {
        0
    };
    assert(strip_hex_prefix(word@) =~= word@.skip(start as int));
    if word.len() - start != 2 {
        return None;
    }
    let a = word[start];
    let b = word[start + 1];
    if (a as u32) < 128 && (b as u32) < 128 {
        hex_pair(a, b)
    } else {
        None
    }
}

/// The report of a line with these words, if any.
fn parse_words(words: &Vec<Vec<char>>, number: usize) -> (res: Result<Option<CapturedReport>, CaptureParseError>)
    ensures
        match words_outcome(words@.map_values(|w: Vec<char>| w@), number) {
            LineOutcome::Skip => res matches Ok(None),
            LineOutcome::Report(d, b) => res matches Ok(Some(r)) && r.direction == d && r.bytes@ == b,
            LineOutcome::Fail(e) => res matches Err(err) && capture_error_view(err) == e,
        },
{
    let ghost ws = words@.map_values(|w: Vec<char>| w@);
    if words.len() == 0 {
        return Ok(None);
    }
    let direction = direction_of(words[0].as_slice());
    let first_byte: usize = if direction.is_some() {
        1
    } else {
        0
    };
    proof {
        assert(ws.skip(0) =~= ws);
        lemma_words_bytes_skip(ws, first_byte as nat, 0, seq![]);
    }
    let mut bytes: Vec<u8> = Vec::new();
    let mut k = first_byte;
    while k < words.len()
        invariant
            ws == words@.map_values(|w: Vec<char>| w@),
            ws.len() > 0,
            direction == direction_word(ws[0]),
            first_byte == (if direction is Some { 1usize } else { 0usize }),
            words_bytes(if direction is Some { ws.skip(1) } else { ws }, 0, seq![]) == words_bytes(
                ws,
                first_byte as nat,
                seq![],
            ),
            first_byte <= k <= words@.len(),
            words_bytes(ws, first_byte as nat, seq![]) == words_bytes(ws, k as nat, bytes@),
        decreases words.len() - k,
    {
        match parse_word(words[k].as_slice()) {
            Some(b) => {
                bytes.push(b);
            },
            None => {
                return Err(
                    CaptureParseError::InvalidByte {
                        line: number,
                        token: string_from_chars(words[k].as_slice()),
                    },
                );
            },
        }
        k += 1;
    }
    if bytes.len() == 0 {
        return Err(CaptureParseError::EmptyReport { line: number });
    }
    Ok(Some(CapturedReport { direction, bytes }))
}

/// Parse one report per line. A line may start with `TX` or `RX`; blank
/// lines and `#` comments are ignored; each byte is two hexadecimal digits
/// with an optional `0x` prefix.
pub fn parse_hex_capture(input: &str) -> (res: Result<Vec<CapturedReport>, CaptureParseError>)
    ensures
        match capture_from(lines_of(input@), 0, seq![]) {
            Ok(v) => res matches Ok(reports) && reports@.map_values(|r: CapturedReport| report_view(r)) == v,
            Err(e) => res matches Err(err) && capture_error_view(err) == e,
        },
{
    let chars = str_chars(input);
    let ghost all = chars@;
    let mut reports: Vec<CapturedReport> = Vec::new();
    let mut line_start: usize = 0;
    let mut line_index: usize = 0;
    assert(all.skip(0) =~= all);
    assert(reports@.map_values(|r: CapturedReport| report_view(r)) =~= Seq::<(Option<Direction>, Seq<u8>)>::empty());
    while line_start < chars.len()
        invariant
            all == chars@,
            all == input@,
            line_start <= all.len(),
            line_index <= line_start,
            lines_of(all.skip(line_start as int)) == lines_of(all).skip(line_index as int),
            line_index <= lines_of(all).len(),
            capture_from(lines_of(all), 0, seq![]) == capture_from(
                lines_of(all),
                line_index as nat,
                reports@.map_values(|r: CapturedReport| report_view(r)),
            ),
        decreases chars.len() - line_start,
    {
        let ghost rest = all.skip(line_start as int);
        let line_end = find_char(&chars, line_start, '\n');
        let ghost line = all.subrange(line_start as int, line_end as int);
        proof {
            lemma_run_until_bound(rest, '\n');
            assert(rest.take(run_until(rest, '\n') as int) =~= line);
            if line_end < all.len() {
                assert(rest.skip(run_until(rest, '\n') as int + 1) =~= all.skip(line_end + 1));
            } else {
                assert(rest =~= line);
            }
            assert(lines_of(rest).len() > 0);
            assert(lines_of(rest)[0] == line);
            assert(lines_of(all).skip(line_index as int)[0] == line);
            assert(lines_of(all)[line_index as int] == line);
        }
        let number = line_index + 1;
        let comment = find_char(&chars, line_start, '#');
        let content_end = if comment < line_end {
            comment
        } else {
            line_end
        };
        proof {
            lemma_run_until_prefix(rest, '#', '\n');
            lemma_run_until_bound(rest, '#');
            assert(line =~= rest.take(run_until(rest, '\n') as int));
            assert(run_until(line, '#') == content_end - line_start);
            assert(strip_comment(line) =~= all.subrange(line_start as int, content_end as int));
        }
        let words = split_words(&chars, line_start, content_end);
        let ghost acc = reports@.map_values(|r: CapturedReport| report_view(r));
        match parse_words(&words, number) {
            Ok(Some(report)) => {
                reports.push(report);
                assert(reports@.map_values(|r: CapturedReport| report_view(r)) =~= acc.push(
                    (report.direction, report.bytes@),
                ));
            },
            Ok(None) => {},
            Err(e) => {
                return Err(e);
            },
        }
        line_index += 1;
        if line_end < chars.len() {
            line_start = line_end + 1;
        } else {
            line_start = line_end;
        }
        proof {
            assert(lines_of(all).skip(line_index as int) =~= lines_of(all).skip(
                (line_index - 1) as int,
            ).drop_first());
        }
    }
    proof {
        assert(all.skip(line_start as int).len() == 0);
        assert(lines_of(all).skip(line_index as int).len() == 0);
    }
    Ok(reports)
}

proof fn lemma_run_until_prefix(s: Seq<char>, c: char, stop: char)
    ensures
        run_until(s.take(run_until(s, stop) as int), c) == if run_until(s, c) < run_until(s, stop) {
            run_until(s, c)
        } else {
            run_until(s, stop)
        },
    decreases s.len(),
{
    lemma_run_until_bound(s, stop);
    let t = s.take(run_until(s, stop) as int);
    if s.len() > 0 && s[0] != c && s[0] != stop {
        lemma_run_until_prefix(s.drop_first(), c, stop);
        lemma_run_until_bound(s.drop_first(), stop);
        assert(t.drop_first() =~= s.drop_first().take(run_until(s.drop_first(), stop) as int));
        assert(t.len() > 0 && t[0] == s[0]);
    } else if s.len() > 0 && s[0] == c {
        if t.len() > 0 {
            assert(t[0] == s[0]);
        }
    } else if s.len() > 0 {
        assert(t.len() == 0);
    }
}

proof fn lemma_words_bytes_skip(ws: Seq<Seq<char>>, skip: nat, k: nat, acc: Seq<u8>)
    requires
        skip <= ws.len(),
    ensures
        words_bytes(ws.skip(skip as int), k, acc) == words_bytes(ws, skip + k, acc),
    decreases ws.len() - skip - k,
{
    if skip + k < ws.len() {
        assert(ws.skip(skip as int)[k as int] == ws[(skip + k) as int]);
        match word_byte(ws[(skip + k) as int]) {
            None => {},
            Some(b) => {
                lemma_words_bytes_skip(ws, skip, k + 1, acc.push(b));
            },
        }
    }
}

/// Whether report `index` of two captures differs: in a byte, in its
/// direction, or by being present in only one.
pub open spec fn report_at(reports: Seq<CapturedReport>, index: int) -> Option<CapturedReport> {
    if 0 <= index < reports.len() {
        Some(reports[index])
    } else {
        None
    }
}

pub open spec fn byte_at(report: Option<CapturedReport>, offset: int) -> Option<u8> {
    match report {
        Some(r) => if 0 <= offset < r.bytes@.len() {
            Some(r.bytes@[offset])
        } else {
            None
        },
        None => None,
    }
}

pub open spec fn report_len(report: Option<CapturedReport>) -> nat {
    match report {
        Some(r) => r.bytes@.len(),
        None => 0,
    }
}

pub open spec fn report_direction(report: Option<CapturedReport>) -> Option<Direction> {
    match report {
        Some(r) => r.direction,
        None => None,
    }
}

/// The changed bytes of two reports, in offset order.
pub open spec fn changes_from(left: Option<CapturedReport>, right: Option<CapturedReport>, offset: nat, count: nat) -> Seq<ByteChange>
    decreases count - offset,
{
    if offset >= count {
        seq![]
    } else {
        let rest = changes_from(left, right, offset + 1, count);
        if byte_at(left, offset as int) != byte_at(right, offset as int) {
            seq![ByteChange { offset: offset as usize, before: byte_at(left, offset as int), after: byte_at(right, offset as int) }] + rest
        } else {
            rest
        }
    }
}

pub open spec fn max_nat(a: nat, b: nat) -> nat {
    if a >= b { a } else { b }
}

/// The difference of report `index` of two captures, if there is one.
pub open spec fn report_diff_spec(before: Seq<CapturedReport>, after: Seq<CapturedReport>, index: int) -> Option<(
    Option<Direction>,
    Option<Direction>,
    nat,
    nat,
    Seq<ByteChange>,
)> {
    let left = report_at(before, index);
    let right = report_at(after, index);
    let changes = changes_from(left, right, 0, max_nat(report_len(left), report_len(right)));
    if changes.len() > 0 || report_direction(left) != report_direction(right) || left is None
        || right is None {
        Some((report_direction(left), report_direction(right), report_len(left), report_len(right), changes))
    } else {
        None
    }
}

pub open spec fn diff_view(d: ReportDiff) -> (usize, (Option<Direction>, Option<Direction>, nat, nat, Seq<ByteChange>)) {
    (d.index, (d.before_direction, d.after_direction, d.before_len as nat, d.after_len as nat, d.changes@))
}

/// Differences of reports `index..count`, in report order.
pub open spec fn diffs_from(before: Seq<CapturedReport>, after: Seq<CapturedReport>, index: nat, count: nat) -> Seq<
    (usize, (Option<Direction>, Option<Direction>, nat, nat, Seq<ByteChange>)),
>
    decreases count - index,
{
    if index >= count {
        seq![]
    } else {
        let rest = diffs_from(before, after, index + 1, count);
        match report_diff_spec(before, after, index as int) {
            Some(d) => seq![(index as usize, d)] + rest,
            None => rest,
        }
    }
}

fn byte_of(report: Option<&CapturedReport>, offset: usize) -> (byte: Option<u8>)
    ensures
        byte == byte_at(
            match report {
                Some(r) => Some(*r),
                None => None,
            },
            offset as int,
        ),
{
    match report {
        Some(r) => if offset < r.bytes.len() {
            Some(r.bytes[offset])
        } else {
            None
        },
        None => None,
    }
}

fn same_byte(a: Option<u8>, b: Option<u8>) -> (same: bool)
    ensures
        same == (a == b),
{
    match (a, b) {
        (Some(x), Some(y)) => x == y,
        (None, None) => true,
        _ => false,
    }
}

fn same_direction(a: Option<Direction>, b: Option<Direction>) -> (same: bool)
    ensures
        same == (a == b),
{
    match (a, b) {
        (Some(x), Some(y)) => x == y,
        (None, None) => true,
        _ => false,
    }
}

fn report_changes(left: Option<&CapturedReport>, right: Option<&CapturedReport>, count: usize) -> (changes: Vec<ByteChange>)
    ensures
        changes@ == changes_from(
            match left { Some(r) => Some(*r), None => None },
            match right { Some(r) => Some(*r), None => None },
            0,
            count as nat,
        ),
{
    let ghost l = match left { Some(r) => Some(*r), None => None };
    let ghost r = match right { Some(x) => Some(*x), None => None };
    let mut changes: Vec<ByteChange> = Vec::new();
    let mut offset: usize = 0;
    while offset < count
        invariant
            offset <= count,
            l == (match left { Some(x) => Some(*x), None => None }),
            r == (match right { Some(x) => Some(*x), None => None }),
            changes_from(l, r, 0, count as nat) == changes@ + changes_from(l, r, offset as nat, count as nat),
        decreases count - offset,
    {
        let before = byte_of(left, offset);
        let after = byte_of(right, offset);
        if !same_byte(before, after) {
            let ghost old_changes = changes@;
            changes.push(ByteChange { offset, before, after });
            assert(old_changes + changes_from(l, r, offset as nat, count as nat) =~= changes@ + changes_from(l, r, (offset + 1) as nat, count as nat));
        }
        offset += 1;
    }
    assert(changes@ + changes_from(l, r, offset as nat, count as nat) =~= changes@);
    changes
}

/// Compare two captures report by report. A report appears in the result
/// when a byte differs, its direction differs, or it is missing from one
/// capture.
pub fn diff_captures(before: &[CapturedReport], after: &[CapturedReport]) -> (diffs: Vec<ReportDiff>)
    ensures
        diffs@.map_values(|d: ReportDiff| diff_view(d)) == diffs_from(
            before@,
            after@,
            0,
            max_nat(before@.len(), after@.len()),
        ),
{
    let count = if before.len() >= after.len() {
        before.len()
    } else {
        after.len()
    };
    let mut diffs: Vec<ReportDiff> = Vec::new();
    let mut index: usize = 0;
    while index < count
        invariant
            index <= count,
            count == max_nat(before@.len(), after@.len()),
            diffs_from(before@, after@, 0, count as nat) == diffs@.map_values(|d: ReportDiff| diff_view(d))
                + diffs_from(before@, after@, index as nat, count as nat),
        decreases count - index,
    {
        let left = if index < before.len() { Some(&before[index]) } else { None };
        let right = if index < after.len() { Some(&after[index]) } else { None };
        let before_len = match left { Some(r) => r.bytes.len(), None => 0 };
        let after_len = match right { Some(r) => r.bytes.len(), None => 0 };
        let byte_count = if before_len >= after_len { before_len } else { after_len };
        let changes = report_changes(left, right, byte_count);
        let before_direction = match left { Some(r) => r.direction, None => None };
        let after_direction = match right { Some(r) => r.direction, None => None };
        let ghost old_views = diffs@.map_values(|d: ReportDiff| diff_view(d));
        if changes.len() > 0 || !same_direction(before_direction, after_direction) || left.is_none() || right.is_none() {
            let d = ReportDiff { index, before_direction, after_direction, before_len, after_len, changes };
            diffs.push(d);
            assert(diffs@.map_values(|d: ReportDiff| diff_view(d)) =~= old_views.push(diff_view(d)));
            assert(old_views + diffs_from(before@, after@, index as nat, count as nat) =~= old_views.push(diff_view(d)) + diffs_from(before@, after@, (index + 1) as nat, count as nat));
        }
        index += 1;
    }
    assert(diffs@.map_values(|d: ReportDiff| diff_view(d)) + diffs_from(before@, after@, index as nat, count as nat) =~= diffs@.map_values(|d: ReportDiff| diff_view(d)));
    diffs
}

} // verus!
