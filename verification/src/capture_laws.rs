//! Laws of the hexadecimal capture text: parsing the lines that
//! `format_hex` and a direction label print gives the reports back.
use vstd::prelude::*;
use crate::capture::{
    capture_from, direction_word, lines_of, line_outcome, run_non_whitespace, run_until, strip_comment,
    strip_hex_prefix, tokens_of, word_byte, words_bytes, words_outcome, LineOutcome,
};
use crate::color::{lemma_hex_upper_digit, radix16_pair};
use crate::text::{ascii_upper, byte_hex_upper, hex_upper, is_whitespace};
use crate::wire::{direction_label, hex_text, Direction};

verus! {

/// The text line of one report: `TX ` or `RX ` when it has a direction,
/// then its bytes as `format_hex` prints them.
pub open spec fn report_line(direction: Option<Direction>, bytes: Seq<u8>) -> Seq<char> {
    match direction {
        Some(d) => direction_label(d) + seq![' '] + hex_text(bytes),
        None => hex_text(bytes),
    }
}

/// Lines joined with `\n`, with no newline after the last.
pub open spec fn joined_lines(lines: Seq<Seq<char>>) -> Seq<char>
    decreases lines.len(),
{
    if lines.len() == 0 {
        seq![]
    } else if lines.len() == 1 {
        lines[0]
    } else {
        lines[0] + seq!['\n'] + joined_lines(lines.drop_first())
    }
}

/// The capture text of reports: one report line each.
pub open spec fn capture_text(reports: Seq<(Option<Direction>, Seq<u8>)>) -> Seq<char> {
    joined_lines(reports.map_values(|r: (Option<Direction>, Seq<u8>)| report_line(r.0, r.1)))
}

/// A character of a report line: a hexadecimal digit, a direction letter
/// or a space.
spec fn line_char(c: char) -> bool {
    ||| '0' <= c <= '9'
    ||| 'A' <= c <= 'F'
    ||| c == 'T' || c == 'X' || c == 'R' || c == ' '
}

proof fn lemma_byte_hex_chars(b: u8)
    ensures
        byte_hex_upper(b).len() == 2,
        forall|i: int| 0 <= i < 2 ==> line_char(#[trigger] byte_hex_upper(b)[i]) && !is_whitespace(byte_hex_upper(b)[i])
            && byte_hex_upper(b)[i] != 'x' && byte_hex_upper(b)[i] != 'X',
{
    lemma_hex_upper_digit(b as int / 16);
    lemma_hex_upper_digit(b as int % 16);
}

proof fn lemma_hex_text_front(bytes: Seq<u8>)
    requires
        bytes.len() >= 2,
    ensures
        hex_text(bytes) == byte_hex_upper(bytes[0]) + seq![' '] + hex_text(bytes.drop_first()),
    decreases bytes.len(),
{
    if bytes.len() == 2 {
        assert(bytes.drop_last() =~= seq![bytes[0]]);
        assert(bytes.drop_first() =~= seq![bytes[1]]);
        assert(hex_text(bytes.drop_last()) == byte_hex_upper(bytes[0]));
        assert(hex_text(bytes.drop_first()) == byte_hex_upper(bytes[1]));
        assert(hex_text(bytes) =~= byte_hex_upper(bytes[0]) + seq![' '] + hex_text(bytes.drop_first()));
    } else {
        lemma_hex_text_front(bytes.drop_last());
        assert(bytes.drop_last().drop_first() =~= bytes.drop_first().drop_last());
        assert(bytes.drop_first().last() == bytes.last());
        assert(hex_text(bytes) =~= byte_hex_upper(bytes[0]) + seq![' '] + hex_text(bytes.drop_first()));
    }
}

proof fn lemma_hex_text_chars(bytes: Seq<u8>)
    ensures
        forall|i: int| 0 <= i < hex_text(bytes).len() ==> line_char(#[trigger] hex_text(bytes)[i]),
        bytes.len() > 0 ==> hex_text(bytes).len() > 0,
    decreases bytes.len(),
{
    if bytes.len() == 1 {
        lemma_byte_hex_chars(bytes[0]);
    } else if bytes.len() >= 2 {
        lemma_hex_text_chars(bytes.drop_last());
        lemma_byte_hex_chars(bytes.last());
        let a = hex_text(bytes.drop_last());
        assert forall|i: int| 0 <= i < hex_text(bytes).len() implies line_char(#[trigger] hex_text(bytes)[i]) by {
            if i < a.len() {
                assert(hex_text(bytes)[i] == a[i]);
            } else if i > a.len() {
                assert(hex_text(bytes)[i] == byte_hex_upper(bytes.last())[i - a.len() - 1]);
            }
        }
    }
}

proof fn lemma_pair_tokens(b: u8, rest: Seq<char>)
    requires
        rest.len() == 0 || is_whitespace(rest[0]),
    ensures
        run_non_whitespace(byte_hex_upper(b) + rest) == 2,
        tokens_of(byte_hex_upper(b) + rest) == seq![byte_hex_upper(b)] + tokens_of(rest),
{
    lemma_byte_hex_chars(b);
    reveal_with_fuel(run_non_whitespace, 3);
    let s = byte_hex_upper(b) + rest;
    assert(s.drop_first().drop_first() =~= rest);
    assert(s.drop_first()[0] == byte_hex_upper(b)[1]);
    assert(run_non_whitespace(s.drop_first().drop_first()) == 0);
    assert(s.take(2) =~= byte_hex_upper(b));
    assert(s.skip(2) =~= rest);
}

proof fn lemma_hex_tokens(bytes: Seq<u8>)
    requires
        bytes.len() > 0,
    ensures
        tokens_of(hex_text(bytes)) == bytes.map_values(|b: u8| byte_hex_upper(b)),
    decreases bytes.len(),
{
    if bytes.len() == 1 {
        lemma_pair_tokens(bytes[0], seq![]);
        assert(byte_hex_upper(bytes[0]) + seq![] =~= byte_hex_upper(bytes[0]));
        assert(bytes.map_values(|b: u8| byte_hex_upper(b)) =~= seq![byte_hex_upper(bytes[0])]);
    } else {
        lemma_hex_text_front(bytes);
        let rest = hex_text(bytes.drop_first());
        lemma_pair_tokens(bytes[0], seq![' '] + rest);
        assert(byte_hex_upper(bytes[0]) + (seq![' '] + rest) =~= hex_text(bytes));
        assert((seq![' '] + rest).drop_first() =~= rest);
        lemma_hex_tokens(bytes.drop_first());
        assert(bytes.map_values(|b: u8| byte_hex_upper(b)) =~= seq![byte_hex_upper(bytes[0])]
            + bytes.drop_first().map_values(|b: u8| byte_hex_upper(b)));
    }
}

proof fn lemma_word_byte(b: u8)
    ensures
        word_byte(byte_hex_upper(b)) == Some(b),
{
    lemma_byte_hex_chars(b);
    lemma_hex_upper_digit(b as int / 16);
    lemma_hex_upper_digit(b as int % 16);
    let w = byte_hex_upper(b);
    assert(strip_hex_prefix(w) == w);
    assert(radix16_pair(w[0] as u8, w[1] as u8) == Some(b));
}

proof fn lemma_words_bytes(bytes: Seq<u8>, k: nat)
    requires
        k <= bytes.len(),
    ensures
        words_bytes(bytes.map_values(|b: u8| byte_hex_upper(b)), k, bytes.take(k as int)) == Ok::<
            Seq<u8>,
            Seq<char>,
        >(bytes),
    decreases bytes.len() - k,
{
    let words = bytes.map_values(|b: u8| byte_hex_upper(b));
    if k < bytes.len() {
        lemma_word_byte(bytes[k as int]);
        assert(bytes.take(k as int).push(bytes[k as int]) =~= bytes.take(k as int + 1));
        lemma_words_bytes(bytes, k + 1);
    } else {
        assert(bytes.take(k as int) =~= bytes);
    }
}

proof fn lemma_no_char_run(s: Seq<char>, c: char)
    requires
        forall|i: int| 0 <= i < s.len() ==> s[i] != c,
    ensures
        run_until(s, c) == s.len(),
    decreases s.len(),
{
    if s.len() > 0 {
        lemma_no_char_run(s.drop_first(), c);
    }
}

proof fn lemma_run_until_append(a: Seq<char>, b: Seq<char>, c: char)
    requires
        forall|i: int| 0 <= i < a.len() ==> a[i] != c,
    ensures
        run_until(a + seq![c] + b, c) == a.len(),
    decreases a.len(),
{
    if a.len() > 0 {
        assert((a + seq![c] + b).drop_first() =~= a.drop_first() + seq![c] + b);
        lemma_run_until_append(a.drop_first(), b, c);
    }
}

proof fn lemma_report_line(direction: Option<Direction>, bytes: Seq<u8>, number: usize)
    requires
        bytes.len() > 0,
    ensures
        line_outcome(report_line(direction, bytes), number) == LineOutcome::Report(direction, bytes),
        report_line(direction, bytes).len() > 0,
        forall|i: int| 0 <= i < report_line(direction, bytes).len() ==> line_char(#[trigger] report_line(direction, bytes)[i]),
{
    reveal_strlit("TX");
    reveal_strlit("RX");
    reveal_with_fuel(run_non_whitespace, 3);
    reveal_with_fuel(tokens_of, 2);
    let line = report_line(direction, bytes);
    let hex = hex_text(bytes);
    lemma_hex_text_chars(bytes);
    lemma_hex_tokens(bytes);
    lemma_byte_hex_chars(bytes[0]);
    let words_hex = bytes.map_values(|b: u8| byte_hex_upper(b));
    match direction {
        Some(d) => {
            let label = direction_label(d);
            assert forall|i: int| 0 <= i < line.len() implies line_char(#[trigger] line[i]) by {
                if i >= 3 {
                    assert(line[i] == hex[i - 3]);
                }
            }
            assert(line.drop_first().drop_first() =~= seq![' '] + hex);
            assert(line.drop_first()[0] == label[1]);
            assert(run_non_whitespace(line.drop_first().drop_first()) == 0);
            assert(line.take(2) =~= label);
            assert(line.skip(2) =~= seq![' '] + hex);
            assert((seq![' '] + hex).drop_first() =~= hex);
            assert(tokens_of(line) =~= seq![label] + words_hex);
            assert((seq![label] + words_hex).skip(1) =~= words_hex);
        },
        None => {
            assert(words_hex[0] == byte_hex_upper(bytes[0]));
            assert(direction_word(words_hex[0]) is None);
        },
    }
    lemma_no_char_run(line, '#');
    assert(strip_comment(line) =~= line);
    lemma_words_bytes(bytes, 0);
    assert(bytes.take(0) =~= seq![]);
}

proof fn lemma_lines_of_joined(lines: Seq<Seq<char>>)
    requires
        forall|i: int| 0 <= i < lines.len() ==> (#[trigger] lines[i]).len() > 0,
        forall|i: int, j: int| 0 <= i < lines.len() && 0 <= j < lines[i].len() ==> #[trigger] lines[i][j] != '\n',
    ensures
        lines_of(joined_lines(lines)) == lines,
    decreases lines.len(),
{
    if lines.len() == 0 {
    } else if lines.len() == 1 {
        lemma_no_char_run(lines[0], '\n');
        assert(lines_of(lines[0]) =~= seq![lines[0]]);
        assert(lines =~= seq![lines[0]]);
    } else {
        let rest = joined_lines(lines.drop_first());
        let s = lines[0] + seq!['\n'] + rest;
        lemma_run_until_append(lines[0], rest, '\n');
        assert(s.take(lines[0].len() as int) =~= lines[0]);
        assert(s.skip(lines[0].len() as int + 1) =~= rest);
        lemma_lines_of_joined(lines.drop_first());
        assert(lines =~= seq![lines[0]] + lines.drop_first());
    }
}

proof fn lemma_capture_lines(reports: Seq<(Option<Direction>, Seq<u8>)>, k: nat)
    requires
        k <= reports.len(),
        forall|i: int| 0 <= i < reports.len() ==> (#[trigger] reports[i]).1.len() > 0,
    ensures
        capture_from(
            reports.map_values(|r: (Option<Direction>, Seq<u8>)| report_line(r.0, r.1)),
            k,
            reports.take(k as int),
        ) == Ok::<Seq<(Option<Direction>, Seq<u8>)>, crate::capture::CaptureErrorView>(reports),
    decreases reports.len() - k,
{
    let lines = reports.map_values(|r: (Option<Direction>, Seq<u8>)| report_line(r.0, r.1));
    if k < reports.len() {
        let r = reports[k as int];
        lemma_report_line(r.0, r.1, (k + 1) as usize);
        assert(reports.take(k as int).push(r) =~= reports.take(k as int + 1));
        lemma_capture_lines(reports, k + 1);
    } else {
        assert(reports.take(k as int) =~= reports);
    }
}

/// Reports with at least one byte each, printed one per line as a
/// direction label (when they have one) and `format_hex` text, joined with
/// `\n`, parse back to the same reports.
pub proof fn lemma_capture_text_round_trip(reports: Seq<(Option<Direction>, Seq<u8>)>)
    requires
        forall|i: int| 0 <= i < reports.len() ==> (#[trigger] reports[i]).1.len() > 0,
    ensures
        capture_from(lines_of(capture_text(reports)), 0, seq![]) == Ok::<
            Seq<(Option<Direction>, Seq<u8>)>,
            crate::capture::CaptureErrorView,
        >(reports),
{
    let lines = reports.map_values(|r: (Option<Direction>, Seq<u8>)| report_line(r.0, r.1));
    assert forall|i: int| 0 <= i < lines.len() implies (#[trigger] lines[i]).len() > 0 by {
        lemma_report_line(reports[i].0, reports[i].1, 1);
    }
    assert forall|i: int, j: int| 0 <= i < lines.len() && 0 <= j < lines[i].len() implies #[trigger] lines[i][j]
        != '\n' by {
        lemma_report_line(reports[i].0, reports[i].1, 1);
        assert(line_char(lines[i][j]));
    }
    lemma_lines_of_joined(lines);
    lemma_capture_lines(reports, 0);
    assert(reports.take(0) =~= seq![]);
}

} // verus!
