//! Line-by-line reports of the offline comparisons: two report captures,
//! and two NGENUITY Legacy presets with their embedded payloads.
use vstd::prelude::*;
use crate::capture::{diff_captures, diffs_from, max_nat, ByteChange, CapturedReport, ReportDiff};
use crate::cli::{format_direction, format_optional_byte, raw_byte_changes, raw_changes_from, RawByteChange};
use crate::color::color_text;
use crate::ngenuity::{
    effective_timing, format_ngenuity_id, hex_lower_bytes, NgenuityContainer, NgenuityDpiStageView,
    NgenuityKeyAssignmentView, NgenuityMacro, NgenuityMacroView, NgenuityPreset,
    NgenuityPresetView,
};
use crate::ngenuity_diff::{describe_item, describe_ngenuity_legacy_macro_item};
use crate::ngenuity_diff::{debug_quoted, debug_text, semantic_changes, semantic_ngenuity_legacy_changes, texts};
use crate::text::{byte_hex_upper, decimal_chars, hex_upper_padded, push_decimal, push_hex_upper_padded, string_push_str};
use crate::wire::Direction;

verus! {

pub open spec fn direction_text(direction: Option<Direction>) -> Seq<char> {
    match direction {
        Some(Direction::Tx) => "TX"@,
        Some(Direction::Rx) => "RX"@,
        None => "--"@,
    }
}

pub open spec fn optional_byte_text(byte: Option<u8>) -> Seq<char> {
    match byte {
        Some(b) => byte_hex_upper(b),
        None => "--"@,
    }
}

/// `  offset 0x<offset>: <before> -> <after>`.
pub open spec fn change_text(offset: nat, before: Option<u8>, after: Option<u8>) -> Seq<char> {
    "  offset 0x"@ + hex_upper_padded(offset, 4) + ": "@ + optional_byte_text(before) + " -> "@
        + optional_byte_text(after)
}

fn change_string(offset: usize, before: Option<u8>, after: Option<u8>) -> (text: String)
    ensures
        text@ == change_text(offset as nat, before, after),
{
    let mut text = "  offset 0x".to_owned();
    push_hex_upper_padded(&mut text, offset as u64, 4);
    string_push_str(&mut text, ": ");
    let b = format_optional_byte(before);
    string_push_str(&mut text, b.as_str());
    string_push_str(&mut text, " -> ");
    let a = format_optional_byte(after);
    string_push_str(&mut text, a.as_str());
    text
}

/// The lines of one differing report: a heading, then each changed byte,
/// or a note when only the direction changed.
pub open spec fn report_diff_text(d: (usize, (Option<Direction>, Option<Direction>, nat, nat, Seq<ByteChange>))) -> Seq<
    Seq<char>,
> {
    let (index, (bd, ad, bl, al, changes)) = d;
    seq![
        "Report "@ + decimal_chars((index + 1) as nat) + ": "@ + direction_text(bd) + " "@
            + decimal_chars(bl) + " B -> "@ + direction_text(ad) + " "@ + decimal_chars(al) + " B"@,
    ] + if changes.len() == 0 {
        seq!["  direction changed; payload is identical"@]
    } else {
        Seq::new(changes.len(), |i: int| change_text(changes[i].offset as nat, changes[i].before, changes[i].after))
    }
}

pub open spec fn report_diffs_text(
    diffs: Seq<(usize, (Option<Direction>, Option<Direction>, nat, nat, Seq<ByteChange>))>,
    n: nat,
) -> Seq<Seq<char>>
    decreases n,
{
    if n == 0 || n > diffs.len() {
        seq![]
    } else {
        report_diffs_text(diffs, (n - 1) as nat) + report_diff_text(diffs[n - 1])
    }
}

/// The comparison of two captures: a summary line, then the differing
/// reports, or a line saying that there is none.
pub open spec fn capture_comparison_text(before: Seq<CapturedReport>, after: Seq<CapturedReport>) -> Seq<
    Seq<char>,
> {
    let diffs = diffs_from(before, after, 0, max_nat(before.len(), after.len()));
    seq![
        "Compared "@ + decimal_chars(before.len()) + " baseline report(s) with "@ + decimal_chars(
            after.len(),
        ) + " changed report(s)."@,
    ] + if diffs.len() == 0 {
        seq!["No differences found."@]
    } else {
        report_diffs_text(diffs, diffs.len())
    }
}

proof fn lemma_diff_indices_below(before: Seq<CapturedReport>, after: Seq<CapturedReport>, index: nat, count: nat)
    requires
        count <= usize::MAX,
    ensures
        forall|k: int|
            0 <= k < diffs_from(before, after, index, count).len() ==> index <= (#[trigger] diffs_from(
                before,
                after,
                index,
                count,
            )[k]).0 < count,
    decreases count - index,
{
    if index < count {
        lemma_diff_indices_below(before, after, index + 1, count);
        let rest = diffs_from(before, after, index + 1, count);
        let all = diffs_from(before, after, index, count);
        assert forall|k: int| 0 <= k < all.len() implies index <= (#[trigger] all[k]).0 < count by {
            match crate::capture::report_diff_spec(before, after, index as int) {
                Some(d) => {
                    assert(all == seq![(index as usize, d)] + rest);
                    if k > 0 {
                        assert(all[k] == rest[k - 1]);
                    } else {
                        assert((index as usize) as nat == index);
                    }
                },
                None => {
                    assert(all == rest);
                },
            }
        }
    }
}

fn push_line(lines: &mut Vec<String>, line: String)
    ensures
        texts(final(lines)@) == texts(old(lines)@).push(line@),
{
    let ghost before = lines@;
    lines.push(line);
    assert(texts(lines@) =~= texts(before).push(line@));
}

/// Compare two captures and describe every differing report.
pub fn capture_comparison_lines(before: &[CapturedReport], after: &[CapturedReport]) -> (lines: Vec<
    String,
>)
    ensures
        texts(lines@) == capture_comparison_text(before@, after@),
{
    let before_count = before.len();
    let after_count = after.len();
    let diffs = diff_captures(before, after);
    let ghost views = diffs@.map_values(|d: ReportDiff| crate::capture::diff_view(d));
    proof {
        lemma_diff_indices_below(before@, after@, 0, max_nat(before@.len(), after@.len()));
    }
    let mut lines: Vec<String> = Vec::new();
    let mut header = "Compared ".to_owned();
    push_decimal(&mut header, before.len() as u64);
    string_push_str(&mut header, " baseline report(s) with ");
    push_decimal(&mut header, after.len() as u64);
    string_push_str(&mut header, " changed report(s).");
    push_line(&mut lines, header);
    if diffs.len() == 0 {
        push_line(&mut lines, "No differences found.".to_owned());
        return lines;
    }
    let ghost head = texts(lines@);
    let mut k: usize = 0;
    while k < diffs.len()
        invariant
            k <= diffs@.len(),
            views == diffs@.map_values(|d: ReportDiff| crate::capture::diff_view(d)),
            views == diffs_from(before@, after@, 0, max_nat(before@.len(), after@.len())),
            forall|j: int| 0 <= j < views.len() ==> (#[trigger] views[j]).0 < usize::MAX,
            texts(lines@) == head + report_diffs_text(views, k as nat),
        decreases diffs.len() - k,
    {
        let d = &diffs[k];
        assert(views[k as int] == crate::capture::diff_view(*d));
        let ghost prev = texts(lines@);
        let mut heading = "Report ".to_owned();
        push_decimal(&mut heading, (d.index + 1) as u64);
        string_push_str(&mut heading, ": ");
        string_push_str(&mut heading, format_direction(d.before_direction));
        string_push_str(&mut heading, " ");
        push_decimal(&mut heading, d.before_len as u64);
        string_push_str(&mut heading, " B -> ");
        string_push_str(&mut heading, format_direction(d.after_direction));
        string_push_str(&mut heading, " ");
        push_decimal(&mut heading, d.after_len as u64);
        string_push_str(&mut heading, " B");
        push_line(&mut lines, heading);
        if d.changes.len() == 0 {
            push_line(&mut lines, "  direction changed; payload is identical".to_owned());
        } else {
            let ghost mid = texts(lines@);
            let mut c: usize = 0;
            while c < d.changes.len()
                invariant
                    c <= d.changes@.len(),
                    texts(lines@) == mid + Seq::new(
                        c as nat,
                        |i: int| change_text(d.changes@[i].offset as nat, d.changes@[i].before, d.changes@[i].after),
                    ),
                decreases d.changes.len() - c,
            {
                let change = d.changes[c];
                let line = change_string(change.offset, change.before, change.after);
                push_line(&mut lines, line);
                assert(Seq::new(
                    (c + 1) as nat,
                    |i: int| change_text(d.changes@[i].offset as nat, d.changes@[i].before, d.changes@[i].after),
                ) =~= Seq::new(
                    c as nat,
                    |i: int| change_text(d.changes@[i].offset as nat, d.changes@[i].before, d.changes@[i].after),
                ).push(change_text(change.offset as nat, change.before, change.after)));
                c += 1;
            }
        }
        assert(texts(lines@) =~= prev + report_diff_text(views[k as int]));
        assert(report_diffs_text(views, (k + 1) as nat) == report_diffs_text(views, k as nat)
            + report_diff_text(views[k as int]));
        proof {
            vstd::seq_lib::lemma_concat_associative(
                head,
                report_diffs_text(views, k as nat),
                report_diff_text(views[k as int]),
            );
        }
        k += 1;
    }
    lines
}

/// How many raw changes are listed: all of them when asked, else at most
/// the default limit.
pub open spec fn raw_shown(count: nat, all_raw: bool) -> nat {
    if all_raw || count <= 256 {
        count
    } else {
        256
    }
}

/// The decoded changes, indented, or `<none>`.
pub open spec fn semantic_part(semantic: Seq<Seq<char>>) -> Seq<Seq<char>> {
    if semantic.len() == 0 {
        seq!["  <none>"@]
    } else {
        Seq::new(semantic.len(), |i: int| "  "@ + semantic[i])
    }
}

/// The raw changes: a summary, a note when the lengths differ, the listed
/// changes, a note on the omitted ones, and a note on identifiers.
pub open spec fn raw_part(raw: Seq<RawByteChange>, before_len: nat, after_len: nat, all_raw: bool) -> Seq<
    Seq<char>,
> {
    let shown = raw_shown(raw.len(), all_raw);
    seq![
        "Raw embedded changes: "@ + decimal_chars(raw.len()) + " byte(s); lengths "@ + decimal_chars(
            before_len,
        ) + " -> "@ + decimal_chars(after_len) + " bytes."@,
    ] + (if before_len != after_len {
        seq!["  Lengths differ; raw offsets after an insertion or removal may no longer align."@]
    } else {
        seq![]
    }) + Seq::new(shown, |i: int| change_text(raw[i].offset as nat, raw[i].before, raw[i].after)) + (if raw.len()
        > shown {
        seq![
            "  ... "@ + decimal_chars((raw.len() - shown) as nat)
                + " more changed byte(s); rerun with --all-raw to print them."@,
        ]
    } else {
        seq![]
    }) + (if raw.len() > 0 {
        seq![
            "  Raw differences can include regenerated source identifiers; decoded comparisons ignore identifier values."@,
        ]
    } else {
        seq![]
    })
}

/// The report comparing two presets: the decoded changes, then the raw
/// changes of the embedded payloads (the first 256 unless all are asked
/// for), with notes on length changes, omitted changes and identifiers.
pub open spec fn ngenuity_diff_text(
    before: NgenuityPresetView,
    after: NgenuityPresetView,
    before_payload: Seq<u8>,
    after_payload: Seq<u8>,
    all_raw: bool,
) -> Seq<Seq<char>> {
    seq![
        "Compared NGENUITY Legacy presets "@ + debug_text(before.name) + " and "@ + debug_text(after.name)
            + "."@,
        "Decoded changes:"@,
    ] + semantic_part(semantic_changes(before, after)) + raw_part(
        raw_changes_from(before_payload, after_payload, 0, max_nat(before_payload.len(), after_payload.len())),
        before_payload.len(),
        after_payload.len(),
        all_raw,
    ) + seq!["Comparison was offline; no HID device was opened."@]
}

fn push_semantic_lines(lines: &mut Vec<String>, semantic: &Vec<String>)
    ensures
        texts(final(lines)@) == texts(old(lines)@) + semantic_part(texts(semantic@)),
{
    let ghost p0 = texts(lines@);
    let ghost sem = texts(semantic@);
    if semantic.len() == 0 {
        push_line(lines, "  <none>".to_owned());
    } else {
        let mut i: usize = 0;
        while i < semantic.len()
            invariant
                i <= semantic@.len(),
                texts(semantic@) == sem,
                texts(lines@) == p0 + Seq::new(i as nat, |j: int| "  "@ + sem[j]),
            decreases semantic.len() - i,
        {
            let mut line = "  ".to_owned();
            string_push_str(&mut line, semantic[i].as_str());
            assert(sem[i as int] == semantic@[i as int]@);
            push_line(lines, line);
            assert(Seq::new((i + 1) as nat, |j: int| "  "@ + sem[j]) =~= Seq::new(i as nat, |j: int| "  "@ + sem[j]).push(
                "  "@ + sem[i as int],
            ));
            i += 1;
        }
    }
}

fn push_raw_lines(
    lines: &mut Vec<String>,
    raw: &Vec<RawByteChange>,
    before_len: usize,
    after_len: usize,
    all_raw: bool,
)
    ensures
        texts(final(lines)@) == texts(old(lines)@) + raw_part(raw@, before_len as nat, after_len as nat, all_raw),
{
    let ghost p0 = texts(lines@);
    let ghost raw_spec = raw@;
    let mut summary = "Raw embedded changes: ".to_owned();
    push_decimal(&mut summary, raw.len() as u64);
    string_push_str(&mut summary, " byte(s); lengths ");
    push_decimal(&mut summary, before_len as u64);
    string_push_str(&mut summary, " -> ");
    push_decimal(&mut summary, after_len as u64);
    string_push_str(&mut summary, " bytes.");
    push_line(lines, summary);
    if before_len != after_len {
        push_line(
            lines,
            "  Lengths differ; raw offsets after an insertion or removal may no longer align.".to_owned(),
        );
    }
    let ghost p2 = texts(lines@);
    let shown = if all_raw || raw.len() <= 256 {
        raw.len()
    } else {
        256
    };
    let mut k: usize = 0;
    while k < shown
        invariant
            k <= shown,
            shown <= raw@.len(),
            raw@ == raw_spec,
            texts(lines@) == p2 + Seq::new(
                k as nat,
                |i: int| change_text(raw_spec[i].offset as nat, raw_spec[i].before, raw_spec[i].after),
            ),
        decreases shown - k,
    {
        let change = raw[k];
        let line = change_string(change.offset, change.before, change.after);
        push_line(lines, line);
        assert(Seq::new(
            (k + 1) as nat,
            |i: int| change_text(raw_spec[i].offset as nat, raw_spec[i].before, raw_spec[i].after),
        ) =~= Seq::new(
            k as nat,
            |i: int| change_text(raw_spec[i].offset as nat, raw_spec[i].before, raw_spec[i].after),
        ).push(change_text(change.offset as nat, change.before, change.after)));
        k += 1;
    }
    if raw.len() > shown {
        let mut more = "  ... ".to_owned();
        push_decimal(&mut more, (raw.len() - shown) as u64);
        string_push_str(&mut more, " more changed byte(s); rerun with --all-raw to print them.");
        push_line(lines, more);
    }
    if raw.len() > 0 {
        push_line(
            lines,
            "  Raw differences can include regenerated source identifiers; decoded comparisons ignore identifier values."
                .to_owned(),
        );
    }
    assert(texts(lines@) =~= p0 + raw_part(raw@, before_len as nat, after_len as nat, all_raw));
}

/// The report comparing two presets and their embedded payloads.
pub fn ngenuity_diff_lines(
    before: &NgenuityPreset,
    after: &NgenuityPreset,
    before_payload: &[u8],
    after_payload: &[u8],
    all_raw: bool,
) -> (lines: Vec<String>)
    ensures
        texts(lines@) == ngenuity_diff_text(before@, after@, before_payload@, after_payload@, all_raw),
{
    let semantic = semantic_ngenuity_legacy_changes(before, after);
    let raw = raw_byte_changes(before_payload, after_payload);
    let mut lines: Vec<String> = Vec::new();
    let mut title = "Compared NGENUITY Legacy presets ".to_owned();
    let b = debug_quoted(before.name.as_str());
    string_push_str(&mut title, b.as_str());
    string_push_str(&mut title, " and ");
    let a = debug_quoted(after.name.as_str());
    string_push_str(&mut title, a.as_str());
    string_push_str(&mut title, ".");
    push_line(&mut lines, title);
    push_line(&mut lines, "Decoded changes:".to_owned());
    let ghost head = texts(lines@);
    push_semantic_lines(&mut lines, &semantic);
    let ghost with_semantic = texts(lines@);
    push_raw_lines(&mut lines, &raw, before_payload.len(), after_payload.len(), all_raw);
    let ghost with_raw = texts(lines@);
    push_line(&mut lines, "Comparison was offline; no HID device was opened.".to_owned());
    assert(texts(lines@) =~= ngenuity_diff_text(before@, after@, before_payload@, after_payload@, all_raw));
    lines
}

/// One DPI stage of an inspected preset; the stage whose one-based number
/// equals the stored active value is marked as the candidate.
pub open spec fn inspected_stage_text(index: int, stage: NgenuityDpiStageView, active: u32) -> Seq<char> {
    "  "@ + decimal_chars((index + 1) as nat) + ": "@ + decimal_chars(stage.dpi as nat) + " DPI, "@
        + color_text(stage.color) + ", alpha="@ + decimal_chars(stage.alpha as nat) + (if index + 1
        == active {
        " [active candidate]"@
    } else {
        ""@
    })
}

/// One recorded event of an inspected macro, with its effective delay and,
/// when it differs, the stored one.
pub open spec fn inspected_item_text(m: NgenuityMacroView, index: int) -> Seq<char> {
    let item = m.items[index];
    let delay = effective_timing(m, item);
    "    "@ + decimal_chars((index + 1) as nat) + ": "@ + describe_item(item) + ", delay="@
        + decimal_chars(delay as nat) + " ms"@ + (if delay != item.timing_ms {
        ", stored="@ + decimal_chars(item.timing_ms as nat) + " ms"@
    } else {
        ""@
    })
}

/// The heading of an inspected macro.
pub open spec fn inspected_macro_heading(number: nat, m: NgenuityMacroView) -> Seq<char> {
    "  "@ + decimal_chars(number) + ": "@ + debug_text(m.name) + " id="@ + hex_lower_bytes(m.source_id)
        + " ("@ + (if m.use_standard_timing {
        "standard "@ + decimal_chars(m.standard_timing_ms as nat) + " ms"@
    } else {
        "recorded per event"@
    }) + ", "@ + (if m.playback_mode == 1 {
        "play once"@
    } else {
        "unconfirmed"@
    }) + ", raw mode="@ + decimal_chars(m.playback_mode as nat) + ", play-times="@ + decimal_chars(
        m.play_times as nat,
    ) + ", events="@ + decimal_chars(m.items.len()) + ")"@
}

pub open spec fn inspected_macro_text(number: nat, m: NgenuityMacroView) -> Seq<Seq<char>> {
    seq![inspected_macro_heading(number, m)] + Seq::new(m.items.len(), |j: int| inspected_item_text(m, j))
}

pub open spec fn inspected_macros_text(macros: Seq<NgenuityMacroView>, n: nat) -> Seq<Seq<char>>
    decreases n,
{
    if n == 0 || n > macros.len() {
        seq![]
    } else {
        inspected_macros_text(macros, (n - 1) as nat) + inspected_macro_text(n, macros[n - 1])
    }
}

pub open spec fn inspected_assignment_text(index: int, a: NgenuityKeyAssignmentView) -> Seq<char> {
    "  "@ + decimal_chars((index + 1) as nat) + ": source_id="@ + hex_lower_bytes(a.source_id) + ", "@
        + match a.macro_source_id {
        Some(id) => "macro "@ + hex_lower_bytes(id),
        None => "no decoded macro reference"@,
    } + "; physical control unresolved"@
}

/// The inspection of a preset: its container and version, its DPI stages,
/// its macros with every event, and its assignments.
pub open spec fn ngenuity_inspection_text(p: NgenuityPresetView) -> Seq<Seq<char>> {
    seq![
        "NGENUITY Legacy preset: "@ + p.name,
        "Container: "@ + match p.container {
            NgenuityContainer::Export => "exported .hxp wrapper"@,
            NgenuityContainer::InternalPreset => "internal preset"@,
        },
        "Format version: "@ + decimal_chars(p.version as nat),
        "Embedded preset: "@ + decimal_chars(p.embedded_length as nat) + " bytes"@,
        "DPI stages:"@,
    ] + Seq::new(p.dpi_stages.len(), |i: int| inspected_stage_text(i, p.dpi_stages[i], p.active_dpi_stage))
        + seq![
        "  Stored active-stage value: "@ + decimal_chars(p.active_dpi_stage as nat)
            + " (indexing semantics are not confirmed)."@,
        "Macros:"@,
    ] + (if p.macros.len() == 0 {
        seq!["  <none>"@]
    } else {
        seq![]
    }) + inspected_macros_text(p.macros, p.macros.len()) + seq![
        "Button assignments: "@ + decimal_chars(p.key_assignments.len()),
    ] + Seq::new(p.key_assignments.len(), |i: int| inspected_assignment_text(i, p.key_assignments[i]))
        + seq![
        "Not decoded from .hxp yet: polling rate, lighting fields, and physical targets for assignments."@,
        "Inspection was offline; no HID device was opened."@,
    ]
}

fn push_inspected_stages(lines: &mut Vec<String>, preset: &NgenuityPreset)
    ensures
        texts(final(lines)@) == texts(old(lines)@) + Seq::new(
            preset@.dpi_stages.len(),
            |i: int| inspected_stage_text(i, preset@.dpi_stages[i], preset@.active_dpi_stage),
        ),
{
    let ghost p0 = texts(lines@);
    let ghost stages = preset@.dpi_stages;
    let mut i: usize = 0;
    while i < preset.dpi_stages.len()
        invariant
            i <= preset.dpi_stages@.len(),
            stages == preset@.dpi_stages,
            stages.len() == preset.dpi_stages@.len(),
            texts(lines@) == p0 + Seq::new(
                i as nat,
                |k: int| inspected_stage_text(k, stages[k], preset@.active_dpi_stage),
            ),
        decreases preset.dpi_stages.len() - i,
    {
        let stage = &preset.dpi_stages[i];
        assert(stages[i as int] == stage@);
        let mut line = "  ".to_owned();
        push_decimal(&mut line, (i + 1) as u64);
        string_push_str(&mut line, ": ");
        push_decimal(&mut line, stage.dpi as u64);
        string_push_str(&mut line, " DPI, ");
        let color = stage.color.to_string();
        string_push_str(&mut line, color.as_str());
        string_push_str(&mut line, ", alpha=");
        push_decimal(&mut line, stage.alpha as u64);
        let candidate = (i as u64) + 1 == preset.active_dpi_stage as u64;
        string_push_str(&mut line, if candidate { " [active candidate]" } else { "" });
        push_line(lines, line);
        assert(Seq::new(
            (i + 1) as nat,
            |k: int| inspected_stage_text(k, stages[k], preset@.active_dpi_stage),
        ) =~= Seq::new(
            i as nat,
            |k: int| inspected_stage_text(k, stages[k], preset@.active_dpi_stage),
        ).push(inspected_stage_text(i as int, stages[i as int], preset@.active_dpi_stage)));
        i += 1;
    }
}

fn push_inspected_macro(lines: &mut Vec<String>, number: usize, m: &NgenuityMacro)
    ensures
        texts(final(lines)@) == texts(old(lines)@) + inspected_macro_text(number as nat, m@),
{
    let ghost p0 = texts(lines@);
    let mut heading = "  ".to_owned();
    push_decimal(&mut heading, number as u64);
    string_push_str(&mut heading, ": ");
    let name = debug_quoted(m.name.as_str());
    string_push_str(&mut heading, name.as_str());
    string_push_str(&mut heading, " id=");
    let id = format_ngenuity_id(&m.source_id);
    string_push_str(&mut heading, id.as_str());
    string_push_str(&mut heading, " (");
    let timing = if m.use_standard_timing {
        let mut t = "standard ".to_owned();
        push_decimal(&mut t, m.standard_timing_ms as u64);
        string_push_str(&mut t, " ms");
        t
    } else {
        "recorded per event".to_owned()
    };
    string_push_str(&mut heading, timing.as_str());
    string_push_str(&mut heading, ", ");
    string_push_str(&mut heading, if m.playback_mode == 1 { "play once" } else { "unconfirmed" });
    string_push_str(&mut heading, ", raw mode=");
    push_decimal(&mut heading, m.playback_mode as u64);
    string_push_str(&mut heading, ", play-times=");
    push_decimal(&mut heading, m.play_times as u64);
    string_push_str(&mut heading, ", events=");
    push_decimal(&mut heading, m.items.len() as u64);
    string_push_str(&mut heading, ")");
    push_line(lines, heading);
    let ghost p1 = texts(lines@);
    let ghost mv = m@;
    let mut j: usize = 0;
    while j < m.items.len()
        invariant
            j <= m.items@.len(),
            mv == m@,
            mv.items.len() == m.items@.len(),
            texts(lines@) == p1 + Seq::new(j as nat, |k: int| inspected_item_text(mv, k)),
        decreases m.items.len() - j,
    {
        let item = &m.items[j];
        assert(mv.items[j as int] == item@);
        let delay = m.effective_timing_ms(item);
        let mut line = "    ".to_owned();
        push_decimal(&mut line, (j + 1) as u64);
        string_push_str(&mut line, ": ");
        let description = describe_ngenuity_legacy_macro_item(item);
        string_push_str(&mut line, description.as_str());
        string_push_str(&mut line, ", delay=");
        push_decimal(&mut line, delay as u64);
        string_push_str(&mut line, " ms");
        let stored = if delay != item.timing_ms {
            let mut t = ", stored=".to_owned();
            push_decimal(&mut t, item.timing_ms as u64);
            string_push_str(&mut t, " ms");
            t
        } else {
            "".to_owned()
        };
        string_push_str(&mut line, stored.as_str());
        push_line(lines, line);
        assert(Seq::new((j + 1) as nat, |k: int| inspected_item_text(mv, k)) =~= Seq::new(
            j as nat,
            |k: int| inspected_item_text(mv, k),
        ).push(inspected_item_text(mv, j as int)));
        j += 1;
    }
    assert(texts(lines@) =~= p0 + inspected_macro_text(number as nat, m@));
}

fn push_inspected_assignments(lines: &mut Vec<String>, preset: &NgenuityPreset)
    ensures
        texts(final(lines)@) == texts(old(lines)@) + Seq::new(
            preset@.key_assignments.len(),
            |i: int| inspected_assignment_text(i, preset@.key_assignments[i]),
        ),
{
    let ghost p0 = texts(lines@);
    let ghost assignments = preset@.key_assignments;
    let mut i: usize = 0;
    while i < preset.key_assignments.len()
        invariant
            i <= preset.key_assignments@.len(),
            assignments == preset@.key_assignments,
            assignments.len() == preset.key_assignments@.len(),
            texts(lines@) == p0 + Seq::new(i as nat, |k: int| inspected_assignment_text(k, assignments[k])),
        decreases preset.key_assignments.len() - i,
    {
        let a = &preset.key_assignments[i];
        assert(assignments[i as int] == a@);
        let mut line = "  ".to_owned();
        push_decimal(&mut line, (i + 1) as u64);
        string_push_str(&mut line, ": source_id=");
        let id = format_ngenuity_id(&a.source_id);
        string_push_str(&mut line, id.as_str());
        string_push_str(&mut line, ", ");
        let reference = match &a.macro_source_id {
            Some(m) => {
                let mut t = "macro ".to_owned();
                let h = format_ngenuity_id(m);
                string_push_str(&mut t, h.as_str());
                t
            },
            None => "no decoded macro reference".to_owned(),
        };
        string_push_str(&mut line, reference.as_str());
        string_push_str(&mut line, "; physical control unresolved");
        push_line(lines, line);
        assert(Seq::new((i + 1) as nat, |k: int| inspected_assignment_text(k, assignments[k])) =~= Seq::new(
            i as nat,
            |k: int| inspected_assignment_text(k, assignments[k]),
        ).push(inspected_assignment_text(i as int, assignments[i as int])));
        i += 1;
    }
}

/// The inspection report of a decoded preset.
pub fn ngenuity_inspection_lines(preset: &NgenuityPreset) -> (lines: Vec<String>)
    ensures
        texts(lines@) == ngenuity_inspection_text(preset@),
{
    let mut lines: Vec<String> = Vec::new();
    let mut title = "NGENUITY Legacy preset: ".to_owned();
    string_push_str(&mut title, preset.name.as_str());
    push_line(&mut lines, title);
    let mut container = "Container: ".to_owned();
    string_push_str(&mut container, match preset.container {
        NgenuityContainer::Export => "exported .hxp wrapper",
        NgenuityContainer::InternalPreset => "internal preset",
    });
    push_line(&mut lines, container);
    let mut version = "Format version: ".to_owned();
    push_decimal(&mut version, preset.version as u64);
    push_line(&mut lines, version);
    let mut embedded = "Embedded preset: ".to_owned();
    push_decimal(&mut embedded, preset.embedded_length as u64);
    string_push_str(&mut embedded, " bytes");
    push_line(&mut lines, embedded);
    push_line(&mut lines, "DPI stages:".to_owned());
    let ghost p0 = texts(lines@);
    push_inspected_stages(&mut lines, preset);
    let ghost p1 = texts(lines@);
    let mut stored = "  Stored active-stage value: ".to_owned();
    push_decimal(&mut stored, preset.active_dpi_stage as u64);
    string_push_str(&mut stored, " (indexing semantics are not confirmed).");
    push_line(&mut lines, stored);
    push_line(&mut lines, "Macros:".to_owned());
    if preset.macros.len() == 0 {
        push_line(&mut lines, "  <none>".to_owned());
    }
    let ghost p2 = texts(lines@);
    let ghost macros = preset@.macros;
    let mut k: usize = 0;
    while k < preset.macros.len()
        invariant
            k <= preset.macros@.len(),
            macros == preset@.macros,
            macros.len() == preset.macros@.len(),
            texts(lines@) == p2 + inspected_macros_text(macros, k as nat),
        decreases preset.macros.len() - k,
    {
        assert(macros[k as int] == preset.macros@[k as int]@);
        let ghost prev = texts(lines@);
        push_inspected_macro(&mut lines, k + 1, &preset.macros[k]);
        proof {
            vstd::seq_lib::lemma_concat_associative(
                p2,
                inspected_macros_text(macros, k as nat),
                inspected_macro_text((k + 1) as nat, macros[k as int]),
            );
        }
        k += 1;
    }
    let ghost p3 = texts(lines@);
    let mut count = "Button assignments: ".to_owned();
    push_decimal(&mut count, preset.key_assignments.len() as u64);
    push_line(&mut lines, count);
    push_inspected_assignments(&mut lines, preset);
    push_line(
        &mut lines,
        "Not decoded from .hxp yet: polling rate, lighting fields, and physical targets for assignments."
            .to_owned(),
    );
    push_line(&mut lines, "Inspection was offline; no HID device was opened.".to_owned());
    assert(texts(lines@) =~= ngenuity_inspection_text(preset@));
    lines
}

} // verus!
