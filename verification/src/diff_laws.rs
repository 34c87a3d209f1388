//! Laws of the comparisons: a capture, a byte string or a preset compared
//! with itself shows no difference; every reported byte change is a real
//! difference and every real difference is reported; and preset
//! comparisons ignore source identifiers.
use vstd::prelude::*;
use crate::capture::{changes_from, diffs_from, max_nat, report_at, report_diff_spec, ByteChange, CapturedReport};
use crate::cli::{byte_or_none, raw_changes_from, RawByteChange};
use crate::ngenuity_diff::debug_text;
use crate::text::decimal_chars;
use crate::ngenuity::{NgenuityDpiStageView, NgenuityMacroItemView, NgenuityMacroView, NgenuityPresetView};
use crate::ngenuity_diff::{
    assignment_line, assignment_lines, assignment_reference, dpi_lines, dpi_stage_line,
    item_line, item_lines, macro_changes, macro_lines, macro_position_lines, max_len, same_item,
    semantic_changes, field_change, flag_value, opt_line,
};

verus! {

proof fn lemma_report_changes_identical(r: Option<CapturedReport>, offset: nat, count: nat)
    ensures
        changes_from(r, r, offset, count) == Seq::<ByteChange>::empty(),
    decreases count - offset,
{
    if offset < count {
        lemma_report_changes_identical(r, offset + 1, count);
    }
}

proof fn lemma_capture_diffs_identical(reports: Seq<CapturedReport>, index: nat, count: nat)
    requires
        count <= reports.len(),
    ensures
        diffs_from(reports, reports, index, count).len() == 0,
    decreases count - index,
{
    if index < count {
        let r = report_at(reports, index as int);
        lemma_report_changes_identical(r, 0, max_nat(reports[index as int].bytes@.len(), reports[index as int].bytes@.len()));
        assert(report_diff_spec(reports, reports, index as int) is None);
        lemma_capture_diffs_identical(reports, index + 1, count);
    }
}

/// A capture compared with itself has no differing report.
pub proof fn lemma_capture_diff_identical(reports: Seq<CapturedReport>)
    ensures
        diffs_from(reports, reports, 0, reports.len()).len() == 0,
{
    lemma_capture_diffs_identical(reports, 0, reports.len());
}

proof fn lemma_raw_changes_from_exact(before: Seq<u8>, after: Seq<u8>, offset: nat, count: nat)
    requires
        count <= usize::MAX,
    ensures
        forall|c: RawByteChange|
            raw_changes_from(before, after, offset, count).contains(c) <==> (offset <= c.offset
                < count && c.before == byte_or_none(before, c.offset as int) && c.after
                == byte_or_none(after, c.offset as int) && c.before != c.after),
    decreases count - offset,
{
    if offset < count {
        lemma_raw_changes_from_exact(before, after, offset + 1, count);
        let rest = raw_changes_from(before, after, offset + 1, count);
        let here = RawByteChange {
            offset: offset as usize,
            before: byte_or_none(before, offset as int),
            after: byte_or_none(after, offset as int),
        };
        assert forall|c: RawByteChange|
            raw_changes_from(before, after, offset, count).contains(c) <==> (offset <= c.offset
                < count && c.before == byte_or_none(before, c.offset as int) && c.after
                == byte_or_none(after, c.offset as int) && c.before != c.after) by {
            if byte_or_none(before, offset as int) != byte_or_none(after, offset as int) {
                let all = seq![here] + rest;
                assert(raw_changes_from(before, after, offset, count) == all);
                if all.contains(c) {
                    let k = choose|k: int| 0 <= k < all.len() && all[k] == c;
                    if k > 0 {
                        assert(rest[k - 1] == c);
                        assert(rest.contains(c));
                    }
                }
                if rest.contains(c) {
                    let k = choose|k: int| 0 <= k < rest.len() && rest[k] == c;
                    assert(all[k + 1] == c);
                }
                if c == here {
                    assert(all[0] == c);
                }
            }
        }
    }
}

/// The raw comparison reports exactly the offsets, below the longer
/// length, at which the two byte strings differ, with the byte on each side
/// (`None` past the end of the shorter string).
pub proof fn lemma_raw_changes_exact(before: Seq<u8>, after: Seq<u8>, c: RawByteChange)
    requires
        before.len() <= usize::MAX,
        after.len() <= usize::MAX,
    ensures
        raw_changes_from(before, after, 0, max_nat(before.len(), after.len())).contains(c) <==> (c.offset
            < max_nat(before.len(), after.len()) && c.before == byte_or_none(before, c.offset as int)
            && c.after == byte_or_none(after, c.offset as int) && c.before != c.after),
{
    lemma_raw_changes_from_exact(before, after, 0, max_nat(before.len(), after.len()));
}

/// A byte string compared with itself has no raw change.
pub proof fn lemma_raw_changes_identical(bytes: Seq<u8>)
    requires
        bytes.len() <= usize::MAX,
    ensures
        raw_changes_from(bytes, bytes, 0, bytes.len()).len() == 0,
{
    lemma_raw_changes_from_exact(bytes, bytes, 0, bytes.len());
    let changes = raw_changes_from(bytes, bytes, 0, bytes.len());
    if changes.len() > 0 {
        assert(changes.contains(changes[0]));
    }
}

/// Two DPI stages that agree on everything but their identifiers.
pub open spec fn same_stage(b: NgenuityDpiStageView, a: NgenuityDpiStageView) -> bool {
    b.dpi == a.dpi && b.alpha == a.alpha && b.color == a.color
}

/// Two macros that agree on everything but their identifiers and those of
/// their events.
pub open spec fn same_macro(b: NgenuityMacroView, a: NgenuityMacroView) -> bool {
    &&& b.name == a.name
    &&& b.use_standard_timing == a.use_standard_timing
    &&& b.standard_timing_ms == a.standard_timing_ms
    &&& b.expanded == a.expanded
    &&& b.playback_mode == a.playback_mode
    &&& b.play_times == a.play_times
    &&& b.items.len() == a.items.len()
    &&& forall|j: int| 0 <= j < b.items.len() ==> same_item(#[trigger] b.items[j], a.items[j])
}

/// Two presets that agree on every field the comparison reads: identifiers
/// matter only through which macro each assignment refers to.
pub open spec fn same_decoded_content(b: NgenuityPresetView, a: NgenuityPresetView) -> bool {
    &&& b.name == a.name
    &&& b.active_dpi_stage == a.active_dpi_stage
    &&& b.dpi_stages.len() == a.dpi_stages.len()
    &&& forall|i: int| 0 <= i < b.dpi_stages.len() ==> same_stage(#[trigger] b.dpi_stages[i], a.dpi_stages[i])
    &&& b.macros.len() == a.macros.len()
    &&& forall|i: int| 0 <= i < b.macros.len() ==> same_macro(#[trigger] b.macros[i], a.macros[i])
    &&& b.key_assignments.len() == a.key_assignments.len()
    &&& forall|i: int|
        0 <= i < b.key_assignments.len() ==> #[trigger] assignment_reference(b, i) == assignment_reference(a, i)
}

proof fn lemma_dpi_lines_empty(b: Seq<NgenuityDpiStageView>, a: Seq<NgenuityDpiStageView>, n: nat)
    ensures
        dpi_lines(b, a, n).len() == 0 <==> forall|i: int| 0 <= i < n ==> #[trigger] dpi_stage_line(b, a, i) is None,
    decreases n,
{
    if n > 0 {
        lemma_dpi_lines_empty(b, a, (n - 1) as nat);
        if dpi_lines(b, a, n).len() == 0 {
            assert forall|i: int| 0 <= i < n implies #[trigger] dpi_stage_line(b, a, i) is None by {
                if i < n - 1 {
                } else {
                    assert(opt_line(dpi_stage_line(b, a, n - 1)).len() == 0);
                }
            }
        }
    }
}

proof fn lemma_item_lines_empty(number: nat, b: Seq<NgenuityMacroItemView>, a: Seq<NgenuityMacroItemView>, n: nat)
    ensures
        item_lines(number, b, a, n).len() == 0 <==> forall|i: int|
            0 <= i < n ==> #[trigger] item_line(number, b, a, i) is None,
    decreases n,
{
    if n > 0 {
        lemma_item_lines_empty(number, b, a, (n - 1) as nat);
        if item_lines(number, b, a, n).len() == 0 {
            assert forall|i: int| 0 <= i < n implies #[trigger] item_line(number, b, a, i) is None by {
                if i < n - 1 {
                } else {
                    assert(opt_line(item_line(number, b, a, n - 1)).len() == 0);
                }
            }
        }
    }
}

proof fn lemma_assignment_lines_empty(b: NgenuityPresetView, a: NgenuityPresetView, n: nat)
    ensures
        assignment_lines(b, a, n).len() == 0 <==> forall|i: int|
            0 <= i < n ==> #[trigger] assignment_line(b, a, i) is None,
    decreases n,
{
    if n > 0 {
        lemma_assignment_lines_empty(b, a, (n - 1) as nat);
        if assignment_lines(b, a, n).len() == 0 {
            assert forall|i: int| 0 <= i < n implies #[trigger] assignment_line(b, a, i) is None by {
                if i < n - 1 {
                } else {
                    assert(opt_line(assignment_line(b, a, n - 1)).len() == 0);
                }
            }
        }
    }
}

proof fn lemma_macro_lines_empty(b: Seq<NgenuityMacroView>, a: Seq<NgenuityMacroView>, n: nat)
    ensures
        macro_lines(b, a, n).len() == 0 <==> forall|i: int|
            0 <= i < n ==> (#[trigger] macro_position_lines(b, a, i)).len() == 0,
    decreases n,
{
    if n > 0 {
        lemma_macro_lines_empty(b, a, (n - 1) as nat);
    }
}

/// A macro comparison gives no line exactly when the macros agree on
/// everything but identifiers.
proof fn lemma_macro_changes_empty(index: int, b: NgenuityMacroView, a: NgenuityMacroView)
    requires
        index >= 0,
    ensures
        macro_changes(index, b, a).len() == 0 <==> same_macro(b, a),
{
    let number = (index + 1) as nat;
    let count = max_len(b.items.len(), a.items.len());
    lemma_item_lines_empty(number, b.items, a.items, count);
    if same_macro(b, a) {
        assert forall|i: int| 0 <= i < count implies #[trigger] item_line(number, b.items, a.items, i) is None by {
            assert(same_item(b.items[i], a.items[i]));
        }
    }
    if macro_changes(index, b, a).len() == 0 {
        assert(field_change(number, "use-standard-timing"@, flag_value(b.use_standard_timing), flag_value(a.use_standard_timing)).len() == 0);
        assert(b.use_standard_timing == a.use_standard_timing);
        assert(b.expanded == a.expanded);
        if b.items.len() == a.items.len() {
            assert forall|j: int| 0 <= j < b.items.len() implies same_item(#[trigger] b.items[j], a.items[j]) by {
                assert(item_line(number, b.items, a.items, j) is None);
            }
        }
    }
}

/// The decoded comparison of two presets is empty exactly when they agree
/// on every compared field; in particular it ignores stage, event and
/// assignment identifiers as long as every assignment still refers to the
/// same macro position.
pub proof fn lemma_semantic_changes_empty(b: NgenuityPresetView, a: NgenuityPresetView)
    ensures
        semantic_changes(b, a).len() == 0 <==> same_decoded_content(b, a),
{
    let sn = max_len(b.dpi_stages.len(), a.dpi_stages.len());
    let mn = max_len(b.macros.len(), a.macros.len());
    let an = max_len(b.key_assignments.len(), a.key_assignments.len());
    lemma_dpi_lines_empty(b.dpi_stages, a.dpi_stages, sn);
    lemma_macro_lines_empty(b.macros, a.macros, mn);
    lemma_assignment_lines_empty(b, a, an);
    if same_decoded_content(b, a) {
        assert forall|i: int| 0 <= i < sn implies #[trigger] dpi_stage_line(b.dpi_stages, a.dpi_stages, i) is None by {
            assert(same_stage(b.dpi_stages[i], a.dpi_stages[i]));
        }
        assert forall|i: int| 0 <= i < mn implies (#[trigger] macro_position_lines(b.macros, a.macros, i)).len() == 0 by {
            assert(same_macro(b.macros[i], a.macros[i]));
            lemma_macro_changes_empty(i, b.macros[i], a.macros[i]);
        }
        assert forall|i: int| 0 <= i < an implies #[trigger] assignment_line(b, a, i) is None by {
            assert(assignment_reference(b, i) == assignment_reference(a, i));
        }
    }
    if semantic_changes(b, a).len() == 0 {
        assert(b.dpi_stages.len() == a.dpi_stages.len());
        assert(b.macros.len() == a.macros.len());
        assert(b.key_assignments.len() == a.key_assignments.len());
        assert forall|i: int| 0 <= i < b.dpi_stages.len() implies same_stage(#[trigger] b.dpi_stages[i], a.dpi_stages[i]) by {
            assert(dpi_stage_line(b.dpi_stages, a.dpi_stages, i) is None);
        }
        assert forall|i: int| 0 <= i < b.macros.len() implies same_macro(#[trigger] b.macros[i], a.macros[i]) by {
            assert(macro_position_lines(b.macros, a.macros, i).len() == 0);
            lemma_macro_changes_empty(i, b.macros[i], a.macros[i]);
        }
        assert forall|i: int| 0 <= i < b.key_assignments.len() implies #[trigger] assignment_reference(b, i)
            == assignment_reference(a, i) by {
            assert(assignment_line(b, a, i) is None);
        }
    }
}

/// Comparing two macros, as `compare_ngenuity_legacy_macro` does to its
/// lines, only appends after the lines already there, and appends none
/// exactly when the macros agree on every compared field, whatever their
/// identifiers.
pub proof fn lemma_macro_comparison_appends(
    index: int,
    before: NgenuityMacroView,
    after: NgenuityMacroView,
    earlier: Seq<Seq<char>>,
    lines: Seq<Seq<char>>,
)
    requires
        index >= 0,
        lines == earlier + macro_changes(index, before, after),
    ensures
        lines.take(earlier.len() as int) == earlier,
        lines.len() == earlier.len() <==> same_macro(before, after),
{
    lemma_macro_changes_empty(index, before, after);
    assert(lines.take(earlier.len() as int) =~= earlier);
}

/// The line of one changed macro setting, the value before first:
/// `macro <n> <field>: <before> -> <after>`.
pub open spec fn macro_setting_line(index: int, field: Seq<char>, before: u32, after: u32) -> Seq<char> {
    "macro "@ + decimal_chars((index + 1) as nat) + " "@ + field + ": "@ + decimal_chars(before as nat) + " -> "@
        + decimal_chars(after as nat)
}

/// A macro comparison reports every changed setting, the name and the
/// event count in the direction of the change: the value before first and
/// the value after second.
pub proof fn lemma_macro_changes_name_before_then_after(index: int, b: NgenuityMacroView, a: NgenuityMacroView)
    requires
        index >= 0,
    ensures
        b.name != a.name ==> macro_changes(index, b, a).contains(
            "macro "@ + decimal_chars((index + 1) as nat) + " name: "@ + debug_text(b.name) + " -> "@ + debug_text(
                a.name,
            ),
        ),
        b.use_standard_timing != a.use_standard_timing ==> macro_changes(index, b, a).contains(
            macro_setting_line(
                index,
                "use-standard-timing"@,
                if b.use_standard_timing { 1 } else { 0 },
                if a.use_standard_timing { 1 } else { 0 },
            ),
        ),
        b.standard_timing_ms != a.standard_timing_ms ==> macro_changes(index, b, a).contains(
            macro_setting_line(index, "standard timing ms"@, b.standard_timing_ms, a.standard_timing_ms),
        ),
        b.expanded != a.expanded ==> macro_changes(index, b, a).contains(
            macro_setting_line(index, "expanded"@, if b.expanded { 1 } else { 0 }, if a.expanded { 1 } else { 0 }),
        ),
        b.playback_mode != a.playback_mode ==> macro_changes(index, b, a).contains(
            macro_setting_line(index, "playback mode"@, b.playback_mode, a.playback_mode),
        ),
        b.play_times != a.play_times ==> macro_changes(index, b, a).contains(
            macro_setting_line(index, "play times"@, b.play_times as u32, a.play_times as u32),
        ),
        b.items.len() != a.items.len() ==> macro_changes(index, b, a).contains(
            "macro "@ + decimal_chars((index + 1) as nat) + " event count: "@ + decimal_chars(b.items.len())
                + " -> "@ + decimal_chars(a.items.len()),
        ),
{
    let number = (index + 1) as nat;
    let name = if b.name != a.name {
        seq![
            "macro "@ + decimal_chars(number) + " name: "@ + debug_text(b.name) + " -> "@ + debug_text(a.name),
        ]
    } else {
        seq![]
    };
    let f1 = field_change(number, "use-standard-timing"@, flag_value(b.use_standard_timing), flag_value(a.use_standard_timing));
    let f2 = field_change(number, "standard timing ms"@, b.standard_timing_ms, a.standard_timing_ms);
    let f3 = field_change(number, "expanded"@, flag_value(b.expanded), flag_value(a.expanded));
    let f4 = field_change(number, "playback mode"@, b.playback_mode, a.playback_mode);
    let f5 = field_change(number, "play times"@, b.play_times as u32, a.play_times as u32);
    let count = if b.items.len() != a.items.len() {
        seq![
            "macro "@ + decimal_chars(number) + " event count: "@ + decimal_chars(b.items.len()) + " -> "@
                + decimal_chars(a.items.len()),
        ]
    } else {
        seq![]
    };
    let rest = item_lines(number, b.items, a.items, max_len(b.items.len(), a.items.len()));
    let all = macro_changes(index, b, a);
    assert(all == name + f1 + f2 + f3 + f4 + f5 + count + rest);
    if b.name != a.name {
        assert(all[0] == name[0]);
    }
    if b.use_standard_timing != a.use_standard_timing {
        assert(all[name.len() as int] == f1[0]);
    }
    if b.standard_timing_ms != a.standard_timing_ms {
        assert(all[name.len() as int + f1.len()] == f2[0]);
    }
    if b.expanded != a.expanded {
        assert(all[name.len() as int + f1.len() + f2.len()] == f3[0]);
    }
    if b.playback_mode != a.playback_mode {
        assert(all[name.len() as int + f1.len() + f2.len() + f3.len()] == f4[0]);
    }
    if b.play_times != a.play_times {
        assert(all[name.len() as int + f1.len() + f2.len() + f3.len() + f4.len()] == f5[0]);
    }
    if b.items.len() != a.items.len() {
        assert(all[name.len() as int + f1.len() + f2.len() + f3.len() + f4.len() + f5.len()] == count[0]);
    }
}

} // verus!
