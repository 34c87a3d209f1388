//! Decoded comparison of two NGENUITY Legacy presets: one line of text per
//! changed field, stage, macro, macro event and assignment. Source
//! identifiers are ignored, except to resolve which macro an assignment
//! refers to.
use vstd::prelude::*;
use crate::color::color_text;
use crate::ngenuity::{
    decoded_action_spec, mouse_button_name, usage_name, NgenuityDpiStage, NgenuityDpiStageView,
    NgenuityInputAction, NgenuityMacro, NgenuityMacroItem, NgenuityMacroItemView,
    NgenuityMacroView, NgenuityPreset, NgenuityPresetView, keyboard_usage_name,
};
use crate::text::{decimal_chars, push_decimal, push_u16_hex_upper, string_push_str, u16_hex_upper};

verus! {

/// What `format!("{:?}", text)` gives for a string: std's `Debug` form, in
/// double quotes with special characters escaped.
pub uninterp spec fn debug_text(text: Seq<char>) -> Seq<char>;

/// `format!("{:?}", text)` for a string slice.
#[verifier::external_body]
pub(crate) fn debug_quoted(text: &str) -> (quoted: String)
    ensures
        quoted@ == debug_text(text@),
{
    format!("{:?}", text)
}

/// The texts of a list of strings.
pub open spec fn texts(lines: Seq<String>) -> Seq<Seq<char>> {
    lines.map_values(|s: String| s@)
}

/// A one-line sequence for a present line, else no line.
pub open spec fn opt_line(line: Option<Seq<char>>) -> Seq<Seq<char>> {
    match line {
        Some(l) => seq![l],
        None => seq![],
    }
}

pub open spec fn max_len(a: nat, b: nat) -> nat {
    if a >= b {
        a
    } else {
        b
    }
}

/// `label` followed by the two values, when they differ.
pub open spec fn count_change(label: Seq<char>, before: nat, after: nat) -> Seq<Seq<char>> {
    if before != after {
        seq![label + decimal_chars(before) + " -> "@ + decimal_chars(after)]
    } else {
        seq![]
    }
}

/// One DPI stage as `<dpi> DPI #RRGGBB/alpha <alpha>`.
pub open spec fn stage_text(stage: NgenuityDpiStageView) -> Seq<char> {
    decimal_chars(stage.dpi as nat) + " DPI "@ + color_text(stage.color) + "/alpha "@
        + decimal_chars(stage.alpha as nat)
}

/// The line for the stage at `index`, when it changed, was added or was
/// removed; identifiers are not compared.
pub open spec fn dpi_stage_line(
    before: Seq<NgenuityDpiStageView>,
    after: Seq<NgenuityDpiStageView>,
    index: int,
) -> Option<Seq<char>> {
    let number = decimal_chars((index + 1) as nat);
    if index < before.len() && index < after.len() {
        let left = before[index];
        let right = after[index];
        if left.dpi != right.dpi || left.alpha != right.alpha || left.color != right.color {
            Some("DPI stage "@ + number + ": "@ + stage_text(left) + " -> "@ + stage_text(right))
        } else {
            None
        }
    } else if index < after.len() {
        Some("DPI stage "@ + number + " added: "@ + stage_text(after[index]))
    } else if index < before.len() {
        Some("DPI stage "@ + number + " removed: "@ + stage_text(before[index]))
    } else {
        None
    }
}

/// The DPI stage lines of the first `n` positions.
pub open spec fn dpi_lines(
    before: Seq<NgenuityDpiStageView>,
    after: Seq<NgenuityDpiStageView>,
    n: nat,
) -> Seq<Seq<char>>
    decreases n,
{
    if n == 0 {
        seq![]
    } else {
        dpi_lines(before, after, (n - 1) as nat) + opt_line(dpi_stage_line(before, after, n - 1))
    }
}

/// Whether two recorded events agree in every field but the identifier.
pub open spec fn same_item(a: NgenuityMacroItemView, b: NgenuityMacroItemView) -> bool {
    a.item_type == b.item_type && a.action == b.action && a.state == b.state && a.data == b.data
        && a.timing_ms == b.timing_ms && a.key_data == b.key_data
}

pub open spec fn down_up(pressed: bool) -> Seq<char> {
    if pressed {
        "down"@
    } else {
        "up"@
    }
}

/// A recorded event in words: the key or button and its transition, or the
/// raw fields of an event of unknown kind.
pub open spec fn describe_item(item: NgenuityMacroItemView) -> Seq<char> {
    match decoded_action_spec(item) {
        Some(NgenuityInputAction::Keyboard { usage, pressed }) => "key-"@ + down_up(pressed) + " "@
            + match usage_name(usage) {
            Some(name) => name,
            None => "usage-0x"@ + u16_hex_upper(usage),
        } + " (HID 0x"@ + u16_hex_upper(usage) + ")"@,
        Some(NgenuityInputAction::MouseButton { button, pressed }) => "mouse-"@ + down_up(pressed)
            + " "@ + mouse_button_name(button),
        None => "unknown type="@ + decimal_chars(item.item_type as nat) + " action="@
            + decimal_chars(item.action as nat) + " state="@ + decimal_chars(item.state as nat)
            + " data="@ + decimal_chars(item.data as nat) + " key-data=0x"@ + u16_hex_upper(
            item.key_data,
        ),
    }
}

/// A recorded event with its stored timing.
pub open spec fn item_text(item: NgenuityMacroItemView) -> Seq<char> {
    describe_item(item) + " (stored "@ + decimal_chars(item.timing_ms as nat) + " ms)"@
}

/// The line for the event at `index` of macro `number`.
pub open spec fn item_line(
    number: nat,
    before: Seq<NgenuityMacroItemView>,
    after: Seq<NgenuityMacroItemView>,
    index: int,
) -> Option<Seq<char>> {
    let prefix = "macro "@ + decimal_chars(number) + " event "@ + decimal_chars((index + 1) as nat);
    if index < before.len() && index < after.len() {
        if !same_item(before[index], after[index]) {
            Some(prefix + ": "@ + item_text(before[index]) + " -> "@ + item_text(after[index]))
        } else {
            None
        }
    } else if index < after.len() {
        Some(prefix + " added: "@ + item_text(after[index]))
    } else if index < before.len() {
        Some(prefix + " removed: "@ + item_text(before[index]))
    } else {
        None
    }
}

/// The event lines of the first `n` positions of macro `number`.
pub open spec fn item_lines(
    number: nat,
    before: Seq<NgenuityMacroItemView>,
    after: Seq<NgenuityMacroItemView>,
    n: nat,
) -> Seq<Seq<char>>
    decreases n,
{
    if n == 0 {
        seq![]
    } else {
        item_lines(number, before, after, (n - 1) as nat) + opt_line(
            item_line(number, before, after, n - 1),
        )
    }
}

pub open spec fn flag_value(flag: bool) -> u32 {
    if flag {
        1
    } else {
        0
    }
}

/// `macro <number> <field>: <before> -> <after>` when the values differ.
pub open spec fn field_change(number: nat, field: Seq<char>, before: u32, after: u32) -> Seq<
    Seq<char>,
> {
    if before != after {
        seq![
            "macro "@ + decimal_chars(number) + " "@ + field + ": "@ + decimal_chars(before as nat)
                + " -> "@ + decimal_chars(after as nat),
        ]
    } else {
        seq![]
    }
}

/// The lines comparing two macros at the same position.
pub open spec fn macro_changes(index: int, before: NgenuityMacroView, after: NgenuityMacroView) -> Seq<
    Seq<char>,
> {
    let number = (index + 1) as nat;
    let name = if before.name != after.name {
        seq![
            "macro "@ + decimal_chars(number) + " name: "@ + debug_text(before.name) + " -> "@
                + debug_text(after.name),
        ]
    } else {
        seq![]
    };
    let count = if before.items.len() != after.items.len() {
        seq![
            "macro "@ + decimal_chars(number) + " event count: "@ + decimal_chars(before.items.len())
                + " -> "@ + decimal_chars(after.items.len()),
        ]
    } else {
        seq![]
    };
    name + field_change(
        number,
        "use-standard-timing"@,
        flag_value(before.use_standard_timing),
        flag_value(after.use_standard_timing),
    ) + field_change(number, "standard timing ms"@, before.standard_timing_ms, after.standard_timing_ms)
        + field_change(number, "expanded"@, flag_value(before.expanded), flag_value(after.expanded))
        + field_change(number, "playback mode"@, before.playback_mode, after.playback_mode)
        + field_change(number, "play times"@, before.play_times as u32, after.play_times as u32)
        + count + item_lines(number, before.items, after.items, max_len(before.items.len(), after.items.len()))
}

/// The lines for the macro position `index`.
pub open spec fn macro_position_lines(
    before: Seq<NgenuityMacroView>,
    after: Seq<NgenuityMacroView>,
    index: int,
) -> Seq<Seq<char>> {
    let number = decimal_chars((index + 1) as nat);
    if index < before.len() && index < after.len() {
        macro_changes(index, before[index], after[index])
    } else if index < after.len() {
        seq!["macro "@ + number + " added: "@ + debug_text(after[index].name)]
    } else if index < before.len() {
        seq!["macro "@ + number + " removed: "@ + debug_text(before[index].name)]
    } else {
        seq![]
    }
}

/// The macro lines of the first `n` positions.
pub open spec fn macro_lines(
    before: Seq<NgenuityMacroView>,
    after: Seq<NgenuityMacroView>,
    n: nat,
) -> Seq<Seq<char>>
    decreases n,
{
    if n == 0 {
        seq![]
    } else {
        macro_lines(before, after, (n - 1) as nat) + macro_position_lines(before, after, n - 1)
    }
}

/// The one-based position of the first macro from `start` on with this
/// identifier.
pub open spec fn macro_position_from(macros: Seq<NgenuityMacroView>, id: Seq<u8>, start: int) -> Option<
    int,
>
    decreases macros.len() - start,
{
    if start < 0 || start >= macros.len() {
        None
    } else if macros[start].source_id == id {
        Some(start + 1)
    } else {
        macro_position_from(macros, id, start + 1)
    }
}

/// Which macro (one-based) the assignment at `index` refers to, if any.
pub open spec fn assignment_reference(preset: NgenuityPresetView, index: int) -> Option<int> {
    if 0 <= index < preset.key_assignments.len() {
        match preset.key_assignments[index].macro_source_id {
            Some(id) => macro_position_from(preset.macros, id, 0),
            None => None,
        }
    } else {
        None
    }
}

pub open spec fn reference_text(reference: Option<int>) -> Seq<char> {
    match reference {
        Some(i) => "macro "@ + decimal_chars(i as nat),
        None => "none/unresolved"@,
    }
}

/// The line for the assignment at `index`, when the macro it refers to
/// changed.
pub open spec fn assignment_line(before: NgenuityPresetView, after: NgenuityPresetView, index: int) -> Option<
    Seq<char>,
> {
    let left = assignment_reference(before, index);
    let right = assignment_reference(after, index);
    if left != right {
        Some(
            "assignment "@ + decimal_chars((index + 1) as nat) + " macro reference: "@
                + reference_text(left) + " -> "@ + reference_text(right),
        )
    } else {
        None
    }
}

/// The assignment lines of the first `n` positions.
pub open spec fn assignment_lines(before: NgenuityPresetView, after: NgenuityPresetView, n: nat) -> Seq<
    Seq<char>,
>
    decreases n,
{
    if n == 0 {
        seq![]
    } else {
        assignment_lines(before, after, (n - 1) as nat) + opt_line(
            assignment_line(before, after, n - 1),
        )
    }
}

/// Every decoded difference between two presets, in order: name, DPI
/// stages, stored active stage, macros, assignments.
pub open spec fn semantic_changes(before: NgenuityPresetView, after: NgenuityPresetView) -> Seq<
    Seq<char>,
> {
    let name = if before.name != after.name {
        seq!["name: "@ + debug_text(before.name) + " -> "@ + debug_text(after.name)]
    } else {
        seq![]
    };
    let active = if before.active_dpi_stage != after.active_dpi_stage {
        seq![
            "stored active-stage value: "@ + decimal_chars(before.active_dpi_stage as nat) + " -> "@
                + decimal_chars(after.active_dpi_stage as nat),
        ]
    } else {
        seq![]
    };
    name + count_change("DPI stage count: "@, before.dpi_stages.len(), after.dpi_stages.len())
        + dpi_lines(
        before.dpi_stages,
        after.dpi_stages,
        max_len(before.dpi_stages.len(), after.dpi_stages.len()),
    ) + active + count_change("macro count: "@, before.macros.len(), after.macros.len())
        + macro_lines(before.macros, after.macros, max_len(before.macros.len(), after.macros.len()))
        + count_change(
        "assignment count: "@,
        before.key_assignments.len(),
        after.key_assignments.len(),
    ) + assignment_lines(
        before,
        after,
        max_len(before.key_assignments.len(), after.key_assignments.len()),
    )
}

proof fn lemma_add_assoc(a: Seq<Seq<char>>, b: Seq<Seq<char>>, c: Seq<Seq<char>>)
    ensures
        a + b + c == a + (b + c),
{
    vstd::seq_lib::lemma_concat_associative(a, b, c);
}

/// Append one line.
fn push_line(changes: &mut Vec<String>, line: String)
    ensures
        texts(final(changes)@) == texts(old(changes)@) + seq![line@],
{
    let ghost before = changes@;
    changes.push(line);
    assert(texts(changes@) =~= texts(before) + seq![line@]);
}

/// Append a line when there is one.
fn push_opt_line(changes: &mut Vec<String>, line: Option<String>)
    ensures
        texts(final(changes)@) == texts(old(changes)@) + opt_line(
            match line {
                Some(l) => Some(l@),
                None => None,
            },
        ),
{
    match line {
        Some(l) => push_line(changes, l),
        None => {
            assert(texts(changes@) + seq![] =~= texts(changes@));
        },
    }
}

/// `label` followed by the two values, when they differ.
fn push_count_change(changes: &mut Vec<String>, label: &str, before: usize, after: usize)
    ensures
        texts(final(changes)@) == texts(old(changes)@) + count_change(
            label@,
            before as nat,
            after as nat,
        ),
{
    if before != after {
        let mut line = label.to_owned();
        push_decimal(&mut line, before as u64);
        string_push_str(&mut line, " -> ");
        push_decimal(&mut line, after as u64);
        push_line(changes, line);
    } else {
        assert(texts(changes@) + seq![] =~= texts(changes@));
    }
}

/// One DPI stage as `<dpi> DPI #RRGGBB/alpha <alpha>`.
fn stage_string(stage: &NgenuityDpiStage) -> (text: String)
    ensures
        text@ == stage_text(stage@),
{
    let mut text = crate::text::decimal_string(stage.dpi as u64);
    string_push_str(&mut text, " DPI ");
    let color = stage.color.to_string();
    string_push_str(&mut text, color.as_str());
    string_push_str(&mut text, "/alpha ");
    push_decimal(&mut text, stage.alpha as u64);
    text
}

fn dpi_stage_change(before: &Vec<NgenuityDpiStage>, after: &Vec<NgenuityDpiStage>, index: usize) -> (line:
    Option<String>)
    requires
        index < usize::MAX,
    ensures
        match line {
            Some(l) => Some(l@),
            None => None,
        } == dpi_stage_line(
            before@.map_values(|d: NgenuityDpiStage| d@),
            after@.map_values(|d: NgenuityDpiStage| d@),
            index as int,
        ),
{
    let ghost bv = before@.map_values(|d: NgenuityDpiStage| d@);
    let ghost av = after@.map_values(|d: NgenuityDpiStage| d@);
    if index < before.len() && index < after.len() {
        let left = &before[index];
        let right = &after[index];
        assert(bv[index as int] == left@);
        assert(av[index as int] == right@);
        if left.dpi != right.dpi || left.alpha != right.alpha || left.color != right.color {
            let mut line = "DPI stage ".to_owned();
            push_decimal(&mut line, (index + 1) as u64);
            string_push_str(&mut line, ": ");
            let l = stage_string(left);
            string_push_str(&mut line, l.as_str());
            string_push_str(&mut line, " -> ");
            let r = stage_string(right);
            string_push_str(&mut line, r.as_str());
            Some(line)
        } else {
            None
        }
    } else if index < after.len() {
        assert(av[index as int] == after@[index as int]@);
        let mut line = "DPI stage ".to_owned();
        push_decimal(&mut line, (index + 1) as u64);
        string_push_str(&mut line, " added: ");
        let t = stage_string(&after[index]);
        string_push_str(&mut line, t.as_str());
        Some(line)
    } else if index < before.len() {
        assert(bv[index as int] == before@[index as int]@);
        let mut line = "DPI stage ".to_owned();
        push_decimal(&mut line, (index + 1) as u64);
        string_push_str(&mut line, " removed: ");
        let t = stage_string(&before[index]);
        string_push_str(&mut line, t.as_str());
        Some(line)
    } else {
        None
    }
}

/// Whether two recorded events agree in every field but the identifier.
pub fn same_ngenuity_legacy_macro_item(before: &NgenuityMacroItem, after: &NgenuityMacroItem) -> (same:
    bool)
    ensures
        same == same_item(before@, after@),
{
    before.item_type == after.item_type && before.action == after.action && before.state
        == after.state && before.data == after.data && before.timing_ms == after.timing_ms
        && before.key_data == after.key_data
}

/// A recorded event in words.
pub fn describe_ngenuity_legacy_macro_item(item: &NgenuityMacroItem) -> (text: String)
    ensures
        text@ == describe_item(item@),
{
    match item.decoded_action() {
        Some(NgenuityInputAction::Keyboard { usage, pressed }) => {
            let key = match keyboard_usage_name(usage) {
                Some(name) => name,
                None => {
                    let mut k = "usage-0x".to_owned();
                    push_u16_hex_upper(&mut k, usage);
                    k
                },
            };
            let mut text = "key-".to_owned();
            string_push_str(&mut text, if pressed { "down" } else { "up" });
            string_push_str(&mut text, " ");
            string_push_str(&mut text, key.as_str());
            string_push_str(&mut text, " (HID 0x");
            push_u16_hex_upper(&mut text, usage);
            string_push_str(&mut text, ")");
            text
        },
        Some(NgenuityInputAction::MouseButton { button, pressed }) => {
            let mut text = "mouse-".to_owned();
            string_push_str(&mut text, if pressed { "down" } else { "up" });
            string_push_str(&mut text, " ");
            string_push_str(&mut text, button.name());
            text
        },
        None => {
            let mut text = "unknown type=".to_owned();
            push_decimal(&mut text, item.item_type as u64);
            string_push_str(&mut text, " action=");
            push_decimal(&mut text, item.action as u64);
            string_push_str(&mut text, " state=");
            push_decimal(&mut text, item.state as u64);
            string_push_str(&mut text, " data=");
            push_decimal(&mut text, item.data as u64);
            string_push_str(&mut text, " key-data=0x");
            push_u16_hex_upper(&mut text, item.key_data);
            text
        },
    }
}

fn item_string(item: &NgenuityMacroItem) -> (text: String)
    ensures
        text@ == item_text(item@),
{
    let mut text = describe_ngenuity_legacy_macro_item(item);
    string_push_str(&mut text, " (stored ");
    push_decimal(&mut text, item.timing_ms as u64);
    string_push_str(&mut text, " ms)");
    text
}

fn item_change(
    number: usize,
    before: &Vec<NgenuityMacroItem>,
    after: &Vec<NgenuityMacroItem>,
    index: usize,
) -> (line: Option<String>)
    requires
        index < usize::MAX,
    ensures
        match line {
            Some(l) => Some(l@),
            None => None,
        } == item_line(
            number as nat,
            before@.map_values(|i: NgenuityMacroItem| i@),
            after@.map_values(|i: NgenuityMacroItem| i@),
            index as int,
        ),
{
    let ghost bv = before@.map_values(|i: NgenuityMacroItem| i@);
    let ghost av = after@.map_values(|i: NgenuityMacroItem| i@);
    let mut prefix = "macro ".to_owned();
    push_decimal(&mut prefix, number as u64);
    string_push_str(&mut prefix, " event ");
    push_decimal(&mut prefix, (index + 1) as u64);
    if index < before.len() && index < after.len() {
        assert(bv[index as int] == before@[index as int]@);
        assert(av[index as int] == after@[index as int]@);
        if !same_ngenuity_legacy_macro_item(&before[index], &after[index]) {
            let mut line = prefix;
            string_push_str(&mut line, ": ");
            let l = item_string(&before[index]);
            string_push_str(&mut line, l.as_str());
            string_push_str(&mut line, " -> ");
            let r = item_string(&after[index]);
            string_push_str(&mut line, r.as_str());
            Some(line)
        } else {
            None
        }
    } else if index < after.len() {
        assert(av[index as int] == after@[index as int]@);
        let mut line = prefix;
        string_push_str(&mut line, " added: ");
        let t = item_string(&after[index]);
        string_push_str(&mut line, t.as_str());
        Some(line)
    } else if index < before.len() {
        assert(bv[index as int] == before@[index as int]@);
        let mut line = prefix;
        string_push_str(&mut line, " removed: ");
        let t = item_string(&before[index]);
        string_push_str(&mut line, t.as_str());
        Some(line)
    } else {
        None
    }
}

fn push_field_change(changes: &mut Vec<String>, number: usize, field: &str, before: u32, after: u32)
    ensures
        texts(final(changes)@) == texts(old(changes)@) + field_change(
            number as nat,
            field@,
            before,
            after,
        ),
{
    if before != after {
        let mut line = "macro ".to_owned();
        push_decimal(&mut line, number as u64);
        string_push_str(&mut line, " ");
        string_push_str(&mut line, field);
        string_push_str(&mut line, ": ");
        push_decimal(&mut line, before as u64);
        string_push_str(&mut line, " -> ");
        push_decimal(&mut line, after as u64);
        push_line(changes, line);
    } else {
        assert(texts(changes@) + seq![] =~= texts(changes@));
    }
}

/// Append the lines comparing two macros at position `index`: name, the
/// five settings, the event count, then each event.
pub fn compare_ngenuity_legacy_macro(
    index: usize,
    before: &NgenuityMacro,
    after: &NgenuityMacro,
    changes: &mut Vec<String>,
)
    requires
        index < usize::MAX,
    ensures
        texts(final(changes)@) == texts(old(changes)@) + macro_changes(index as int, before@, after@),
{
    let ghost start = texts(changes@);
    let ghost b = before@;
    let ghost a = after@;
    let number = index + 1;
    let ghost nat_number = number as nat;
    let ghost name_part = if b.name != a.name {
        seq![
            "macro "@ + decimal_chars(nat_number) + " name: "@ + debug_text(b.name) + " -> "@
                + debug_text(a.name),
        ]
    } else {
        seq![]
    };
    if before.name != after.name {
        let mut line = "macro ".to_owned();
        push_decimal(&mut line, number as u64);
        string_push_str(&mut line, " name: ");
        let l = debug_quoted(before.name.as_str());
        string_push_str(&mut line, l.as_str());
        string_push_str(&mut line, " -> ");
        let r = debug_quoted(after.name.as_str());
        string_push_str(&mut line, r.as_str());
        push_line(changes, line);
    } else {
        assert(texts(changes@) + seq![] =~= texts(changes@));
    }
    assert(texts(changes@) == start + name_part);
    let ghost f1 = field_change(
        nat_number,
        "use-standard-timing"@,
        flag_value(b.use_standard_timing),
        flag_value(a.use_standard_timing),
    );
    let ghost f2 = field_change(nat_number, "standard timing ms"@, b.standard_timing_ms, a.standard_timing_ms);
    let ghost f3 = field_change(nat_number, "expanded"@, flag_value(b.expanded), flag_value(a.expanded));
    let ghost f4 = field_change(nat_number, "playback mode"@, b.playback_mode, a.playback_mode);
    let ghost f5 = field_change(nat_number, "play times"@, b.play_times as u32, a.play_times as u32);
    push_field_change(
        changes,
        number,
        "use-standard-timing",
        if before.use_standard_timing { 1 } else { 0 },
        if after.use_standard_timing { 1 } else { 0 },
    );
    push_field_change(changes, number, "standard timing ms", before.standard_timing_ms, after.standard_timing_ms);
    push_field_change(
        changes,
        number,
        "expanded",
        if before.expanded { 1 } else { 0 },
        if after.expanded { 1 } else { 0 },
    );
    push_field_change(changes, number, "playback mode", before.playback_mode, after.playback_mode);
    push_field_change(changes, number, "play times", before.play_times as u32, after.play_times as u32);
    assert(texts(changes@) == start + name_part + f1 + f2 + f3 + f4 + f5);
    let ghost count_part = if b.items.len() != a.items.len() {
        seq![
            "macro "@ + decimal_chars(nat_number) + " event count: "@ + decimal_chars(b.items.len())
                + " -> "@ + decimal_chars(a.items.len()),
        ]
    } else {
        seq![]
    };
    if before.items.len() != after.items.len() {
        let mut line = "macro ".to_owned();
        push_decimal(&mut line, number as u64);
        string_push_str(&mut line, " event count: ");
        push_decimal(&mut line, before.items.len() as u64);
        string_push_str(&mut line, " -> ");
        push_decimal(&mut line, after.items.len() as u64);
        push_line(changes, line);
    } else {
        assert(texts(changes@) + seq![] =~= texts(changes@));
    }
    let ghost head = name_part + f1 + f2 + f3 + f4 + f5 + count_part;
    assert(texts(changes@) == start + name_part + f1 + f2 + f3 + f4 + f5 + count_part);
    let count = if before.items.len() >= after.items.len() {
        before.items.len()
    } else {
        after.items.len()
    };
    let mut event: usize = 0;
    while event < count
        invariant
            event <= count,
            count == max_len(before.items@.len(), after.items@.len()),
            b == before@,
            a == after@,
            number == index + 1,
            texts(changes@) == start + name_part + f1 + f2 + f3 + f4 + f5 + count_part + item_lines(
                number as nat,
                b.items,
                a.items,
                event as nat,
            ),
        decreases count - event,
    {
        let line = item_change(number, &before.items, &after.items, event);
        let ghost prev = texts(changes@);
        push_opt_line(changes, line);
        proof {
            lemma_add_assoc(
                start + name_part + f1 + f2 + f3 + f4 + f5 + count_part,
                item_lines(number as nat, b.items, a.items, event as nat),
                opt_line(item_line(number as nat, b.items, a.items, event as int)),
            );
        }
        event += 1;
    }
    assert(macro_changes(index as int, b, a) == head + item_lines(
        nat_number,
        b.items,
        a.items,
        max_len(b.items.len(), a.items.len()),
    ));
    proof {
        lemma_add_assoc(start, head, item_lines(nat_number, b.items, a.items, count as nat));
        lemma_add_assoc(start, name_part + f1 + f2 + f3 + f4 + f5, count_part);
        lemma_add_assoc(start, name_part + f1 + f2 + f3 + f4, f5);
        lemma_add_assoc(start, name_part + f1 + f2 + f3, f4);
        lemma_add_assoc(start, name_part + f1 + f2, f3);
        lemma_add_assoc(start, name_part + f1, f2);
        lemma_add_assoc(start, name_part, f1);
    }
}

fn same_id(a: &[u8; 16], b: &[u8; 16]) -> (same: bool)
    ensures
        same == (a@ == b@),
{
    let mut i: usize = 0;
    while i < 16
        invariant
            i <= 16,
            a@.len() == 16,
            b@.len() == 16,
            forall|j: int| 0 <= j < i ==> a@[j] == b@[j],
        decreases 16 - i,
    {
        if a[i] != b[i] {
            return false;
        }
        i += 1;
    }
    assert(a@ =~= b@);
    true
}

/// The one-based position of the first macro with identifier `id`.
pub fn macro_reference_index(preset: &NgenuityPreset, id: Option<[u8; 16]>) -> (reference: Option<
    usize,
>)
    ensures
        match id {
            Some(i) => match reference {
                Some(k) => macro_position_from(preset@.macros, i@, 0) == Some(k as int),
                None => macro_position_from(preset@.macros, i@, 0) is None,
            },
            None => reference is None,
        },
{
    let wanted = match id {
        Some(i) => i,
        None => return None,
    };
    let ghost macros = preset@.macros;
    let mut i: usize = 0;
    while i < preset.macros.len()
        invariant
            i <= preset.macros@.len(),
            id == Some(wanted),
            macros == preset@.macros,
            macros.len() == preset.macros@.len(),
            macro_position_from(macros, wanted@, 0) == macro_position_from(macros, wanted@, i as int),
        decreases preset.macros.len() - i,
    {
        assert(macros[i as int] == preset.macros@[i as int]@);
        if same_id(&preset.macros[i].source_id, &wanted) {
            assert(macro_position_from(macros, wanted@, i as int) == Some(i as int + 1));
            return Some(i + 1);
        }
        i += 1;
    }
    None
}

/// `macro <n>` for a resolved reference, else `none/unresolved`.
pub fn format_macro_reference(reference: Option<usize>) -> (text: String)
    ensures
        text@ == reference_text(
            match reference {
                Some(k) => Some(k as int),
                None => None,
            },
        ),
{
    match reference {
        Some(k) => {
            let mut text = "macro ".to_owned();
            push_decimal(&mut text, k as u64);
            text
        },
        None => "none/unresolved".to_owned(),
    }
}

fn assignment_reference_index(preset: &NgenuityPreset, index: usize) -> (reference: Option<usize>)
    ensures
        assignment_reference(preset@, index as int) == match reference {
            Some(k) => Some(k as int),
            None => None,
        },
{
    if index < preset.key_assignments.len() {
        assert(preset@.key_assignments[index as int] == preset.key_assignments@[index as int]@);
        macro_reference_index(preset, preset.key_assignments[index].macro_source_id)
    } else {
        None
    }
}

/// Every decoded difference between two presets, one line each, in the
/// order name, DPI stages, stored active stage, macros, assignments.
/// Identifier-only differences give no line.
pub fn semantic_ngenuity_legacy_changes(before: &NgenuityPreset, after: &NgenuityPreset) -> (changes:
    Vec<String>)
    ensures
        texts(changes@) == semantic_changes(before@, after@),
{
    let ghost b = before@;
    let ghost a = after@;
    let mut changes: Vec<String> = Vec::new();
    let ghost name_part = if b.name != a.name {
        seq!["name: "@ + debug_text(b.name) + " -> "@ + debug_text(a.name)]
    } else {
        seq![]
    };
    if before.name != after.name {
        let mut line = "name: ".to_owned();
        let l = debug_quoted(before.name.as_str());
        string_push_str(&mut line, l.as_str());
        string_push_str(&mut line, " -> ");
        let r = debug_quoted(after.name.as_str());
        string_push_str(&mut line, r.as_str());
        push_line(&mut changes, line);
    }
    assert(texts(changes@) =~= name_part);

    push_count_change(&mut changes, "DPI stage count: ", before.dpi_stages.len(), after.dpi_stages.len());
    let ghost p1 = name_part + count_change("DPI stage count: "@, b.dpi_stages.len(), a.dpi_stages.len());
    let stages = if before.dpi_stages.len() >= after.dpi_stages.len() {
        before.dpi_stages.len()
    } else {
        after.dpi_stages.len()
    };
    let mut index: usize = 0;
    while index < stages
        invariant
            index <= stages,
            stages == max_len(b.dpi_stages.len(), a.dpi_stages.len()),
            b == before@,
            a == after@,
            texts(changes@) == p1 + dpi_lines(b.dpi_stages, a.dpi_stages, index as nat),
        decreases stages - index,
    {
        let line = dpi_stage_change(&before.dpi_stages, &after.dpi_stages, index);
        push_opt_line(&mut changes, line);
        proof {
            lemma_add_assoc(
                p1,
                dpi_lines(b.dpi_stages, a.dpi_stages, index as nat),
                opt_line(dpi_stage_line(b.dpi_stages, a.dpi_stages, index as int)),
            );
        }
        index += 1;
    }
    let ghost p2 = p1 + dpi_lines(b.dpi_stages, a.dpi_stages, stages as nat);
    let ghost active_part = if b.active_dpi_stage != a.active_dpi_stage {
        seq![
            "stored active-stage value: "@ + decimal_chars(b.active_dpi_stage as nat) + " -> "@
                + decimal_chars(a.active_dpi_stage as nat),
        ]
    } else {
        seq![]
    };
    if before.active_dpi_stage != after.active_dpi_stage {
        let mut line = "stored active-stage value: ".to_owned();
        push_decimal(&mut line, before.active_dpi_stage as u64);
        string_push_str(&mut line, " -> ");
        push_decimal(&mut line, after.active_dpi_stage as u64);
        push_line(&mut changes, line);
    } else {
        assert(texts(changes@) + seq![] =~= texts(changes@));
    }
    push_count_change(&mut changes, "macro count: ", before.macros.len(), after.macros.len());
    let ghost p3 = p2 + active_part + count_change("macro count: "@, b.macros.len(), a.macros.len());
    let macro_count = if before.macros.len() >= after.macros.len() {
        before.macros.len()
    } else {
        after.macros.len()
    };
    let mut index: usize = 0;
    while index < macro_count
        invariant
            index <= macro_count,
            macro_count == max_len(b.macros.len(), a.macros.len()),
            b == before@,
            a == after@,
            texts(changes@) == p3 + macro_lines(b.macros, a.macros, index as nat),
        decreases macro_count - index,
    {
        let ghost prev = texts(changes@);
        let number = index + 1;
        if index < before.macros.len() && index < after.macros.len() {
            assert(b.macros[index as int] == before.macros@[index as int]@);
            assert(a.macros[index as int] == after.macros@[index as int]@);
            compare_ngenuity_legacy_macro(index, &before.macros[index], &after.macros[index], &mut changes);
        } else if index < after.macros.len() {
            assert(a.macros[index as int] == after.macros@[index as int]@);
            let mut line = "macro ".to_owned();
            push_decimal(&mut line, number as u64);
            string_push_str(&mut line, " added: ");
            let t = debug_quoted(after.macros[index].name.as_str());
            string_push_str(&mut line, t.as_str());
            push_line(&mut changes, line);
        } else {
            assert(b.macros[index as int] == before.macros@[index as int]@);
            let mut line = "macro ".to_owned();
            push_decimal(&mut line, number as u64);
            string_push_str(&mut line, " removed: ");
            let t = debug_quoted(before.macros[index].name.as_str());
            string_push_str(&mut line, t.as_str());
            push_line(&mut changes, line);
        }
        assert(texts(changes@) == prev + macro_position_lines(b.macros, a.macros, index as int));
        proof {
            lemma_add_assoc(
                p3,
                macro_lines(b.macros, a.macros, index as nat),
                macro_position_lines(b.macros, a.macros, index as int),
            );
        }
        index += 1;
    }
    push_count_change(
        &mut changes,
        "assignment count: ",
        before.key_assignments.len(),
        after.key_assignments.len(),
    );
    let ghost p4 = p3 + macro_lines(b.macros, a.macros, macro_count as nat) + count_change(
        "assignment count: "@,
        b.key_assignments.len(),
        a.key_assignments.len(),
    );
    let assignment_count = if before.key_assignments.len() >= after.key_assignments.len() {
        before.key_assignments.len()
    } else {
        after.key_assignments.len()
    };
    let mut index: usize = 0;
    while index < assignment_count
        invariant
            index <= assignment_count,
            assignment_count == max_len(b.key_assignments.len(), a.key_assignments.len()),
            b == before@,
            a == after@,
            texts(changes@) == p4 + assignment_lines(b, a, index as nat),
        decreases assignment_count - index,
    {
        let left = assignment_reference_index(before, index);
        let right = assignment_reference_index(after, index);
        let differ = match (left, right) {
            (Some(l), Some(r)) => l != r,
            (None, None) => false,
            _ => true,
        };
        let line = if differ {
            let mut line = "assignment ".to_owned();
            push_decimal(&mut line, (index + 1) as u64);
            string_push_str(&mut line, " macro reference: ");
            let l = format_macro_reference(left);
            string_push_str(&mut line, l.as_str());
            string_push_str(&mut line, " -> ");
            let r = format_macro_reference(right);
            string_push_str(&mut line, r.as_str());
            Some(line)
        } else {
            None
        };
        push_opt_line(&mut changes, line);
        proof {
            lemma_add_assoc(
                p4,
                assignment_lines(b, a, index as nat),
                opt_line(assignment_line(b, a, index as int)),
            );
        }
        index += 1;
    }
    proof {
        lemma_add_assoc(p3, macro_lines(b.macros, a.macros, macro_count as nat), count_change(
            "assignment count: "@,
            b.key_assignments.len(),
            a.key_assignments.len(),
        ));
    }
    changes
}

} // verus!
