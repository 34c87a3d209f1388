//! Laws of the Pulsefire Raid profile codec: what a read gives back after a
//! write, and which bytes a write leaves alone.
use vstd::prelude::*;
use crate::button::{key_usage_from_name, ButtonBinding, MouseFunction, PrimaryButtonLayout, WindowsShortcut};
use crate::capability::PollingRate;
use crate::performance::DpiStage;
use crate::pulsefire_raid::{
    button_binding_spec, confirmed_event_lists, decode_record, confirmed_report_index, control_offset,
    dpi_enabled_offset, dpi_field_stage, dpi_patched, dpi_patched_byte, dpi_profile_spec, dpi_scan,
    dpi_write_error, encode_record, first_dpi_value_error, macro_reference_record, macro_report,
    polling_code, polling_rate_spec, stage_at, with_primary_layout, with_record,
    PerformanceProfileError,
    PulsefireRaidControl,
};

verus! {

/// Reading the polling rate after storing one gives back the stored rate.
pub proof fn lemma_polling_rate_round_trip(image: Seq<u8>, rate: PollingRate)
    requires
        image.len() == 264,
    ensures
        polling_rate_spec(image.update(0x18, polling_code(rate))) == Ok::<
            PollingRate,
            PerformanceProfileError,
        >(rate),
{
}

/// Every value of a storable profile passes the range and step checks.
proof fn lemma_values_valid(stages: Seq<DpiStage>, i: nat)
    requires
        first_dpi_value_error(stages, i) is None,
    ensures
        forall|j: int|
            i <= j < stages.len() ==> 200 <= #[trigger] stages[j].x <= 16000 && stages[j].x % 50
                == 0 && 200 <= stages[j].y <= 16000 && stages[j].y % 50 == 0,
    decreases stages.len() - i,
{
    if i < stages.len() {
        lemma_values_valid(stages, i + 1);
    }
}

/// A stored stage reads back unchanged.
proof fn lemma_stage_round_trip(image: Seq<u8>, stages: Seq<DpiStage>, active: usize, i: int)
    requires
        image.len() == 264,
        stages.len() <= 5,
        0 <= i < stages.len(),
        200 <= stages[i].x <= 16000,
        stages[i].x % 50 == 0,
        200 <= stages[i].y <= 16000,
        stages[i].y % 50 == 0,
    ensures
        stage_at(dpi_patched(image, stages, active), i) == stages[i],
{
    let p = dpi_patched(image, stages, active);
    let s = stages[i];
    let xo = 0x19 + 2 * i;
    let yo = 0x25 + 2 * i;
    let co = 0x69 + 3 * i;
    assert(dpi_field_stage(xo) == Some(i));
    assert(dpi_field_stage(xo + 1) == Some(i));
    assert(dpi_field_stage(yo) == Some(i));
    assert(dpi_field_stage(yo + 1) == Some(i));
    assert(dpi_field_stage(co) == Some(i));
    assert(dpi_field_stage(co + 1) == Some(i));
    assert(dpi_field_stage(co + 2) == Some(i));
    let xu = s.x / 50;
    let yu = s.y / 50;
    assert(p[xo] == (xu / 256) as u8);
    assert(p[xo + 1] == (xu % 256) as u8);
    assert(p[yo] == (yu / 256) as u8);
    assert(p[yo + 1] == (yu % 256) as u8);
    assert((xu / 256) * 256 + xu % 256 == xu);
    assert((yu / 256) * 256 + yu % 256 == yu);
    assert(xu * 50 == s.x);
    assert(yu * 50 == s.y);
    assert(stage_at(p, i).color == s.color);
}

/// The enabled flags after storing `stages`: set for the stored stages,
/// clear after them.
proof fn lemma_scan_stored(
    image: Seq<u8>,
    stages: Seq<DpiStage>,
    active: usize,
    i: nat,
    found_disabled: bool,
)
    requires
        image.len() == 264,
        1 <= stages.len() <= 5,
        i <= 5,
        found_disabled == (i > stages.len()),
        forall|j: int| 0 <= j < stages.len() ==> #[trigger] stage_at(dpi_patched(image, stages, active), j) == stages[j],
    ensures
        dpi_scan(
            dpi_patched(image, stages, active),
            i,
            found_disabled,
            if i <= stages.len() {
                stages.take(i as int)
            } else {
                stages
            },
        ) == Ok::<Seq<DpiStage>, PerformanceProfileError>(stages),
    decreases 5 - i,
{
    let p = dpi_patched(image, stages, active);
    let acc = if i <= stages.len() {
        stages.take(i as int)
    } else {
        stages
    };
    if i < 5 {
        let k: int = 0x32 + i as int;
        assert(dpi_field_stage(k) == Some(i as int));
        assert(p[k] == dpi_patched_byte(image, stages, active, k));
        if i < stages.len() {
            assert(p[k] == 1);
            assert(stages.take(i as int).push(stage_at(p, i as int)) =~= stages.take((i + 1) as int));
            lemma_scan_stored(image, stages, active, i + 1, false);
        } else {
            assert(p[k] == 0);
            if i == stages.len() {
                assert(acc =~= stages);
            }
            lemma_scan_stored(image, stages, active, i + 1, true);
        }
    } else {
        assert(acc =~= stages);
    }
}

/// Reading the DPI profile after storing one gives back the stored stages
/// and active index.
pub proof fn lemma_dpi_profile_round_trip(image: Seq<u8>, stages: Seq<DpiStage>, active: usize)
    requires
        image.len() == 264,
        dpi_write_error(stages, active) is None,
    ensures
        dpi_profile_spec(dpi_patched(image, stages, active)) == Ok::<
            (Seq<DpiStage>, usize),
            PerformanceProfileError,
        >((stages, active)),
{
    lemma_values_valid(stages, 0);
    assert forall|j: int| 0 <= j < stages.len() implies #[trigger] stage_at(
        dpi_patched(image, stages, active),
        j,
    ) == stages[j] by {
        lemma_stage_round_trip(image, stages, active, j);
    }
    assert(stages.take(0) =~= Seq::<DpiStage>::empty());
    lemma_scan_stored(image, stages, active, 0, false);
    assert(dpi_patched(image, stages, active)[0x31] == active as u8);
}

/// Storing a DPI profile leaves every byte outside the DPI fields and the
/// active index unchanged.
pub proof fn lemma_dpi_store_preserves_other_bytes(
    image: Seq<u8>,
    stages: Seq<DpiStage>,
    active: usize,
    k: int,
)
    requires
        image.len() == 264,
        0 <= k < 264,
        k != 0x31,
        dpi_field_stage(k) is None,
    ensures
        dpi_patched(image, stages, active)[k] == image[k],
{
}

/// Reading a control's binding after storing an encodable binding gives
/// back that binding.
pub proof fn lemma_button_binding_round_trip(
    image: Seq<u8>,
    control: PulsefireRaidControl,
    binding: ButtonBinding,
)
    requires
        image.len() == 264,
        encode_record(binding) is Ok,
    ensures
        button_binding_spec(
            with_record(image, control_offset(control), encode_record(binding)->Ok_0),
            control,
        ) == Ok::<ButtonBinding, PerformanceProfileError>(binding),
{
    let o = control_offset(control);
    let r = encode_record(binding)->Ok_0;
    let img = with_record(image, o, r);
    assert(img[o] == r[0]);
    assert(img[o + 1] == r[1]);
    assert(img[o + 2] == r[2]);
    assert(img[o + 3] == r[3]);
}

/// Storing a binding for one control leaves every other control's binding
/// unchanged.
pub proof fn lemma_button_binding_independent(
    image: Seq<u8>,
    control: PulsefireRaidControl,
    other: PulsefireRaidControl,
    record: Seq<u8>,
)
    requires
        image.len() == 264,
        record.len() == 4,
        control != other,
    ensures
        button_binding_spec(with_record(image, control_offset(control), record), other)
            == button_binding_spec(image, other),
{
    let o = control_offset(other);
    let img = with_record(image, control_offset(control), record);
    assert(img[o] == image[o]);
    assert(img[o + 1] == image[o + 1]);
    assert(img[o + 2] == image[o + 2]);
    assert(img[o + 3] == image[o + 3]);
}

/// Each captured macro report is recognized as its own event list.
pub proof fn lemma_confirmed_reports_recognized(i: int)
    requires
        0 <= i < 3,
    ensures
        confirmed_report_index(macro_report(confirmed_event_lists()[i])) == Some(i),
{
    let r0 = macro_report(confirmed_event_lists()[0]);
    let r1 = macro_report(confirmed_event_lists()[1]);
    let r2 = macro_report(confirmed_event_lists()[2]);
    assert(r0[10] == 0x80);
    assert(r1[10] == 0x81);
    assert(r2[10] == 0x80);
    assert(r0[16] == 0);
    assert(r2[16] == 0x80);
}

/// After the macro reference is stored in the Button 5 record, the record
/// holds exactly that reference.
pub proof fn lemma_macro_reference_bound(image: Seq<u8>)
    requires
        image.len() == 264,
    ensures
        with_record(image, 0x8C, macro_reference_record(4)).subrange(0x8C, 0x90)
            == macro_reference_record(4),
{
    assert(with_record(image, 0x8C, macro_reference_record(4)).subrange(0x8C, 0x90)
        =~= macro_reference_record(4));
}

/// After a primary-button layout is stored, the two primary buttons read
/// back as the layout's clicks (exchanged for `Swapped`), and every other
/// control's binding is unchanged.
pub proof fn lemma_primary_layout_round_trip(
    image: Seq<u8>,
    layout: PrimaryButtonLayout,
    other: PulsefireRaidControl,
)
    requires
        image.len() == 264,
        other != PulsefireRaidControl::LeftClick,
        other != PulsefireRaidControl::RightClick,
    ensures
        button_binding_spec(with_primary_layout(image, layout), PulsefireRaidControl::LeftClick)
            == Ok::<ButtonBinding, PerformanceProfileError>(
            ButtonBinding::Mouse(
                if layout == PrimaryButtonLayout::Standard {
                    MouseFunction::LeftClick
                } else {
                    MouseFunction::RightClick
                },
            ),
        ),
        button_binding_spec(with_primary_layout(image, layout), PulsefireRaidControl::RightClick)
            == Ok::<ButtonBinding, PerformanceProfileError>(
            ButtonBinding::Mouse(
                if layout == PrimaryButtonLayout::Standard {
                    MouseFunction::RightClick
                } else {
                    MouseFunction::LeftClick
                },
            ),
        ),
        button_binding_spec(with_primary_layout(image, layout), other) == button_binding_spec(
            image,
            other,
        ),
{
    let img = with_primary_layout(image, layout);
    let left = control_offset(PulsefireRaidControl::LeftClick);
    let right = control_offset(PulsefireRaidControl::RightClick);
    assert(left == 0x7C && right == 0x80);
    let o = control_offset(other);
    assert(o >= 0x84);
    assert(img[o] == image[o]);
    assert(img[o + 1] == image[o + 1]);
    assert(img[o + 2] == image[o + 2]);
    assert(img[o + 3] == image[o + 3]);
}

/// The number of DPI stage flags, from the first, that hold `01`.
pub open spec fn leading_enabled_stages(image: Seq<u8>) -> nat {
    if image[0x32] != 1 {
        0
    } else if image[0x33] != 1 {
        1
    } else if image[0x34] != 1 {
        2
    } else if image[0x35] != 1 {
        3
    } else if image[0x36] != 1 {
        4
    } else {
        5
    }
}

/// Stage flags that hold a run of `01`, at least one long, and only `00`
/// after it.
pub open spec fn dpi_flags_contiguous(image: Seq<u8>) -> bool {
    &&& leading_enabled_stages(image) >= 1
    &&& forall|i: int| leading_enabled_stages(image) <= i < 5 ==> image[#[trigger] dpi_enabled_offset(i)] == 0
}

/// The DPI stages of a profile decode exactly when its stage flags are a
/// non-empty run of `01` followed only by `00` and the active index at
/// `0x31` names one of those stages; they are then the leading stages in
/// order, and the active stage is that index.
pub proof fn lemma_dpi_profile_closed_form(image: Seq<u8>)
    requires
        image.len() == 264,
    ensures
        dpi_profile_spec(image) is Ok <==> dpi_flags_contiguous(image) && image[0x31] < leading_enabled_stages(image),
        dpi_profile_spec(image) matches Ok((stages, active)) ==> {
            &&& stages.len() == leading_enabled_stages(image)
            &&& active == image[0x31] as usize
            &&& forall|i: int| 0 <= i < stages.len() ==> #[trigger] stages[i] == stage_at(image, i)
        },
{
    reveal_with_fuel(dpi_scan, 6);
    let s0 = seq![stage_at(image, 0)];
    let s1 = s0.push(stage_at(image, 1));
    let s2 = s1.push(stage_at(image, 2));
    let s3 = s2.push(stage_at(image, 3));
    let s4 = s3.push(stage_at(image, 4));
    assert(seq![].push(stage_at(image, 0)) =~= s0);
    assert(forall|i: int| 0 <= i < 5 ==> #[trigger] s4[i] == stage_at(image, i));
    assert(forall|i: int| 0 <= i < 4 ==> #[trigger] s3[i] == stage_at(image, i));
    assert(forall|i: int| 0 <= i < 3 ==> #[trigger] s2[i] == stage_at(image, i));
    assert(forall|i: int| 0 <= i < 2 ==> #[trigger] s1[i] == stage_at(image, i));
    if dpi_flags_contiguous(image) {
        assert(dpi_enabled_offset(1) == 0x33);
        assert(dpi_enabled_offset(2) == 0x34);
        assert(dpi_enabled_offset(3) == 0x35);
        assert(dpi_enabled_offset(4) == 0x36);
    }
    if !dpi_flags_contiguous(image) && leading_enabled_stages(image) >= 1 {
        let c = leading_enabled_stages(image);
        let i = choose|i: int| c <= i < 5 && image[dpi_enabled_offset(i)] != 0;
        assert(image[dpi_enabled_offset(i)] != 0);
    }
}

/// The record of an edit shortcut: `23`, left Control `E0`, the usage of
/// the letter key, `00`.
pub open spec fn control_letter_record(letter: char) -> Seq<u8> {
    seq![0x23u8, 0xE0, key_usage_from_name(seq![letter])->Some_0 as u8, 0x00]
}

/// Each Windows shortcut is stored as its captured record, and each
/// captured record reads back as that shortcut: Cut is Ctrl+X, Copy is
/// Ctrl+C, Paste is Ctrl+V and Undo is Ctrl+Z, with the letter's HID usage
/// as the key parser gives it; the app switchers are left GUI (`E3`) or
/// left Alt (`E2`) with Tab (`2B`).
pub proof fn lemma_windows_shortcut_records()
    ensures
        control_letter_record('x') == seq![0x23u8, 0xE0, 0x1B, 0x00],
        control_letter_record('c') == seq![0x23u8, 0xE0, 0x06, 0x00],
        control_letter_record('v') == seq![0x23u8, 0xE0, 0x19, 0x00],
        control_letter_record('z') == seq![0x23u8, 0xE0, 0x1D, 0x00],
        encode_record(ButtonBinding::WindowsShortcut(WindowsShortcut::Cut)) == Ok::<Seq<u8>, PerformanceProfileError>(
            control_letter_record('x'),
        ),
        encode_record(ButtonBinding::WindowsShortcut(WindowsShortcut::Copy)) == Ok::<Seq<u8>, PerformanceProfileError>(
            control_letter_record('c'),
        ),
        encode_record(ButtonBinding::WindowsShortcut(WindowsShortcut::Paste)) == Ok::<Seq<u8>, PerformanceProfileError>(
            control_letter_record('v'),
        ),
        encode_record(ButtonBinding::WindowsShortcut(WindowsShortcut::Undo)) == Ok::<Seq<u8>, PerformanceProfileError>(
            control_letter_record('z'),
        ),
        encode_record(ButtonBinding::WindowsShortcut(WindowsShortcut::CycleApps)) == Ok::<Seq<u8>, PerformanceProfileError>(
            seq![0x23u8, 0xE3, 0x2B, 0x00],
        ),
        encode_record(ButtonBinding::WindowsShortcut(WindowsShortcut::SwitchApps)) == Ok::<Seq<u8>, PerformanceProfileError>(
            seq![0x23u8, 0xE2, 0x2B, 0x00],
        ),
        decode_record(0x23, 0xE0, 0x1B, 0x00) == Some(ButtonBinding::WindowsShortcut(WindowsShortcut::Cut)),
        decode_record(0x23, 0xE0, 0x06, 0x00) == Some(ButtonBinding::WindowsShortcut(WindowsShortcut::Copy)),
        decode_record(0x23, 0xE0, 0x19, 0x00) == Some(ButtonBinding::WindowsShortcut(WindowsShortcut::Paste)),
        decode_record(0x23, 0xE0, 0x1D, 0x00) == Some(ButtonBinding::WindowsShortcut(WindowsShortcut::Undo)),
        decode_record(0x23, 0xE3, 0x2B, 0x00) == Some(ButtonBinding::WindowsShortcut(WindowsShortcut::CycleApps)),
        decode_record(0x23, 0xE2, 0x2B, 0x00) == Some(ButtonBinding::WindowsShortcut(WindowsShortcut::SwitchApps)),
{
    assert(control_letter_record('x') =~= seq![0x23u8, 0xE0, 0x1B, 0x00]);
    assert(control_letter_record('c') =~= seq![0x23u8, 0xE0, 0x06, 0x00]);
    assert(control_letter_record('v') =~= seq![0x23u8, 0xE0, 0x19, 0x00]);
    assert(control_letter_record('z') =~= seq![0x23u8, 0xE0, 0x1D, 0x00]);
}

/// Storing a Windows shortcut for a control and reading the control back
/// gives the shortcut, and the stored bytes are its captured record.
pub proof fn lemma_windows_shortcut_stored(image: Seq<u8>, control: PulsefireRaidControl, shortcut: WindowsShortcut)
    requires
        image.len() == 264,
    ensures
        ({
            let record = encode_record(ButtonBinding::WindowsShortcut(shortcut))->Ok_0;
            let stored = with_record(image, control_offset(control), record);
            &&& stored.subrange(control_offset(control), control_offset(control) + 4) == record
            &&& button_binding_spec(stored, control) == Ok::<ButtonBinding, PerformanceProfileError>(
                ButtonBinding::WindowsShortcut(shortcut),
            )
        }),
{
    lemma_windows_shortcut_records();
    let record = encode_record(ButtonBinding::WindowsShortcut(shortcut))->Ok_0;
    let o = control_offset(control);
    let stored = with_record(image, o, record);
    assert(stored.subrange(o, o + 4) =~= record);
    assert(stored[o] == record[0] && stored[o + 1] == record[1] && stored[o + 2] == record[2] && stored[o + 3] == record[3]);
}

} // verus!
