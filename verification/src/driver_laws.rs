//! Laws of the driver's transactions, over the reports that its methods
//! state they send: reads send no profile write, no runtime method writes
//! or opens the onboard profile section, and an onboard save keeps every
//! onboard byte it does not own and touches onboard memory only after the
//! runtime source was accepted.
use vstd::prelude::*;
use crate::button::PrimaryButtonLayout;
use crate::capability::PollingRate;
use crate::color::RgbColor;
use crate::driver::{
    assignment_reports, definition_encodable, definition_report, is_definition_error, macro_reference_for, response_error, runtime_image, runtime_read_reports,
    save_outcome, save_refusal, write_report_of, PulsefireRaidOnboardSaveResult, PulsefireRaidError,
    PulsefireRaidRuntimeAssignment,
};
use crate::button::{MacroDefinition, MacroPlayback};
use crate::performance::DpiStage;
use crate::pulsefire_raid::{
    confirmed_settings_copied, is_confirmed_setting, ProfileSection, control_offset, direct_rgb_report, dpi_patched, encode_record, polling_code, with_primary_layout, with_record,
    PulsefireRaidControl,
};
use crate::raid_macro::{timeline_report, PulsefireRaidMacroEvent};

verus! {

/// A profile-write report: opcode `01`.
pub open spec fn is_profile_write(report: Seq<u8>) -> bool {
    report.len() > 1 && report[1] == 0x01
}

/// A report that writes, or opens for access, the onboard profile section:
/// opcode `01` or `03` with section `01`.
pub open spec fn selects_onboard(report: Seq<u8>) -> bool {
    report.len() > 2 && (report[1] == 0x01 || report[1] == 0x03) && report[2] == 0x01
}

/// Reading the runtime profile sends no profile write and never selects
/// the onboard section.
pub proof fn lemma_runtime_read_sends_no_write()
    ensures
        forall|i: int|
            0 <= i < runtime_read_reports().len() ==> !is_profile_write(#[trigger] runtime_read_reports()[i])
                && !selects_onboard(runtime_read_reports()[i]),
{
    assert(runtime_read_reports()[0][1] == 0x03 && runtime_read_reports()[0][2] == 0x04);
    assert(runtime_read_reports()[1][1] == 0x81);
}

/// A direct color report neither writes a profile nor selects the onboard
/// section, whatever the colors.
pub proof fn lemma_direct_rgb_is_volatile(wheel: RgbColor, logo: RgbColor)
    ensures
        !is_profile_write(direct_rgb_report(wheel, logo)),
        !selects_onboard(direct_rgb_report(wheel, logo)),
{
    assert(direct_rgb_report(wheel, logo)[1] == 0x0A);
}

/// A runtime macro report is neither a profile write nor an onboard access.
pub proof fn lemma_runtime_macro_report_is_not_a_profile_write(slot: u8, events: Seq<PulsefireRaidMacroEvent>)
    ensures
        !is_profile_write(timeline_report(slot, events)),
        !selects_onboard(timeline_report(slot, events)),
{
    assert(timeline_report(slot, events)[1] == 0x05);
}

/// The profile a runtime setter writes back, patched from the runtime image
/// it read, is a write of the runtime section: whether the patch stores DPI
/// stages, a polling rate, one control's record or the primary layout.
pub proof fn lemma_runtime_writes_stay_in_runtime(
    image: Seq<u8>,
    stages: Seq<DpiStage>,
    active: usize,
    rate: PollingRate,
    control: PulsefireRaidControl,
    record: Seq<u8>,
    layout: PrimaryButtonLayout,
)
    requires
        runtime_image(image),
    ensures
        ({
            let written = write_report_of(dpi_patched(image, stages, active));
            is_profile_write(written) && written[2] == 0x04 && !selects_onboard(written)
        }),
        ({
            let written = write_report_of(image.update(0x18, polling_code(rate)));
            is_profile_write(written) && written[2] == 0x04 && !selects_onboard(written)
        }),
        ({
            let written = write_report_of(with_record(image, control_offset(control), record));
            is_profile_write(written) && written[2] == 0x04 && !selects_onboard(written)
        }),
        ({
            let written = write_report_of(with_primary_layout(image, layout));
            is_profile_write(written) && written[2] == 0x04 && !selects_onboard(written)
        }),
{
    assert(dpi_patched(image, stages, active)[2] == image[2]);
    let patched = with_record(image, control_offset(control), record);
    assert(patched[2] == image.take(control_offset(control))[2]);
    let first = with_record(image, 0x7C, crate::pulsefire_raid::primary_layout_records(layout).0);
    assert(first[2] == image[2]);
    assert(first.len() == 264);
    let both = with_primary_layout(image, layout);
    assert(both[2] == first.take(0x80)[2]);
}

/// Applying a button assignment to a runtime image sends no report that
/// writes or opens the onboard section: a macro's runtime report and the
/// runtime profile that refers to it, or the patched runtime profile alone.
pub proof fn lemma_assignment_stays_in_runtime(image: Seq<u8>, assignment: PulsefireRaidRuntimeAssignment)
    requires
        runtime_image(image),
    ensures
        forall|i: int|
            0 <= i < assignment_reports(image, assignment).len() ==> !selects_onboard(
                #[trigger] assignment_reports(image, assignment)[i],
            ),
{
    let control = assignment.spec_control();
    let reports = assignment_reports(image, assignment);
    match assignment.spec_macro() {
        Some(d) => {
            assert(definition_report(control, d)[1] == 0x05);
            let patched = with_record(image, control_offset(control), macro_reference_for(control));
            assert(patched[2] == image.take(control_offset(control))[2]);
            assert(reports[0] == definition_report(control, d));
        },
        None => {
            let record = encode_record(assignment.spec_ordinary()->Some_0)->Ok_0;
            let patched = with_record(image, control_offset(control), record);
            assert(patched[2] == image.take(control_offset(control))[2]);
        },
    }
}

/// The onboard image an onboard save writes keeps every byte of the
/// onboard image it read, except the opcode and the confirmed settings;
/// each confirmed setting is the runtime profile's.
pub proof fn lemma_onboard_save_keeps_unknown_bytes(runtime: Seq<u8>, onboard: Seq<u8>, k: int)
    requires
        runtime.len() == 264,
        onboard.len() == 264,
        0 <= k < 264,
        k != 1,
    ensures
        !is_confirmed_setting(k) ==> write_report_of(confirmed_settings_copied(onboard, runtime))[k] == onboard[k],
        is_confirmed_setting(k) ==> write_report_of(confirmed_settings_copied(onboard, runtime))[k] == runtime[k],
{
}

/// A save whose runtime answer was refused, or whose runtime image cannot
/// be saved, sends nothing that writes or opens the onboard section: the
/// runtime source is checked before onboard memory is selected.
pub proof fn lemma_refused_save_never_selects_onboard(
    sent_before: Seq<Seq<u8>>,
    n: int,
    m: int,
    sent: Seq<Seq<u8>>,
    lengths: Seq<usize>,
    received: Seq<Seq<u8>>,
    wheel: RgbColor,
    logo: RgbColor,
    definition: Option<MacroDefinition>,
    res: Result<PulsefireRaidOnboardSaveResult, PulsefireRaidError>,
)
    requires
        save_outcome(sent_before, n, m, sent, lengths, received, wheel, logo, definition, res),
        response_error(lengths[n], received[m], ProfileSection::Runtime) is Some || save_refusal(received[m], definition)
            is Some,
    ensures
        res is Err,
        sent.len() == sent_before.len() + 2,
        forall|i: int| sent_before.len() <= i < sent.len() ==> !selects_onboard(#[trigger] sent[i]) && !is_profile_write(sent[i]),
{
    lemma_runtime_read_sends_no_write();
    assert forall|i: int| sent_before.len() <= i < sent.len() implies !selects_onboard(#[trigger] sent[i]) && !is_profile_write(
        sent[i],
    ) by {
        assert(sent[i] == runtime_read_reports()[i - sent_before.len()]);
    }
}

/// A macro that does not play once is refused for every control that
/// holds macros, with its playback named in the error.
pub proof fn lemma_macro_playback_refused(control: PulsefireRaidControl, definition: MacroDefinition, err: PulsefireRaidError)
    requires
        definition.playback != MacroPlayback::Once,
        is_definition_error(control, definition, err),
    ensures
        !definition_encodable(control, definition),
        err == PulsefireRaidError::UnsupportedMacroPlayback(definition.playback),
{
}

} // verus!
