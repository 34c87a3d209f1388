//! Laws of the NGENUITY Legacy import: recorded mouse-button events follow
//! the capture table all the way to the device's macro button codes.
use vstd::prelude::*;
use crate::driver::device_event;
use crate::ngenuity::{
    decoded_action_spec, effective_timing, imported_event, item_importable, NgenuityInputAction, NgenuityMacroItemView,
    NgenuityMacroView, NgenuityMouseButton,
};
use crate::raid_macro::{input_code, PulsefireRaidMacroState};
use crate::text_laws::{is_canonical_name, lemma_normalize_canonical};

verus! {

/// A recorded mouse-button action code of the capture table: 1/2 left,
/// 4/5 right, 7/8 middle, each pair press then release.
pub open spec fn is_recorded_mouse_action(action: u8) -> bool {
    action == 1 || action == 2 || action == 4 || action == 5 || action == 7 || action == 8
}

/// A recorded type-2, state-2 event decodes by the capture table: actions
/// 1 and 2 press and release the left button, 4 and 5 the right, 7 and 8
/// the middle. Imported and sent to the Pulsefire Raid, it becomes the
/// device event of that button (codes `B7`, `B8`, `B9`), pressed for the
/// first action of the pair and released for the second, with the
/// event's timing.
pub proof fn lemma_recorded_mouse_events_follow_capture_table(m: NgenuityMacroView, item: NgenuityMacroItemView)
    requires
        item.item_type == 2,
        item.state == 2,
        is_recorded_mouse_action(item.action),
        effective_timing(m, item) <= 65535,
    ensures
        decoded_action_spec(item) == Some(
            NgenuityInputAction::MouseButton {
                button: if item.action <= 2 {
                    NgenuityMouseButton::Left
                } else if item.action <= 5 {
                    NgenuityMouseButton::Right
                } else {
                    NgenuityMouseButton::Middle
                },
                pressed: item.action == 1 || item.action == 4 || item.action == 7,
            },
        ),
        item_importable(m, item),
        device_event(imported_event(m, item)) matches Some(e) && input_code(e.input) == (if item.action <= 2 {
            0xB7u8
        } else if item.action <= 5 {
            0xB8u8
        } else {
            0xB9u8
        }) && (e.state == PulsefireRaidMacroState::Pressed <==> (item.action == 1 || item.action == 4 || item.action
            == 7)) && e.delay_ms == effective_timing(m, item),
{
    reveal_strlit("left");
    reveal_strlit("right");
    reveal_strlit("middle");
    reveal_strlit("wheel");
    assert(is_canonical_name("left"@));
    assert(is_canonical_name("right"@));
    assert(is_canonical_name("middle"@));
    lemma_normalize_canonical("left"@);
    lemma_normalize_canonical("right"@);
    lemma_normalize_canonical("middle"@);
    assert("left"@ != "right"@);
    assert("left"@ != "middle"@ && "left"@ != "wheel"@);
    assert("right"@ != "middle"@ && "right"@ != "wheel"@);
    assert("middle"@ != "wheel"@);
}

} // verus!
