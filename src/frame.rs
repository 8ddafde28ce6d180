use vstd::prelude::*;
use crate::damage::{applied_count, health_after, player_damage, PlayerDamageEvent};
use crate::input::{handle_input, immortality_message, toggle_requested, KeyCode};
use crate::player::PlayerEntity;
use crate::ui::{ui_after, ui_change, update_ui, OverlayChange, UiHost};

verus! {

/// What one frame did: the diagnostic line to report, if the flag was
/// flipped; how many damage events took effect; what happened to the
/// overlay.
#[derive(Clone, Copy, Debug)]
pub struct FrameReport {
    pub note: Option<&'static str>,
    pub applied: usize,
    pub overlay: OverlayChange,
}

/// Runs one frame in its fixed order: input, then damage, then the overlay.
/// A flip made by this frame's input governs this frame's damage and this
/// frame's overlay.
pub fn run_frame(
    just_pressed: &Vec<KeyCode>,
    events: Vec<PlayerDamageEvent>,
    player: &mut Option<PlayerEntity>,
    ui: &mut UiHost,
) -> (report: FrameReport)
    ensures
        final(player).is_some() == old(player).is_some(),
        old(player).is_none() ==> ({
            &&& final(ui).nodes@ == old(ui).nodes@
            &&& report.note.is_none()
            &&& report.applied == 0
            &&& report.overlay == OverlayChange::Unchanged
        }),
        old(player).is_some() ==> ({
            let before = old(player).unwrap();
            let after = final(player).unwrap();
            let flag = before.player@.debug_immortal != toggle_requested(just_pressed@);
            &&& after.player@.debug_immortal == flag
            &&& after.player@.position == before.player@.position
            &&& after.health as int == health_after(before.health as int, flag, events@)
            &&& report.applied == applied_count(flag, events@)
            &&& report.note.is_some() == toggle_requested(just_pressed@)
            &&& report.note.is_some() ==> report.note.unwrap()@ == immortality_message(flag)
        }),
        final(ui).nodes@ == ui_after(*final(player), old(ui).nodes@),
        report.overlay == ui_change(*final(player), old(ui).nodes@),
        old(player).is_some() && !old(player).unwrap().player@.debug_immortal && toggle_requested(
            just_pressed@,
        ) ==> final(player).unwrap().health == old(player).unwrap().health && report.applied == 0,
{
    let note = handle_input(just_pressed, player);
    let applied = player_damage(events, player);
    proof {
        if player.is_some() {
            assert(player.unwrap().player@.debug_immortal ==> health_after(
                old(player).unwrap().health as int,
                true,
                events@,
            ) == old(player).unwrap().health as int) by {
                crate::damage::lemma_immortal_takes_no_damage(
                    old(player).unwrap().health as int,
                    events@,
                );
                assert(events@.take(events@.len() as int) == events@);
            }
        }
    }
    let overlay = update_ui(player, ui);
    FrameReport { note, applied, overlay }
}

} // verus!
