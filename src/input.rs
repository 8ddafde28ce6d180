use vstd::prelude::*;
use crate::player::PlayerEntity;

verus! {

/// Keys the game reads.
#[derive(Clone, Copy, Debug, PartialEq, Eq, Structural)]
pub enum KeyCode {
    F1,
    Escape,
    Space,
    Up,
    Down,
    Left,
    Right,
    Char(char),
}

/// Whether `key` is among the keys pressed down this frame.
pub open spec fn pressed(just_pressed: Seq<KeyCode>, key: KeyCode) -> bool {
    exists|i: int| 0 <= i < just_pressed.len() && just_pressed[i] == key
}

/// Whether this frame asks to flip debug invulnerability: F1 went down.
pub open spec fn toggle_requested(just_pressed: Seq<KeyCode>) -> bool {
    pressed(just_pressed, KeyCode::F1)
}

/// The diagnostic line reported after a flip, for the new state.
pub open spec fn immortality_message(on: bool) -> Seq<char> {
    if on {
        "Debug Immortality: ON"@
    } else {
        "Debug Immortality: OFF"@
    }
}

/// Reads this frame's key presses. When F1 went down and a player exists,
/// flips its debug invulnerability once, however often the key appears,
/// and returns the diagnostic line for the new state. Otherwise changes
/// nothing and returns `None`.
pub fn handle_input(just_pressed: &Vec<KeyCode>, player: &mut Option<PlayerEntity>) -> (note: Option<&'static str>)
    ensures
        final(player).is_some() == old(player).is_some(),
        old(player).is_some() ==> ({
            let before = old(player).unwrap();
            let after = final(player).unwrap();
            &&& after.health == before.health
            &&& after.player@.position == before.player@.position
            &&& after.player@.debug_immortal == (before.player@.debug_immortal != toggle_requested(
                just_pressed@,
            ))
        }),
        note.is_some() == (old(player).is_some() && toggle_requested(just_pressed@)),
        note.is_some() ==> note.unwrap()@ == immortality_message(
            final(player).unwrap().player@.debug_immortal,
        ),
{
    match player {
        Some(entity) => {
            let mut found = false;
            let mut i: usize = 0;
            while i < just_pressed.len()
                invariant
                    i <= just_pressed.len(),
                    found == pressed(just_pressed@.take(i as int), KeyCode::F1),
                decreases just_pressed.len() - i,
            {
                proof {
                    let prev = just_pressed@.take(i as int);
                    let next = just_pressed@.take(i as int + 1);
                    assert(next[i as int] == just_pressed@[i as int]);
                    if pressed(prev, KeyCode::F1) {
                        let j = choose|j: int| 0 <= j < prev.len() && prev[j] == KeyCode::F1;
                        assert(next[j] == prev[j]);
                    }
                    if pressed(next, KeyCode::F1) && just_pressed@[i as int] != KeyCode::F1 {
                        let j = choose|j: int| 0 <= j < next.len() && next[j] == KeyCode::F1;
                        assert(prev[j] == next[j]);
                    }
                }
                if just_pressed[i] == KeyCode::F1 {
                    found = true;
                }
                i = i + 1;
            }
            assert(just_pressed@.take(just_pressed.len() as int) == just_pressed@);
            if found {
                entity.player.toggle_debug_immortal();
                if entity.player.is_debug_immortal() {
                    Some("Debug Immortality: ON")
                } else {
                    Some("Debug Immortality: OFF")
                }
            } else {
                None
            }
        },
        None => None,
    }
}

} // verus!
