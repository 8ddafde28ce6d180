use vstd::prelude::*;

verus! {

/// A position in world coordinates.
#[derive(Clone, Copy, Debug, PartialEq, Eq, Structural)]
pub struct Point {
    pub x: i64,
    pub y: i64,
}

/// The player's own state. The invulnerability flag is private: it is
/// written only through `toggle_debug_immortal` and read through
/// `is_debug_immortal`.
#[derive(Clone, Copy, Debug)]
pub struct Player {
    pub position: Point,
    debug_immortal: bool,
}

/// What a `Player` holds, as contracts see it.
pub struct PlayerView {
    pub position: Point,
    pub debug_immortal: bool,
}

impl View for Player {
    type V = PlayerView;

    closed spec fn view(&self) -> PlayerView {
        PlayerView { position: self.position, debug_immortal: self.debug_immortal }
    }
}

impl Player {
    /// A new player at `position`, with debug invulnerability off.
    pub fn new(position: Point) -> (r: Player)
        ensures
            r@.position == position,
            !r@.debug_immortal,
    {
        Player { position, debug_immortal: false }
    }

    /// Flips debug invulnerability; nothing else changes.
    pub fn toggle_debug_immortal(&mut self)
        ensures
            final(self)@.debug_immortal == !old(self)@.debug_immortal,
            final(self)@.position == old(self)@.position,
    {
        self.debug_immortal = !self.debug_immortal;
    }

    /// Whether debug invulnerability is on.
    pub fn is_debug_immortal(&self) -> (r: bool)
        ensures
            r == self@.debug_immortal,
    {
        self.debug_immortal
    }
}

/// The flag after `n` flips, starting from `initial`.
pub open spec fn flag_after_toggles(initial: bool, n: nat) -> bool
    decreases n,
{
    if n == 0 {
        initial
    } else {
        !flag_after_toggles(initial, (n - 1) as nat)
    }
}

/// A player starts with the flag off (`Player::new`) and each
/// `toggle_debug_immortal` flips it, so after `n` flips it is on exactly
/// when `n` is odd.
pub proof fn lemma_toggle_parity(n: nat)
    ensures
        flag_after_toggles(false, n) == (n % 2 == 1),
    decreases n,
{
    if n > 0 {
        lemma_toggle_parity((n - 1) as nat);
    }
}

/// The player entity as the per-frame systems see it: its own state and
/// its current hit points.
#[derive(Clone, Copy, Debug)]
pub struct PlayerEntity {
    pub player: Player,
    pub health: i64,
}

} // verus!
