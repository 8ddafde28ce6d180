use vstd::prelude::*;
use crate::player::PlayerEntity;

verus! {

/// One hit aimed at the player, of the given magnitude.
#[derive(Clone, Copy, Debug, PartialEq, Eq, Structural)]
pub struct PlayerDamageEvent {
    pub amount: u32,
}

/// Hit points after one hit of `amount`; the value stops at `i64::MIN`
/// rather than wrap.
pub open spec fn hit(health: int, amount: u32) -> int {
    if health - amount < i64::MIN {
        i64::MIN as int
    } else {
        health - amount
    }
}

/// Hit points after the events in `events`, taken in order, where each is
/// skipped when the player is invulnerable and applied once otherwise.
pub open spec fn health_after(health: int, immortal: bool, events: Seq<PlayerDamageEvent>) -> int
    decreases events.len(),
{
    if events.len() == 0 {
        health
    } else {
        let before = health_after(health, immortal, events.drop_last());
        if immortal {
            before
        } else {
            hit(before, events.last().amount)
        }
    }
}

/// The number of events of a batch that take effect.
pub open spec fn applied_count(immortal: bool, events: Seq<PlayerDamageEvent>) -> nat {
    if immortal {
        0
    } else {
        events.len()
    }
}

/// The player entity after the batch `events`; without a player the batch
/// has no effect.
pub open spec fn damaged(player: Option<PlayerEntity>, events: Seq<PlayerDamageEvent>) -> Option<PlayerEntity> {
    match player {
        Some(e) => Some(
            PlayerEntity {
                player: e.player,
                health: health_after(e.health as int, e.player@.debug_immortal, events) as i64,
            },
        ),
        None => None,
    }
}

proof fn lemma_health_after_bounds(health: int, immortal: bool, events: Seq<PlayerDamageEvent>)
    requires
        i64::MIN <= health <= i64::MAX,
    ensures
        i64::MIN <= health_after(health, immortal, events) <= health,
    decreases events.len(),
{
    if events.len() > 0 {
        lemma_health_after_bounds(health, immortal, events.drop_last());
    }
}

/// The sum of the magnitudes in `events`.
pub open spec fn total_damage(events: Seq<PlayerDamageEvent>) -> int
    decreases events.len(),
{
    if events.len() == 0 {
        0
    } else {
        total_damage(events.drop_last()) + events.last().amount
    }
}

proof fn lemma_immortal_constant(health: int, events: Seq<PlayerDamageEvent>)
    ensures
        health_after(health, true, events) == health,
    decreases events.len(),
{
    if events.len() > 0 {
        lemma_immortal_constant(health, events.drop_last());
    }
}

/// While the player is invulnerable no event of a batch changes its hit
/// points: after every prefix of the batch they are what they were.
pub proof fn lemma_immortal_takes_no_damage(health: int, events: Seq<PlayerDamageEvent>)
    ensures
        forall|i: int|
            0 <= i <= events.len() ==> #[trigger] health_after(health, true, events.take(i)) == health,
{
    assert forall|i: int| 0 <= i <= events.len() implies #[trigger] health_after(
        health,
        true,
        events.take(i),
    ) == health by {
        lemma_immortal_constant(health, events.take(i));
    }
}

proof fn lemma_total_damage_nonneg(events: Seq<PlayerDamageEvent>)
    ensures
        total_damage(events) >= 0,
    decreases events.len(),
{
    if events.len() > 0 {
        lemma_total_damage_nonneg(events.drop_last());
    }
}

proof fn lemma_vulnerable_total(health: int, events: Seq<PlayerDamageEvent>)
    requires
        health - total_damage(events) >= i64::MIN,
    ensures
        health_after(health, false, events) == health - total_damage(events),
    decreases events.len(),
{
    if events.len() > 0 {
        lemma_total_damage_nonneg(events.drop_last());
        lemma_vulnerable_total(health, events.drop_last());
    }
}

/// While the player is not invulnerable, each event of a batch, in arrival
/// order, lowers its hit points by exactly the event's magnitude (strictly,
/// for a nonzero one), and the batch lowers them by the sum; this holds as
/// long as the result stays within `i64`.
pub proof fn lemma_vulnerable_takes_each_hit(health: int, events: Seq<PlayerDamageEvent>)
    requires
        health - total_damage(events) >= i64::MIN,
    ensures
        health_after(health, false, events) == health - total_damage(events),
        forall|i: int|
            0 <= i < events.len() ==> #[trigger] health_after(health, false, events.take(i + 1))
                == health_after(health, false, events.take(i)) - events[i].amount,
        forall|i: int|
            0 <= i < events.len() && events[i].amount > 0 ==> #[trigger] health_after(
                health,
                false,
                events.take(i + 1),
            ) < health_after(health, false, events.take(i)),
{
    lemma_vulnerable_total(health, events);
    assert forall|i: int| 0 <= i < events.len() implies #[trigger] health_after(
        health,
        false,
        events.take(i + 1),
    ) == health_after(health, false, events.take(i)) - events[i].amount by {
        let prefix = events.take(i + 1);
        assert(prefix.drop_last() == events.take(i));
        assert(prefix.last() == events[i]);
        lemma_prefix_total(events, i + 1);
        lemma_total_damage_nonneg(events.take(i));
        lemma_vulnerable_total(health, events.take(i));
    }
}

proof fn lemma_prefix_total(events: Seq<PlayerDamageEvent>, k: int)
    requires
        0 <= k <= events.len(),
    ensures
        total_damage(events.take(k)) <= total_damage(events),
    decreases events.len(),
{
    if k < events.len() {
        assert(events.drop_last().take(k) == events.take(k));
        lemma_prefix_total(events.drop_last(), k);
    } else {
        assert(events.take(k) == events);
    }
}

/// Drains this frame's damage events against the player, in arrival order.
/// Each event is skipped whole while the player is invulnerable and applied
/// whole otherwise. Without a player the batch is dropped. Returns how many
/// events took effect.
pub fn player_damage(events: Vec<PlayerDamageEvent>, player: &mut Option<PlayerEntity>) -> (applied: usize)
    ensures
        *final(player) == damaged(*old(player), events@),
        old(player).is_some() ==> final(player).unwrap().health as int == health_after(
            old(player).unwrap().health as int,
            old(player).unwrap().player@.debug_immortal,
            events@,
        ),
        applied == match *old(player) {
            Some(e) => applied_count(e.player@.debug_immortal, events@),
            None => 0,
        },
{
    match player {
        Some(entity) => {
            let immortal = entity.player.is_debug_immortal();
            let ghost h0 = entity.health as int;
            let mut health: i64 = entity.health;
            let mut applied: usize = 0;
            let mut i: usize = 0;
            while i < events.len()
                invariant
                    i <= events.len(),
                    i64::MIN <= h0 <= i64::MAX,
                    immortal == entity.player@.debug_immortal,
                    health as int == health_after(h0, immortal, events@.take(i as int)),
                    applied == applied_count(immortal, events@.take(i as int)),
                decreases events.len() - i,
            {
                let amount = events[i].amount;
                proof {
                    assert(events@.take(i as int + 1).drop_last() == events@.take(i as int));
                    lemma_health_after_bounds(h0, immortal, events@.take(i as int));
                }
                i = i + 1;
                if immortal {
                    continue;
                }
                if health >= i64::MIN + amount as i64 {
                    health = health - amount as i64;
                } else {
                    health = i64::MIN;
                }
                applied = applied + 1;
            }
            assert(events@.take(events.len() as int) == events@);
            proof {
                lemma_health_after_bounds(h0, immortal, events@);
            }
            entity.health = health;
            applied
        },
        None => 0,
    }
}

} // verus!
