//! The glitch slimes: when one may appear, and what a blow does to it.

use crate::audio::SfxEvent;
use crate::scoring::XpGainEvent;
use vstd::prelude::*;
use vstd::string::StringExecFns;

verus! {

/// The number of slimes above which none appears by itself.
pub const SLIME_CAP: usize = 10;

/// The health of a slime when it appears.
pub const SLIME_HEALTH: i32 = 10;

/// The damage of one blow of the player.
pub const ATTACK_DAMAGE: i32 = 10;

/// The experience that a slime is worth.
pub const SLIME_XP: u32 = 20;

/// What floats up where a slime is defeated.
pub const SLIME_BANNER: &'static str = "+20 XP";

/// A slime, as far as the rules care for it.
#[derive(Debug, Clone, Copy, PartialEq, Eq, Structural)]
pub struct GlitchSlime {
    pub health: i32,
}

/// What a blow did to a slime.
pub struct HitOutcome {
    /// The sounds to play, in order.
    pub sounds: Vec<SfxEvent>,
    /// The experience earned, if the slime is defeated.
    pub reward: Option<XpGainEvent>,
}

/// Whether the slimes may multiply at all on this beat: while there are
/// fewer than [`SLIME_CAP`] of them, or when the player forces it. Only
/// then does the timer between two slimes run.
pub fn may_spawn(count: usize, forced: bool) -> (allowed: bool)
    ensures
        allowed == (count < SLIME_CAP || forced),
{
    !(count >= SLIME_CAP && !forced)
}

/// Whether a slime appears on this beat, given that the timer between two
/// slimes has run if it was allowed to and `timer_finished` tells whether
/// it ran out: the slimes may multiply, and the player forces it or the
/// timer has run out.
pub fn spawn_slimes(count: usize, forced: bool, timer_finished: bool) -> (spawn: bool)
    ensures
        spawn == ((count < SLIME_CAP || forced) && (forced || timer_finished)),
{
    may_spawn(count, forced) && (forced || timer_finished)
}

impl GlitchSlime {
    /// A slime as it appears.
    pub fn new() -> (slime: Self)
        ensures
            slime.health == SLIME_HEALTH,
    {
        GlitchSlime { health: SLIME_HEALTH }
    }

    /// Whether the slime is defeated.
    pub open spec fn is_dead(&self) -> bool {
        self.health <= 0
    }

    /// Deals `damage` to the slime. Every blow sounds; a blow that brings
    /// the health to zero or below defeats the slime, which sounds as well
    /// and earns experience.
    pub fn detect_hits(&mut self, damage: i32) -> (outcome: HitOutcome)
        requires
            i32::MIN <= old(self).health - damage <= i32::MAX,
        ensures
            final(self).health == old(self).health - damage,
            final(self).is_dead() ==> {
                &&& outcome.sounds@ == seq![SfxEvent::Hit, SfxEvent::Death]
                &&& outcome.reward matches Some(e) && e.amount == SLIME_XP && e.reason@
                    == "Defeated Glitch Slime"@
            },
            !final(self).is_dead() ==> {
                &&& outcome.sounds@ == seq![SfxEvent::Hit]
                &&& outcome.reward is None
            },
    {
        self.health = self.health - damage;
        let mut sounds: Vec<SfxEvent> = Vec::new();
        sounds.push(SfxEvent::Hit);
        if self.health <= 0 {
            sounds.push(SfxEvent::Death);
            assert(sounds@ =~= seq![SfxEvent::Hit, SfxEvent::Death]);
            HitOutcome {
                sounds,
                reward: Some(
                    XpGainEvent {
                        amount: SLIME_XP,
                        reason: String::from_str("Defeated Glitch Slime"),
                    },
                ),
            }
        } else {
            assert(sounds@ =~= seq![SfxEvent::Hit]);
            HitOutcome { sounds, reward: None }
        }
    }
}

} // verus!
