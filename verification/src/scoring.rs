//! Experience points, levels and titles.

use crate::text::append_decimal;
use crate::text::append_str;
use crate::text::decimal;
use crate::text::from_chars;
use vstd::prelude::*;
use vstd::string::StringExecFns;

verus! {

/// Experience gained, and what for.
pub struct XpGainEvent {
    pub amount: u32,
    pub reason: String,
}

/// A level reached, and the title that comes with it.
pub struct LevelUpEvent {
    pub new_level: u32,
    pub title: String,
}

/// What a player has achieved.
pub struct PlayerScore {
    pub xp: u32,
    pub level: u32,
    pub title: String,
    pub rooms_discovered: Vec<String>,
    pub fragments_collected: u32,
    pub puzzles_solved: u32,
}

/// The experience at which the last threshold lies. No level has a higher
/// one, so a total at or above it would raise the level without end.
pub const XP_CEILING: u32 = 1500;

/// The experience a player of `level` needs for the next level.
pub open spec fn threshold(level: nat) -> nat {
    if level == 1 {
        100
    } else if level == 2 {
        300
    } else if level == 3 {
        600
    } else if level == 4 {
        1000
    } else {
        1500
    }
}

/// The experience at which `level` began.
pub open spec fn floor(level: nat) -> nat {
    if level == 1 {
        0
    } else if level == 2 {
        100
    } else if level == 3 {
        300
    } else if level == 4 {
        600
    } else {
        1000
    }
}

/// The title of a player of `level`.
pub open spec fn title_of(level: nat) -> Seq<char> {
    if level == 1 {
        "Novice"@
    } else if level == 2 {
        "Student"@
    } else if level == 3 {
        "Architect"@
    } else if level == 4 {
        "Sovereign"@
    } else {
        "Grandmaster"@
    }
}

/// The level that `xp` experience is worth, for a total below the ceiling.
pub open spec fn rank(xp: nat) -> nat {
    if xp < 100 {
        1
    } else if xp < 300 {
        2
    } else if xp < 600 {
        3
    } else if xp < 1000 {
        4
    } else {
        5
    }
}

/// The level of a player who stood at `level` and now has `xp` experience,
/// below the ceiling: levels are only ever gained, one threshold at a time,
/// and level zero has none to gain.
pub open spec fn level_reached(level: nat, xp: nat) -> nat {
    if level == 0 || level >= rank(xp) {
        level
    } else {
        rank(xp)
    }
}

/// The level reached is the first from `level` on whose threshold lies above
/// the experience.
pub proof fn lemma_level_reached(level: nat, xp: nat)
    requires
        xp < XP_CEILING,
    ensures
        level_reached(level, xp) >= level,
        xp < threshold(level_reached(level, xp)),
        forall|l: nat| level <= l < level_reached(level, xp) ==> xp >= threshold(l),
{
}

/// Gaining experience in two steps raises the level as far as gaining it in
/// one.
pub proof fn lemma_levels_do_not_depend_on_the_steps(level: nat, first: nat, then: nat)
    requires
        first <= then < XP_CEILING,
    ensures
        level_reached(level_reached(level, first), then) == level_reached(level, then),
{
}

/// How far a player has come within their level, as a fraction: experience
/// gained since the level began over the experience the level spans, and
/// never more than the whole.
pub open spec fn progress_in_level(level: nat, xp: nat) -> (nat, nat) {
    let span = threshold(level) - floor(level);
    let gained = if xp >= floor(level) {
        xp - floor(level)
    } else {
        0
    };
    (
        if gained > span {
            span as nat
        } else {
            gained as nat
        },
        span as nat,
    )
}

impl Default for PlayerScore {
    /// A new player: a Novice of level one, with nothing achieved.
    fn default() -> (score: Self)
        ensures
            score.xp == 0,
            score.level == 1,
            score.title@ == "Novice"@,
            score.rooms_discovered@.len() == 0,
            score.fragments_collected == 0,
            score.puzzles_solved == 0,
    {
        PlayerScore {
            xp: 0,
            level: 1,
            title: String::from_str("Novice"),
            rooms_discovered: Vec::new(),
            fragments_collected: 0,
            puzzles_solved: 0,
        }
    }
}

impl PlayerScore {
    /// The experience the player needs for the next level.
    pub fn xp_for_next_level(&self) -> (xp: u32)
        ensures
            xp == threshold(self.level as nat),
    {
        if self.level == 1 {
            100
        } else if self.level == 2 {
            300
        } else if self.level == 3 {
            600
        } else if self.level == 4 {
            1000
        } else {
            1500
        }
    }

    /// How far the player has come within their level, as a fraction:
    /// experience gained since the level began over the experience the level
    /// spans. The first is never more than the second, and the second never
    /// zero.
    pub fn level_progress(&self) -> (fraction: (u32, u32))
        ensures
            fraction.0 as nat == progress_in_level(self.level as nat, self.xp as nat).0,
            fraction.1 as nat == progress_in_level(self.level as nat, self.xp as nat).1,
            fraction.0 <= fraction.1,
            fraction.1 > 0,
    {
        let prev: u32 = if self.level == 1 {
            0
        } else if self.level == 2 {
            100
        } else if self.level == 3 {
            300
        } else if self.level == 4 {
            600
        } else {
            1000
        };
        let next = self.xp_for_next_level();
        let gained: u32 = if self.xp >= prev {
            self.xp - prev
        } else {
            0
        };
        let span: u32 = next - prev;
        if gained > span {
            (span, span)
        } else {
            (gained, span)
        }
    }

    /// The title of a player of `level`.
    pub fn title_for_level(level: u32) -> (title: &'static str)
        ensures
            title@ == title_of(level as nat),
    {
        if level == 1 {
            "Novice"
        } else if level == 2 {
            "Student"
        } else if level == 3 {
            "Architect"
        } else if level == 4 {
            "Sovereign"
        } else {
            "Grandmaster"
        }
    }

    /// Adds `amount` experience and raises the level past every threshold
    /// that the new total has reached. Each level gained is reported, lowest
    /// first, with its title; the player keeps the title of the last.
    ///
    /// The new total has to stay below [`XP_CEILING`].
    pub fn gain_xp(&mut self, amount: u32) -> (events: Vec<LevelUpEvent>)
        requires
            old(self).xp + amount < XP_CEILING,
        ensures
            final(self).xp == old(self).xp + amount,
            final(self).level == level_reached(old(self).level as nat, final(self).xp as nat),
            events@.len() == final(self).level - old(self).level,
            forall|i: int|
                0 <= i < events@.len() ==> (#[trigger] events@[i]).new_level == old(self).level + 1
                    + i && events@[i].title@ == title_of((old(self).level + 1 + i) as nat),
            final(self).title@ == if final(self).level == old(self).level {
                old(self).title@
            } else {
                title_of(final(self).level as nat)
            },
            final(self).rooms_discovered == old(self).rooms_discovered,
            final(self).fragments_collected == old(self).fragments_collected,
            final(self).puzzles_solved == old(self).puzzles_solved,
    {
        self.xp = self.xp + amount;
        let mut events: Vec<LevelUpEvent> = Vec::new();
        while self.xp >= self.xp_for_next_level()
            invariant
                self.xp == old(self).xp + amount,
                self.xp < XP_CEILING,
                old(self).level <= self.level,
                self.level <= level_reached(old(self).level as nat, self.xp as nat),
                events@.len() == self.level - old(self).level,
                forall|i: int|
                    0 <= i < events@.len() ==> (#[trigger] events@[i]).new_level == old(self).level
                        + 1 + i && events@[i].title@ == title_of((old(self).level + 1 + i) as nat),
                self.title@ == if self.level == old(self).level {
                    old(self).title@
                } else {
                    title_of(self.level as nat)
                },
                self.rooms_discovered == old(self).rooms_discovered,
                self.fragments_collected == old(self).fragments_collected,
                self.puzzles_solved == old(self).puzzles_solved,
            decreases 5 - self.level,
        {
            self.level = self.level + 1;
            self.title = String::from_str(Self::title_for_level(self.level));
            events.push(
                LevelUpEvent {
                    new_level: self.level,
                    title: String::from_str(Self::title_for_level(self.level)),
                },
            );
        }
        events
    }

    /// Counts one more knowledge fragment as collected.
    pub fn collect_fragment(&mut self)
        requires
            old(self).fragments_collected < u32::MAX,
        ensures
            final(self).fragments_collected == old(self).fragments_collected + 1,
            final(self).xp == old(self).xp,
            final(self).level == old(self).level,
            final(self).title == old(self).title,
            final(self).rooms_discovered == old(self).rooms_discovered,
            final(self).puzzles_solved == old(self).puzzles_solved,
    {
        self.fragments_collected = self.fragments_collected + 1;
    }

    /// The line that shows level and title, as in `Lv.2 Student`.
    pub fn level_line(&self) -> (line: String)
        ensures
            line@ == "\u{26a1} Lv."@ + decimal(self.level as nat) + " "@ + self.title@,
    {
        let mut out: Vec<char> = Vec::new();
        append_str(&mut out, "\u{26a1} Lv.");
        append_decimal(&mut out, self.level as u64);
        append_str(&mut out, " ");
        append_str(&mut out, self.title.as_str());
        from_chars(out.as_slice())
    }

    /// The line that shows experience against the next threshold, as in
    /// `40 / 100 XP`.
    pub fn xp_line(&self) -> (line: String)
        ensures
            line@ == decimal(self.xp as nat) + " / "@ + decimal(threshold(self.level as nat))
                + " XP"@,
    {
        let mut out: Vec<char> = Vec::new();
        append_decimal(&mut out, self.xp as u64);
        append_str(&mut out, " / ");
        append_decimal(&mut out, self.xp_for_next_level() as u64);
        append_str(&mut out, " XP");
        from_chars(out.as_slice())
    }
}

} // verus!
