//! What the quest log, the banner, the clock and the victory screen say.

use crate::scoring::PlayerScore;
use crate::syllabus::ResourceModel;
use crate::syllabus::SyllabusResource;
use crate::text::append;
use crate::text::append_decimal;
use crate::text::append_str;
use crate::text::append_two_digits;
use crate::text::decimal;
use crate::text::from_chars;
use crate::text::two_digits;
use vstd::prelude::*;
use vstd::string::StringExecFns;

verus! {

/// The banner for a quest of which every phase is done.
pub const QUEST_COMPLETE_BANNER: &'static str = "\u{2501}\u{2501}  QUEST COMPLETE  \u{2501}\u{2501}";

/// The line of the quest log for a quest of which every phase is done.
pub const QUEST_COMPLETE_LINE: &'static str = "\u{2705} Quest Complete!";

/// How many knowledge fragments there are to collect.
pub const FRAGMENTS_IN_ALL: u32 = 8;

/// How many rooms there are to discover.
pub const ROOMS_IN_ALL: u32 = 4;

/// The banner that announces a phase: its kind, its number counted from
/// one, the number of phases, and what it asks for.
pub open spec fn phase_banner(s: ResourceModel) -> Seq<char> {
    if s.script.is_complete() {
        QUEST_COMPLETE_BANNER@
    } else {
        "\u{2501}\u{2501}  ["@ + s.script.current().kind() + "]  "@ + decimal(s.script.done + 1)
            + "/"@ + decimal(s.script.phases.len()) + ": "@ + s.script.current().label()
            + "  \u{2501}\u{2501}"@
    }
}

/// The line of the quest log that tells where the quest stands.
pub open spec fn step_line(s: ResourceModel) -> Seq<char> {
    if s.script.is_complete() {
        QUEST_COMPLETE_LINE@
    } else {
        "["@ + s.script.current().kind() + "] "@ + decimal(s.script.done + 1) + "/"@ + decimal(
            s.script.phases.len(),
        )
    }
}

/// The line of the quest log that tells what to do.
pub open spec fn objective_line(s: ResourceModel) -> Seq<char> {
    if s.script.is_complete() {
        ""@
    } else {
        "GOAL: "@ + s.script.current().label()
    }
}

/// A time as minutes and seconds, each with at least two digits.
pub open spec fn clock(elapsed_secs: nat) -> Seq<char> {
    two_digits(elapsed_secs / 60) + ":"@ + two_digits(elapsed_secs % 60)
}

/// What the quest log shows.
pub struct QuestLog {
    /// The title of the quest; `None` leaves the title as it was.
    pub title: Option<String>,
    pub step: String,
    pub objective: String,
    /// How far the script has come, as a fraction.
    pub progress: (usize, usize),
}

/// One line of the victory screen.
pub struct StatLine {
    pub label: &'static str,
    pub value: String,
}

fn append_position(out: &mut Vec<char>, syllabus: &SyllabusResource)
    requires
        !syllabus@.script.is_complete(),
    ensures
        final(out)@ == old(out)@ + decimal(syllabus@.script.done + 1) + "/"@ + decimal(
            syllabus@.script.phases.len(),
        ),
{
    let total = syllabus.quest_script.total_phases();
    append_decimal(out, (syllabus.quest_script.current_phase + 1) as u64);
    append_str(out, "/");
    append_decimal(out, total as u64);
}

/// The banner that announces the phase in which the quest stands.
pub fn update_quest_notification(syllabus: &SyllabusResource) -> (text: String)
    ensures
        text@ == phase_banner(syllabus@),
{
    if syllabus.quest_script.is_complete() {
        return String::from_str(QUEST_COMPLETE_BANNER);
    }
    let phase = syllabus.current_phase();
    let mut out: Vec<char> = Vec::new();
    append_str(&mut out, "\u{2501}\u{2501}  [");
    append_str(&mut out, phase.phase_type_name());
    append_str(&mut out, "]  ");
    append_position(&mut out, syllabus);
    append_str(&mut out, ": ");
    append_str(&mut out, phase.display_label().as_str());
    append_str(&mut out, "  \u{2501}\u{2501}");
    from_chars(out.as_slice())
}

/// What the quest log shows: the title of the quest in progress, where the
/// quest stands, what to do, and how far the script has come.
pub fn update_quest_log(syllabus: &SyllabusResource) -> (log: QuestLog)
    ensures
        match log.title {
            Some(title) => syllabus@.current_quest() matches Some(quest) && title@
                == "\u{1f4dc} "@ + quest.title@,
            None => syllabus@.current_quest() is None,
        },
        log.step@ == step_line(syllabus@),
        log.objective@ == objective_line(syllabus@),
        log.progress.0 as nat == syllabus@.script.progress().0,
        log.progress.1 as nat == syllabus@.script.progress().1,
{
    let title = match syllabus.current_quest() {
        Some(quest) => Some(String::from_str("\u{1f4dc} ").concat(quest.title.as_str())),
        None => None,
    };
    let progress = syllabus.quest_script.progress_percent();
    if syllabus.quest_script.is_complete() {
        return QuestLog {
            title,
            step: String::from_str(QUEST_COMPLETE_LINE),
            objective: String::from_str(""),
            progress,
        };
    }
    let phase = syllabus.current_phase();
    let mut step: Vec<char> = Vec::new();
    append_str(&mut step, "[");
    append_str(&mut step, phase.phase_type_name());
    append_str(&mut step, "] ");
    append_position(&mut step, syllabus);
    let objective = String::from_str("GOAL: ").concat(phase.display_label().as_str());
    QuestLog { title, step: from_chars(step.as_slice()), objective, progress }
}

fn clock_text(elapsed_secs: u64) -> (text: Vec<char>)
    ensures
        text@ == clock(elapsed_secs as nat),
{
    let mut out: Vec<char> = Vec::new();
    append_two_digits(&mut out, elapsed_secs / 60);
    append_str(&mut out, ":");
    append_two_digits(&mut out, elapsed_secs % 60);
    out
}

/// The mission clock after `elapsed_secs` whole seconds.
pub fn update_mission_timer(elapsed_secs: u64) -> (text: String)
    ensures
        text@ == "\u{23f1} "@ + clock(elapsed_secs as nat),
{
    let mut out: Vec<char> = Vec::new();
    append_str(&mut out, "\u{23f1} ");
    let time = clock_text(elapsed_secs);
    append(&mut out, time.as_slice());
    from_chars(out.as_slice())
}

/// Whether the player has finished the last quest.
pub open spec fn is_victory(s: ResourceModel) -> bool {
    s.module_index >= s.modules.len()
}

/// The lines of the victory screen, for a player who has finished the last
/// quest and has not been shown the screen yet: time, experience, fragments
/// collected, rooms discovered, puzzles solved, and level with title.
pub fn show_victory_screen(
    syllabus: &SyllabusResource,
    score: &PlayerScore,
    elapsed_secs: u64,
    already_shown: bool,
) -> (lines: Option<Vec<StatLine>>)
    ensures
        lines is Some == (is_victory(syllabus@) && !already_shown),
        lines matches Some(stats) ==> {
            &&& stats@.len() == 6
            &&& stats@[0].label@ == "\u{23f1}  Time"@
            &&& stats@[0].value@ == clock(elapsed_secs as nat)
            &&& stats@[1].label@ == "\u{26a1}  XP Earned"@
            &&& stats@[1].value@ == decimal(score.xp as nat)
            &&& stats@[2].label@ == "\u{1f4dc}  Fragments"@
            &&& stats@[2].value@ == decimal(score.fragments_collected as nat) + "/"@ + decimal(
                FRAGMENTS_IN_ALL as nat,
            )
            &&& stats@[3].label@ == "\u{1f5fa}\u{fe0f}  Rooms"@
            &&& stats@[3].value@ == decimal(score.rooms_discovered@.len()) + "/"@ + decimal(
                ROOMS_IN_ALL as nat,
            )
            &&& stats@[4].label@ == "\u{1f9e9}  Puzzles"@
            &&& stats@[4].value@ == decimal(score.puzzles_solved as nat)
            &&& stats@[5].label@ == "\u{2b50}  Level"@
            &&& stats@[5].value@ == "Lv."@ + decimal(score.level as nat) + " \u{2014} "@
                + score.title@
        },
{
    if !(syllabus.current_module_index >= syllabus.syllabus.modules.len() && !already_shown) {
        return None;
    }
    let mut stats: Vec<StatLine> = Vec::new();
    let time = clock_text(elapsed_secs);
    stats.push(StatLine { label: "\u{23f1}  Time", value: from_chars(time.as_slice()) });
    let mut xp: Vec<char> = Vec::new();
    append_decimal(&mut xp, score.xp as u64);
    stats.push(StatLine { label: "\u{26a1}  XP Earned", value: from_chars(xp.as_slice()) });
    let mut fragments: Vec<char> = Vec::new();
    append_decimal(&mut fragments, score.fragments_collected as u64);
    append_str(&mut fragments, "/");
    append_decimal(&mut fragments, FRAGMENTS_IN_ALL as u64);
    stats.push(
        StatLine { label: "\u{1f4dc}  Fragments", value: from_chars(fragments.as_slice()) },
    );
    let mut rooms: Vec<char> = Vec::new();
    append_decimal(&mut rooms, score.rooms_discovered.len() as u64);
    append_str(&mut rooms, "/");
    append_decimal(&mut rooms, ROOMS_IN_ALL as u64);
    stats.push(
        StatLine { label: "\u{1f5fa}\u{fe0f}  Rooms", value: from_chars(rooms.as_slice()) },
    );
    let mut puzzles: Vec<char> = Vec::new();
    append_decimal(&mut puzzles, score.puzzles_solved as u64);
    stats.push(StatLine { label: "\u{1f9e9}  Puzzles", value: from_chars(puzzles.as_slice()) });
    let mut level: Vec<char> = Vec::new();
    append_str(&mut level, "Lv.");
    append_decimal(&mut level, score.level as u64);
    append_str(&mut level, " \u{2014} ");
    append_str(&mut level, score.title.as_str());
    stats.push(StatLine { label: "\u{2b50}  Level", value: from_chars(level.as_slice()) });
    Some(stats)
}

} // verus!
