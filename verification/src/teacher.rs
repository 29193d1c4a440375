//! The teacher: when it speaks of its own accord, what it is asked to say,
//! and how talking to it moves the quest along.

use crate::ai::AiRequest;
use crate::inventory::Inventory;
use crate::inventory::ToolId;
use crate::scoring::PlayerScore;
use crate::syllabus::gagne_step_name;
use crate::syllabus::step_name;
use crate::syllabus::PhaseModel;
use crate::syllabus::QuestAdvancedEvent;
use crate::syllabus::QuestPhase;
use crate::syllabus::resource_model;
use crate::syllabus::ResourceModel;
use crate::syllabus::SyllabusResource;
use crate::syllabus::texts_of;
use crate::text::append;
use crate::text::append_decimal;
use crate::text::append_str;
use crate::text::decimal;
use crate::text::from_chars;
use crate::text::joined;
use vstd::prelude::*;
use vstd::string::StringExecFns;

verus! {

/// What the teacher is doing.
pub struct TeacherState {
    pub is_speaking: bool,
    pub last_message: String,
    /// Set once the teacher has spoken of its own accord, so that it does
    /// not speak again while the player stays close.
    pub auto_dialogue_sent: bool,
}

/// What the teacher did: what it asked to have said, if anything, and the
/// news that the quest moved on, if it did.
pub struct TeacherReaction {
    pub request: Option<AiRequest>,
    pub advanced: Option<QuestAdvancedEvent>,
}

/// What to do with the timer that paces the teacher's nudges.
#[derive(Debug, Clone, Copy, PartialEq, Eq, Structural)]
pub enum NudgeTimer {
    /// Leave it alone.
    Hold,
    /// Start it over.
    Reset,
    /// Let it run; when it runs out, the teacher nudges.
    Run,
}

/// The level a player needs before the first quest goes beyond its sixth
/// phase.
pub const GATE_LEVEL: u32 = 2;

/// The phase of the first quest, counted from zero, at which the level is
/// asked for.
pub const GATE_PHASE: usize = 5;

/// What the teacher says to a player who is held at the level gate.
pub const GATE_TEXT: &'static str =
    "Architect, your understanding is still novice. You must engage the Glitch Slimes in the hall to grind until you reach Level 2 before we proceed.";

/// What the teacher is asked when the player walks up during an
/// exploration.
pub const GREETING_PROMPT: &'static str =
    "ROLE: You are The Gamification Architect mentor NPC. The player just walked up to you. Greet them warmly in 1-2 sentences, RPG style. Call them 'Architect'.";

/// What the teacher says for a lesson event that has no text.
pub const LESSON_FALLBACK: &'static str = "Welcome, Architect.";

impl Default for TeacherState {
    /// The teacher at rest, waiting for the player.
    fn default() -> (state: Self)
        ensures
            !state.is_speaking,
            !state.auto_dialogue_sent,
            state.last_message@ == "Waiting for Architect..."@,
    {
        TeacherState {
            is_speaking: false,
            last_message: String::from_str("Waiting for Architect..."),
            auto_dialogue_sent: false,
        }
    }
}

// ---------------------------------------------------------------------------
// What the teacher is asked to say
// ---------------------------------------------------------------------------

/// The request for a nudge towards the teacher, for a player who wanders
/// during the quest titled `title`.
pub open spec fn nudge_prompt(title: Seq<char>) -> Seq<char> {
    "ROLE: Pedagogical Orchestrator. STATUS: The Architect is drifting in the world during the exploration phase for quest '"@
        + title
        + "'. MANAGED FREE WILL: Provide a gentle, 1-sentence 'nudge' that acknowledges their freedom but pulls them toward the chalkboard (the Teacher's location). Keep it very brief. Call them 'Architect'."@
}

/// The request to deliver one event of the lesson: the quest by title, the
/// event by name, and the text of the event.
pub open spec fn lesson_prompt(title: Seq<char>, event: Seq<char>, text: Seq<char>) -> Seq<char> {
    "ROLE: You are the Gamification Architect, acting as a Pedagogical Orchestrator.\nCONTEXT: The Architect (the player) is currently on the quest '"@
        + title + "', and has just approached you.\nCURRENT LESSON (Gagn\u{e9} Event '"@ + event
        + "'): "@ + text
        + "\n\nINSTRUCTION: Deliver this lesson step to the Architect in 2 short sentences. Speak with a cyberpunk mentor tone. Focus intensely on the educational value of local, sovereign AI. Be concise."@
}

/// The request to put a reflection question to the player.
pub open spec fn reflection_prompt(question: Seq<char>) -> Seq<char> {
    "ROLE: Pedagogical Orchestrator. MANAGED FREE WILL: 'Yes-And' any student curiosity while maintaining the gravitational pull of this question. Ask the Architect this reflection question (2 sentences max): '"@
        + question + "'"@
}

/// The answers of a quiz, each behind its number, counted from one.
pub open spec fn numbered(options: Seq<Seq<char>>) -> Seq<Seq<char>> {
    Seq::new(options.len(), |i: int| decimal((i + 1) as nat) + ". "@ + options[i])
}

/// The request to put a quiz question to the player, with its answers one
/// to a line.
pub open spec fn quiz_prompt(question: Seq<char>, options: Seq<Seq<char>>) -> Seq<char> {
    "ROLE: Pedagogical Orchestrator. Ask the Architect this quiz question: '"@ + question
        + "'\n\nOptions:\n"@ + joined(numbered(options), "\n"@)
        + "\n\nInstruction: Present the question and options clearly. Call them 'Architect'. Limit your response to 2 short sentences plus the options."@
}

/// What the logic lens shows about a quest in progress.
pub open spec fn lens_report(title: Seq<char>, kind: Seq<char>, label: Seq<char>) -> Seq<char> {
    "\u{1f50d} LOGIC LENS\nQUEST: "@ + title + "\nPHASE: ["@ + kind + "] "@ + label
        + "\nINTENT: Gagn\u{e9} Event Protocol"@
}

/// What the logic lens shows, given where the syllabus stands.
pub open spec fn lens_text(syllabus: Option<ResourceModel>) -> Seq<char> {
    match syllabus {
        Some(s) => match s.current_quest() {
            Some(quest) => lens_report(quest.title@, s.script.current().kind(), s.script.current().label()),
            None => "\u{1f50d} LOGIC LENS\nSearching for intent..."@,
        },
        None => "\u{1f50d} LOGIC LENS\nNo syllabus context found."@,
    }
}

/// The text of a request, if there is one.
pub open spec fn request_text(request: Option<AiRequest>) -> Option<Seq<char>> {
    match request {
        Some(AiRequest::Text(t)) => Some(t@),
        None => None,
    }
}

/// The news that the quest of `s` has moved on: the module and the phase at
/// which it now stands.
pub open spec fn news_of(s: ResourceModel, event: Option<QuestAdvancedEvent>) -> bool {
    event matches Some(e) && e.module_index == s.module_index && e.step_index == s.script.done
}

fn news(syllabus: &SyllabusResource) -> (event: Option<QuestAdvancedEvent>)
    ensures
        news_of(syllabus@, event),
{
    Some(
        QuestAdvancedEvent {
            module_index: syllabus.current_module_index,
            step_index: syllabus.quest_script.current_phase,
        },
    )
}

fn quiz_request(question: &str, options: &Vec<String>) -> (text: String)
    ensures
        text@ == quiz_prompt(question@, texts_of(options@)),
{
    let mut out: Vec<char> = Vec::new();
    append_str(&mut out, "ROLE: Pedagogical Orchestrator. Ask the Architect this quiz question: '");
    append_str(&mut out, question);
    append_str(&mut out, "'\n\nOptions:\n");
    let ghost head = out@;
    let ghost lines = numbered(texts_of(options@));
    let mut i: usize = 0;
    assert(lines.take(0) =~= Seq::<Seq<char>>::empty());
    assert(out@ =~= head + joined(lines.take(0), "\n"@));
    while i < options.len()
        invariant
            i <= options.len(),
            lines == numbered(texts_of(options@)),
            out@ == head + joined(lines.take(i as int), "\n"@),
        decreases options.len() - i,
    {
        let ghost before = lines.take(i as int);
        let ghost next = lines.take(i + 1);
        assert(next.drop_last() =~= before);
        assert(next.last() == decimal((i + 1) as nat) + ". "@ + options@[i as int]@);
        if i > 0 {
            append_str(&mut out, "\n");
        }
        append_decimal(&mut out, (i + 1) as u64);
        append_str(&mut out, ". ");
        append_str(&mut out, options[i].as_str());
        assert(out@ =~= head + joined(next, "\n"@));
        i += 1;
    }
    assert(lines.take(options.len() as int) =~= lines);
    append_str(
        &mut out,
        "\n\nInstruction: Present the question and options clearly. Call them 'Architect'. Limit your response to 2 short sentences plus the options.",
    );
    from_chars(out.as_slice())
}

/// What the logic lens shows: the report on the quest in progress while the
/// lens is in hand and the player stands by the teacher, and nothing
/// otherwise.
pub fn update_logic_lens(
    inventory: &Inventory,
    can_interact: bool,
    syllabus: Option<&SyllabusResource>,
) -> (shown: Option<String>)
    ensures
        match shown {
            Some(text) => inventory.active_tool == Some(ToolId::LogicLens) && can_interact && text@
                == lens_text(resource_model(syllabus)),
            None => !(inventory.active_tool == Some(ToolId::LogicLens) && can_interact),
        },
{
    let lens_active = match inventory.active_tool {
        Some(tool) => tool == ToolId::LogicLens,
        None => false,
    };
    if !(lens_active && can_interact) {
        return None;
    }
    match syllabus {
        Some(syl) => match syl.current_quest() {
            Some(quest) => {
                let phase = syl.current_phase();
                let mut text = String::from_str("\u{1f50d} LOGIC LENS\nQUEST: ");
                text.append(quest.title.as_str());
                text.append("\nPHASE: [");
                text.append(phase.phase_type_name());
                text.append("] ");
                text.append(phase.display_label().as_str());
                text.append("\nINTENT: Gagn\u{e9} Event Protocol");
                Some(text)
            },
            None => Some(String::from_str("\u{1f50d} LOGIC LENS\nSearching for intent...")),
        },
        None => Some(String::from_str("\u{1f50d} LOGIC LENS\nNo syllabus context found.")),
    }
}

impl TeacherState {
    /// What to do with the nudge timer on this beat: without a syllabus it
    /// is left alone; outside an exploration it starts over; while the
    /// teacher speaks it is left alone; otherwise it runs.
    pub fn nudge_timer(&self, syllabus: Option<&SyllabusResource>) -> (timer: NudgeTimer)
        ensures
            timer == match resource_model(syllabus) {
                None => NudgeTimer::Hold,
                Some(s) => if !(s.script.current() is Exploration) {
                    NudgeTimer::Reset
                } else if self.is_speaking {
                    NudgeTimer::Hold
                } else {
                    NudgeTimer::Run
                },
            },
    {
        match syllabus {
            None => NudgeTimer::Hold,
            Some(syl) => match syl.current_phase() {
                QuestPhase::Exploration { .. } => if self.is_speaking {
                    NudgeTimer::Hold
                } else {
                    NudgeTimer::Run
                },
                _ => NudgeTimer::Reset,
            },
        }
    }

    /// The nudge that goes out when the nudge timer has run out: a request
    /// that names the quest in progress, after which the teacher speaks.
    /// Past the last quest there is nothing to nudge towards.
    pub fn teacher_nudge_system(&mut self, syllabus: &SyllabusResource) -> (request: Option<
        AiRequest,
    >)
        ensures
            final(self).last_message == old(self).last_message,
            final(self).auto_dialogue_sent == old(self).auto_dialogue_sent,
            match syllabus@.current_quest() {
                Some(quest) => request_text(request) == Some(nudge_prompt(quest.title@))
                    && final(self).is_speaking,
                None => request is None && final(self).is_speaking == old(self).is_speaking,
            },
    {
        match syllabus.current_quest() {
            Some(quest) => {
                let mut text = String::from_str(
                    "ROLE: Pedagogical Orchestrator. STATUS: The Architect is drifting in the world during the exploration phase for quest '",
                );
                text.append(quest.title.as_str());
                text.append(
                    "'. MANAGED FREE WILL: Provide a gentle, 1-sentence 'nudge' that acknowledges their freedom but pulls them toward the chalkboard (the Teacher's location). Keep it very brief. Call them 'Architect'.",
                );
                self.is_speaking = true;
                Some(AiRequest::Text(text))
            },
            None => None,
        }
    }

    /// What the teacher does of its own accord on this beat; `can_interact`
    /// tells whether the player stands close.
    ///
    /// A player out of reach lets the teacher speak anew next time. A
    /// teacher that has spoken already, or is speaking, stays quiet. A
    /// player who arrives during an exploration finishes it. In a dialogue
    /// the teacher is asked to deliver the lesson event, in a reflection or
    /// a quiz to put the question; it then speaks, and will not speak again
    /// while the player stays. A dialogue past the last quest, a task and a
    /// finished script leave the teacher silent.
    pub fn auto_dialogue_on_proximity(
        &mut self,
        can_interact: bool,
        syllabus: &mut SyllabusResource,
    ) -> (reaction: TeacherReaction)
        requires
            old(syllabus).current_module_index < usize::MAX,
        ensures
            final(self).last_message == old(self).last_message,
            final(syllabus).syllabus == old(syllabus).syllabus,
            !can_interact ==> {
                &&& !final(self).auto_dialogue_sent
                &&& final(self).is_speaking == old(self).is_speaking
                &&& reaction.request is None
                &&& reaction.advanced is None
                &&& *final(syllabus) == *old(syllabus)
            },
            can_interact && (old(self).auto_dialogue_sent || old(self).is_speaking) ==> {
                &&& *final(self) == *old(self)
                &&& reaction.request is None
                &&& reaction.advanced is None
                &&& *final(syllabus) == *old(syllabus)
            },
            can_interact && !old(self).auto_dialogue_sent && !old(self).is_speaking ==> {
                let before = old(syllabus)@;
                let after = final(syllabus)@;
                match before.script.current() {
                    PhaseModel::Exploration { .. } => {
                        &&& after == before.advanced()
                        &&& news_of(after, reaction.advanced)
                        &&& reaction.request is None
                        &&& !final(self).auto_dialogue_sent
                        &&& !final(self).is_speaking
                    },
                    PhaseModel::Dialogue { gagne_step, .. } => {
                        &&& after == before
                        &&& reaction.advanced is None
                        &&& match before.current_quest() {
                            Some(quest) => {
                                &&& request_text(reaction.request) == Some(
                                    lesson_prompt(
                                        quest.title@,
                                        step_name(gagne_step),
                                        match quest.events.step_text(gagne_step) {
                                            Some(text) => text,
                                            None => LESSON_FALLBACK@,
                                        },
                                    ),
                                )
                                &&& final(self).is_speaking
                                &&& final(self).auto_dialogue_sent
                            },
                            None => {
                                &&& reaction.request is None
                                &&& !final(self).is_speaking
                                &&& !final(self).auto_dialogue_sent
                            },
                        }
                    },
                    PhaseModel::Reflection { question, .. } => {
                        &&& after == before
                        &&& reaction.advanced is None
                        &&& request_text(reaction.request) == Some(reflection_prompt(question))
                        &&& final(self).is_speaking
                        &&& final(self).auto_dialogue_sent
                    },
                    PhaseModel::Quiz { question, options, .. } => {
                        &&& after == before
                        &&& reaction.advanced is None
                        &&& request_text(reaction.request) == Some(quiz_prompt(question, options))
                        &&& final(self).is_speaking
                        &&& final(self).auto_dialogue_sent
                    },
                    _ => {
                        &&& after == before
                        &&& reaction.advanced is None
                        &&& reaction.request is None
                        &&& !final(self).is_speaking
                        &&& !final(self).auto_dialogue_sent
                    },
                }
            },
    {
        if !can_interact {
            self.auto_dialogue_sent = false;
            return TeacherReaction { request: None, advanced: None };
        }
        if self.auto_dialogue_sent || self.is_speaking {
            return TeacherReaction { request: None, advanced: None };
        }
        let is_exploration = match syllabus.current_phase() {
            QuestPhase::Exploration { .. } => true,
            _ => false,
        };
        if is_exploration {
            let _ = syllabus.advance_phase();
            self.auto_dialogue_sent = false;
            return TeacherReaction { request: None, advanced: news(syllabus) };
        }
        match syllabus.current_phase() {
            QuestPhase::Dialogue { gagne_step, .. } => {
                match syllabus.current_quest() {
                    Some(quest) => {
                        let mut text = String::from_str(
                            "ROLE: You are the Gamification Architect, acting as a Pedagogical Orchestrator.\nCONTEXT: The Architect (the player) is currently on the quest '",
                        );
                        text.append(quest.title.as_str());
                        text.append(
                            "', and has just approached you.\nCURRENT LESSON (Gagn\u{e9} Event '",
                        );
                        text.append(gagne_step_name(*gagne_step));
                        text.append("'): ");
                        match quest.events.get_step_text(*gagne_step) {
                            Some(event_text) => {
                                text.append(event_text);
                            },
                            None => {
                                text.append(LESSON_FALLBACK);
                            },
                        }
                        text.append(
                            "\n\nINSTRUCTION: Deliver this lesson step to the Architect in 2 short sentences. Speak with a cyberpunk mentor tone. Focus intensely on the educational value of local, sovereign AI. Be concise.",
                        );
                        self.is_speaking = true;
                        self.auto_dialogue_sent = true;
                        TeacherReaction {
                            request: Some(AiRequest::Text(text)),
                            advanced: None,
                        }
                    },
                    None => TeacherReaction { request: None, advanced: None },
                }
            },
            QuestPhase::Reflection { question, .. } => {
                let mut text = String::from_str(
                    "ROLE: Pedagogical Orchestrator. MANAGED FREE WILL: 'Yes-And' any student curiosity while maintaining the gravitational pull of this question. Ask the Architect this reflection question (2 sentences max): '",
                );
                text.append(question.as_str());
                text.append("'");
                self.is_speaking = true;
                self.auto_dialogue_sent = true;
                TeacherReaction { request: Some(AiRequest::Text(text)), advanced: None }
            },
            QuestPhase::Quiz { question, options, .. } => {
                let text = quiz_request(question.as_str(), options);
                self.is_speaking = true;
                self.auto_dialogue_sent = true;
                TeacherReaction { request: Some(AiRequest::Text(text)), advanced: None }
            },
            _ => TeacherReaction { request: None, advanced: None },
        }
    }

    /// What a beat without a syllabus does to the teacher: a player out of
    /// reach lets the teacher speak anew next time, and nothing else
    /// changes.
    pub fn auto_dialogue_without_syllabus(&mut self, can_interact: bool)
        ensures
            final(self).auto_dialogue_sent == (can_interact && old(self).auto_dialogue_sent),
            final(self).is_speaking == old(self).is_speaking,
            final(self).last_message == old(self).last_message,
    {
        if !can_interact {
            self.auto_dialogue_sent = false;
        }
    }

    /// What the teacher does when the player, standing close, presses the
    /// talk key.
    ///
    /// At the level gate, the sixth phase of the first quest, a player
    /// below level two is sent away to earn it. Otherwise a dialogue is
    /// finished; a reflection is marked as answered and finished; during an
    /// exploration the teacher is asked for a greeting; in any other phase
    /// nothing happens. Finishing a phase lets the teacher speak anew.
    pub fn teacher_interaction(&mut self, syllabus: &mut SyllabusResource, score: &PlayerScore)
        -> (reaction: TeacherReaction)
        requires
            old(syllabus).current_module_index < usize::MAX,
        ensures
            final(self).last_message == old(self).last_message,
            final(syllabus).syllabus == old(syllabus).syllabus,
            held_at_gate(old(syllabus)@, score.level) ==> {
                &&& request_text(reaction.request) == Some(GATE_TEXT@)
                &&& reaction.advanced is None
                &&& final(self).is_speaking
                &&& final(self).auto_dialogue_sent == old(self).auto_dialogue_sent
                &&& final(syllabus)@ == old(syllabus)@
            },
            !held_at_gate(old(syllabus)@, score.level) ==> match old(
                syllabus,
            )@.script.current() {
                PhaseModel::Dialogue { .. } => {
                    &&& final(syllabus)@ == old(syllabus)@.advanced()
                    &&& news_of(final(syllabus)@, reaction.advanced)
                    &&& reaction.request is None
                    &&& !final(self).is_speaking
                    &&& !final(self).auto_dialogue_sent
                },
                PhaseModel::Reflection { .. } => {
                    &&& final(syllabus)@ == old(syllabus)@.with_task_done().advanced()
                    &&& news_of(final(syllabus)@, reaction.advanced)
                    &&& reaction.request is None
                    &&& !final(self).is_speaking
                    &&& !final(self).auto_dialogue_sent
                },
                PhaseModel::Exploration { .. } => {
                    &&& request_text(reaction.request) == Some(GREETING_PROMPT@)
                    &&& reaction.advanced is None
                    &&& final(self).is_speaking
                    &&& final(self).auto_dialogue_sent == old(self).auto_dialogue_sent
                    &&& final(syllabus)@ == old(syllabus)@
                },
                _ => {
                    &&& reaction.request is None
                    &&& reaction.advanced is None
                    &&& final(self).is_speaking == old(self).is_speaking
                    &&& final(self).auto_dialogue_sent == old(self).auto_dialogue_sent
                    &&& final(syllabus)@ == old(syllabus)@
                },
            },
    {
        if syllabus.current_module_index == 0 && syllabus.quest_script.current_phase == GATE_PHASE
            && score.level < GATE_LEVEL {
            self.is_speaking = true;
            return TeacherReaction {
                request: Some(AiRequest::Text(String::from_str(GATE_TEXT))),
                advanced: None,
            };
        }
        let kind: u8 = match syllabus.current_phase() {
            QuestPhase::Dialogue { .. } => 0,
            QuestPhase::Reflection { .. } => 1,
            QuestPhase::Exploration { .. } => 2,
            _ => 3,
        };
        if kind == 0 {
            let _ = syllabus.advance_phase();
            self.auto_dialogue_sent = false;
            self.is_speaking = false;
            TeacherReaction { request: None, advanced: news(syllabus) }
        } else if kind == 1 {
            syllabus.complete_current_task();
            let _ = syllabus.advance_phase();
            self.auto_dialogue_sent = false;
            self.is_speaking = false;
            TeacherReaction { request: None, advanced: news(syllabus) }
        } else if kind == 2 {
            self.is_speaking = true;
            TeacherReaction {
                request: Some(AiRequest::Text(String::from_str(GREETING_PROMPT))),
                advanced: None,
            }
        } else {
            TeacherReaction { request: None, advanced: None }
        }
    }
}

/// Whether a player of `level` is held at the level gate.
pub open spec fn held_at_gate(s: ResourceModel, level: u32) -> bool {
    s.module_index == 0 && s.script.done == GATE_PHASE && level < GATE_LEVEL
}

} // verus!
