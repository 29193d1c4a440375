//! The syllabus: quests, the nine events of a lesson, and the script of
//! phases that leads a player through each quest.

use crate::inventory::ToolId;
use crate::text::same_str;
use vstd::prelude::*;
use vstd::string::StringExecFns;

verus! {

// ---------------------------------------------------------------------------
// Phases
// ---------------------------------------------------------------------------

/// One phase of a quest.
#[derive(Clone, Debug, PartialEq)]
pub enum QuestPhase {
    /// The player has to walk to a target.
    Exploration { target: String, rewards: Option<Vec<ToolId>> },
    /// The teacher speaks one of the nine events of the lesson.
    Dialogue { gagne_step: usize, rewards: Option<Vec<ToolId>> },
    /// The player has to do something.
    Task { description: String, completed: bool, rewards: Option<Vec<ToolId>> },
    /// The player answers a question in their own words.
    Reflection { question: String, answered: bool, rewards: Option<Vec<ToolId>> },
    /// The player picks one of several answers.
    Quiz { question: String, options: Vec<String>, rewards: Option<Vec<ToolId>> },
    /// Nothing is left to do.
    Complete,
}

/// What a phase holds, as mathematics.
pub enum PhaseModel {
    Exploration { target: Seq<char>, rewards: Option<Seq<ToolId>> },
    Dialogue { gagne_step: nat, rewards: Option<Seq<ToolId>> },
    Task { description: Seq<char>, completed: bool, rewards: Option<Seq<ToolId>> },
    Reflection { question: Seq<char>, answered: bool, rewards: Option<Seq<ToolId>> },
    Quiz { question: Seq<char>, options: Seq<Seq<char>>, rewards: Option<Seq<ToolId>> },
    Complete,
}

/// The tools of a reward, if there is a reward.
pub open spec fn tools_of(rewards: Option<Vec<ToolId>>) -> Option<Seq<ToolId>> {
    match rewards {
        Some(tools) => Some(tools@),
        None => None,
    }
}

/// The texts of a list of strings.
pub open spec fn texts_of(strings: Seq<String>) -> Seq<Seq<char>> {
    strings.map_values(|s: String| s@)
}

/// The text of a string that may be missing, or `fallback` in its place.
pub open spec fn text_or(text: Option<String>, fallback: Seq<char>) -> Seq<char> {
    match text {
        Some(t) => t@,
        None => fallback,
    }
}

impl View for QuestPhase {
    type V = PhaseModel;

    open spec fn view(&self) -> PhaseModel {
        match *self {
            QuestPhase::Exploration { target, rewards } => PhaseModel::Exploration {
                target: target@,
                rewards: tools_of(rewards),
            },
            QuestPhase::Dialogue { gagne_step, rewards } => PhaseModel::Dialogue {
                gagne_step: gagne_step as nat,
                rewards: tools_of(rewards),
            },
            QuestPhase::Task { description, completed, rewards } => PhaseModel::Task {
                description: description@,
                completed,
                rewards: tools_of(rewards),
            },
            QuestPhase::Reflection { question, answered, rewards } => PhaseModel::Reflection {
                question: question@,
                answered,
                rewards: tools_of(rewards),
            },
            QuestPhase::Quiz { question, options, rewards } => PhaseModel::Quiz {
                question: question@,
                options: texts_of(options@),
                rewards: tools_of(rewards),
            },
            QuestPhase::Complete => PhaseModel::Complete,
        }
    }
}

/// The name of one of the nine events of a lesson, counted from zero.
pub open spec fn step_name(step: nat) -> Seq<char> {
    if step == 0 {
        "Gain Attention"@
    } else if step == 1 {
        "Inform Objectives"@
    } else if step == 2 {
        "Recall Prior Knowledge"@
    } else if step == 3 {
        "Present Content"@
    } else if step == 4 {
        "Provide Guidance"@
    } else if step == 5 {
        "Elicit Performance"@
    } else if step == 6 {
        "Provide Feedback"@
    } else if step == 7 {
        "Assess Performance"@
    } else if step == 8 {
        "Enhance Retention"@
    } else {
        "Unknown"@
    }
}

/// The name of one of the nine events of a lesson, counted from zero;
/// `Unknown` for any other number.
pub fn gagne_step_name(step: usize) -> (name: &'static str)
    ensures
        name@ == step_name(step as nat),
{
    if step == 0 {
        "Gain Attention"
    } else if step == 1 {
        "Inform Objectives"
    } else if step == 2 {
        "Recall Prior Knowledge"
    } else if step == 3 {
        "Present Content"
    } else if step == 4 {
        "Provide Guidance"
    } else if step == 5 {
        "Elicit Performance"
    } else if step == 6 {
        "Provide Feedback"
    } else if step == 7 {
        "Assess Performance"
    } else if step == 8 {
        "Enhance Retention"
    } else {
        "Unknown"
    }
}

impl PhaseModel {
    /// The line that tells the player what the phase asks for.
    pub open spec fn label(self) -> Seq<char> {
        match self {
            PhaseModel::Exploration { target, .. } => "\u{1f5fa}\u{fe0f} Walk to the "@ + target,
            PhaseModel::Dialogue { gagne_step, .. } => "\u{1f4ac} "@ + step_name(gagne_step),
            PhaseModel::Task { description, .. } => "\u{26a1} "@ + description,
            PhaseModel::Reflection { question, .. } => "\u{1fa9e} "@ + question,
            PhaseModel::Quiz { question, .. } => "\u{2753} "@ + question,
            PhaseModel::Complete => "\u{1f3c6} Complete!"@,
        }
    }

    /// The short word for the kind of phase.
    pub open spec fn kind(self) -> Seq<char> {
        match self {
            PhaseModel::Exploration { .. } => "EXPLORE"@,
            PhaseModel::Dialogue { .. } => "LISTEN"@,
            PhaseModel::Task { .. } => "DO"@,
            PhaseModel::Reflection { .. } => "REFLECT"@,
            PhaseModel::Quiz { .. } => "QUIZ"@,
            PhaseModel::Complete => "DONE"@,
        }
    }

    /// What the player earns by finishing the phase.
    pub open spec fn rewards(self) -> Option<Seq<ToolId>> {
        match self {
            PhaseModel::Exploration { rewards, .. } => rewards,
            PhaseModel::Dialogue { rewards, .. } => rewards,
            PhaseModel::Task { rewards, .. } => rewards,
            PhaseModel::Reflection { rewards, .. } => rewards,
            PhaseModel::Quiz { rewards, .. } => rewards,
            PhaseModel::Complete => None,
        }
    }

    /// The phase with its work marked as done: a task completed, a
    /// reflection answered. Other phases have nothing to mark.
    pub open spec fn marked_done(self) -> PhaseModel {
        match self {
            PhaseModel::Task { description, completed, rewards } => PhaseModel::Task {
                description,
                completed: true,
                rewards,
            },
            PhaseModel::Reflection { question, answered, rewards } => PhaseModel::Reflection {
                question,
                answered: true,
                rewards,
            },
            other => other,
        }
    }
}

/// A copy of a list of tools.
fn copy_tools(tools: &Vec<ToolId>) -> (out: Vec<ToolId>)
    ensures
        out@ == tools@,
{
    let mut out: Vec<ToolId> = Vec::new();
    let mut i: usize = 0;
    while i < tools.len()
        invariant
            i <= tools.len(),
            out@ == tools@.take(i as int),
        decreases tools.len() - i,
    {
        out.push(tools[i]);
        assert(tools@.take(i + 1) =~= tools@.take(i as int).push(tools@[i as int]));
        i += 1;
    }
    assert(tools@.take(tools.len() as int) =~= tools@);
    out
}

/// A copy of a reward.
fn copy_rewards(rewards: &Option<Vec<ToolId>>) -> (out: Option<Vec<ToolId>>)
    ensures
        tools_of(out) == tools_of(*rewards),
{
    match rewards {
        Some(tools) => Some(copy_tools(tools)),
        None => None,
    }
}

impl QuestPhase {
    /// The line that tells the player what the phase asks for.
    pub fn display_label(&self) -> (label: String)
        ensures
            label@ == self@.label(),
    {
        match self {
            QuestPhase::Exploration { target, .. } => {
                String::from_str("\u{1f5fa}\u{fe0f} Walk to the ").concat(target.as_str())
            },
            QuestPhase::Dialogue { gagne_step, .. } => {
                String::from_str("\u{1f4ac} ").concat(gagne_step_name(*gagne_step))
            },
            QuestPhase::Task { description, .. } => {
                String::from_str("\u{26a1} ").concat(description.as_str())
            },
            QuestPhase::Reflection { question, .. } => {
                String::from_str("\u{1fa9e} ").concat(question.as_str())
            },
            QuestPhase::Quiz { question, .. } => {
                String::from_str("\u{2753} ").concat(question.as_str())
            },
            QuestPhase::Complete => String::from_str("\u{1f3c6} Complete!"),
        }
    }

    /// The short word for the kind of phase.
    pub fn phase_type_name(&self) -> (name: &'static str)
        ensures
            name@ == self@.kind(),
    {
        match self {
            QuestPhase::Exploration { .. } => "EXPLORE",
            QuestPhase::Dialogue { .. } => "LISTEN",
            QuestPhase::Task { .. } => "DO",
            QuestPhase::Reflection { .. } => "REFLECT",
            QuestPhase::Quiz { .. } => "QUIZ",
            QuestPhase::Complete => "DONE",
        }
    }

    /// What the player earns by finishing the phase.
    pub fn rewards(&self) -> (out: Option<Vec<ToolId>>)
        ensures
            tools_of(out) == self@.rewards(),
    {
        match self {
            QuestPhase::Exploration { rewards, .. } => copy_rewards(rewards),
            QuestPhase::Dialogue { rewards, .. } => copy_rewards(rewards),
            QuestPhase::Task { rewards, .. } => copy_rewards(rewards),
            QuestPhase::Reflection { rewards, .. } => copy_rewards(rewards),
            QuestPhase::Quiz { rewards, .. } => copy_rewards(rewards),
            QuestPhase::Complete => None,
        }
    }
}

// ---------------------------------------------------------------------------
// The syllabus as it is written down
// ---------------------------------------------------------------------------

/// A course: a title, a description and its quests in order.
#[derive(Debug, Clone)]
pub struct Syllabus {
    pub title: String,
    pub description: String,
    pub modules: Vec<Quest>,
}

/// One quest of a course.
#[derive(Debug, Clone)]
pub struct Quest {
    pub id: String,
    pub title: String,
    pub description: String,
    pub objective: String,
    pub events: GagneEvents,
    /// The phases of the quest; where none are given, the quest runs the
    /// standard script.
    pub phases: Option<Vec<PhaseConfig>>,
}

/// What the teacher says at each of the nine events of a lesson.
#[derive(Debug, Clone)]
pub struct GagneEvents {
    pub gain_attention: String,
    pub inform_objectives: String,
    pub recall_prior_knowledge: String,
    pub present_content: String,
    pub provide_guidance: String,
    pub elicit_performance: String,
    pub provide_feedback: String,
    pub assess_performance: String,
    pub enhance_retention: String,
}

/// One phase as a quest file describes it.
#[derive(Debug, Clone)]
pub struct PhaseConfig {
    pub phase_type: String,
    pub target: Option<String>,
    pub gagne_step: Option<usize>,
    pub description: Option<String>,
    pub question: Option<String>,
    pub rewards: Option<Vec<String>>,
}

impl GagneEvents {
    /// The text of the event numbered `step`, counted from zero.
    pub open spec fn step_text(&self, step: nat) -> Option<Seq<char>> {
        if step == 0 {
            Some(self.gain_attention@)
        } else if step == 1 {
            Some(self.inform_objectives@)
        } else if step == 2 {
            Some(self.recall_prior_knowledge@)
        } else if step == 3 {
            Some(self.present_content@)
        } else if step == 4 {
            Some(self.provide_guidance@)
        } else if step == 5 {
            Some(self.elicit_performance@)
        } else if step == 6 {
            Some(self.provide_feedback@)
        } else if step == 7 {
            Some(self.assess_performance@)
        } else if step == 8 {
            Some(self.enhance_retention@)
        } else {
            None
        }
    }

    /// The text of the event numbered `step`, counted from zero; `None` for
    /// a number above eight.
    pub fn get_step_text(&self, step: usize) -> (text: Option<&str>)
        ensures
            match text {
                Some(t) => self.step_text(step as nat) == Some(t@),
                None => self.step_text(step as nat) is None,
            },
    {
        if step == 0 {
            Some(self.gain_attention.as_str())
        } else if step == 1 {
            Some(self.inform_objectives.as_str())
        } else if step == 2 {
            Some(self.recall_prior_knowledge.as_str())
        } else if step == 3 {
            Some(self.present_content.as_str())
        } else if step == 4 {
            Some(self.provide_guidance.as_str())
        } else if step == 5 {
            Some(self.elicit_performance.as_str())
        } else if step == 6 {
            Some(self.provide_feedback.as_str())
        } else if step == 7 {
            Some(self.assess_performance.as_str())
        } else if step == 8 {
            Some(self.enhance_retention.as_str())
        } else {
            None
        }
    }
}

// ---------------------------------------------------------------------------
// From a quest to its script
// ---------------------------------------------------------------------------

/// The tool that a quest file means by `name`; only the three quest tools
/// can be named.
pub open spec fn tool_named(name: Seq<char>) -> Option<ToolId> {
    if name == "OllamaCompass"@ {
        Some(ToolId::OllamaCompass)
    } else if name == "LogicLens"@ {
        Some(ToolId::LogicLens)
    } else if name == "FeedbackMirror"@ {
        Some(ToolId::FeedbackMirror)
    } else {
        None
    }
}

/// The tools that a list of names means, in the order of the names; a name
/// that means no tool is passed over.
pub open spec fn tools_named(names: Seq<Seq<char>>) -> Seq<ToolId>
    decreases names.len(),
{
    if names.len() == 0 {
        seq![]
    } else {
        match tool_named(names.last()) {
            Some(tool) => tools_named(names.drop_last()).push(tool),
            None => tools_named(names.drop_last()),
        }
    }
}

/// The reward that a quest file describes.
pub open spec fn configured_rewards(names: Option<Vec<String>>) -> Option<Seq<ToolId>> {
    match names {
        Some(list) => Some(tools_named(texts_of(list@))),
        None => None,
    }
}

/// The phase that a quest file describes. A missing detail takes its
/// default; a kind of phase that is not known becomes the first dialogue,
/// without reward.
pub open spec fn configured_phase(c: PhaseConfig) -> PhaseModel {
    if c.phase_type@ == "exploration"@ {
        PhaseModel::Exploration {
            target: text_or(c.target, "Teacher"@),
            rewards: configured_rewards(c.rewards),
        }
    } else if c.phase_type@ == "dialogue"@ {
        PhaseModel::Dialogue {
            gagne_step: match c.gagne_step {
                Some(step) => step as nat,
                None => 0,
            },
            rewards: configured_rewards(c.rewards),
        }
    } else if c.phase_type@ == "task"@ {
        PhaseModel::Task {
            description: text_or(c.description, "Complete the task"@),
            completed: false,
            rewards: configured_rewards(c.rewards),
        }
    } else if c.phase_type@ == "reflection"@ {
        PhaseModel::Reflection {
            question: text_or(c.question, "What did you learn?"@),
            answered: false,
            rewards: configured_rewards(c.rewards),
        }
    } else {
        PhaseModel::Dialogue { gagne_step: 0, rewards: None }
    }
}

/// The standard script: the walk to the teacher, then the nine events in
/// order, with a task at the terminal before the fifth event and a
/// reflection in place of the eighth.
pub open spec fn standard_phases() -> Seq<PhaseModel> {
    seq![
        PhaseModel::Exploration { target: "Teacher"@, rewards: None },
        PhaseModel::Dialogue { gagne_step: 0, rewards: None },
        PhaseModel::Dialogue { gagne_step: 1, rewards: None },
        PhaseModel::Dialogue { gagne_step: 2, rewards: None },
        PhaseModel::Dialogue { gagne_step: 3, rewards: None },
        PhaseModel::Task {
            description: "Walk to the Terminal and interact with it"@,
            completed: false,
            rewards: None,
        },
        PhaseModel::Dialogue { gagne_step: 4, rewards: None },
        PhaseModel::Dialogue { gagne_step: 5, rewards: None },
        PhaseModel::Dialogue { gagne_step: 6, rewards: None },
        PhaseModel::Reflection {
            question: "Can you explain why local AI matters for student privacy?"@,
            answered: false,
            rewards: None,
        },
        PhaseModel::Dialogue { gagne_step: 8, rewards: None },
    ]
}

/// The phases that a quest runs: those it describes, or the standard script.
pub open spec fn phases_of(quest: Quest) -> Seq<PhaseModel> {
    match quest.phases {
        Some(configs) => configs@.map_values(|c: PhaseConfig| configured_phase(c)),
        None => standard_phases(),
    }
}

fn named_tool(name: &str) -> (tool: Option<ToolId>)
    ensures
        tool == tool_named(name@),
{
    if same_str(name, "OllamaCompass") {
        Some(ToolId::OllamaCompass)
    } else if same_str(name, "LogicLens") {
        Some(ToolId::LogicLens)
    } else if same_str(name, "FeedbackMirror") {
        Some(ToolId::FeedbackMirror)
    } else {
        None
    }
}

fn rewards_from(names: &Option<Vec<String>>) -> (out: Option<Vec<ToolId>>)
    ensures
        tools_of(out) == configured_rewards(*names),
{
    match names {
        Some(list) => {
            let mut tools: Vec<ToolId> = Vec::new();
            let ghost all = texts_of(list@);
            let mut i: usize = 0;
            assert(all.take(0) =~= Seq::<Seq<char>>::empty());
            while i < list.len()
                invariant
                    i <= list.len(),
                    all == texts_of(list@),
                    tools@ == tools_named(all.take(i as int)),
                decreases list.len() - i,
            {
                assert(all.take(i + 1).drop_last() =~= all.take(i as int));
                assert(all.take(i + 1).last() == list@[i as int]@);
                if let Some(tool) = named_tool(list[i].as_str()) {
                    tools.push(tool);
                }
                i += 1;
            }
            assert(all.take(list.len() as int) =~= all);
            Some(tools)
        },
        None => None,
    }
}

fn text_or_default(text: &Option<String>, fallback: &str) -> (out: String)
    ensures
        out@ == text_or(*text, fallback@),
{
    match text {
        Some(t) => t.clone(),
        None => String::from_str(fallback),
    }
}

fn phase_from(c: &PhaseConfig) -> (phase: QuestPhase)
    ensures
        phase@ == configured_phase(*c),
{
    let kind = c.phase_type.as_str();
    if same_str(kind, "exploration") {
        QuestPhase::Exploration {
            target: text_or_default(&c.target, "Teacher"),
            rewards: rewards_from(&c.rewards),
        }
    } else if same_str(kind, "dialogue") {
        QuestPhase::Dialogue {
            gagne_step: match c.gagne_step {
                Some(step) => step,
                None => 0,
            },
            rewards: rewards_from(&c.rewards),
        }
    } else if same_str(kind, "task") {
        QuestPhase::Task {
            description: text_or_default(&c.description, "Complete the task"),
            completed: false,
            rewards: rewards_from(&c.rewards),
        }
    } else if same_str(kind, "reflection") {
        QuestPhase::Reflection {
            question: text_or_default(&c.question, "What did you learn?"),
            answered: false,
            rewards: rewards_from(&c.rewards),
        }
    } else {
        QuestPhase::Dialogue { gagne_step: 0, rewards: None }
    }
}

// ---------------------------------------------------------------------------
// The script of a quest
// ---------------------------------------------------------------------------

/// The phases of a quest and how far the player has come.
#[derive(Clone, Debug)]
pub struct QuestScript {
    pub phases: Vec<QuestPhase>,
    pub current_phase: usize,
}

/// A script as mathematics: its phases, and the number of phases done.
pub struct ScriptModel {
    pub phases: Seq<PhaseModel>,
    pub done: nat,
}

/// What the phases of a list hold.
pub open spec fn phase_models(phases: Seq<QuestPhase>) -> Seq<PhaseModel> {
    phases.map_values(|p: QuestPhase| p@)
}

impl View for QuestScript {
    type V = ScriptModel;

    open spec fn view(&self) -> ScriptModel {
        ScriptModel { phases: phase_models(self.phases@), done: self.current_phase as nat }
    }
}

impl ScriptModel {
    /// Every phase is done.
    pub open spec fn is_complete(self) -> bool {
        self.done >= self.phases.len()
    }

    /// The phase the player is in; `Complete` once every phase is done.
    pub open spec fn current(self) -> PhaseModel {
        if self.done < self.phases.len() {
            self.phases[self.done as int]
        } else {
            PhaseModel::Complete
        }
    }

    /// The script one phase further; a complete script stays as it is.
    pub open spec fn advanced(self) -> ScriptModel {
        if self.done < self.phases.len() {
            ScriptModel { phases: self.phases, done: self.done + 1 }
        } else {
            self
        }
    }

    /// The script with the work of its current phase marked as done.
    pub open spec fn with_current_done(self) -> ScriptModel {
        if self.done < self.phases.len() {
            ScriptModel {
                phases: self.phases.update(
                    self.done as int,
                    self.phases[self.done as int].marked_done(),
                ),
                done: self.done,
            }
        } else {
            self
        }
    }

    /// How far the player has come, as a fraction: phases done over phases
    /// in all. A script without phases counts as done, one over one.
    pub open spec fn progress(self) -> (nat, nat) {
        if self.phases.len() == 0 {
            (1, 1)
        } else {
            (self.done, self.phases.len())
        }
    }
}

/// An advanced script never falls behind, and a script that was in range
/// stays in range.
pub proof fn lemma_advance_keeps_range(s: ScriptModel)
    requires
        s.done <= s.phases.len(),
    ensures
        s.advanced().done <= s.phases.len(),
        s.advanced().done >= s.done,
        s.advanced().phases == s.phases,
        s.is_complete() ==> s.advanced() == s,
{
}

/// Advancing as often as there are phases completes a script that starts
/// at its beginning.
pub proof fn lemma_advancing_completes(s: ScriptModel, times: nat)
    requires
        s.done <= s.phases.len(),
        times >= s.phases.len() - s.done,
    ensures
        advanced_times(s, times).is_complete(),
        advanced_times(s, times).phases == s.phases,
        advanced_times(s, times).done == s.phases.len(),
    decreases times,
{
    if times > 0 {
        lemma_advancing_completes(s.advanced(), (times - 1) as nat);
    }
}

/// The script after advancing `times` times.
pub open spec fn advanced_times(s: ScriptModel, times: nat) -> ScriptModel
    decreases times,
{
    if times == 0 {
        s
    } else {
        advanced_times(s.advanced(), (times - 1) as nat)
    }
}

fn standard_script() -> (phases: Vec<QuestPhase>)
    ensures
        phase_models(phases@) == standard_phases(),
{
    let mut phases: Vec<QuestPhase> = Vec::new();
    phases.push(QuestPhase::Exploration { target: String::from_str("Teacher"), rewards: None });
    phases.push(QuestPhase::Dialogue { gagne_step: 0, rewards: None });
    phases.push(QuestPhase::Dialogue { gagne_step: 1, rewards: None });
    phases.push(QuestPhase::Dialogue { gagne_step: 2, rewards: None });
    phases.push(QuestPhase::Dialogue { gagne_step: 3, rewards: None });
    phases.push(
        QuestPhase::Task {
            description: String::from_str("Walk to the Terminal and interact with it"),
            completed: false,
            rewards: None,
        },
    );
    phases.push(QuestPhase::Dialogue { gagne_step: 4, rewards: None });
    phases.push(QuestPhase::Dialogue { gagne_step: 5, rewards: None });
    phases.push(QuestPhase::Dialogue { gagne_step: 6, rewards: None });
    phases.push(
        QuestPhase::Reflection {
            question: String::from_str("Can you explain why local AI matters for student privacy?"),
            answered: false,
            rewards: None,
        },
    );
    phases.push(QuestPhase::Dialogue { gagne_step: 8, rewards: None });
    assert(phase_models(phases@) =~= standard_phases());
    phases
}

impl QuestScript {
    /// The script of `quest`, at its first phase.
    pub fn from_quest(quest: &Quest) -> (script: Self)
        ensures
            script@ == (ScriptModel { phases: phases_of(*quest), done: 0 }),
    {
        let phases = match &quest.phases {
            Some(configs) => {
                let mut phases: Vec<QuestPhase> = Vec::new();
                let mut i: usize = 0;
                while i < configs.len()
                    invariant
                        i <= configs.len(),
                        phase_models(phases@) == phases_of(*quest).take(i as int),
                        quest.phases == Some(*configs),
                    decreases configs.len() - i,
                {
                    let ghost before = phase_models(phases@);
                    phases.push(phase_from(&configs[i]));
                    assert(phase_models(phases@) =~= before.push(configured_phase(configs@[i as int])));
                    assert(phases_of(*quest).take(i + 1) =~= phases_of(*quest).take(i as int).push(
                        configured_phase(configs@[i as int]),
                    ));
                    i += 1;
                }
                assert(phases_of(*quest).take(configs.len() as int) =~= phases_of(*quest));
                phases
            },
            None => standard_script(),
        };
        QuestScript { phases, current_phase: 0 }
    }

    /// The phase the player is in; `Complete` once every phase is done.
    pub fn current(&self) -> (phase: &QuestPhase)
        ensures
            phase@ == self@.current(),
    {
        if self.current_phase < self.phases.len() {
            &self.phases[self.current_phase]
        } else {
            &QuestPhase::Complete
        }
    }

    /// Moves on to the next phase and hands it out; a complete script stays
    /// as it is.
    pub fn advance(&mut self) -> (phase: &QuestPhase)
        ensures
            final(self)@ == old(self)@.advanced(),
            phase@ == old(self)@.advanced().current(),
    {
        if self.current_phase < self.phases.len() {
            self.current_phase += 1;
        }
        self.current()
    }

    /// Whether every phase is done.
    pub fn is_complete(&self) -> (done: bool)
        ensures
            done == self@.is_complete(),
    {
        self.current_phase >= self.phases.len()
    }

    /// How far the player has come, as a fraction: phases done over phases
    /// in all, the second never zero. A script without phases counts as
    /// done, one over one.
    pub fn progress_percent(&self) -> (fraction: (usize, usize))
        ensures
            fraction.0 as nat == self@.progress().0,
            fraction.1 as nat == self@.progress().1,
            fraction.1 > 0,
    {
        if self.phases.len() == 0 {
            (1, 1)
        } else {
            (self.current_phase, self.phases.len())
        }
    }

    /// The number of phases.
    pub fn total_phases(&self) -> (n: usize)
        ensures
            n == self@.phases.len(),
    {
        self.phases.len()
    }
}

// ---------------------------------------------------------------------------
// A syllabus in play
// ---------------------------------------------------------------------------

/// A syllabus together with where the player stands in it.
#[derive(Clone)]
pub struct SyllabusResource {
    pub syllabus: Syllabus,
    pub current_module_index: usize,
    /// The lesson event last spoken in the current quest.
    pub current_event_step: usize,
    pub quest_script: QuestScript,
}

/// A syllabus in play, as mathematics.
pub struct ResourceModel {
    pub modules: Seq<Quest>,
    pub module_index: nat,
    pub event_step: nat,
    pub script: ScriptModel,
}

/// Tells the rest of the game that a quest has moved on.
pub struct QuestAdvancedEvent {
    pub module_index: usize,
    pub step_index: usize,
}

impl View for SyllabusResource {
    type V = ResourceModel;

    open spec fn view(&self) -> ResourceModel {
        ResourceModel {
            modules: self.syllabus.modules@,
            module_index: self.current_module_index as nat,
            event_step: self.current_event_step as nat,
            script: self.quest_script@,
        }
    }
}

/// Where a syllabus stands, if there is one.
pub open spec fn resource_model(syllabus: Option<&SyllabusResource>) -> Option<ResourceModel> {
    match syllabus {
        Some(s) => Some(s@),
        None => None,
    }
}

impl ResourceModel {
    /// The quest the player is on, while there is one.
    pub open spec fn current_quest(self) -> Option<Quest> {
        if self.module_index < self.modules.len() {
            Some(self.modules[self.module_index as int])
        } else {
            None
        }
    }

    /// What the current phase has to say: the lesson text of a dialogue, the
    /// description of a task, the question of a reflection or a quiz, the
    /// way for an exploration. Past the last quest there is nothing to say.
    pub open spec fn event_text(self) -> Option<Seq<char>> {
        match self.current_quest() {
            Some(quest) => match self.script.current() {
                PhaseModel::Dialogue { gagne_step, .. } => quest.events.step_text(gagne_step),
                PhaseModel::Task { description, .. } => Some(description),
                PhaseModel::Reflection { question, .. } => Some(question),
                PhaseModel::Quiz { question, .. } => Some(question),
                PhaseModel::Exploration { target, .. } => Some("Walk to the "@ + target),
                PhaseModel::Complete => Some("Quest Complete!"@),
            },
            None => None,
        }
    }

    /// What finishing the current phase earns.
    pub open spec fn rewards_due(self) -> Option<Seq<ToolId>> {
        self.script.current().rewards()
    }

    /// The state after the current phase is finished. The script moves on;
    /// a dialogue that comes up sets the event step. A script that is
    /// complete hands over to the next quest: the module index goes up, the
    /// event step back to zero, and the next quest, where there is one,
    /// starts its own script.
    pub open spec fn advanced(self) -> ResourceModel {
        let script = self.script.advanced();
        let event_step = match script.current() {
            PhaseModel::Dialogue { gagne_step, .. } => gagne_step,
            _ => self.event_step,
        };
        if script.is_complete() {
            let next = self.module_index + 1;
            ResourceModel {
                modules: self.modules,
                module_index: next,
                event_step: 0,
                script: if next < self.modules.len() {
                    ScriptModel { phases: phases_of(self.modules[next as int]), done: 0 }
                } else {
                    script
                },
            }
        } else {
            ResourceModel {
                modules: self.modules,
                module_index: self.module_index,
                event_step,
                script,
            }
        }
    }

    /// The state after `n` phases in a row are finished.
    pub open spec fn advanced_times(self, n: nat) -> ResourceModel
        decreases n,
    {
        if n == 0 {
            self
        } else {
            self.advanced_times((n - 1) as nat).advanced()
        }
    }

    /// The state after, `n` times in a row, the work of the current phase is
    /// marked as done and the phase finished.
    pub open spec fn completed_times(self, n: nat) -> ResourceModel
        decreases n,
    {
        if n == 0 {
            self
        } else {
            self.completed_times((n - 1) as nat).with_task_done().advanced()
        }
    }

    /// The state with the work of the current phase marked as done.
    pub open spec fn with_task_done(self) -> ResourceModel {
        ResourceModel {
            modules: self.modules,
            module_index: self.module_index,
            event_step: self.event_step,
            script: self.script.with_current_done(),
        }
    }
}

/// Finishing a phase never moves the player back: the module index does not
/// fall, and within one quest the script does not fall behind. The quests
/// themselves stay as they are.
pub proof fn lemma_advance_is_monotone(m: ResourceModel)
    ensures
        m.advanced().modules == m.modules,
        m.advanced().module_index >= m.module_index,
        m.advanced().module_index == m.module_index ==> m.advanced().script.done
            >= m.script.done && m.advanced().script.phases == m.script.phases,
        m.advanced().module_index <= m.module_index + 1,
{
}

/// Finishing the last phase of a quest opens the next quest at its first
/// phase.
pub proof fn lemma_last_phase_opens_next_quest(m: ResourceModel)
    requires
        m.script.done + 1 == m.script.phases.len(),
        m.module_index + 1 < m.modules.len(),
    ensures
        m.advanced().module_index == m.module_index + 1,
        m.advanced().event_step == 0,
        m.advanced().script == (ScriptModel {
            phases: phases_of(m.modules[m.module_index as int + 1]),
            done: 0,
        }),
{
}

/// Marking the current work as done changes neither the place in the script
/// nor what the phase earns, and doing it twice is doing it once.
pub proof fn lemma_marking_done(m: ResourceModel)
    ensures
        m.with_task_done().script.done == m.script.done,
        m.with_task_done().rewards_due() == m.rewards_due(),
        m.with_task_done().with_task_done() == m.with_task_done(),
{
    let s = m.script;
    if s.done < s.phases.len() {
        let once = s.with_current_done();
        assert(once.with_current_done().phases =~= once.phases);
    }
}

impl SyllabusResource {
    /// A syllabus at its start: the first quest, at the first phase of its
    /// script. A syllabus without quests has an empty script.
    pub fn new(syllabus: Syllabus) -> (resource: Self)
        ensures
            resource.syllabus == syllabus,
            resource@.module_index == 0,
            resource@.event_step == 0,
            resource@.script == (ScriptModel {
                phases: if syllabus.modules@.len() > 0 {
                    phases_of(syllabus.modules@[0])
                } else {
                    Seq::<PhaseModel>::empty()
                },
                done: 0,
            }),
    {
        let quest_script = if syllabus.modules.len() > 0 {
            QuestScript::from_quest(&syllabus.modules[0])
        } else {
            let script = QuestScript { phases: Vec::new(), current_phase: 0 };
            assert(script@.phases =~= Seq::<PhaseModel>::empty());
            script
        };
        SyllabusResource { syllabus, current_module_index: 0, current_event_step: 0, quest_script }
    }

    /// The quest the player is on, while there is one.
    pub fn current_quest(&self) -> (quest: Option<&Quest>)
        ensures
            match quest {
                Some(q) => self@.current_quest() == Some(*q),
                None => self@.current_quest() is None,
            },
    {
        if self.current_module_index < self.syllabus.modules.len() {
            Some(&self.syllabus.modules[self.current_module_index])
        } else {
            None
        }
    }

    /// What the current phase has to say to the player.
    pub fn current_event_text(&self) -> (text: Option<String>)
        ensures
            match text {
                Some(t) => self@.event_text() == Some(t@),
                None => self@.event_text() is None,
            },
    {
        match self.current_quest() {
            Some(quest) => match self.quest_script.current() {
                QuestPhase::Dialogue { gagne_step, .. } => {
                    match quest.events.get_step_text(*gagne_step) {
                        Some(t) => Some(String::from_str(t)),
                        None => None,
                    }
                },
                QuestPhase::Task { description, .. } => Some(description.clone()),
                QuestPhase::Reflection { question, .. } => Some(question.clone()),
                QuestPhase::Quiz { question, .. } => Some(question.clone()),
                QuestPhase::Exploration { target, .. } => Some(
                    String::from_str("Walk to the ").concat(target.as_str()),
                ),
                QuestPhase::Complete => Some(String::from_str("Quest Complete!")),
            },
            None => None,
        }
    }

    /// The phase the player is in.
    pub fn current_phase(&self) -> (phase: &QuestPhase)
        ensures
            phase@ == self@.script.current(),
    {
        self.quest_script.current()
    }

    /// Finishes the current phase and hands out what it earns.
    pub fn advance_phase(&mut self) -> (rewards: Option<Vec<ToolId>>)
        requires
            old(self).current_module_index < usize::MAX,
        ensures
            final(self)@ == old(self)@.advanced(),
            final(self).syllabus == old(self).syllabus,
            tools_of(rewards) == old(self)@.rewards_due(),
    {
        let rewards = self.quest_script.current().rewards();
        let phase = self.quest_script.advance();
        if let QuestPhase::Dialogue { gagne_step, .. } = phase {
            self.current_event_step = *gagne_step;
        }
        if self.quest_script.is_complete() {
            self.current_module_index += 1;
            self.current_event_step = 0;
            if self.current_module_index < self.syllabus.modules.len() {
                self.quest_script = QuestScript::from_quest(
                    &self.syllabus.modules[self.current_module_index],
                );
            }
        }
        rewards
    }

    /// Finishes the current phase; what it earns is dropped.
    pub fn advance_step(&mut self)
        requires
            old(self).current_module_index < usize::MAX,
        ensures
            final(self)@ == old(self)@.advanced(),
            final(self).syllabus == old(self).syllabus,
    {
        let _ = self.advance_phase();
    }

    /// Starts the syllabus over: back to the first quest and the first
    /// phase of its script. A syllabus without quests keeps its script.
    pub fn reset_progress(&mut self)
        ensures
            final(self).syllabus == old(self).syllabus,
            final(self)@.module_index == 0,
            final(self)@.event_step == 0,
            final(self)@.script == if old(self)@.modules.len() > 0 {
                ScriptModel { phases: phases_of(old(self)@.modules[0]), done: 0 }
            } else {
                old(self)@.script
            },
    {
        self.current_module_index = 0;
        self.current_event_step = 0;
        if self.syllabus.modules.len() > 0 {
            self.quest_script = QuestScript::from_quest(&self.syllabus.modules[0]);
        }
    }

    /// Marks the work of the current phase as done: a task completed, a
    /// reflection answered.
    pub fn complete_current_task(&mut self)
        ensures
            final(self)@ == old(self)@.with_task_done(),
            final(self).syllabus == old(self).syllabus,
    {
        let i = self.quest_script.current_phase;
        if i < self.quest_script.phases.len() {
            let ghost before = self.quest_script.phases@;
            match &mut self.quest_script.phases[i] {
                QuestPhase::Task { completed, .. } => {
                    *completed = true;
                },
                QuestPhase::Reflection { answered, .. } => {
                    *answered = true;
                },
                _ => {},
            }
            assert(phase_models(self.quest_script.phases@) =~= phase_models(before).update(
                i as int,
                before[i as int]@.marked_done(),
            ));
        }
    }
}

} // verus!
