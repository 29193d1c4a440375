//! The story: what the teacher is asked to say when the player wants to talk,
//! the knowledge check with its three answers, the line the player types,
//! and the typewriter that reveals each reply.

use crate::ai::AiRequest;
use crate::ai::AiResponse;
use crate::syllabus::resource_model;
use crate::syllabus::ResourceModel;
use crate::syllabus::SyllabusResource;
use crate::syllabus::texts_of;
use crate::text::append;
use crate::text::append_str;
use crate::text::contains;
use crate::text::from_chars;
use crate::text::includes;
use crate::text::lemma_byte_prefix;
use crate::text::take_bytes;
use crate::text::to_chars;
use crate::text::utf8_len;
use vstd::prelude::*;
use vstd::string::StringExecFns;

verus! {

// ---------------------------------------------------------------------------
// State
// ---------------------------------------------------------------------------

/// Where the story stands.
#[derive(Clone)]
pub struct StoryState {
    pub current_chapter: usize,
    pub player_name: String,
    /// Everything said so far, oldest first.
    pub narrative_context: Vec<String>,
    /// The question that waits for one of its answers.
    pub active_dialogue: Option<DialogueNode>,
    /// Whether the player stands close enough to the teacher to talk.
    pub can_interact: bool,
    /// Whether a reply is awaited.
    pub is_thinking: bool,
    /// What the player has typed so far.
    pub player_input: String,
    /// Whether the player is asked to type.
    pub is_typing_prompt: bool,
}

/// A line of dialogue with the answers the player can give.
#[derive(Clone)]
pub struct DialogueNode {
    pub speaker: String,
    pub text: String,
    pub choices: Vec<DialogueChoice>,
}

/// One answer, and what the teacher says to it.
#[derive(Clone)]
pub struct DialogueChoice {
    pub text: String,
    pub consequence: String,
}

/// A reply that is revealed bit by bit.
pub struct TypewriterState {
    pub full_text: String,
    pub revealed_chars: usize,
    pub is_active: bool,
}

/// An answer as mathematics.
pub struct ChoiceModel {
    pub text: Seq<char>,
    pub consequence: Seq<char>,
}

/// A line of dialogue as mathematics.
pub struct NodeModel {
    pub speaker: Seq<char>,
    pub text: Seq<char>,
    pub choices: Seq<ChoiceModel>,
}

/// The story as mathematics.
pub struct StoryModel {
    pub narrative: Seq<Seq<char>>,
    pub dialogue: Option<NodeModel>,
    pub can_interact: bool,
    pub thinking: bool,
    pub input: Seq<char>,
    pub typing: bool,
}

impl View for DialogueChoice {
    type V = ChoiceModel;

    open spec fn view(&self) -> ChoiceModel {
        ChoiceModel { text: self.text@, consequence: self.consequence@ }
    }
}

impl View for DialogueNode {
    type V = NodeModel;

    open spec fn view(&self) -> NodeModel {
        NodeModel {
            speaker: self.speaker@,
            text: self.text@,
            choices: self.choices@.map_values(|c: DialogueChoice| c@),
        }
    }
}

impl View for StoryState {
    type V = StoryModel;

    open spec fn view(&self) -> StoryModel {
        StoryModel {
            narrative: texts_of(self.narrative_context@),
            dialogue: match self.active_dialogue {
                Some(node) => Some(node@),
                None => None,
            },
            can_interact: self.can_interact,
            thinking: self.is_thinking,
            input: self.player_input@,
            typing: self.is_typing_prompt,
        }
    }
}

impl Default for StoryState {
    /// The story at its start: chapter one, the player an Architect, nothing
    /// said and nothing asked.
    fn default() -> (story: Self)
        ensures
            story.current_chapter == 1,
            story.player_name@ == "Architect"@,
            story@ == (StoryModel {
                narrative: Seq::<Seq<char>>::empty(),
                dialogue: None,
                can_interact: false,
                thinking: false,
                input: Seq::<char>::empty(),
                typing: false,
            }),
    {
        let story = StoryState {
            current_chapter: 1,
            player_name: String::from_str("Architect"),
            narrative_context: Vec::new(),
            active_dialogue: None,
            can_interact: false,
            is_thinking: false,
            player_input: String::new(),
            is_typing_prompt: false,
        };
        assert(story@.narrative =~= Seq::<Seq<char>>::empty());
        story
    }
}

impl Default for TypewriterState {
    /// A typewriter with nothing to write.
    fn default() -> (typewriter: Self)
        ensures
            typewriter.full_text@.len() == 0,
            typewriter.revealed_chars == 0,
            !typewriter.is_active,
    {
        TypewriterState { full_text: String::new(), revealed_chars: 0, is_active: false }
    }
}

// ---------------------------------------------------------------------------
// The knowledge check
// ---------------------------------------------------------------------------

/// The question of the knowledge check.
pub const CHECK_QUESTION: &'static str =
    "Before we proceed, Architect, tell me: Which model architecture guarantees student data never leaves this machine?";

/// The knowledge check written out, question and answers, as it is sent off
/// to be shown.
pub const CHECK_WRITTEN_OUT: &'static str =
    "Before we proceed, Architect, tell me: Which model architecture guarantees student data never leaves this machine?\n\n1. Cloud-based API (OpenAI)\n2. Local LLM (Ollama/Moshi)\n3. Distributed Blockchain";

/// What asks the player to type their first script.
pub const TYPING_INVITATION: &'static str =
    "Architect! It is time to construct your first logic script. Type a natural language command below and press Enter:";

/// What the teacher is asked when there is no quest to talk about.
pub const WELCOME_PROMPT: &'static str =
    "You are The Gamification Architect. Welcome the player to their journey. STRICT RULES: Reply in exactly 2 short sentences. Do not hallucinate. Do not break character. Do not use lists.";

/// The mark that a right answer carries.
pub const RIGHT_ANSWER_MARK: &'static str = "Local LLM";

/// What follows every consequence when it is sent off to be shown.
pub const CONTINUE_HINT: &'static str = " (Press Space to continue)";

/// The sign at the end of text that is still being written.
pub const CURSOR: &'static str = "\u{e2}\u{2013}\u{152}";

/// The knowledge check: one question, three answers, the second right.
pub open spec fn knowledge_check_model() -> NodeModel {
    NodeModel {
        speaker: "The Gamification Architect"@,
        text: CHECK_QUESTION@,
        choices: seq![
            ChoiceModel {
                text: "1. Cloud-based API (OpenAI)"@,
                consequence: "Incorrect. Cloud APIs send data off-site. Try again."@,
            },
            ChoiceModel {
                text: "2. Local LLM (Ollama/Moshi)"@,
                consequence: "Correct! Local AI ensures absolute data privacy."@,
            },
            ChoiceModel {
                text: "3. Distributed Blockchain"@,
                consequence: "Incorrect. Blockchain is public and immutable. Try again."@,
            },
        ],
    }
}

/// The knowledge check: one question, three answers, the second right.
pub fn knowledge_check() -> (node: DialogueNode)
    ensures
        node@ == knowledge_check_model(),
{
    let mut choices: Vec<DialogueChoice> = Vec::new();
    choices.push(
        DialogueChoice {
            text: String::from_str("1. Cloud-based API (OpenAI)"),
            consequence: String::from_str("Incorrect. Cloud APIs send data off-site. Try again."),
        },
    );
    choices.push(
        DialogueChoice {
            text: String::from_str("2. Local LLM (Ollama/Moshi)"),
            consequence: String::from_str("Correct! Local AI ensures absolute data privacy."),
        },
    );
    choices.push(
        DialogueChoice {
            text: String::from_str("3. Distributed Blockchain"),
            consequence: String::from_str(
                "Incorrect. Blockchain is public and immutable. Try again.",
            ),
        },
    );
    let node = DialogueNode {
        speaker: String::from_str("The Gamification Architect"),
        text: String::from_str(CHECK_QUESTION),
        choices,
    };
    assert(node@.choices =~= knowledge_check_model().choices);
    node
}

// ---------------------------------------------------------------------------
// Asking the teacher to speak
// ---------------------------------------------------------------------------

/// What the teacher is asked about a quest in progress: the quest by title,
/// the phase by kind and by label.
pub open spec fn mentor_prompt(title: Seq<char>, kind: Seq<char>, label: Seq<char>) -> Seq<char> {
    "You are The Gamification Architect, a wise mentor in a LitRPG world. The player is on quest '"@
        + title + "', currently in phase ["@ + kind + "]: "@ + label
        + ". Generate a short, encouraging dialogue. STRICT RULES: Reply in exactly 2 short sentences. Do not hallucinate. Do not break character. Do not use lists. Call the player 'Architect'."@
}

/// What pressing the talk key comes to.
pub enum TalkKind {
    /// The story is busy with a question or with typing: nothing happens.
    Busy,
    /// The knowledge check opens: first quest, second phase.
    KnowledgeCheck,
    /// The player is asked to type: first quest, third phase.
    Typing,
    /// The teacher is asked about the quest in progress.
    Mentor,
    /// The teacher is asked to welcome the player.
    Welcome,
}

impl StoryModel {
    /// What pressing the talk key comes to, given where the syllabus stands.
    pub open spec fn talk_kind(self, syllabus: Option<ResourceModel>) -> TalkKind {
        if self.dialogue is Some || self.typing {
            TalkKind::Busy
        } else {
            match syllabus {
                Some(s) => if s.module_index == 0 && s.script.done == 1 {
                    TalkKind::KnowledgeCheck
                } else if s.current_quest() is None {
                    TalkKind::Welcome
                } else if s.module_index == 0 && s.script.done == 2 {
                    TalkKind::Typing
                } else {
                    TalkKind::Mentor
                },
                None => TalkKind::Welcome,
            }
        }
    }

    /// What is sent off when the talk key is pressed, if anything.
    pub open spec fn talk_request(self, syllabus: Option<ResourceModel>) -> Option<Seq<char>> {
        match self.talk_kind(syllabus) {
            TalkKind::Busy => None,
            TalkKind::KnowledgeCheck => Some(CHECK_WRITTEN_OUT@),
            TalkKind::Typing => Some(TYPING_INVITATION@),
            TalkKind::Mentor => Some(
                mentor_prompt(
                    syllabus.unwrap().current_quest().unwrap().title@,
                    syllabus.unwrap().script.current().kind(),
                    syllabus.unwrap().script.current().label(),
                ),
            ),
            TalkKind::Welcome => Some(WELCOME_PROMPT@),
        }
    }

    /// The story after the talk key is pressed.
    pub open spec fn after_talk(self, syllabus: Option<ResourceModel>) -> StoryModel {
        match self.talk_kind(syllabus) {
            TalkKind::Busy => self,
            TalkKind::KnowledgeCheck => StoryModel {
                narrative: self.narrative.push(CHECK_QUESTION@).push(
                    "1. Cloud-based API (OpenAI)"@,
                ).push("2. Local LLM (Ollama/Moshi)"@).push("3. Distributed Blockchain"@),
                dialogue: Some(knowledge_check_model()),
                thinking: true,
                ..self
            },
            TalkKind::Typing => StoryModel { typing: true, thinking: true, ..self },
            _ => StoryModel { thinking: true, ..self },
        }
    }

    /// The story after the answer at position `k` is given, where `pressed`
    /// tells whether its key was pressed and `choices` are the answers on
    /// offer: the consequence is noted, a reply is awaited, and the right
    /// answer closes the question.
    pub open spec fn after_answer(self, choices: Seq<ChoiceModel>, k: int, pressed: bool)
        -> StoryModel {
        if pressed && k < choices.len() {
            StoryModel {
                narrative: self.narrative.push(choices[k].consequence),
                thinking: true,
                dialogue: if contains(choices[k].text, RIGHT_ANSWER_MARK@) {
                    None
                } else {
                    self.dialogue
                },
                ..self
            }
        } else {
            self
        }
    }

    /// The story after the answer keys are read, lowest key first.
    pub open spec fn after_answers(self, one: bool, two: bool, three: bool) -> StoryModel {
        match self.dialogue {
            Some(node) => self.after_answer(node.choices, 0, one).after_answer(
                node.choices,
                1,
                two,
            ).after_answer(node.choices, 2, three),
            None => self,
        }
    }

    /// What is sent off when the answer keys are read: the consequence of
    /// each answer given, lowest key first, each with the hint to go on.
    pub open spec fn answer_requests(self, one: bool, two: bool, three: bool) -> Seq<Seq<char>> {
        match self.dialogue {
            Some(node) => answer_request(node.choices, 0, one) + answer_request(
                node.choices,
                1,
                two,
            ) + answer_request(node.choices, 2, three),
            None => seq![],
        }
    }
}

/// What is sent off for the answer at position `k`: its consequence with the
/// hint to go on, if its key was pressed and the answer is on offer.
pub open spec fn answer_request(choices: Seq<ChoiceModel>, k: int, pressed: bool) -> Seq<
    Seq<char>,
> {
    if pressed && k < choices.len() {
        seq![choices[k].consequence + CONTINUE_HINT@]
    } else {
        seq![]
    }
}

/// The texts of a list of requests.
pub open spec fn request_texts(requests: Seq<AiRequest>) -> Seq<Seq<char>> {
    requests.map_values(
        |r: AiRequest|
            match r {
                AiRequest::Text(t) => t@,
            },
    )
}

impl StoryState {
    /// Reads the talk key. A story that waits for an answer, or for typing,
    /// ignores it. In the second phase of the first quest the knowledge
    /// check opens; in its third phase the player is asked to type;
    /// otherwise the teacher is asked about the quest in progress, or to
    /// welcome the player where there is none. Whatever is asked is handed
    /// back to be sent off, and the story then awaits the reply.
    pub fn generate_dynamic_dialogue(&mut self, syllabus: Option<&SyllabusResource>) -> (request:
        Option<AiRequest>)
        ensures
            final(self)@ == old(self)@.after_talk(resource_model(syllabus)),
            final(self).current_chapter == old(self).current_chapter,
            final(self).player_name == old(self).player_name,
            match request {
                Some(AiRequest::Text(text)) => old(self)@.talk_request(resource_model(syllabus))
                    == Some(text@),
                None => old(self)@.talk_request(resource_model(syllabus)) is None,
            },
    {
        if self.active_dialogue.is_some() || self.is_typing_prompt {
            return None;
        }
        let ghost before = self@;
        match syllabus {
            Some(syl) => {
                if syl.current_module_index == 0 && syl.quest_script.current_phase == 1 {
                    let node = knowledge_check();
                    self.narrative_context.push(node.text.clone());
                    let mut k: usize = 0;
                    while k < node.choices.len()
                        invariant
                            k <= node.choices.len(),
                            node@ == knowledge_check_model(),
                            self.current_chapter == old(self).current_chapter,
                            self.player_name == old(self).player_name,
                            self.active_dialogue == old(self).active_dialogue,
                            self.can_interact == old(self).can_interact,
                            self.is_thinking == old(self).is_thinking,
                            self.player_input == old(self).player_input,
                            self.is_typing_prompt == old(self).is_typing_prompt,
                            texts_of(self.narrative_context@) == before.narrative.push(
                                CHECK_QUESTION@,
                            ) + node@.choices.take(k as int).map_values(|c: ChoiceModel| c.text),
                        decreases node.choices.len() - k,
                    {
                        let ghost so_far = texts_of(self.narrative_context@);
                        self.narrative_context.push(node.choices[k].text.clone());
                        assert(texts_of(self.narrative_context@) =~= so_far.push(
                            node@.choices[k as int].text,
                        ));
                        assert(node@.choices.take(k + 1).map_values(|c: ChoiceModel| c.text)
                            =~= node@.choices.take(k as int).map_values(|c: ChoiceModel| c.text).push(
                            node@.choices[k as int].text,
                        ));
                        k += 1;
                    }
                    proof {
                        let answers = node@.choices.take(3).map_values(|c: ChoiceModel| c.text);
                        assert(node@.choices.len() == 3);
                        assert(answers.len() == 3);
                        assert(answers[0] == "1. Cloud-based API (OpenAI)"@);
                        assert(answers[1] == "2. Local LLM (Ollama/Moshi)"@);
                        assert(answers[2] == "3. Distributed Blockchain"@);
                        assert(texts_of(self.narrative_context@) =~= before.narrative.push(
                            CHECK_QUESTION@,
                        ).push("1. Cloud-based API (OpenAI)"@).push(
                            "2. Local LLM (Ollama/Moshi)"@,
                        ).push("3. Distributed Blockchain"@));
                    }
                    self.active_dialogue = Some(node);
                    self.is_thinking = true;
                    return Some(AiRequest::Text(String::from_str(CHECK_WRITTEN_OUT)));
                }
                match syl.current_quest() {
                    Some(quest) => {
                        if syl.current_module_index == 0 && syl.quest_script.current_phase == 2 {
                            self.is_typing_prompt = true;
                            self.is_thinking = true;
                            return Some(AiRequest::Text(String::from_str(TYPING_INVITATION)));
                        }
                        let phase = syl.current_phase();
                        let mut text = String::from_str(
                            "You are The Gamification Architect, a wise mentor in a LitRPG world. The player is on quest '",
                        );
                        text.append(quest.title.as_str());
                        text.append("', currently in phase [");
                        text.append(phase.phase_type_name());
                        text.append("]: ");
                        text.append(phase.display_label().as_str());
                        text.append(
                            ". Generate a short, encouraging dialogue. STRICT RULES: Reply in exactly 2 short sentences. Do not hallucinate. Do not break character. Do not use lists. Call the player 'Architect'.",
                        );
                        self.is_thinking = true;
                        Some(AiRequest::Text(text))
                    },
                    None => {
                        self.is_thinking = true;
                        Some(AiRequest::Text(String::from_str(WELCOME_PROMPT)))
                    },
                }
            },
            None => {
                self.is_thinking = true;
                Some(AiRequest::Text(String::from_str(WELCOME_PROMPT)))
            },
        }
    }

    fn answer(&mut self, node: &DialogueNode, k: usize, pressed: bool) -> (result: (
        Option<AiRequest>,
        bool,
    ))
        requires
            old(self).active_dialogue is None,
        ensures
            final(self).active_dialogue is None,
            final(self).current_chapter == old(self).current_chapter,
            final(self).player_name == old(self).player_name,
            final(self).can_interact == old(self).can_interact,
            final(self).player_input == old(self).player_input,
            final(self).is_typing_prompt == old(self).is_typing_prompt,
            pressed && k < node.choices@.len() ==> {
                &&& result.0 matches Some(AiRequest::Text(text)) && text@
                    == node@.choices[k as int].consequence + CONTINUE_HINT@
                &&& result.1 == contains(node@.choices[k as int].text, RIGHT_ANSWER_MARK@)
                &&& final(self).is_thinking
                &&& texts_of(final(self).narrative_context@) == texts_of(
                    old(self).narrative_context@,
                ).push(node@.choices[k as int].consequence)
            },
            !(pressed && k < node.choices@.len()) ==> {
                &&& result.0 is None
                &&& !result.1
                &&& final(self).is_thinking == old(self).is_thinking
                &&& final(self).narrative_context == old(self).narrative_context
            },
    {
        if pressed && k < node.choices.len() {
            let ghost before = texts_of(self.narrative_context@);
            let choice = &node.choices[k];
            self.narrative_context.push(choice.consequence.clone());
            assert(texts_of(self.narrative_context@) =~= before.push(choice.consequence@));
            let text = choice.consequence.clone().concat(CONTINUE_HINT);
            self.is_thinking = true;
            let chars = to_chars(choice.text.as_str());
            let closes = includes(chars.as_slice(), RIGHT_ANSWER_MARK);
            (Some(AiRequest::Text(text)), closes)
        } else {
            (None, false)
        }
    }

    /// Reads the three answer keys while a question is open. Each answer
    /// given, lowest key first, notes its consequence and hands it back to
    /// be sent off; an answer that carries the mark of the right one closes
    /// the question.
    pub fn handle_dialogue_choices(&mut self, one: bool, two: bool, three: bool) -> (requests: Vec<
        AiRequest,
    >)
        ensures
            final(self)@ == old(self)@.after_answers(one, two, three),
            final(self).current_chapter == old(self).current_chapter,
            final(self).player_name == old(self).player_name,
            request_texts(requests@) == old(self)@.answer_requests(one, two, three),
    {
        let mut requests: Vec<AiRequest> = Vec::new();
        assert(request_texts(requests@) =~= Seq::<Seq<char>>::empty());
        let node = match self.active_dialogue.take() {
            Some(node) => node,
            None => {
                return requests;
            },
        };
        let ghost start = old(self)@;
        let ghost choices = node@.choices;
        let (first, closes_first) = self.answer(&node, 0, one);
        if let Some(r) = first {
            let ghost before = request_texts(requests@);
            requests.push(r);
            assert(request_texts(requests@) =~= before.push(
                match r {
                    AiRequest::Text(t) => t@,
                },
            ));
        }
        let ghost after_first = start.after_answer(choices, 0, one);
        let (second, closes_second) = self.answer(&node, 1, two);
        if let Some(r) = second {
            let ghost before = request_texts(requests@);
            requests.push(r);
            assert(request_texts(requests@) =~= before.push(
                match r {
                    AiRequest::Text(t) => t@,
                },
            ));
        }
        let ghost after_second = after_first.after_answer(choices, 1, two);
        let (third, closes_third) = self.answer(&node, 2, three);
        if let Some(r) = third {
            let ghost before = request_texts(requests@);
            requests.push(r);
            assert(request_texts(requests@) =~= before.push(
                match r {
                    AiRequest::Text(t) => t@,
                },
            ));
        }
        let ghost after_third = after_second.after_answer(choices, 2, three);
        if !(closes_first || closes_second || closes_third) {
            self.active_dialogue = Some(node);
        }
        assert(request_texts(requests@) =~= start.answer_requests(one, two, three));
        assert(self@.narrative == after_third.narrative);
        assert(self@ == after_third);
        requests
    }
}

// ---------------------------------------------------------------------------
// Typing
// ---------------------------------------------------------------------------

/// What a run of key presses types: of every key that stands for exactly
/// one character, that character; other keys type nothing.
pub open spec fn typed_text(keys: Seq<Seq<char>>) -> Seq<char>
    decreases keys.len(),
{
    if keys.len() == 0 {
        seq![]
    } else if keys.last().len() == 1 {
        typed_text(keys.drop_last()).push(keys.last()[0])
    } else {
        typed_text(keys.drop_last())
    }
}

/// The reply to a line the player has typed.
pub open spec fn construction_reply(line: Seq<char>) -> Seq<char> {
    "Excellent construction! You commanded: \""@ + line
        + "\". The environment has absorbed your logic."@
}

impl StoryModel {
    /// The typed line after a run of key presses and, if `backspace` is
    /// set, the removal of its last character.
    pub open spec fn line_after(self, keys: Seq<Seq<char>>, backspace: bool) -> Seq<char> {
        let line = self.input + typed_text(keys);
        if backspace && line.len() > 0 {
            line.drop_last()
        } else {
            line
        }
    }

    /// Whether the typed line is handed in: the player is asked to type,
    /// presses enter, and the line is not empty.
    pub open spec fn hands_in(self, keys: Seq<Seq<char>>, backspace: bool, enter: bool) -> bool {
        self.typing && enter && self.line_after(keys, backspace).len() > 0
    }

    /// The story after the keyboard is read.
    pub open spec fn after_typing(self, keys: Seq<Seq<char>>, backspace: bool, enter: bool)
        -> StoryModel {
        if !self.typing {
            self
        } else if self.hands_in(keys, backspace, enter) {
            StoryModel { input: seq![], typing: false, thinking: true, ..self }
        } else {
            StoryModel { input: self.line_after(keys, backspace), ..self }
        }
    }
}

impl StoryState {
    /// Reads the keyboard while the player is asked to type. The keys typed
    /// are added to the line, then backspace takes the last character away,
    /// then enter hands in a line that is not empty: the line is cleared,
    /// the typing is over, and the reply to the line is handed back to be
    /// sent off. A story that does not ask for typing ignores the keyboard.
    pub fn handle_typing_input(&mut self, keys: &Vec<String>, backspace: bool, enter: bool)
        -> (request: Option<AiRequest>)
        ensures
            final(self)@ == old(self)@.after_typing(texts_of(keys@), backspace, enter),
            final(self).current_chapter == old(self).current_chapter,
            final(self).player_name == old(self).player_name,
            final(self).narrative_context == old(self).narrative_context,
            final(self).active_dialogue == old(self).active_dialogue,
            match request {
                Some(AiRequest::Text(text)) => old(self)@.hands_in(texts_of(keys@), backspace, enter)
                    && text@ == construction_reply(
                    old(self)@.line_after(texts_of(keys@), backspace),
                ),
                None => !old(self)@.hands_in(texts_of(keys@), backspace, enter),
            },
    {
        if !self.is_typing_prompt {
            return None;
        }
        let mut line = to_chars(self.player_input.as_str());
        let ghost all = texts_of(keys@);
        let mut i: usize = 0;
        assert(all.take(0) =~= Seq::<Seq<char>>::empty());
        assert(line@ =~= old(self)@.input + typed_text(all.take(0)));
        while i < keys.len()
            invariant
                i <= keys.len(),
                all == texts_of(keys@),
                line@ == old(self)@.input + typed_text(all.take(i as int)),
            decreases keys.len() - i,
        {
            let key = to_chars(keys[i].as_str());
            assert(all.take(i + 1).drop_last() =~= all.take(i as int));
            assert(all.take(i + 1).last() == key@);
            if key.len() == 1 {
                line.push(key[0]);
                assert(line@ =~= old(self)@.input + typed_text(all.take(i + 1)));
            }
            i += 1;
        }
        assert(all.take(keys.len() as int) =~= all);
        if backspace {
            let _ = line.pop();
        }
        assert(line@ =~= old(self)@.line_after(all, backspace));
        if enter && line.len() > 0 {
            let mut text: Vec<char> = Vec::new();
            append_str(&mut text, "Excellent construction! You commanded: \"");
            append(&mut text, line.as_slice());
            append_str(&mut text, "\". The environment has absorbed your logic.");
            self.player_input = String::new();
            self.is_typing_prompt = false;
            self.is_thinking = true;
            assert(self@.input =~= Seq::<char>::empty());
            Some(AiRequest::Text(from_chars(text.as_slice())))
        } else {
            self.player_input = from_chars(line.as_slice());
            None
        }
    }
}

// ---------------------------------------------------------------------------
// Waiting, and the typewriter
// ---------------------------------------------------------------------------

/// A run of `n` full stops.
pub open spec fn dots(n: nat) -> Seq<char> {
    Seq::new(n, |i: int| '.')
}

/// What is shown while a reply is awaited: `Thinking`, followed by no dot
/// to three dots as the beats go by.
pub fn thinking_line(beats: usize) -> (line: String)
    ensures
        line@ == "Thinking"@ + dots((beats % 4) as nat),
{
    let n = beats % 4;
    let mut out: Vec<char> = Vec::new();
    append_str(&mut out, "Thinking");
    let mut k: usize = 0;
    while k < n
        invariant
            k <= n,
            out@ == "Thinking"@ + dots(k as nat),
        decreases n - k,
    {
        out.push('.');
        assert(out@ =~= "Thinking"@ + dots((k + 1) as nat));
        k += 1;
    }
    from_chars(out.as_slice())
}

/// What is shown while the player types: the reply so far, an empty line,
/// and the typed line behind a prompt and before the cursor.
pub open spec fn typing_view(full: Seq<char>, input: Seq<char>) -> Seq<char> {
    full + "\n\n> "@ + input + CURSOR@
}

/// What one beat of the typewriter shows, if it shows anything, told from
/// the typewriter before the beat.
pub open spec fn shown_by_tick(
    full: Seq<char>,
    revealed: nat,
    active: bool,
    typing: bool,
    input: Seq<char>,
    timer_finished: bool,
) -> Option<Seq<char>> {
    if !active {
        if typing {
            Some(typing_view(full, input))
        } else {
            None
        }
    } else if !timer_finished {
        None
    } else if revealed + 1 >= utf8_len(full) {
        if typing {
            Some(typing_view(full, input))
        } else {
            Some(full)
        }
    } else if revealed + 1 <= full.len() {
        Some(full.take(revealed as int + 1) + CURSOR@)
    } else {
        Some(full + CURSOR@)
    }
}

impl TypewriterState {
    /// Takes up a reply: nothing of it is revealed yet.
    pub fn start(&mut self, content: String)
        ensures
            final(self).full_text == content,
            final(self).revealed_chars == 0,
            final(self).is_active,
    {
        self.full_text = content;
        self.revealed_chars = 0;
        self.is_active = true;
    }

    /// One beat of the typewriter: `timer_finished` tells whether its timer
    /// has run out on this beat. Hands back what is to be shown, if
    /// anything.
    ///
    /// A typewriter at rest shows the typing view while the player types,
    /// and nothing otherwise. A typewriter at work reveals one character
    /// more each time its timer runs out and shows what is revealed before
    /// the cursor. Once the count of revealed characters reaches the length
    /// of the reply in bytes it comes to rest and shows the whole reply, or
    /// the typing view while the player types.
    pub fn typewriter_tick(&mut self, typing: bool, input: &str, timer_finished: bool) -> (shown:
        Option<String>)
        requires
            old(self).revealed_chars < usize::MAX,
        ensures
            final(self).full_text == old(self).full_text,
            final(self).revealed_chars == if old(self).is_active && timer_finished {
                (old(self).revealed_chars + 1) as usize
            } else {
                old(self).revealed_chars
            },
            final(self).is_active == (old(self).is_active && !(timer_finished && old(
                self,
            ).revealed_chars + 1 >= utf8_len(old(self).full_text@))),
            match shown {
                Some(text) => shown_by_tick(
                    old(self).full_text@,
                    old(self).revealed_chars as nat,
                    old(self).is_active,
                    typing,
                    input@,
                    timer_finished,
                ) == Some(text@),
                None => shown_by_tick(
                    old(self).full_text@,
                    old(self).revealed_chars as nat,
                    old(self).is_active,
                    typing,
                    input@,
                    timer_finished,
                ) is None,
            },
    {
        if !self.is_active && !typing {
            return None;
        }
        if typing && !self.is_active {
            return Some(self.typing_text(input));
        }
        if !timer_finished {
            return None;
        }
        self.revealed_chars = self.revealed_chars + 1;
        let full = to_chars(self.full_text.as_str());
        let fitting = take_bytes(full.as_slice(), self.revealed_chars);
        proof {
            lemma_byte_prefix(full@, self.revealed_chars as nat);
        }
        if fitting.len() == full.len() {
            self.is_active = false;
            if typing {
                Some(self.typing_text(input))
            } else {
                Some(self.full_text.clone())
            }
        } else {
            let mut out: Vec<char> = Vec::new();
            if self.revealed_chars <= full.len() {
                append(&mut out, &full.as_slice()[0..self.revealed_chars]);
                assert(out@ =~= full@.take(self.revealed_chars as int));
            } else {
                append(&mut out, full.as_slice());
                assert(out@ =~= full@);
            }
            append_str(&mut out, CURSOR);
            Some(from_chars(out.as_slice()))
        }
    }

    fn typing_text(&self, input: &str) -> (text: String)
        ensures
            text@ == typing_view(self.full_text@, input@),
    {
        let mut text = self.full_text.clone();
        text.append("\n\n> ");
        text.append(input);
        text.append(CURSOR);
        text
    }
}

/// Takes in a reply: the story stops waiting, and the typewriter takes the
/// reply up.
pub fn receive_reply(story: &mut StoryState, typewriter: &mut TypewriterState, reply: AiResponse)
    ensures
        !final(story).is_thinking,
        final(story)@ == (StoryModel { thinking: false, ..old(story)@ }),
        final(story).current_chapter == old(story).current_chapter,
        final(story).player_name == old(story).player_name,
        match reply {
            AiResponse::Text(content) => final(typewriter).full_text == content,
        },
        final(typewriter).revealed_chars == 0,
        final(typewriter).is_active,
{
    match reply {
        AiResponse::Text(content) => {
            story.is_thinking = false;
            typewriter.start(content);
        },
    }
}

} // verus!
