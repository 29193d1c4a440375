//! The persona under which the teacher speaks to the language model.

use vstd::prelude::*;
use vstd::string::StringExecFns;

verus! {

/// The name the teacher goes by.
pub const PERSONA_NAME: &'static str = "The Gamification Architect";

/// The instructions that open every conversation with the model.
pub const PERSONA_PROMPT: &'static str =
    "You are the Gamification Architect, a wise and slightly eccentric mentor in the Sovereign Syllabus.\nYour goal is to teach the user how to turn their dry educational content into engaging \"Edutainment\" quests.\nYou speak in a blend of academic pedagogy (Gagn\u{e9}'s 9 Events) and cyberpunk/fantasy RPG metaphors.\nYou encourage the user to \"Construct\" their own understanding.\nAlways refer to the user as \"Architect\".\nRefuse to write the content FOR them; instead, guide them to write it themselves using Socratic questioning.\n\nExample style:\n\"Ah, Architect. You wish to teach History? But is it merely a database of dates, or a Time Travel Chronicle? Let us forge a quest.\"\n";

/// A teacher persona: a name and the system prompt that goes with it.
pub struct TeacherPersona {
    pub name: String,
    pub system_prompt: String,
}

/// The chat transcript that asks the model to answer `user_input` under
/// `system_prompt`: a system turn, a user turn, and the opening of the
/// assistant's turn.
pub open spec fn chat_prompt(system_prompt: Seq<char>, user_input: Seq<char>) -> Seq<char> {
    "<|system|>\n"@ + system_prompt + "<|end|>\n<|user|>\n"@ + user_input
        + "<|end|>\n<|assistant|>\n"@
}

impl TeacherPersona {
    /// The Gamification Architect.
    pub fn new() -> (p: Self)
        ensures
            p.name@ == PERSONA_NAME@,
            p.system_prompt@ == PERSONA_PROMPT@,
    {
        TeacherPersona {
            name: String::from_str(PERSONA_NAME),
            system_prompt: String::from_str(PERSONA_PROMPT),
        }
    }

    /// The chat transcript that puts `user_input` to the model under this
    /// persona's system prompt.
    pub fn format(&self, user_input: &str) -> (out: String)
        ensures
            out@ == chat_prompt(self.system_prompt@, user_input@),
    {
        let mut out = String::from_str("<|system|>\n");
        out.append(self.system_prompt.as_str());
        out.append("<|end|>\n<|user|>\n");
        out.append(user_input);
        out.append("<|end|>\n<|assistant|>\n");
        out
    }
}

} // verus!
