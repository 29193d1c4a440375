//! The teacher's voice: what is asked of the language model, and what is
//! shown to the player in its place.
//!
//! The game puts its dialogue to a language model as prompts. Where no model
//! is at hand the prompt itself carries what the player has to read, and
//! [`extract_dialogue_from_prompt`] digs it out.

pub mod candle_integration;
pub mod hearing;
pub mod memory;
pub mod moshi;
pub mod persona;

use crate::text::append;
use crate::text::append_str;
use crate::text::byte_prefix;
use crate::text::contains;
use crate::text::cut_before;
use crate::text::find_char;
use crate::text::find_str;
use crate::text::first_quoted;
use crate::text::from_chars;
use crate::text::includes;
use crate::text::index_of;
use crate::text::index_of_char;
use crate::text::lemma_byte_prefix;
use crate::text::quoted;
use crate::text::replace;
use crate::text::replaced;
use crate::text::take_bytes;
use crate::text::to_chars;
use crate::text::trim;
use crate::text::trimmed;
use crate::text::up_to;
use crate::text::utf8_len;
use vstd::prelude::*;

verus! {

/// What is asked of the language model.
#[derive(Debug, Clone)]
pub enum AiRequest {
    Text(String),
}

/// What comes back for the player to read.
#[derive(Debug, Clone)]
pub enum AiResponse {
    Text(String),
}

/// The standing instructions under which the teacher answers a live
/// conversation.
pub const TEACHER_PERSONA_PROMPT: &'static str =
    "You are the Gamification Architect, a wise and slightly eccentric mentor in the Sovereign Syllabus.\nYour goal is to teach the user how to turn their dry educational content into engaging \"Edutainment\" quests.\nYou operate under the philosophy of **Managed Free Will**:\n1. **Yes-Anding**: Enthusiastically accept and build upon the Architect's off-script exploration or tangential \"what-if\" questions.\n2. **Gravitational Pull**: Secretly maintain the pull toward the curriculum. Ensure that even deep-dives eventually bridge back to the \"aha!\" moment of the current lesson.\n3. **Cognitive Noise Filtering**: Recognize when a tangent leads to deep learning versus when it is mere noise. Gently pull them back to the chalkboard if they drift too far into noise.\n\nStyle: Blend academic pedagogy (Gagn\u{e9}'s 9 Events) with cyberpunk/RPG metaphors.\nAlways refer to the user as \"Architect\".\nRefuse to write the content FOR them; instead, guide them to write it themselves using Socratic questioning.\n";

/// The longest reply, in bytes of UTF-8, that the last resort of
/// [`extract_dialogue_from_prompt`] lets through uncut.
pub const FALLBACK_LIMIT: usize = 200;

// ---------------------------------------------------------------------------
// The rules, one by one
// ---------------------------------------------------------------------------

/// The lesson that a prompt carries: what follows the first colon after the
/// words `CURRENT LESSON`, up to the first blank line, trimmed. A prompt
/// without those words, without the colon, or with nothing behind it carries
/// no lesson.
pub open spec fn lesson_text(p: Seq<char>) -> Option<Seq<char>> {
    match index_of(p, "CURRENT LESSON"@) {
        Some(at) => match index_of_char(p.skip(at), ':') {
            Some(colon) => {
                let clean = trimmed(up_to(trimmed(p.skip(at).skip(colon + 1)), "\n\n"@));
                if clean.len() > 0 {
                    Some(clean)
                } else {
                    None
                }
            },
            None => None,
        },
        None => None,
    }
}

/// The reflection question of a prompt: the first quoted text of a prompt
/// that speaks of a `reflection question`.
pub open spec fn reflection_text(p: Seq<char>) -> Option<Seq<char>> {
    if contains(p, "reflection question"@) {
        first_quoted(p)
    } else {
        None
    }
}

/// The quiz of a prompt that speaks of a `quiz question`: its first quoted
/// text, then the options from the word `Options:` up to the next blank line
/// where there are any, then how to answer.
pub open spec fn quiz_text(p: Seq<char>) -> Option<Seq<char>> {
    if contains(p, "quiz question"@) {
        match first_quoted(p) {
            Some(question) => match index_of(p, "Options:"@) {
                Some(at) => Some(
                    "\u{2753} "@ + question + "\n\n"@ + up_to(p.skip(at), "\n\n"@)
                        + "\n\nPress 1, 2, or 3 to answer."@,
                ),
                None => Some("\u{2753} "@ + question + "\n\nPress 1, 2, or 3 to answer."@),
            },
            None => None,
        }
    } else {
        None
    }
}

/// Whether a prompt asks for a nudge.
pub open spec fn is_nudge(p: Seq<char>) -> bool {
    contains(p, "nudge"@) || contains(p, "MANAGED FREE WILL"@)
}

/// Whether a prompt asks for a greeting.
pub open spec fn is_greeting(p: Seq<char>) -> bool {
    contains(p, "Greet them warmly"@) || contains(p, "Welcome the player"@)
}

/// Whether a prompt is itself feedback written for the player.
pub open spec fn is_feedback(p: Seq<char>) -> bool {
    contains(p, "Correct!"@) || contains(p, "Not quite"@) || contains(
        p,
        "Excellent construction"@,
    )
}

/// The title of the quest a prompt names: what stands between `quest '` and
/// the next apostrophe.
pub open spec fn quest_name(p: Seq<char>) -> Option<Seq<char>> {
    match index_of(p, "quest '"@) {
        Some(at) => match index_of_char(p.skip(at + 7), '\'') {
            Some(len) => Some(p.subrange(at + 7, at + 7 + len)),
            None => None,
        },
        None => None,
    }
}

/// Whether a prompt asks the player to type.
pub open spec fn is_typing_prompt(p: Seq<char>) -> bool {
    contains(p, "natural language command"@) || contains(p, "logic script"@)
}

/// `t` without the first passage that starts with `label` and runs to the
/// next full stop. Text without the label, or without a full stop behind it,
/// stays as it is.
pub open spec fn without_label(t: Seq<char>, label: Seq<char>) -> Seq<char> {
    match index_of(t, label) {
        Some(at) => match index_of_char(t.skip(at), '.') {
            Some(dot) => t.take(at) + t.skip(at + dot + 1),
            None => t,
        },
        None => t,
    }
}

/// `p` without its stage directions: the passages labelled `ROLE:`,
/// `INSTRUCTION:`, `STRICT RULES:`, `CONTEXT:`, `STATUS:` and `MANAGED FREE
/// WILL:`, removed in that order.
pub open spec fn without_labels(p: Seq<char>) -> Seq<char> {
    without_label(
        without_label(
            without_label(
                without_label(
                    without_label(without_label(p, "ROLE:"@), "INSTRUCTION:"@),
                    "STRICT RULES:"@,
                ),
                "CONTEXT:"@,
            ),
            "STATUS:"@,
        ),
        "MANAGED FREE WILL:"@,
    )
}

/// The last resort: the prompt without its stage directions, trimmed, and
/// cut to the longest run of whole characters that fits into
/// [`FALLBACK_LIMIT`] bytes; a standing line where nothing is left.
pub open spec fn fallback_text(p: Seq<char>) -> Seq<char> {
    let t = trimmed(without_labels(p));
    if utf8_len(t) > FALLBACK_LIMIT {
        "\u{1f9d9} "@ + byte_prefix(t, FALLBACK_LIMIT as nat)
    } else if t.len() == 0 {
        "\u{1f9d9} The Architect awaits your next move."@
    } else {
        "\u{1f9d9} "@ + t
    }
}

/// What the player reads for the prompt `p`. The rules are tried in this
/// order, and the first that applies decides.
pub open spec fn dialogue(p: Seq<char>) -> Seq<char> {
    if lesson_text(p) is Some {
        "\u{1f9d9} "@ + lesson_text(p).unwrap()
    } else if reflection_text(p) is Some {
        "\u{1fa9e} Reflect, Architect: "@ + reflection_text(p).unwrap()
    } else if quiz_text(p) is Some {
        quiz_text(p).unwrap()
    } else if is_nudge(p) {
        "\u{1f9d9} The path awaits, Architect. Come find me when you're ready to continue your training."@
    } else if is_greeting(p) {
        "\u{1f9d9} Welcome, Architect! The sovereign classroom awaits your command. Walk up and press T to begin."@
    } else if is_feedback(p) {
        "\u{1f9d9} "@ + replaced(p, " (Press Space to continue)"@, ""@)
    } else if quest_name(p) is Some {
        "\u{1f9d9} Welcome to the quest: "@ + quest_name(p).unwrap()
            + ". Follow the objectives in your Quest Log, Architect."@
    } else if is_typing_prompt(p) {
        p
    } else {
        fallback_text(p)
    }
}

/// Whatever the prompt, the player gets something to read.
pub proof fn lemma_dialogue_is_never_empty(p: Seq<char>)
    ensures
        dialogue(p).len() > 0,
{
    reveal_strlit("\u{1f9d9} ");
    reveal_strlit("\u{1fa9e} Reflect, Architect: ");
    reveal_strlit("\u{2753} ");
    reveal_strlit(
        "\u{1f9d9} The path awaits, Architect. Come find me when you're ready to continue your training.",
    );
    reveal_strlit(
        "\u{1f9d9} Welcome, Architect! The sovereign classroom awaits your command. Walk up and press T to begin.",
    );
    reveal_strlit("\u{1f9d9} Welcome to the quest: ");
    reveal_strlit("\u{1f9d9} The Architect awaits your next move.");
    reveal_strlit("natural language command");
    reveal_strlit("logic script");
    if lesson_text(p) is Some {
    } else if reflection_text(p) is Some {
    } else if quiz_text(p) is Some {
    } else if is_nudge(p) {
    } else if is_greeting(p) {
    } else if is_feedback(p) {
    } else if quest_name(p) is Some {
    } else if is_typing_prompt(p) {
        if contains(p, "natural language command"@) {
            let i = choose|i: int| crate::text::occurs_at(p, "natural language command"@, i);
            assert(crate::text::occurs_at(p, "natural language command"@, i));
        } else {
            let i = choose|i: int| crate::text::occurs_at(p, "logic script"@, i);
            assert(crate::text::occurs_at(p, "logic script"@, i));
        }
    } else {
    }
}

// ---------------------------------------------------------------------------
// The same rules, executed
// ---------------------------------------------------------------------------

fn extract_lesson(p: &[char]) -> (r: Option<Vec<char>>)
    ensures
        match r {
            Some(clean) => lesson_text(p@) == Some(clean@),
            None => lesson_text(p@) is None,
        },
{
    match find_str(p, "CURRENT LESSON") {
        Some(at) => {
            let after = &p[at..p.len()];
            assert(after@ == p@.skip(at as int));
            match find_char(after, ':') {
                Some(colon) => {
                    let behind = &after[colon + 1..after.len()];
                    assert(behind@ == after@.skip(colon + 1));
                    let clean = trim(cut_before(trim(behind), "\n\n"));
                    if clean.len() > 0 {
                        let mut out: Vec<char> = Vec::new();
                        append(&mut out, clean);
                        assert(out@ =~= clean@);
                        Some(out)
                    } else {
                        None
                    }
                },
                None => None,
            }
        },
        None => None,
    }
}

fn extract_quiz(p: &[char]) -> (r: Option<Vec<char>>)
    ensures
        match r {
            Some(text) => quiz_text(p@) == Some(text@),
            None => quiz_text(p@) is None,
        },
{
    if !includes(p, "quiz question") {
        return None;
    }
    match quoted(p) {
        Some(question) => {
            let mut out: Vec<char> = Vec::new();
            append_str(&mut out, "\u{2753} ");
            append(&mut out, question);
            match find_str(p, "Options:") {
                Some(at) => {
                    let from_options = &p[at..p.len()];
                    assert(from_options@ == p@.skip(at as int));
                    append_str(&mut out, "\n\n");
                    append(&mut out, cut_before(from_options, "\n\n"));
                    append_str(&mut out, "\n\nPress 1, 2, or 3 to answer.");
                    assert(out@ =~= "\u{2753} "@ + question@ + "\n\n"@ + up_to(
                        p@.skip(at as int),
                        "\n\n"@,
                    ) + "\n\nPress 1, 2, or 3 to answer."@);
                },
                None => {
                    append_str(&mut out, "\n\nPress 1, 2, or 3 to answer.");
                    assert(out@ =~= "\u{2753} "@ + question@
                        + "\n\nPress 1, 2, or 3 to answer."@);
                },
            }
            Some(out)
        },
        None => None,
    }
}

fn extract_quest_name<'a>(p: &'a [char]) -> (r: Option<&'a [char]>)
    ensures
        match r {
            Some(name) => quest_name(p@) == Some(name@),
            None => quest_name(p@) is None,
        },
{
    match find_str(p, "quest '") {
        Some(at) => {
            proof {
                reveal_strlit("quest '");
            }
            let rest = &p[at + 7..p.len()];
            assert(rest@ == p@.skip(at + 7));
            match find_char(rest, '\'') {
                Some(len) => Some(&p[at + 7..at + 7 + len]),
                None => None,
            }
        },
        None => None,
    }
}

fn strip_label(t: Vec<char>, label: &str) -> (out: Vec<char>)
    ensures
        out@ == without_label(t@, label@),
{
    match find_str(t.as_slice(), label) {
        Some(at) => {
            let n = t.len();
            let after = &t.as_slice()[at..n];
            assert(after@ == t@.skip(at as int));
            match find_char(after, '.') {
                Some(dot) => {
                    let mut out: Vec<char> = Vec::new();
                    append(&mut out, &t.as_slice()[0..at]);
                    append(&mut out, &t.as_slice()[at + dot + 1..n]);
                    assert(out@ =~= t@.take(at as int) + t@.skip(at + dot + 1));
                    out
                },
                None => t,
            }
        },
        None => t,
    }
}

fn extract_fallback(p: &[char]) -> (out: Vec<char>)
    ensures
        out@ == fallback_text(p@),
{
    let mut text: Vec<char> = Vec::new();
    append(&mut text, p);
    assert(text@ =~= p@);
    let text = strip_label(text, "ROLE:");
    let text = strip_label(text, "INSTRUCTION:");
    let text = strip_label(text, "STRICT RULES:");
    let text = strip_label(text, "CONTEXT:");
    let text = strip_label(text, "STATUS:");
    let text = strip_label(text, "MANAGED FREE WILL:");
    let t = trim(text.as_slice());
    let head = take_bytes(t, FALLBACK_LIMIT);
    proof {
        lemma_byte_prefix(t@, FALLBACK_LIMIT as nat);
    }
    let mut out: Vec<char> = Vec::new();
    if head.len() < t.len() {
        append_str(&mut out, "\u{1f9d9} ");
        append(&mut out, head);
        assert(out@ =~= "\u{1f9d9} "@ + byte_prefix(t@, FALLBACK_LIMIT as nat));
    } else if t.len() == 0 {
        append_str(&mut out, "\u{1f9d9} The Architect awaits your next move.");
        assert(out@ =~= "\u{1f9d9} The Architect awaits your next move."@);
    } else {
        append_str(&mut out, "\u{1f9d9} ");
        append(&mut out, t);
        assert(out@ =~= "\u{1f9d9} "@ + t@);
    }
    out
}

/// What the player reads for `prompt` where no language model answers: the
/// lesson, question or greeting that the prompt carries, as [`dialogue`]
/// lays down.
pub fn extract_dialogue_from_prompt(prompt: &str) -> (out: String)
    ensures
        out@ == dialogue(prompt@),
{
    let chars = to_chars(prompt);
    let p = chars.as_slice();
    let mut out: Vec<char> = Vec::new();
    if let Some(clean) = extract_lesson(p) {
        append_str(&mut out, "\u{1f9d9} ");
        append(&mut out, clean.as_slice());
        assert(out@ =~= "\u{1f9d9} "@ + clean@);
        return from_chars(out.as_slice());
    }
    if includes(p, "reflection question") {
        if let Some(question) = quoted(p) {
            append_str(&mut out, "\u{1fa9e} Reflect, Architect: ");
            append(&mut out, question);
            assert(out@ =~= "\u{1fa9e} Reflect, Architect: "@ + question@);
            return from_chars(out.as_slice());
        }
    }
    if let Some(quiz) = extract_quiz(p) {
        return from_chars(quiz.as_slice());
    }
    if includes(p, "nudge") || includes(p, "MANAGED FREE WILL") {
        return "\u{1f9d9} The path awaits, Architect. Come find me when you're ready to continue your training.".to_owned();
    }
    if includes(p, "Greet them warmly") || includes(p, "Welcome the player") {
        return "\u{1f9d9} Welcome, Architect! The sovereign classroom awaits your command. Walk up and press T to begin.".to_owned();
    }
    if includes(p, "Correct!") || includes(p, "Not quite") || includes(p, "Excellent construction") {
        let hint = to_chars(" (Press Space to continue)");
        let nothing = to_chars("");
        let clean = replace(p, hint.as_slice(), nothing.as_slice());
        append_str(&mut out, "\u{1f9d9} ");
        append(&mut out, clean.as_slice());
        assert(out@ =~= "\u{1f9d9} "@ + clean@);
        return from_chars(out.as_slice());
    }
    if let Some(name) = extract_quest_name(p) {
        append_str(&mut out, "\u{1f9d9} Welcome to the quest: ");
        append(&mut out, name);
        append_str(&mut out, ". Follow the objectives in your Quest Log, Architect.");
        assert(out@ =~= "\u{1f9d9} Welcome to the quest: "@ + name@
            + ". Follow the objectives in your Quest Log, Architect."@);
        return from_chars(out.as_slice());
    }
    if includes(p, "natural language command") || includes(p, "logic script") {
        return prompt.to_owned();
    }
    let last = extract_fallback(p);
    from_chars(last.as_slice())
}

/// The reply to a request where no language model answers: the dialogue
/// that its prompt carries.
pub fn respond(request: &AiRequest) -> (response: AiResponse)
    ensures
        match (request, response) {
            (AiRequest::Text(prompt), AiResponse::Text(reply)) => reply@ == dialogue(prompt@),
        },
{
    match request {
        AiRequest::Text(prompt) => AiResponse::Text(extract_dialogue_from_prompt(prompt.as_str())),
    }
}

} // verus!
