//! Commands for the voice that speaks the teacher's lines.

use crate::ai::AiRequest;
use crate::ai::TEACHER_PERSONA_PROMPT;
use vstd::prelude::*;
use vstd::string::StringExecFns;

verus! {

/// What the voice can be told to do.
pub enum MoshiCommand {
    Start,
    Stop,
    Context(String),
}

/// The command that hands a request to the voice: its prompt, as context.
pub fn forward(request: AiRequest) -> (command: MoshiCommand)
    ensures
        match (request, command) {
            (AiRequest::Text(prompt), MoshiCommand::Context(text)) => text == prompt,
            _ => false,
        },
{
    match request {
        AiRequest::Text(prompt) => MoshiCommand::Context(prompt),
    }
}

/// The command that puts the voice under the teacher's standing
/// instructions.
pub fn persona_injection() -> (command: MoshiCommand)
    ensures
        command matches MoshiCommand::Context(text) && text@ == TEACHER_PERSONA_PROMPT@,
{
    MoshiCommand::Context(String::from_str(TEACHER_PERSONA_PROMPT))
}

} // verus!
