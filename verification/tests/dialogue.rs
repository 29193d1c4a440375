use sovereign_sandbox::ai::extract_dialogue_from_prompt;
use sovereign_sandbox::ai::moshi::forward;
use sovereign_sandbox::ai::moshi::persona_injection;
use sovereign_sandbox::ai::moshi::MoshiCommand;
use sovereign_sandbox::ai::respond;
use sovereign_sandbox::ai::AiRequest;
use sovereign_sandbox::ai::AiResponse;
use sovereign_sandbox::ai::TEACHER_PERSONA_PROMPT;

#[test]
fn a_lesson_is_taken_from_behind_the_colon() {
    let prompt = "ROLE: You are the Gamification Architect, acting as a Pedagogical Orchestrator.\nCONTEXT: The Architect (the player) is currently on the quest 'Sovereign AI', and has just approached you.\nCURRENT LESSON (Gagn\u{e9} Event 'Gain Attention'):   Imagine a classroom that never phones home.  \n\nINSTRUCTION: Deliver this lesson step to the Architect in 2 short sentences.";
    assert_eq!(
        extract_dialogue_from_prompt(prompt),
        "\u{1f9d9} Imagine a classroom that never phones home."
    );
}

#[test]
fn a_lesson_without_a_blank_line_runs_to_the_end() {
    assert_eq!(
        extract_dialogue_from_prompt("CURRENT LESSON: learn by doing \n"),
        "\u{1f9d9} learn by doing"
    );
}

#[test]
fn an_empty_lesson_falls_through_to_the_later_rules() {
    assert_eq!(
        extract_dialogue_from_prompt("Greet them warmly. CURRENT LESSON:   \n\n "),
        "\u{1f9d9} Welcome, Architect! The sovereign classroom awaits your command. Walk up and press T to begin."
    );
    assert_eq!(
        extract_dialogue_from_prompt("CURRENT LESSON:   \n\nGreet them warmly"),
        "\u{1f9d9} Greet them warmly"
    );
    assert_eq!(
        extract_dialogue_from_prompt("CURRENT LESSON without a colon"),
        "\u{1f9d9} CURRENT LESSON without a colon"
    );
}

#[test]
fn a_reflection_question_is_taken_from_its_quotes() {
    let prompt = "ROLE: Pedagogical Orchestrator. MANAGED FREE WILL: 'Yes-And' any student curiosity while maintaining the gravitational pull of this question. Ask the Architect this reflection question (2 sentences max): 'Why local?'";
    assert_eq!(extract_dialogue_from_prompt(prompt), "\u{1fa9e} Reflect, Architect: Yes-And");
    assert_eq!(
        extract_dialogue_from_prompt("Ask this reflection question: 'Why does privacy matter?'"),
        "\u{1fa9e} Reflect, Architect: Why does privacy matter?"
    );
}

#[test]
fn a_reflection_without_quotes_falls_through() {
    assert_eq!(
        extract_dialogue_from_prompt("a reflection question with no quotes"),
        "\u{1f9d9} a reflection question with no quotes"
    );
}

#[test]
fn a_quiz_shows_question_and_options() {
    let prompt = "ROLE: Pedagogical Orchestrator. Ask the Architect this quiz question: 'Which stays local?'\n\nOptions:\n1. Cloud\n2. Ollama\n\nInstruction: Present the question and options clearly.";
    assert_eq!(
        extract_dialogue_from_prompt(prompt),
        "\u{2753} Which stays local?\n\nOptions:\n1. Cloud\n2. Ollama\n\nPress 1, 2, or 3 to answer."
    );
    assert_eq!(
        extract_dialogue_from_prompt("quiz question: 'Ready?'"),
        "\u{2753} Ready?\n\nPress 1, 2, or 3 to answer."
    );
}

#[test]
fn nudges_and_greetings_are_fixed_lines() {
    assert_eq!(
        extract_dialogue_from_prompt("please nudge the player"),
        "\u{1f9d9} The path awaits, Architect. Come find me when you're ready to continue your training."
    );
    assert_eq!(
        extract_dialogue_from_prompt("MANAGED FREE WILL applies"),
        "\u{1f9d9} The path awaits, Architect. Come find me when you're ready to continue your training."
    );
    assert_eq!(
        extract_dialogue_from_prompt("ROLE: You are The Gamification Architect mentor NPC. The player just walked up to you. Greet them warmly in 1-2 sentences, RPG style. Call them 'Architect'."),
        "\u{1f9d9} Welcome, Architect! The sovereign classroom awaits your command. Walk up and press T to begin."
    );
    assert_eq!(
        extract_dialogue_from_prompt("You are The Gamification Architect. Welcome the player to their journey. STRICT RULES: Reply in exactly 2 short sentences."),
        "\u{1f9d9} Welcome, Architect! The sovereign classroom awaits your command. Walk up and press T to begin."
    );
}

#[test]
fn feedback_loses_its_hint() {
    assert_eq!(
        extract_dialogue_from_prompt("Correct! Local AI ensures absolute data privacy. (Press Space to continue)"),
        "\u{1f9d9} Correct! Local AI ensures absolute data privacy."
    );
    assert_eq!(
        extract_dialogue_from_prompt("Not quite (Press Space to continue) yet (Press Space to continue)"),
        "\u{1f9d9} Not quite yet"
    );
    assert_eq!(
        extract_dialogue_from_prompt("Excellent construction! You commanded: \"run\". The environment has absorbed your logic."),
        "\u{1f9d9} Excellent construction! You commanded: \"run\". The environment has absorbed your logic."
    );
}

#[test]
fn a_quest_is_named() {
    assert_eq!(
        extract_dialogue_from_prompt("The player is on quest 'Sovereign AI', currently in phase [DO]"),
        "\u{1f9d9} Welcome to the quest: Sovereign AI. Follow the objectives in your Quest Log, Architect."
    );
    assert_eq!(
        extract_dialogue_from_prompt("on quest 'unterminated"),
        "\u{1f9d9} on quest 'unterminated"
    );
}

#[test]
fn a_typing_prompt_is_shown_as_it_is() {
    let prompt = "Architect! It is time to construct your first logic script. Type a natural language command below and press Enter:";
    assert_eq!(extract_dialogue_from_prompt(prompt), prompt);
    assert_eq!(extract_dialogue_from_prompt("  logic script  "), "  logic script  ");
}

#[test]
fn the_fallback_strips_stage_directions() {
    assert_eq!(
        extract_dialogue_from_prompt("ROLE: mentor. Hello there. INSTRUCTION: be brief. Bye."),
        "\u{1f9d9} Hello there.  Bye."
    );
    assert_eq!(
        extract_dialogue_from_prompt("  STATUS: idle. CONTEXT: none. STRICT RULES: none.  "),
        "\u{1f9d9} The Architect awaits your next move."
    );
    assert_eq!(extract_dialogue_from_prompt("ROLE: no full stop"), "\u{1f9d9} ROLE: no full stop");
    assert_eq!(extract_dialogue_from_prompt(""), "\u{1f9d9} The Architect awaits your next move.");
    assert_eq!(extract_dialogue_from_prompt("plain text"), "\u{1f9d9} plain text");
}

#[test]
fn the_fallback_cuts_long_text_at_two_hundred_bytes() {
    let long = "x".repeat(250);
    assert_eq!(extract_dialogue_from_prompt(&long), format!("\u{1f9d9} {}", "x".repeat(200)));
    let exact = "y".repeat(200);
    assert_eq!(extract_dialogue_from_prompt(&exact), format!("\u{1f9d9} {}", exact));
    let one_more = "z".repeat(201);
    assert_eq!(extract_dialogue_from_prompt(&one_more), format!("\u{1f9d9} {}", "z".repeat(200)));
}

#[test]
fn the_fallback_cuts_between_characters() {
    let accents = "\u{e9}".repeat(150);
    assert_eq!(
        extract_dialogue_from_prompt(&accents),
        format!("\u{1f9d9} {}", "\u{e9}".repeat(100))
    );
    let straddling = format!("a{}", "\u{e9}".repeat(150));
    assert_eq!(
        extract_dialogue_from_prompt(&straddling),
        format!("\u{1f9d9} a{}", "\u{e9}".repeat(99))
    );
    let short_in_bytes = "\u{e9}".repeat(100);
    assert_eq!(
        extract_dialogue_from_prompt(&short_in_bytes),
        format!("\u{1f9d9} {}", short_in_bytes)
    );
}

#[test]
fn the_rules_are_tried_in_order() {
    assert_eq!(
        extract_dialogue_from_prompt("CURRENT LESSON: first\n\nreflection question 'second'"),
        "\u{1f9d9} first"
    );
    assert_eq!(
        extract_dialogue_from_prompt("reflection question and quiz question 'both'"),
        "\u{1fa9e} Reflect, Architect: both"
    );
    assert_eq!(
        extract_dialogue_from_prompt("nudge on quest 'Later'"),
        "\u{1f9d9} The path awaits, Architect. Come find me when you're ready to continue your training."
    );
}

#[test]
fn respond_answers_a_request_with_its_dialogue() {
    let request = AiRequest::Text("CURRENT LESSON: sovereignty\n\nINSTRUCTION: go.".to_string());
    match respond(&request) {
        AiResponse::Text(reply) => assert_eq!(reply, "\u{1f9d9} sovereignty"),
    }
}

#[test]
fn requests_go_to_the_voice_as_context() {
    match forward(AiRequest::Text("hello".to_string())) {
        MoshiCommand::Context(text) => assert_eq!(text, "hello"),
        _ => panic!("a request is forwarded as context"),
    }
    match persona_injection() {
        MoshiCommand::Context(text) => {
            assert_eq!(text, TEACHER_PERSONA_PROMPT);
            assert!(text.starts_with("You are the Gamification Architect"));
            assert!(text.contains("**Managed Free Will**"));
            assert!(text.contains("Gagn\u{e9}'s 9 Events"));
            assert!(text.ends_with("Socratic questioning.\n"));
        },
        _ => panic!("the persona is injected as context"),
    }
}
