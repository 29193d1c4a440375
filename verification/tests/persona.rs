use sovereign_sandbox::ai::persona::TeacherPersona;
use sovereign_sandbox::ai::persona::PERSONA_PROMPT;

#[test]
fn test_persona_format() {
    let persona = TeacherPersona::new();
    let input = "Hello";
    let formatted = persona.format(input);

    assert!(formatted.contains("<|system|>"));
    assert!(formatted.contains("Gamification Architect"));
    assert!(formatted.contains("<|user|>\nHello<|end|>"));
    assert!(formatted.contains("<|assistant|>"));
}

#[test]
fn the_persona_is_the_gamification_architect() {
    let persona = TeacherPersona::new();
    assert_eq!(persona.name, "The Gamification Architect");
    assert_eq!(persona.system_prompt, PERSONA_PROMPT);
    assert!(persona.system_prompt.starts_with("You are the Gamification Architect, a wise"));
    assert!(persona.system_prompt.contains("Gagn\u{e9}'s 9 Events"));
    assert!(persona.system_prompt.contains("\n\nExample style:\n\"Ah, Architect."));
    assert!(persona.system_prompt.ends_with("Let us forge a quest.\"\n"));
}

#[test]
fn format_lays_out_the_three_turns() {
    let persona = TeacherPersona { name: "T".to_string(), system_prompt: "Be kind.".to_string() };
    assert_eq!(
        persona.format("Hi"),
        "<|system|>\nBe kind.<|end|>\n<|user|>\nHi<|end|>\n<|assistant|>\n"
    );
    assert_eq!(
        persona.format(""),
        "<|system|>\nBe kind.<|end|>\n<|user|>\n<|end|>\n<|assistant|>\n"
    );
}
