use sovereign_sandbox::ai::memory::MemoryFragment;
use sovereign_sandbox::ai::memory::Timestamp;
use sovereign_sandbox::inventory::acquisition_title;
use sovereign_sandbox::inventory::slot_label;
use sovereign_sandbox::inventory::update_feedback_mirror;
use sovereign_sandbox::inventory::Inventory;
use sovereign_sandbox::inventory::ToolId;

const ALL: [ToolId; 6] = [
    ToolId::OllamaCompass,
    ToolId::LogicLens,
    ToolId::FeedbackMirror,
    ToolId::ThinkingCapPhi,
    ToolId::ThinkingCapLlama,
    ToolId::ThinkingCapMistral,
];

fn fragment(source: &str, content: &str) -> MemoryFragment {
    MemoryFragment {
        id: 7,
        content: content.to_string(),
        source: source.to_string(),
        timestamp: Timestamp { secs: 0, nanos: 0 },
    }
}

#[test]
fn tools_have_names_signs_and_descriptions() {
    let names = [
        "Ollama Compass",
        "Logic Lens",
        "Feedback Mirror",
        "The Tiny Beret (Phi-3)",
        "The Llama Top Hat (Llama-3)",
        "The Mistral Fedora (Mistral)",
    ];
    let icons = ["\u{1f9ed}", "\u{1f50d}", "\u{1fa9e}", "\u{1f9e2}", "\u{1f3a9}", "\u{1f575}\u{fe0f}"];
    let descriptions = [
        "Navigate the local AI landscape. Shows you're connected to your sovereign assistant.",
        "Translates teaching intent into game logic. The bridge between imagination and code.",
        "Reflects student interactions back to you. The key to iterative design.",
        "Fast, lightweight, and perfect for edge devices. A smart choice for quick thoughts.",
        "Powerful and versatile. The standard for heavy lifting and complex reasoning.",
        "Efficient and open. A balanced choice for the modern sovereign architect.",
    ];
    let steps = [3, 6, 8, 99, 99, 99];
    for (i, tool) in ALL.iter().enumerate() {
        assert_eq!(tool.name(), names[i]);
        assert_eq!(tool.icon(), icons[i]);
        assert_eq!(tool.description(), descriptions[i]);
        assert_eq!(tool.unlock_step(), steps[i]);
        assert_eq!(tool.code() as usize, i);
    }
}

#[test]
fn a_new_inventory_holds_the_three_quest_tools_locked() {
    let inventory = Inventory::new();
    assert_eq!(inventory.tools.len(), 3);
    for tool in [ToolId::OllamaCompass, ToolId::LogicLens, ToolId::FeedbackMirror] {
        assert_eq!(inventory.tools.get(&tool.code()), Some(&false));
    }
    for tool in ALL {
        assert!(!inventory.has_tool(tool));
    }
    assert_eq!(inventory.active_tool, None);
    assert_eq!(inventory.active_hat, None);
    assert_eq!(inventory.newly_acquired, None);
}

#[test]
fn unlocking_a_tool_announces_it_once() {
    let mut inventory = Inventory::new();
    inventory.unlock_tool(ToolId::LogicLens);
    assert!(inventory.has_tool(ToolId::LogicLens));
    assert!(!inventory.has_tool(ToolId::OllamaCompass));
    assert_eq!(inventory.newly_acquired, Some(ToolId::LogicLens));
    inventory.clear_notification();
    assert_eq!(inventory.newly_acquired, None);
    assert!(inventory.has_tool(ToolId::LogicLens));
    inventory.unlock_tool(ToolId::LogicLens);
    assert_eq!(inventory.newly_acquired, None);
    inventory.unlock_tool(ToolId::ThinkingCapPhi);
    assert!(inventory.has_tool(ToolId::ThinkingCapPhi));
    assert_eq!(inventory.newly_acquired, Some(ToolId::ThinkingCapPhi));
    assert_eq!(inventory.tools.len(), 4);
}

#[test]
fn only_owned_tools_can_be_taken_in_hand() {
    let mut inventory = Inventory::new();
    assert!(!inventory.toggle_tool(ToolId::OllamaCompass));
    assert_eq!(inventory.active_tool, None);
    inventory.unlock_tool(ToolId::OllamaCompass);
    inventory.unlock_tool(ToolId::LogicLens);
    assert!(inventory.toggle_tool(ToolId::OllamaCompass));
    assert_eq!(inventory.active_tool, Some(ToolId::OllamaCompass));
    assert!(inventory.toggle_tool(ToolId::LogicLens));
    assert_eq!(inventory.active_tool, Some(ToolId::LogicLens));
    assert!(!inventory.toggle_tool(ToolId::LogicLens));
    assert_eq!(inventory.active_tool, None);
    inventory.active_tool = Some(ToolId::FeedbackMirror);
    assert!(inventory.toggle_tool(ToolId::FeedbackMirror));
    assert_eq!(inventory.active_tool, Some(ToolId::FeedbackMirror));
    assert!(!inventory.toggle_tool(ToolId::ThinkingCapLlama));
    assert_eq!(inventory.active_tool, Some(ToolId::FeedbackMirror));
}

#[test]
fn slots_show_the_name_once_unlocked() {
    assert_eq!(slot_label(ToolId::OllamaCompass, false), "\u{1f9ed} ???");
    assert_eq!(slot_label(ToolId::OllamaCompass, true), "\u{1f9ed} Ollama Compass");
    assert_eq!(slot_label(ToolId::ThinkingCapMistral, true), "\u{1f575}\u{fe0f} The Mistral Fedora (Mistral)");
    assert_eq!(acquisition_title(ToolId::LogicLens), "\u{1f381} TOOL ACQUIRED! \u{1f50d}");
}

#[test]
fn the_feedback_mirror_lists_recent_memories() {
    let mut inventory = Inventory::new();
    let memories = vec![fragment("user", "hello"), fragment("teacher", "welcome")];
    assert_eq!(update_feedback_mirror(&inventory, &memories), None);
    inventory.active_tool = Some(ToolId::LogicLens);
    assert_eq!(update_feedback_mirror(&inventory, &memories), None);
    inventory.active_tool = Some(ToolId::FeedbackMirror);
    assert_eq!(
        update_feedback_mirror(&inventory, &memories),
        Some("\u{1fa9e} FEEDBACK MIRROR (Recent Memories)\n\n\u{2022} [user] hello\n\u{2022} [teacher] welcome".to_string())
    );
    assert_eq!(
        update_feedback_mirror(&inventory, &vec![fragment("s", "")]),
        Some("\u{1fa9e} FEEDBACK MIRROR (Recent Memories)\n\n\u{2022} [s] ".to_string())
    );
    assert_eq!(
        update_feedback_mirror(&inventory, &vec![]),
        Some("\u{1fa9e} FEEDBACK MIRROR (Recent Memories)\n\n(No memories found in sovereign store)".to_string())
    );
}
