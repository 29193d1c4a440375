use sovereign_sandbox::inventory::ToolId;
use sovereign_sandbox::syllabus::gagne_step_name;
use sovereign_sandbox::syllabus::GagneEvents;
use sovereign_sandbox::syllabus::PhaseConfig;
use sovereign_sandbox::syllabus::Quest;
use sovereign_sandbox::syllabus::QuestPhase;
use sovereign_sandbox::syllabus::QuestScript;
use sovereign_sandbox::syllabus::Syllabus;
use sovereign_sandbox::syllabus::SyllabusResource;

fn events() -> GagneEvents {
    GagneEvents {
        gain_attention: "attention".to_string(),
        inform_objectives: "objectives".to_string(),
        recall_prior_knowledge: "recall".to_string(),
        present_content: "content".to_string(),
        provide_guidance: "guidance".to_string(),
        elicit_performance: "performance".to_string(),
        provide_feedback: "feedback".to_string(),
        assess_performance: "assessment".to_string(),
        enhance_retention: "retention".to_string(),
    }
}

fn quest(title: &str, phases: Option<Vec<PhaseConfig>>) -> Quest {
    Quest {
        id: format!("id-{}", title),
        title: title.to_string(),
        description: "a quest".to_string(),
        objective: "learn".to_string(),
        events: events(),
        phases,
    }
}

fn config(kind: &str) -> PhaseConfig {
    PhaseConfig {
        phase_type: kind.to_string(),
        target: None,
        gagne_step: None,
        description: None,
        question: None,
        rewards: None,
    }
}

fn syllabus(modules: Vec<Quest>) -> Syllabus {
    Syllabus { title: "Course".to_string(), description: "all of it".to_string(), modules }
}

#[test]
fn the_nine_events_have_names() {
    let names = [
        "Gain Attention",
        "Inform Objectives",
        "Recall Prior Knowledge",
        "Present Content",
        "Provide Guidance",
        "Elicit Performance",
        "Provide Feedback",
        "Assess Performance",
        "Enhance Retention",
    ];
    for (step, name) in names.iter().enumerate() {
        assert_eq!(gagne_step_name(step), *name);
    }
    assert_eq!(gagne_step_name(9), "Unknown");
    assert_eq!(gagne_step_name(usize::MAX), "Unknown");
}

#[test]
fn the_nine_events_have_texts() {
    let e = events();
    let texts = [
        "attention",
        "objectives",
        "recall",
        "content",
        "guidance",
        "performance",
        "feedback",
        "assessment",
        "retention",
    ];
    for (step, text) in texts.iter().enumerate() {
        assert_eq!(e.get_step_text(step), Some(*text));
    }
    assert_eq!(e.get_step_text(9), None);
}

#[test]
fn phases_have_labels_and_kinds() {
    let cases = [
        (
            QuestPhase::Exploration { target: "Archive".to_string(), rewards: None },
            "\u{1f5fa}\u{fe0f} Walk to the Archive",
            "EXPLORE",
        ),
        (QuestPhase::Dialogue { gagne_step: 3, rewards: None }, "\u{1f4ac} Present Content", "LISTEN"),
        (QuestPhase::Dialogue { gagne_step: 12, rewards: None }, "\u{1f4ac} Unknown", "LISTEN"),
        (
            QuestPhase::Task { description: "Boot it".to_string(), completed: false, rewards: None },
            "\u{26a1} Boot it",
            "DO",
        ),
        (
            QuestPhase::Reflection { question: "Why?".to_string(), answered: true, rewards: None },
            "\u{1fa9e} Why?",
            "REFLECT",
        ),
        (
            QuestPhase::Quiz { question: "Which?".to_string(), options: vec![], rewards: None },
            "\u{2753} Which?",
            "QUIZ",
        ),
        (QuestPhase::Complete, "\u{1f3c6} Complete!", "DONE"),
    ];
    for (phase, label, kind) in cases {
        assert_eq!(phase.display_label(), label);
        assert_eq!(phase.phase_type_name(), kind);
    }
}

#[test]
fn phases_hand_out_copies_of_their_rewards() {
    let tools = vec![ToolId::LogicLens, ToolId::OllamaCompass];
    let phase = QuestPhase::Task {
        description: "x".to_string(),
        completed: false,
        rewards: Some(tools.clone()),
    };
    assert_eq!(phase.rewards(), Some(tools));
    assert_eq!(QuestPhase::Dialogue { gagne_step: 0, rewards: Some(vec![]) }.rewards(), Some(vec![]));
    assert_eq!(QuestPhase::Dialogue { gagne_step: 0, rewards: None }.rewards(), None);
    assert_eq!(QuestPhase::Complete.rewards(), None);
}

#[test]
fn a_quest_without_phases_runs_the_standard_script() {
    let script = QuestScript::from_quest(&quest("Standard", None));
    assert_eq!(script.current_phase, 0);
    let expected = vec![
        QuestPhase::Exploration { target: "Teacher".to_string(), rewards: None },
        QuestPhase::Dialogue { gagne_step: 0, rewards: None },
        QuestPhase::Dialogue { gagne_step: 1, rewards: None },
        QuestPhase::Dialogue { gagne_step: 2, rewards: None },
        QuestPhase::Dialogue { gagne_step: 3, rewards: None },
        QuestPhase::Task {
            description: "Walk to the Terminal and interact with it".to_string(),
            completed: false,
            rewards: None,
        },
        QuestPhase::Dialogue { gagne_step: 4, rewards: None },
        QuestPhase::Dialogue { gagne_step: 5, rewards: None },
        QuestPhase::Dialogue { gagne_step: 6, rewards: None },
        QuestPhase::Reflection {
            question: "Can you explain why local AI matters for student privacy?".to_string(),
            answered: false,
            rewards: None,
        },
        QuestPhase::Dialogue { gagne_step: 8, rewards: None },
    ];
    assert_eq!(script.phases, expected);
    assert_eq!(script.total_phases(), 11);
}

#[test]
fn configured_phases_take_their_defaults() {
    let configs = vec![
        config("exploration"),
        config("dialogue"),
        config("task"),
        config("reflection"),
        config("quiz"),
        config(""),
        config("Exploration"),
    ];
    let script = QuestScript::from_quest(&quest("Defaults", Some(configs)));
    let expected = vec![
        QuestPhase::Exploration { target: "Teacher".to_string(), rewards: None },
        QuestPhase::Dialogue { gagne_step: 0, rewards: None },
        QuestPhase::Task {
            description: "Complete the task".to_string(),
            completed: false,
            rewards: None,
        },
        QuestPhase::Reflection {
            question: "What did you learn?".to_string(),
            answered: false,
            rewards: None,
        },
        QuestPhase::Dialogue { gagne_step: 0, rewards: None },
        QuestPhase::Dialogue { gagne_step: 0, rewards: None },
        QuestPhase::Dialogue { gagne_step: 0, rewards: None },
    ];
    assert_eq!(script.phases, expected);
}

#[test]
fn configured_phases_keep_their_details() {
    let configs = vec![
        PhaseConfig {
            phase_type: "exploration".to_string(),
            target: Some("Archive".to_string()),
            gagne_step: Some(7),
            description: Some("ignored".to_string()),
            question: None,
            rewards: Some(vec!["OllamaCompass".to_string()]),
        },
        PhaseConfig {
            phase_type: "dialogue".to_string(),
            target: None,
            gagne_step: Some(5),
            description: None,
            question: None,
            rewards: Some(vec![
                "Nonsense".to_string(),
                "FeedbackMirror".to_string(),
                "logiclens".to_string(),
                "LogicLens".to_string(),
                "ThinkingCapPhi".to_string(),
                "FeedbackMirror".to_string(),
            ]),
        },
        PhaseConfig {
            phase_type: "task".to_string(),
            target: None,
            gagne_step: None,
            description: Some("Visit the Server".to_string()),
            question: None,
            rewards: Some(vec![]),
        },
        PhaseConfig {
            phase_type: "reflection".to_string(),
            target: None,
            gagne_step: None,
            description: None,
            question: Some("And now?".to_string()),
            rewards: Some(vec!["unknown".to_string()]),
        },
        PhaseConfig {
            phase_type: "mystery".to_string(),
            target: Some("x".to_string()),
            gagne_step: Some(4),
            description: None,
            question: None,
            rewards: Some(vec!["LogicLens".to_string()]),
        },
    ];
    let script = QuestScript::from_quest(&quest("Details", Some(configs)));
    let expected = vec![
        QuestPhase::Exploration {
            target: "Archive".to_string(),
            rewards: Some(vec![ToolId::OllamaCompass]),
        },
        QuestPhase::Dialogue {
            gagne_step: 5,
            rewards: Some(vec![ToolId::FeedbackMirror, ToolId::LogicLens, ToolId::FeedbackMirror]),
        },
        QuestPhase::Task {
            description: "Visit the Server".to_string(),
            completed: false,
            rewards: Some(vec![]),
        },
        QuestPhase::Reflection {
            question: "And now?".to_string(),
            answered: false,
            rewards: Some(vec![]),
        },
        QuestPhase::Dialogue { gagne_step: 0, rewards: None },
    ];
    assert_eq!(script.phases, expected);
}

#[test]
fn a_script_advances_to_its_end_and_stays_there() {
    let mut script = QuestScript::from_quest(&quest(
        "Short",
        Some(vec![config("exploration"), config("task")]),
    ));
    assert!(!script.is_complete());
    assert_eq!(script.progress_percent(), (0, 2));
    assert!(matches!(script.current(), QuestPhase::Exploration { .. }));
    assert!(matches!(script.advance(), QuestPhase::Task { .. }));
    assert_eq!(script.current_phase, 1);
    assert_eq!(script.progress_percent(), (1, 2));
    assert!(!script.is_complete());
    assert_eq!(*script.advance(), QuestPhase::Complete);
    assert_eq!(script.current_phase, 2);
    assert!(script.is_complete());
    assert_eq!(script.progress_percent(), (2, 2));
    assert_eq!(*script.advance(), QuestPhase::Complete);
    assert_eq!(script.current_phase, 2);
    assert_eq!(*script.current(), QuestPhase::Complete);
}

#[test]
fn an_empty_script_is_complete() {
    let mut script = QuestScript::from_quest(&quest("Empty", Some(vec![])));
    assert!(script.is_complete());
    assert_eq!(script.total_phases(), 0);
    assert_eq!(script.progress_percent(), (1, 1));
    assert_eq!(*script.current(), QuestPhase::Complete);
    assert_eq!(*script.advance(), QuestPhase::Complete);
    assert_eq!(script.current_phase, 0);
}

#[test]
fn a_script_out_of_range_counts_as_complete() {
    let script = QuestScript {
        phases: vec![QuestPhase::Dialogue { gagne_step: 1, rewards: None }],
        current_phase: 7,
    };
    assert!(script.is_complete());
    assert_eq!(*script.current(), QuestPhase::Complete);
    assert_eq!(script.progress_percent(), (7, 1));
}

#[test]
fn a_new_resource_starts_the_first_quest() {
    let resource = SyllabusResource::new(syllabus(vec![
        quest("First", Some(vec![config("task")])),
        quest("Second", None),
    ]));
    assert_eq!(resource.current_module_index, 0);
    assert_eq!(resource.current_event_step, 0);
    assert_eq!(resource.quest_script.total_phases(), 1);
    assert_eq!(resource.current_quest().map(|q| q.title.clone()), Some("First".to_string()));
    assert!(matches!(resource.current_phase(), QuestPhase::Task { .. }));
}

#[test]
fn a_resource_without_quests_has_an_empty_script() {
    let mut resource = SyllabusResource::new(syllabus(vec![]));
    assert_eq!(resource.quest_script.total_phases(), 0);
    assert!(resource.current_quest().is_none());
    assert_eq!(resource.current_event_text(), None);
    assert_eq!(*resource.current_phase(), QuestPhase::Complete);
    assert_eq!(resource.advance_phase(), None);
    assert_eq!(resource.current_module_index, 1);
    assert_eq!(resource.advance_phase(), None);
    assert_eq!(resource.current_module_index, 2);
}

#[test]
fn advancing_walks_through_quests_and_hands_out_rewards() {
    let first = vec![
        PhaseConfig {
            phase_type: "exploration".to_string(),
            target: None,
            gagne_step: None,
            description: None,
            question: None,
            rewards: Some(vec!["OllamaCompass".to_string()]),
        },
        PhaseConfig {
            phase_type: "dialogue".to_string(),
            target: None,
            gagne_step: Some(6),
            description: None,
            question: None,
            rewards: None,
        },
    ];
    let mut resource =
        SyllabusResource::new(syllabus(vec![quest("First", Some(first)), quest("Second", None)]));

    assert_eq!(resource.advance_phase(), Some(vec![ToolId::OllamaCompass]));
    assert_eq!(resource.current_module_index, 0);
    assert_eq!(resource.quest_script.current_phase, 1);
    assert_eq!(resource.current_event_step, 6);

    assert_eq!(resource.advance_phase(), None);
    assert_eq!(resource.current_module_index, 1);
    assert_eq!(resource.current_event_step, 0);
    assert_eq!(resource.quest_script.current_phase, 0);
    assert_eq!(resource.quest_script.total_phases(), 11);
    assert_eq!(resource.current_quest().map(|q| q.title.clone()), Some("Second".to_string()));

    for _ in 0..10 {
        resource.advance_step();
        assert_eq!(resource.current_module_index, 1);
    }
    assert_eq!(resource.quest_script.current_phase, 10);
    assert_eq!(resource.current_event_step, 8);

    resource.advance_step();
    assert_eq!(resource.current_module_index, 2);
    assert_eq!(resource.current_event_step, 0);
    assert!(resource.current_quest().is_none());
    assert!(resource.quest_script.is_complete());
    assert_eq!(resource.quest_script.total_phases(), 11);

    resource.advance_step();
    assert_eq!(resource.current_module_index, 3);
}

#[test]
fn the_event_step_follows_the_dialogues() {
    let mut resource = SyllabusResource::new(syllabus(vec![quest("Only", None)]));
    let steps = [0, 1, 2, 3, 3, 4, 5, 6, 6, 8];
    for expected in steps {
        resource.advance_step();
        assert_eq!(resource.current_event_step, expected);
    }
}

#[test]
fn the_event_text_follows_the_phase() {
    let mut resource = SyllabusResource::new(syllabus(vec![quest("Only", None)]));
    let texts = [
        "Walk to the Teacher",
        "attention",
        "objectives",
        "recall",
        "content",
        "Walk to the Terminal and interact with it",
        "guidance",
        "performance",
        "feedback",
        "Can you explain why local AI matters for student privacy?",
        "retention",
    ];
    for text in texts {
        assert_eq!(resource.current_event_text(), Some(text.to_string()));
        resource.advance_step();
    }
    assert_eq!(resource.current_event_text(), None);
}

#[test]
fn the_event_text_of_an_unknown_event_is_missing() {
    let mut resource = SyllabusResource::new(syllabus(vec![quest("Only", None)]));
    resource.quest_script = QuestScript {
        phases: vec![
            QuestPhase::Dialogue { gagne_step: 9, rewards: None },
            QuestPhase::Quiz {
                question: "Which one?".to_string(),
                options: vec!["a".to_string()],
                rewards: None,
            },
        ],
        current_phase: 0,
    };
    assert_eq!(resource.current_event_text(), None);
    resource.quest_script.current_phase = 1;
    assert_eq!(resource.current_event_text(), Some("Which one?".to_string()));
    resource.quest_script.current_phase = 2;
    assert_eq!(resource.current_event_text(), Some("Quest Complete!".to_string()));
}

#[test]
fn completing_marks_tasks_and_reflections_only() {
    let mut resource = SyllabusResource::new(syllabus(vec![quest("Only", None)]));
    resource.complete_current_task();
    assert_eq!(
        *resource.current_phase(),
        QuestPhase::Exploration { target: "Teacher".to_string(), rewards: None }
    );
    resource.quest_script.current_phase = 5;
    resource.complete_current_task();
    assert_eq!(
        *resource.current_phase(),
        QuestPhase::Task {
            description: "Walk to the Terminal and interact with it".to_string(),
            completed: true,
            rewards: None,
        }
    );
    resource.complete_current_task();
    assert!(matches!(resource.current_phase(), QuestPhase::Task { completed: true, .. }));
    resource.quest_script.current_phase = 9;
    resource.complete_current_task();
    assert!(matches!(resource.current_phase(), QuestPhase::Reflection { answered: true, .. }));
    resource.quest_script.current_phase = 11;
    resource.complete_current_task();
    assert_eq!(resource.quest_script.total_phases(), 11);
    assert!(matches!(resource.quest_script.phases[6], QuestPhase::Dialogue { gagne_step: 4, .. }));
}

#[test]
fn resetting_goes_back_to_the_first_quest() {
    let mut resource = SyllabusResource::new(syllabus(vec![
        quest("First", Some(vec![config("task")])),
        quest("Second", None),
    ]));
    resource.advance_step();
    resource.advance_step();
    assert_eq!(resource.current_module_index, 1);
    assert_eq!(resource.quest_script.current_phase, 1);
    resource.reset_progress();
    assert_eq!(resource.current_module_index, 0);
    assert_eq!(resource.current_event_step, 0);
    assert_eq!(resource.quest_script.current_phase, 0);
    assert_eq!(resource.quest_script.total_phases(), 1);
}
