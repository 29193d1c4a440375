use sovereign_sandbox::quest_ui::show_victory_screen;
use sovereign_sandbox::quest_ui::update_mission_timer;
use sovereign_sandbox::quest_ui::update_quest_log;
use sovereign_sandbox::quest_ui::update_quest_notification;
use sovereign_sandbox::scoring::PlayerScore;
use sovereign_sandbox::syllabus::GagneEvents;
use sovereign_sandbox::syllabus::Quest;
use sovereign_sandbox::syllabus::Syllabus;
use sovereign_sandbox::syllabus::SyllabusResource;

fn quest(title: &str) -> Quest {
    Quest {
        id: "q".to_string(),
        title: title.to_string(),
        description: String::new(),
        objective: String::new(),
        events: GagneEvents {
            gain_attention: "a".to_string(),
            inform_objectives: "b".to_string(),
            recall_prior_knowledge: "c".to_string(),
            present_content: "d".to_string(),
            provide_guidance: "e".to_string(),
            elicit_performance: "f".to_string(),
            provide_feedback: "g".to_string(),
            assess_performance: "h".to_string(),
            enhance_retention: "i".to_string(),
        },
        phases: None,
    }
}

fn resource() -> SyllabusResource {
    SyllabusResource::new(Syllabus {
        title: "Course".to_string(),
        description: String::new(),
        modules: vec![quest("Sovereign AI")],
    })
}

#[test]
fn the_banner_announces_the_phase() {
    let mut syl = resource();
    assert_eq!(
        update_quest_notification(&syl),
        "\u{2501}\u{2501}  [EXPLORE]  1/11: \u{1f5fa}\u{fe0f} Walk to the Teacher  \u{2501}\u{2501}"
    );
    syl.quest_script.current_phase = 9;
    assert_eq!(
        update_quest_notification(&syl),
        "\u{2501}\u{2501}  [REFLECT]  10/11: \u{1fa9e} Can you explain why local AI matters for student privacy?  \u{2501}\u{2501}"
    );
    syl.quest_script.current_phase = 11;
    assert_eq!(update_quest_notification(&syl), "\u{2501}\u{2501}  QUEST COMPLETE  \u{2501}\u{2501}");
    syl.quest_script.current_phase = usize::MAX;
    assert_eq!(update_quest_notification(&syl), "\u{2501}\u{2501}  QUEST COMPLETE  \u{2501}\u{2501}");
}

#[test]
fn the_quest_log_follows_the_quest() {
    let mut syl = resource();
    syl.quest_script.current_phase = 5;
    let log = update_quest_log(&syl);
    assert_eq!(log.title, Some("\u{1f4dc} Sovereign AI".to_string()));
    assert_eq!(log.step, "[DO] 6/11");
    assert_eq!(log.objective, "GOAL: \u{26a1} Walk to the Terminal and interact with it");
    assert_eq!(log.progress, (5, 11));
    syl.quest_script.current_phase = 11;
    let done = update_quest_log(&syl);
    assert_eq!(done.title, Some("\u{1f4dc} Sovereign AI".to_string()));
    assert_eq!(done.step, "\u{2705} Quest Complete!");
    assert_eq!(done.objective, "");
    assert_eq!(done.progress, (11, 11));
    syl.current_module_index = 1;
    assert_eq!(update_quest_log(&syl).title, None);
}

#[test]
fn the_clock_counts_minutes_and_seconds() {
    let cases = [
        (0, "\u{23f1} 00:00"),
        (5, "\u{23f1} 00:05"),
        (59, "\u{23f1} 00:59"),
        (60, "\u{23f1} 01:00"),
        (65, "\u{23f1} 01:05"),
        (600, "\u{23f1} 10:00"),
        (5999, "\u{23f1} 99:59"),
        (6000, "\u{23f1} 100:00"),
    ];
    for (secs, text) in cases {
        assert_eq!(update_mission_timer(secs), text);
    }
}

#[test]
fn the_victory_screen_waits_for_the_last_quest() {
    let mut syl = resource();
    let score = PlayerScore::default();
    assert!(show_victory_screen(&syl, &score, 10, false).is_none());
    syl.current_module_index = 1;
    assert!(show_victory_screen(&syl, &score, 10, true).is_none());
    assert!(show_victory_screen(&syl, &score, 10, false).is_some());
    syl.current_module_index = 9;
    assert!(show_victory_screen(&syl, &score, 10, false).is_some());
}

#[test]
fn the_victory_screen_sums_the_game_up() {
    let mut syl = resource();
    syl.current_module_index = 1;
    let mut score = PlayerScore::default();
    score.xp = 1234;
    score.level = 5;
    score.title = "Grandmaster".to_string();
    score.fragments_collected = 7;
    score.rooms_discovered = vec!["Academy Hall".to_string(), "Server Core".to_string()];
    score.puzzles_solved = 1;
    let lines: Vec<(String, String)> = show_victory_screen(&syl, &score, 754, false)
        .unwrap()
        .iter()
        .map(|l| (l.label.to_string(), l.value.clone()))
        .collect();
    let want: Vec<(String, String)> = [
        ("\u{23f1}  Time", "12:34"),
        ("\u{26a1}  XP Earned", "1234"),
        ("\u{1f4dc}  Fragments", "7/8"),
        ("\u{1f5fa}\u{fe0f}  Rooms", "2/4"),
        ("\u{1f9e9}  Puzzles", "1"),
        ("\u{2b50}  Level", "Lv.5 \u{2014} Grandmaster"),
    ]
    .iter()
    .map(|(l, v)| (l.to_string(), v.to_string()))
    .collect();
    assert_eq!(lines, want);
}
