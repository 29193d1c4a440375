use sovereign_sandbox::scoring::PlayerScore;
use sovereign_sandbox::scoring::XP_CEILING;

fn score(xp: u32, level: u32) -> PlayerScore {
    let mut s = PlayerScore::default();
    s.xp = xp;
    s.level = level;
    s.title = PlayerScore::title_for_level(level).to_string();
    s
}

#[test]
fn a_new_player_is_a_novice() {
    let s = PlayerScore::default();
    assert_eq!(s.xp, 0);
    assert_eq!(s.level, 1);
    assert_eq!(s.title, "Novice");
    assert!(s.rooms_discovered.is_empty());
    assert_eq!(s.fragments_collected, 0);
    assert_eq!(s.puzzles_solved, 0);
}

#[test]
fn thresholds_rise_with_the_level() {
    let expected = [(0, 1500), (1, 100), (2, 300), (3, 600), (4, 1000), (5, 1500), (6, 1500), (99, 1500)];
    for (level, threshold) in expected {
        assert_eq!(score(0, level).xp_for_next_level(), threshold);
    }
}

#[test]
fn titles_go_with_levels() {
    let expected = [
        (0, "Grandmaster"),
        (1, "Novice"),
        (2, "Student"),
        (3, "Architect"),
        (4, "Sovereign"),
        (5, "Grandmaster"),
        (6, "Grandmaster"),
    ];
    for (level, title) in expected {
        assert_eq!(PlayerScore::title_for_level(level), title);
    }
}

#[test]
fn progress_is_a_fraction_of_the_level() {
    assert_eq!(score(0, 1).level_progress(), (0, 100));
    assert_eq!(score(40, 1).level_progress(), (40, 100));
    assert_eq!(score(100, 1).level_progress(), (100, 100));
    assert_eq!(score(250, 1).level_progress(), (100, 100));
    assert_eq!(score(100, 2).level_progress(), (0, 200));
    assert_eq!(score(50, 2).level_progress(), (0, 200));
    assert_eq!(score(200, 2).level_progress(), (100, 200));
    assert_eq!(score(450, 3).level_progress(), (150, 300));
    assert_eq!(score(999, 4).level_progress(), (399, 400));
    assert_eq!(score(1250, 5).level_progress(), (250, 500));
    assert_eq!(score(1250, 9).level_progress(), (250, 500));
    assert_eq!(score(u32::MAX, 9).level_progress(), (500, 500));
}

#[test]
fn experience_below_the_threshold_keeps_the_level() {
    let mut s = PlayerScore::default();
    let events = s.gain_xp(99);
    assert!(events.is_empty());
    assert_eq!((s.xp, s.level), (99, 1));
    assert_eq!(s.title, "Novice");
}

#[test]
fn reaching_a_threshold_raises_the_level() {
    let mut s = PlayerScore::default();
    let events = s.gain_xp(100);
    assert_eq!(events.len(), 1);
    assert_eq!(events[0].new_level, 2);
    assert_eq!(events[0].title, "Student");
    assert_eq!((s.xp, s.level), (100, 2));
    assert_eq!(s.title, "Student");
}

#[test]
fn one_gain_can_raise_several_levels() {
    let mut s = PlayerScore::default();
    let events = s.gain_xp(650);
    let got: Vec<(u32, String)> = events.iter().map(|e| (e.new_level, e.title.clone())).collect();
    assert_eq!(
        got,
        vec![
            (2, "Student".to_string()),
            (3, "Architect".to_string()),
            (4, "Sovereign".to_string())
        ]
    );
    assert_eq!((s.xp, s.level), (650, 4));
    assert_eq!(s.title, "Sovereign");
    let events = s.gain_xp(XP_CEILING - 651);
    assert_eq!(events.len(), 1);
    assert_eq!(events[0].new_level, 5);
    assert_eq!(events[0].title, "Grandmaster");
    assert_eq!((s.xp, s.level), (1499, 5));
}

#[test]
fn levels_are_never_lost() {
    let mut s = score(10, 4);
    s.title = "Custom".to_string();
    let events = s.gain_xp(5);
    assert!(events.is_empty());
    assert_eq!((s.xp, s.level), (15, 4));
    assert_eq!(s.title, "Custom");
    let mut zero = score(0, 0);
    assert!(zero.gain_xp(1400).is_empty());
    assert_eq!(zero.level, 0);
    let mut high = score(0, 7);
    assert!(high.gain_xp(1499).is_empty());
    assert_eq!(high.level, 7);
}

#[test]
fn every_total_below_the_ceiling_ends_on_the_right_level() {
    for xp in 0..XP_CEILING {
        let mut s = PlayerScore::default();
        let events = s.gain_xp(xp);
        let want = if xp < 100 {
            1
        } else if xp < 300 {
            2
        } else if xp < 600 {
            3
        } else if xp < 1000 {
            4
        } else {
            5
        };
        assert_eq!(s.level, want);
        assert_eq!(events.len() as u32, want - 1);
        assert!(s.xp < s.xp_for_next_level());
    }
}

#[test]
fn fragments_are_counted() {
    let mut s = PlayerScore::default();
    s.collect_fragment();
    s.collect_fragment();
    assert_eq!(s.fragments_collected, 2);
    assert_eq!(s.xp, 0);
}

#[test]
fn the_lines_of_the_experience_bar() {
    assert_eq!(PlayerScore::default().level_line(), "\u{26a1} Lv.1 Novice");
    assert_eq!(PlayerScore::default().xp_line(), "0 / 100 XP");
    assert_eq!(score(450, 3).level_line(), "\u{26a1} Lv.3 Architect");
    assert_eq!(score(450, 3).xp_line(), "450 / 600 XP");
}
