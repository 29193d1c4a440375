use sovereign_sandbox::puzzle::is_terminal_task;
use sovereign_sandbox::puzzle::pick_for_keys;
use sovereign_sandbox::puzzle::solved_reward;
use sovereign_sandbox::puzzle::PuzzleOutcome;
use sovereign_sandbox::puzzle::PuzzleState;
use sovereign_sandbox::syllabus::QuestPhase;

fn task(description: &str) -> QuestPhase {
    QuestPhase::Task { description: description.to_string(), completed: false, rewards: None }
}

fn running() -> PuzzleState {
    let mut puzzle = PuzzleState::default();
    assert!(puzzle.activate_puzzle(&task("Walk to the Terminal and interact with it"), true));
    puzzle
}

#[test]
fn the_puzzle_starts_at_rest() {
    let puzzle = PuzzleState::default();
    assert!(!puzzle.is_active);
    assert!(!puzzle.solved);
    assert_eq!(puzzle.tokens, vec!["llama3", "run", "ollama"]);
    assert_eq!(puzzle.correct_order, vec!["ollama", "run", "llama3"]);
    assert!(puzzle.player_sequence.is_empty());
    assert_eq!(puzzle.display_line(), "> $ _");
    assert_eq!(puzzle.status_line(false), "");
}

#[test]
fn the_highest_key_counts() {
    assert_eq!(pick_for_keys(false, false, false), None);
    assert_eq!(pick_for_keys(true, false, false), Some(0));
    assert_eq!(pick_for_keys(false, true, false), Some(1));
    assert_eq!(pick_for_keys(false, false, true), Some(2));
    assert_eq!(pick_for_keys(true, true, false), Some(1));
    assert_eq!(pick_for_keys(true, true, true), Some(2));
    assert_eq!(pick_for_keys(true, false, true), Some(2));
}

#[test]
fn only_tasks_that_name_the_terminal_count() {
    assert!(is_terminal_task(&task("Walk to the Terminal and interact with it")));
    assert!(is_terminal_task(&task("Terminal")));
    assert!(!is_terminal_task(&task("walk to the terminal")));
    assert!(!is_terminal_task(&task("Visit the Archive")));
    assert!(!is_terminal_task(&QuestPhase::Exploration {
        target: "Terminal".to_string(),
        rewards: None
    }));
    assert!(!is_terminal_task(&QuestPhase::Complete));
}

#[test]
fn the_puzzle_starts_only_at_the_terminal_during_its_task() {
    let terminal = task("Use the Terminal");
    let mut puzzle = PuzzleState::default();
    assert!(!puzzle.activate_puzzle(&terminal, false));
    assert!(!puzzle.activate_puzzle(&task("Use the Archive"), true));
    assert!(!puzzle.is_active);
    puzzle.player_sequence = vec![1];
    assert!(puzzle.activate_puzzle(&terminal, true));
    assert!(puzzle.is_active);
    assert!(puzzle.player_sequence.is_empty());
    puzzle.player_sequence = vec![2];
    assert!(!puzzle.activate_puzzle(&terminal, true));
    assert_eq!(puzzle.player_sequence, vec![2]);
    let mut solved = PuzzleState::default();
    solved.solved = true;
    assert!(!solved.activate_puzzle(&terminal, true));
    assert!(!solved.is_active);
}

#[test]
fn the_right_order_solves_the_puzzle() {
    let mut puzzle = running();
    assert_eq!(puzzle.handle_puzzle_input(Some(2), false), PuzzleOutcome::Picked);
    assert_eq!(puzzle.display_line(), "> $ ollama _");
    assert_eq!(puzzle.handle_puzzle_input(Some(1), false), PuzzleOutcome::Picked);
    assert_eq!(puzzle.display_line(), "> $ ollama run _");
    assert_eq!(puzzle.handle_puzzle_input(Some(0), false), PuzzleOutcome::Solved);
    assert!(puzzle.solved);
    assert!(puzzle.is_active);
    assert_eq!(puzzle.player_sequence, vec![2, 1, 0]);
    assert_eq!(puzzle.display_line(), "> $ ollama run llama3 \u{2713}");
    assert_eq!(puzzle.status_line(false), "\u{2705} COMPILED! +100 XP");
    assert_eq!(puzzle.status_line(true), "\u{26a0} Wrong order! Try again...");
    assert_eq!(puzzle.handle_puzzle_input(Some(0), false), PuzzleOutcome::Ignored);
    assert_eq!(puzzle.handle_puzzle_input(None, true), PuzzleOutcome::Ignored);
    assert!(puzzle.is_active);
}

#[test]
fn a_wrong_order_clears_the_picks() {
    let mut puzzle = running();
    assert_eq!(puzzle.handle_puzzle_input(Some(0), false), PuzzleOutcome::Picked);
    assert_eq!(puzzle.handle_puzzle_input(Some(1), false), PuzzleOutcome::Picked);
    assert_eq!(puzzle.handle_puzzle_input(Some(2), false), PuzzleOutcome::Wrong);
    assert!(!puzzle.solved);
    assert!(puzzle.is_active);
    assert!(puzzle.player_sequence.is_empty());
    assert_eq!(puzzle.display_line(), "> $ _");
    assert_eq!(puzzle.status_line(true), "\u{26a0} Wrong order! Try again...");
    assert_eq!(puzzle.status_line(false), "");
    assert_eq!(puzzle.handle_puzzle_input(Some(2), false), PuzzleOutcome::Picked);
}

#[test]
fn picks_that_do_not_count_are_ignored() {
    let mut puzzle = running();
    assert_eq!(puzzle.handle_puzzle_input(None, false), PuzzleOutcome::Ignored);
    assert_eq!(puzzle.handle_puzzle_input(Some(3), false), PuzzleOutcome::Ignored);
    assert_eq!(puzzle.handle_puzzle_input(Some(usize::MAX), false), PuzzleOutcome::Ignored);
    assert_eq!(puzzle.handle_puzzle_input(Some(2), false), PuzzleOutcome::Picked);
    assert_eq!(puzzle.handle_puzzle_input(Some(2), false), PuzzleOutcome::Ignored);
    assert_eq!(puzzle.player_sequence, vec![2]);
    assert!(puzzle.is_used(2));
    assert!(!puzzle.is_used(0));
    let mut resting = PuzzleState::default();
    assert_eq!(resting.handle_puzzle_input(Some(2), false), PuzzleOutcome::Ignored);
    assert_eq!(resting.handle_puzzle_input(None, true), PuzzleOutcome::Ignored);
    assert!(resting.player_sequence.is_empty());
}

#[test]
fn leaving_comes_before_picking() {
    let mut puzzle = running();
    assert_eq!(puzzle.handle_puzzle_input(Some(2), false), PuzzleOutcome::Picked);
    assert_eq!(puzzle.handle_puzzle_input(Some(1), true), PuzzleOutcome::Cancelled);
    assert!(!puzzle.is_active);
    assert_eq!(puzzle.player_sequence, vec![2]);
    assert!(puzzle.activate_puzzle(&task("Terminal"), true));
    assert!(puzzle.player_sequence.is_empty());
}

#[test]
fn other_words_make_other_puzzles() {
    let mut puzzle = PuzzleState {
        is_active: true,
        tokens: vec!["b", "a"],
        correct_order: vec!["a", "b"],
        player_sequence: vec![],
        solved: false,
    };
    assert_eq!(puzzle.handle_puzzle_input(Some(1), false), PuzzleOutcome::Picked);
    assert_eq!(puzzle.handle_puzzle_input(Some(0), false), PuzzleOutcome::Solved);
    let mut repeated = PuzzleState {
        is_active: true,
        tokens: vec!["a", "a"],
        correct_order: vec!["a", "a"],
        player_sequence: vec![],
        solved: false,
    };
    assert_eq!(repeated.handle_puzzle_input(Some(1), false), PuzzleOutcome::Picked);
    assert_eq!(repeated.handle_puzzle_input(Some(0), false), PuzzleOutcome::Solved);
    let mut short = PuzzleState {
        is_active: true,
        tokens: vec!["a", "b", "c"],
        correct_order: vec!["c"],
        player_sequence: vec![],
        solved: false,
    };
    assert_eq!(short.handle_puzzle_input(Some(0), false), PuzzleOutcome::Wrong);
    assert_eq!(short.handle_puzzle_input(Some(2), false), PuzzleOutcome::Solved);
}

#[test]
fn solving_earns_experience() {
    let event = solved_reward();
    assert_eq!(event.amount, 100);
    assert_eq!(event.reason, "Terminal Puzzle Solved");
}
