use sovereign_sandbox::ai::candle_integration::Generation;
use sovereign_sandbox::ai::hearing::check_filter_bank;
use sovereign_sandbox::ai::hearing::filter_count;
use sovereign_sandbox::ai::hearing::Transcript;

#[test]
fn the_model_sees_the_last_tokens_only() {
    let short = Generation::new(vec![1, 2, 3], 10);
    let w = short.window().unwrap();
    assert_eq!((w.start_pos, w.len), (0, 3));
    let exact = Generation::new(vec![0; 4096], 10);
    let w = exact.window().unwrap();
    assert_eq!((w.start_pos, w.len), (0, 4096));
    let long = Generation::new(vec![0; 5000], 10);
    let w = long.window().unwrap();
    assert_eq!((w.start_pos, w.len), (904, 4096));
    let empty = Generation::new(vec![], 1);
    let w = empty.window().unwrap();
    assert_eq!((w.start_pos, w.len), (0, 0));
    assert!(Generation::new(vec![1], 0).window().is_none());
}

#[test]
fn a_generation_ends_with_the_end_token() {
    let mut g = Generation::new(vec![5, 6], 10);
    g.accept(7, Some("Hel"), Some(99));
    g.accept(8, None, Some(99));
    g.accept(9, Some("lo"), Some(99));
    assert_eq!(g.tokens, vec![5, 6, 7, 8, 9]);
    assert_eq!(g.generated_text, "Hello");
    assert_eq!(g.steps, 3);
    assert!(g.window().is_some());
    g.accept(99, Some("<|end|>"), Some(99));
    assert!(g.ended);
    assert!(g.window().is_none());
    g.accept(1, Some("more"), Some(99));
    assert_eq!(g.tokens, vec![5, 6, 7, 8, 9, 99]);
    assert_eq!(g.steps, 4);
    assert_eq!(g.generate(), "Hello<|end|>");
}

#[test]
fn a_generation_ends_when_its_tokens_are_spent() {
    let mut g = Generation::new(vec![], 2);
    g.accept(1, Some("a"), None);
    assert!(g.window().is_some());
    g.accept(2, Some("b"), None);
    assert!(g.window().is_none());
    assert!(!g.ended);
    g.accept(3, Some("c"), None);
    assert_eq!(g.generate(), "ab");
}

#[test]
fn an_unknown_end_mark_falls_back_to_the_default_token() {
    let mut g = Generation::new(vec![], 5);
    g.accept(32000, None, None);
    assert!(g.ended);
    let mut h = Generation::new(vec![], 5);
    h.accept(32000, None, Some(7));
    assert!(!h.ended);
    h.accept(7, None, Some(7));
    assert!(h.ended);
}

#[test]
fn the_filter_bank_has_to_have_the_right_size() {
    assert_eq!(filter_count(0), 0);
    assert_eq!(filter_count(3), 0);
    assert_eq!(filter_count(4), 1);
    assert_eq!(filter_count(64323), 16080);
    assert_eq!(check_filter_bank(16080), Ok(()));
    assert_eq!(
        check_filter_bank(16079),
        Err("Mel filters file size incorrect. Expected 16080, got 16079".to_string())
    );
    assert_eq!(
        check_filter_bank(0),
        Err("Mel filters file size incorrect. Expected 16080, got 0".to_string())
    );
}

#[test]
fn a_transcript_starts_with_three_tokens_and_ends_after_a_hundred() {
    let mut t = Transcript::new(50258, 50259, 50359);
    assert_eq!(t.tokens, vec![50258, 50259, 50359]);
    assert!(t.wants_more());
    for i in 0..100 {
        assert!(t.wants_more());
        t.listen(i, "x", Some(50257));
    }
    assert!(!t.wants_more());
    assert!(!t.ended);
    assert_eq!(t.text, "x".repeat(100));
    t.listen(1, "y", Some(50257));
    assert_eq!(t.tokens.len(), 103);
    assert_eq!(t.text.len(), 100);
}

#[test]
fn a_transcript_ends_with_the_end_of_text() {
    let mut t = Transcript::new(1, 2, 3);
    t.listen(10, " hello", None);
    t.listen(50257, "", None);
    assert!(t.ended);
    assert!(!t.wants_more());
    t.listen(11, " more", None);
    assert_eq!(t.text, " hello");
    assert_eq!(t.tokens, vec![1, 2, 3, 10, 50257]);
    let mut u = Transcript::new(1, 2, 3);
    u.listen(50257, "a", Some(9));
    assert!(!u.ended);
    u.listen(9, "b", Some(9));
    assert!(u.ended);
    assert_eq!(u.text, "ab");
}
