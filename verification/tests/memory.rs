use sovereign_sandbox::ai::memory::count_sessions;
use sovereign_sandbox::ai::memory::hash_embed;
use sovereign_sandbox::ai::memory::marks_for_hash;
use sovereign_sandbox::ai::memory::memory_of;
use sovereign_sandbox::ai::memory::new_memory;
use sovereign_sandbox::ai::memory::IndexCandidate;
use sovereign_sandbox::ai::memory::Mark;
use sovereign_sandbox::ai::memory::MemoryStore;
use sovereign_sandbox::ai::memory::StoredMemory;
use sovereign_sandbox::ai::memory::Timestamp;
use std::collections::hash_map::DefaultHasher;
use std::hash::Hash;
use std::hash::Hasher;

fn reference_marks(text: &str) -> Vec<Mark> {
    let mut out = Vec::new();
    for (i, word) in text.split_whitespace().enumerate() {
        let mut hasher = DefaultHasher::new();
        word.to_lowercase().hash(&mut hasher);
        let hash = hasher.finish();
        for j in 0..8 {
            let index = ((hash >> (j * 8)) as usize).wrapping_add(i) % 128;
            let weight = ((hash >> (j * 4)) & 0xff) as u8;
            out.push(Mark { index, weight });
        }
    }
    out
}

fn memory(id: u128, session: Option<u128>) -> StoredMemory {
    memory_of("content", Some("source"), session, id, Timestamp { secs: 5, nanos: 6 })
}

#[test]
fn a_memory_without_a_source_comes_from_the_user() {
    let now = Timestamp { secs: 1_700_000_000, nanos: 123 };
    let m = memory_of("hello", None, Some(9), 42, now);
    assert_eq!(m.id, 42);
    assert_eq!(m.content, "hello");
    assert_eq!(m.source, "user");
    assert_eq!(m.session_id, Some(9));
    assert_eq!(m.created_at, now);
    let named = memory_of("", Some("teacher"), None, 0, now);
    assert_eq!(named.source, "teacher");
    assert_eq!(named.content, "");
    assert_eq!(named.session_id, None);
    assert_eq!(memory_of("x", Some(""), None, 0, now).source, "");
}

#[test]
fn a_new_memory_gets_a_random_identifier_and_the_time() {
    let before = std::time::SystemTime::now()
        .duration_since(std::time::UNIX_EPOCH)
        .unwrap()
        .as_secs() as i64;
    let a = new_memory("first", None, None);
    let b = new_memory("second", Some("teacher"), Some(3));
    let after = std::time::SystemTime::now()
        .duration_since(std::time::UNIX_EPOCH)
        .unwrap()
        .as_secs() as i64;
    assert_ne!(a.id, b.id);
    for m in [&a, &b] {
        assert_eq!((m.id >> 76) & 0xf, 4);
        assert_eq!((m.id >> 62) & 0x3, 2);
        assert!(before <= m.created_at.secs && m.created_at.secs <= after);
        assert!(m.created_at.nanos < 1_000_000_000);
    }
    assert_eq!(a.source, "user");
    assert_eq!(b.source, "teacher");
    assert_eq!(b.content, "second");
    assert_eq!(b.session_id, Some(3));
}

#[test]
fn the_book_gives_out_numbers_in_order() {
    let mut store = MemoryStore::new();
    assert_eq!(store.resolve(0), None);
    assert_eq!(store.store(100), 0);
    assert_eq!(store.store(200), 1);
    assert_eq!(store.store(100), 2);
    assert_eq!(store.resolve(0), Some(100));
    assert_eq!(store.resolve(1), Some(200));
    assert_eq!(store.resolve(2), Some(100));
    assert_eq!(store.resolve(3), None);
    assert_eq!(store.resolve(usize::MAX), None);
}

#[test]
fn rebuilding_passes_over_memories_without_an_embedding() {
    let mut store = MemoryStore::new();
    assert_eq!(store.store(1), 0);
    let candidates = vec![
        IndexCandidate { id: 10, embedding_len: 128 },
        IndexCandidate { id: 11, embedding_len: 0 },
        IndexCandidate { id: 12, embedding_len: 1 },
        IndexCandidate { id: 13, embedding_len: 0 },
    ];
    let entries: Vec<(usize, usize)> =
        store.rebuild_index(&candidates).iter().map(|e| (e.number, e.position)).collect();
    assert_eq!(entries, vec![(1, 0), (2, 2)]);
    assert_eq!(store.resolve(1), Some(10));
    assert_eq!(store.resolve(2), Some(12));
    assert_eq!(store.resolve(3), None);
    assert_eq!(store.store(99), 3);
    assert!(store.rebuild_index(&vec![]).is_empty());
    assert_eq!(store.store(98), 4);
}

#[test]
fn a_recall_asks_for_at_most_a_hundred_neighbours() {
    assert_eq!(MemoryStore::recall(0, None).search_width(), 0);
    assert_eq!(MemoryStore::recall(5, None).search_width(), 5);
    assert_eq!(MemoryStore::recall(100, None).search_width(), 100);
    assert_eq!(MemoryStore::recall(101, None).search_width(), 100);
    assert_eq!(MemoryStore::recall(usize::MAX, Some(1)).search_width(), 100);
}

#[test]
fn a_recall_hands_out_up_to_its_limit() {
    let mut recall = MemoryStore::recall(2, None);
    assert!(recall.wants_more());
    let first = recall.offer(&memory(1, None)).unwrap();
    assert_eq!(first.id, 1);
    assert_eq!(first.content, "content");
    assert_eq!(first.source, "source");
    assert_eq!(first.timestamp, Timestamp { secs: 5, nanos: 6 });
    assert!(recall.wants_more());
    assert!(recall.offer(&memory(2, Some(8))).is_some());
    assert!(!recall.wants_more());
    assert!(recall.offer(&memory(3, None)).is_none());
    assert_eq!(recall.taken, 2);
    let mut none = MemoryStore::recall(0, None);
    assert!(!none.wants_more());
    assert!(none.offer(&memory(1, None)).is_none());
}

#[test]
fn a_recall_with_a_filter_lets_one_session_through() {
    let mut recall = MemoryStore::recall(10, Some(7));
    assert!(recall.offer(&memory(1, None)).is_none());
    assert!(recall.offer(&memory(2, Some(8))).is_none());
    assert_eq!(recall.taken, 0);
    assert_eq!(recall.offer(&memory(3, Some(7))).map(|f| f.id), Some(3));
    assert_eq!(recall.taken, 1);
    assert!(recall.offer(&memory(4, Some(0))).is_none());
    assert_eq!(recall.offer(&memory(5, Some(7))).map(|f| f.id), Some(5));
    assert_eq!(recall.taken, 2);
}

#[test]
fn sessions_are_counted_once_each() {
    assert_eq!(count_sessions(&vec![]), 0);
    assert_eq!(count_sessions(&vec![None, None]), 0);
    assert_eq!(count_sessions(&vec![Some(1)]), 1);
    assert_eq!(count_sessions(&vec![Some(1), None, Some(1), Some(2), Some(1), Some(u128::MAX)]), 3);
    let stats = MemoryStore::stats(12, 4096, &vec![Some(5), Some(6), Some(5)]);
    assert_eq!(stats.total_memories, 12);
    assert_eq!(stats.storage_bytes, 4096);
    assert_eq!(stats.sessions, 2);
}

#[test]
fn a_text_leaves_eight_marks_per_word() {
    assert!(hash_embed("").is_empty());
    assert!(hash_embed("  \n\t ").is_empty());
    assert_eq!(hash_embed("one").len(), 8);
    assert_eq!(hash_embed(" one  two\nthree ").len(), 24);
    for m in hash_embed("the quick brown fox jumps over the lazy dog") {
        assert!(m.index < 128);
    }
}

#[test]
fn the_marks_are_those_of_the_hash_of_each_word() {
    let texts = [
        "hello",
        "Hello World",
        "  The  SOVEREIGN\tsandbox  ",
        "\u{c9}cole \u{e9}cole Stra\u{df}e",
        "a b c d e f g h i j k l m n o p q r s t u v w x y z",
        "\u{1f9d9} wizard",
    ];
    for text in texts {
        assert_eq!(hash_embed(text), reference_marks(text), "{:?}", text);
    }
}

#[test]
fn marks_do_not_depend_on_case_but_on_position() {
    assert_eq!(hash_embed("Local AI"), hash_embed("local ai"));
    assert_eq!(hash_embed("\u{c9}COLE"), hash_embed("\u{e9}cole"));
    assert_ne!(hash_embed("local ai"), hash_embed("ai local"));
    let once = hash_embed("echo");
    let twice = hash_embed("echo echo");
    assert_eq!(&twice[..8], &once[..]);
    for j in 0..8 {
        assert_eq!(twice[8 + j].weight, once[j].weight);
        assert_eq!(twice[8 + j].index, (once[j].index + 1) % 128);
    }
}

#[test]
fn the_marks_of_a_hash_are_its_bytes() {
    let pairs = |marks: Vec<Mark>| -> Vec<(usize, u8)> {
        marks.iter().map(|m| (m.index, m.weight)).collect()
    };
    assert_eq!(
        pairs(marks_for_hash(0x0123456789abcdef, 0)),
        vec![
            (111, 0xef),
            (77, 0xde),
            (43, 0xcd),
            (9, 0xbc),
            (103, 0xab),
            (69, 0x9a),
            (35, 0x89),
            (1, 0x78)
        ]
    );
    assert_eq!(
        pairs(marks_for_hash(0x0123456789abcdef, 3)),
        vec![
            (114, 0xef),
            (80, 0xde),
            (46, 0xcd),
            (12, 0xbc),
            (106, 0xab),
            (72, 0x9a),
            (38, 0x89),
            (4, 0x78)
        ]
    );
    assert_eq!(
        pairs(marks_for_hash(u64::MAX, 5)),
        vec![
            (4, 0xff),
            (4, 0xff),
            (4, 0xff),
            (4, 0xff),
            (4, 0xff),
            (4, 0xff),
            (4, 0xff),
            (4, 0xff)
        ]
    );
    assert_eq!(pairs(marks_for_hash(0, usize::MAX)), vec![(127, 0); 8]);
}
