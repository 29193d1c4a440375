//! The conversational memory: what is remembered, under which number the
//! nearest-neighbour index knows it, which memories a recall lets through,
//! and where a text leaves its marks in an embedding.
//!
//! The embedding itself is a vector of floating-point numbers, and the
//! memories lie on disk; both live with the caller. What is decided here is
//! everything about them that is a matter of whole numbers and text.

use crate::text::from_chars;
use crate::text::split_whitespace;
use crate::text::to_chars;
use crate::text::words;
use std::collections::hash_map::DefaultHasher;
use std::collections::HashMap;
use std::collections::HashSet;
use std::hash::Hash;
use std::hash::Hasher;
use vstd::prelude::*;
use vstd::std_specs::hash::DefaultHasherAdditionalSpecFns;
use vstd::string::StringExecFns;

verus! {

// ---------------------------------------------------------------------------
// What is remembered
// ---------------------------------------------------------------------------

/// A moment in time: whole seconds since the first of January 1970 in UTC,
/// and the nanoseconds beyond them.
#[derive(Debug, Clone, Copy, PartialEq, Eq, Structural)]
pub struct Timestamp {
    pub secs: i64,
    pub nanos: u32,
}

/// A memory as it is kept. The identifiers are UUIDs, held as the numbers
/// they stand for.
pub struct StoredMemory {
    pub id: u128,
    pub content: String,
    pub source: String,
    pub session_id: Option<u128>,
    pub created_at: Timestamp,
}

/// A memory as it is recalled.
pub struct MemoryFragment {
    pub id: u128,
    pub content: String,
    pub source: String,
    pub timestamp: Timestamp,
}

/// How much is remembered.
pub struct StatsResponse {
    pub total_memories: usize,
    pub storage_bytes: u64,
    pub sessions: usize,
}

/// The source of a memory that names none.
pub const DEFAULT_SOURCE: &'static str = "user";

/// The bits of a UUID that tell its version and its variant.
pub const UUID_KIND_MASK: u128 = 0x0000_0000_0000_f000_c000_0000_0000_0000;

/// What those bits hold in a random UUID: version four, variant one.
pub const UUID_RANDOM_KIND: u128 = 0x0000_0000_0000_4000_8000_0000_0000_0000;

/// `uuid::Uuid::new_v4`, read as a number by `Uuid::as_u128`: a UUID drawn
/// from the operating system's random numbers. All that is known of it is
/// its kind: version four, variant one.
#[verifier::external_body]
fn random_id() -> (id: u128)
    ensures
        id & UUID_KIND_MASK == UUID_RANDOM_KIND,
{
    uuid::Uuid::new_v4().as_u128()
}

/// `chrono::Utc::now`, read by `DateTime::timestamp` and
/// `DateTime::timestamp_subsec_nanos`: the time on the system clock, of
/// which nothing is known beforehand.
#[verifier::external_body]
fn utc_now() -> (now: Timestamp) {
    let now = chrono::Utc::now();
    Timestamp { secs: now.timestamp(), nanos: now.timestamp_subsec_nanos() }
}

/// The memory that is made of `content` under the identifier `id` at the
/// time `now`: a memory without a source comes from the `user`.
pub fn memory_of(
    content: &str,
    source: Option<&str>,
    session_id: Option<u128>,
    id: u128,
    now: Timestamp,
) -> (memory: StoredMemory)
    ensures
        memory.id == id,
        memory.content@ == content@,
        memory.source@ == match source {
            Some(s) => s@,
            None => DEFAULT_SOURCE@,
        },
        memory.session_id == session_id,
        memory.created_at == now,
{
    StoredMemory {
        id,
        content: String::from_str(content),
        source: match source {
            Some(s) => String::from_str(s),
            None => String::from_str(DEFAULT_SOURCE),
        },
        session_id,
        created_at: now,
    }
}

/// A new memory of `content`: it gets a random identifier and the time of
/// its making; a memory without a source comes from the `user`.
pub fn new_memory(content: &str, source: Option<&str>, session_id: Option<u128>) -> (memory:
    StoredMemory)
    ensures
        memory.id & UUID_KIND_MASK == UUID_RANDOM_KIND,
        memory.content@ == content@,
        memory.source@ == match source {
            Some(s) => s@,
            None => DEFAULT_SOURCE@,
        },
        memory.session_id == session_id,
{
    memory_of(content, source, session_id, random_id(), utc_now())
}

// ---------------------------------------------------------------------------
// The numbers of the index
// ---------------------------------------------------------------------------

/// The book that the store keeps on its nearest-neighbour index: under which
/// number the index knows which memory. Numbers are given out in order,
/// from zero, and never taken back.
pub struct MemoryStore {
    id_map: HashMap<usize, u128>,
    next_id: usize,
}

/// A memory as it is read back from disk when the index is rebuilt: its
/// identifier, and how many numbers its embedding holds.
pub struct IndexCandidate {
    pub id: u128,
    pub embedding_len: usize,
}

/// An entry for the nearest-neighbour index: the number under which the
/// memory at `position` of the list read from disk is to be entered.
pub struct IndexEntry {
    pub number: usize,
    pub position: usize,
}

/// The identifiers of the memories of `candidates` that have an embedding,
/// in their order.
pub open spec fn indexable(candidates: Seq<IndexCandidate>) -> Seq<u128>
    decreases candidates.len(),
{
    if candidates.len() == 0 {
        seq![]
    } else if candidates.last().embedding_len > 0 {
        indexable(candidates.drop_last()).push(candidates.last().id)
    } else {
        indexable(candidates.drop_last())
    }
}

/// The book after the memories `ids` are entered in order, the first under
/// the number `next`.
pub open spec fn entered(book: Map<usize, u128>, next: int, ids: Seq<u128>) -> Map<usize, u128>
    decreases ids.len(),
{
    if ids.len() == 0 {
        book
    } else {
        entered(book, next, ids.drop_last()).insert(
            (next + ids.len() - 1) as usize,
            ids.last(),
        )
    }
}

/// Entering memories fills the numbers from `next` on, one for each memory
/// in order, and leaves every other number as it was.
pub proof fn lemma_entered(book: Map<usize, u128>, next: int, ids: Seq<u128>)
    requires
        0 <= next,
        next + ids.len() <= usize::MAX,
    ensures
        forall|n: usize|
            #![trigger entered(book, next, ids).contains_key(n)]
            #![trigger entered(book, next, ids)[n]]
            if next <= n < next + ids.len() {
                entered(book, next, ids).contains_key(n) && entered(book, next, ids)[n] == ids[n
                    - next]
            } else {
                (entered(book, next, ids).contains_key(n) <==> book.contains_key(n)) && entered(
                    book,
                    next,
                    ids,
                )[n] == book[n]
            },
    decreases ids.len(),
{
    if ids.len() > 0 {
        let init = ids.drop_last();
        lemma_entered(book, next, init);
        let before = entered(book, next, init);
        let last = (next + ids.len() - 1) as usize;
        assert(entered(book, next, ids) == before.insert(last, ids.last()));
        assert forall|n: usize|
            #![trigger entered(book, next, ids).contains_key(n)]
            #![trigger entered(book, next, ids)[n]]
            if next <= n < next + ids.len() {
                entered(book, next, ids).contains_key(n) && entered(book, next, ids)[n] == ids[n
                    - next]
            } else {
                (entered(book, next, ids).contains_key(n) <==> book.contains_key(n)) && entered(
                    book,
                    next,
                    ids,
                )[n] == book[n]
            } by {
            if n == last {
            } else {
                assert(before.contains_key(n) <==> entered(book, next, ids).contains_key(n));
                assert(before[n] == entered(book, next, ids)[n]);
                if next <= n < next + init.len() {
                    assert(init[n - next] == ids[n - next]);
                }
            }
        }
    }
}

impl MemoryStore {
    /// Under which number the index knows which memory.
    pub closed spec fn book(&self) -> Map<usize, u128> {
        self.id_map@
    }

    /// The number that the next memory gets.
    pub closed spec fn next_number(&self) -> usize {
        self.next_id
    }

    /// The numbers in the book are exactly those given out so far.
    pub open spec fn wf(&self) -> bool {
        forall|n: usize| self.book().contains_key(n) <==> n < self.next_number()
    }

    /// The number that the next memory gets.
    pub fn count(&self) -> (n: usize)
        ensures
            n == self.next_number(),
    {
        self.next_id
    }

    /// An empty book.
    pub fn new() -> (store: Self)
        ensures
            store.wf(),
            store.book() == Map::<usize, u128>::empty(),
            store.next_number() == 0,
    {
        MemoryStore { id_map: HashMap::new(), next_id: 0 }
    }

    /// Stores the memory `id` in the book under the next number, and hands
    /// the number out for the index.
    pub fn store(&mut self, id: u128) -> (number: usize)
        requires
            old(self).wf(),
            old(self).next_number() < usize::MAX,
        ensures
            final(self).wf(),
            number == old(self).next_number(),
            final(self).next_number() == number + 1,
            final(self).book() == old(self).book().insert(number, id),
    {
        let number = self.next_id;
        self.id_map.insert(number, id);
        self.next_id = self.next_id + 1;
        assert forall|n: usize| self.book().contains_key(n) <==> n < self.next_number() by {
            assert(old(self).book().contains_key(n) <==> n < number);
        }
        number
    }

    /// The memory that the index knows under `number`.
    pub fn resolve(&self, number: usize) -> (id: Option<u128>)
        ensures
            match id {
                Some(found) => self.book().contains_key(number) && self.book()[number] == found,
                None => !self.book().contains_key(number),
            },
    {
        match self.id_map.get(&number) {
            Some(id) => Some(*id),
            None => None,
        }
    }

    /// Enters the memories read back from disk, in their order, passing over
    /// those without an embedding. Hands out, for each memory entered, its
    /// number and its position in `candidates`.
    pub fn rebuild_index(&mut self, candidates: &Vec<IndexCandidate>) -> (entries: Vec<IndexEntry>)
        requires
            old(self).wf(),
            old(self).next_number() + candidates@.len() <= usize::MAX,
        ensures
            final(self).wf(),
            entries@.len() == indexable(candidates@).len(),
            final(self).next_number() == old(self).next_number() + entries@.len(),
            final(self).book() == entered(
                old(self).book(),
                old(self).next_number() as int,
                indexable(candidates@),
            ),
            forall|k: int|
                0 <= k < entries@.len() ==> {
                    &&& (#[trigger] entries@[k]).number == old(self).next_number() + k
                    &&& entries@[k].position < candidates@.len()
                    &&& candidates@[entries@[k].position as int].embedding_len > 0
                    &&& candidates@[entries@[k].position as int].id == indexable(candidates@)[k]
                },
            forall|j: int, k: int|
                0 <= j < k < entries@.len() ==> entries@[j].position < entries@[k].position,
    {
        let mut entries: Vec<IndexEntry> = Vec::new();
        let mut i: usize = 0;
        assert(candidates@.take(0) =~= Seq::<IndexCandidate>::empty());
        while i < candidates.len()
            invariant
                i <= candidates.len(),
                self.wf(),
                old(self).next_number() + candidates@.len() <= usize::MAX,
                entries@.len() == indexable(candidates@.take(i as int)).len(),
                entries@.len() <= i,
                self.next_number() == old(self).next_number() + entries@.len(),
                self.book() == entered(
                    old(self).book(),
                    old(self).next_number() as int,
                    indexable(candidates@.take(i as int)),
                ),
                forall|k: int|
                    0 <= k < entries@.len() ==> {
                        &&& (#[trigger] entries@[k]).number == old(self).next_number() + k
                        &&& entries@[k].position < i
                        &&& candidates@[entries@[k].position as int].embedding_len > 0
                        &&& candidates@[entries@[k].position as int].id == indexable(
                            candidates@.take(i as int),
                        )[k]
                    },
                forall|j: int, k: int|
                    0 <= j < k < entries@.len() ==> entries@[j].position < entries@[k].position,
            decreases candidates.len() - i,
        {
            let ghost before = indexable(candidates@.take(i as int));
            assert(candidates@.take(i + 1).drop_last() =~= candidates@.take(i as int));
            assert(candidates@.take(i + 1).last() == candidates@[i as int]);
            if candidates[i].embedding_len > 0 {
                let number = self.store(candidates[i].id);
                entries.push(IndexEntry { number, position: i });
                let ghost after = indexable(candidates@.take(i + 1));
                assert(after == before.push(candidates@[i as int].id));
                assert(after.drop_last() =~= before);
            }
            i += 1;
        }
        assert(candidates@.take(candidates.len() as int) =~= candidates@);
        entries
    }
}

// ---------------------------------------------------------------------------
// Recall
// ---------------------------------------------------------------------------

/// The most neighbours that a recall asks the index for.
pub const SEARCH_CAP: usize = 100;

/// How widely the index searches for a recall.
pub const EF_SEARCH: usize = 30;

/// A recall in progress: how many memories it may hand out, which session
/// it is restricted to, and how many it has handed out.
pub struct Recall {
    pub limit: usize,
    pub session_filter: Option<u128>,
    pub taken: usize,
}

/// Whether a memory of the session `session` passes the filter `filter`:
/// without a filter every memory passes, with one only the memories of that
/// session.
pub open spec fn passes(filter: Option<u128>, session: Option<u128>) -> bool {
    match filter {
        Some(wanted) => session == Some(wanted),
        None => true,
    }
}

impl MemoryStore {
    /// Starts a recall of up to `limit` memories, restricted to the session
    /// `session_filter` if one is given.
    pub fn recall(limit: usize, session_filter: Option<u128>) -> (recall: Recall)
        ensures
            recall.limit == limit,
            recall.session_filter == session_filter,
            recall.taken == 0,
    {
        Recall { limit, session_filter, taken: 0 }
    }

    /// The statistics of a store that holds `total_memories` memories in
    /// `storage_bytes` bytes on disk, where `memories` lists the session of
    /// every memory that could be read.
    pub fn stats(total_memories: usize, storage_bytes: u64, memories: &Vec<Option<u128>>) -> (response:
        StatsResponse)
        ensures
            response.total_memories == total_memories,
            response.storage_bytes == storage_bytes,
            response.sessions == sessions_of(memories@).len(),
    {
        StatsResponse { total_memories, storage_bytes, sessions: count_sessions(memories) }
    }
}

impl Recall {
    /// How many neighbours to ask the index for: as many as the recall may
    /// hand out, but no more than [`SEARCH_CAP`].
    pub fn search_width(&self) -> (k: usize)
        ensures
            k == if self.limit <= SEARCH_CAP {
                self.limit
            } else {
                SEARCH_CAP
            },
    {
        if self.limit <= SEARCH_CAP {
            self.limit
        } else {
            SEARCH_CAP
        }
    }

    /// Whether the recall may hand out more.
    pub fn wants_more(&self) -> (more: bool)
        ensures
            more == (self.taken < self.limit),
    {
        self.taken < self.limit
    }

    /// Puts a memory found by the index before the recall. A recall that
    /// may hand out more, and whose filter the memory passes, hands it out
    /// as a fragment and counts it; otherwise nothing changes.
    pub fn offer(&mut self, memory: &StoredMemory) -> (fragment: Option<MemoryFragment>)
        ensures
            final(self).limit == old(self).limit,
            final(self).session_filter == old(self).session_filter,
            match fragment {
                Some(f) => {
                    &&& old(self).taken < old(self).limit
                    &&& passes(old(self).session_filter, memory.session_id)
                    &&& final(self).taken == old(self).taken + 1
                    &&& f.id == memory.id
                    &&& f.content@ == memory.content@
                    &&& f.source@ == memory.source@
                    &&& f.timestamp == memory.created_at
                },
                None => {
                    &&& !(old(self).taken < old(self).limit && passes(
                        old(self).session_filter,
                        memory.session_id,
                    ))
                    &&& final(self).taken == old(self).taken
                },
            },
    {
        if self.taken >= self.limit {
            return None;
        }
        let passes = match self.session_filter {
            Some(wanted) => match memory.session_id {
                Some(session) => session == wanted,
                None => false,
            },
            None => true,
        };
        if !passes {
            return None;
        }
        self.taken = self.taken + 1;
        Some(
            MemoryFragment {
                id: memory.id,
                content: memory.content.clone(),
                source: memory.source.clone(),
                timestamp: memory.created_at,
            },
        )
    }
}

// ---------------------------------------------------------------------------
// Statistics
// ---------------------------------------------------------------------------

/// The sessions that a list of memories belongs to; a memory may belong to
/// none.
pub open spec fn sessions_of(memories: Seq<Option<u128>>) -> Set<u128> {
    Set::new(|s: u128| memories.contains(Some(s)))
}

/// The number of different sessions among `memories`.
pub fn count_sessions(memories: &Vec<Option<u128>>) -> (n: usize)
    ensures
        n == sessions_of(memories@).len(),
        sessions_of(memories@).finite(),
{
    let mut seen: HashSet<u128> = HashSet::new();
    let mut i: usize = 0;
    assert(seen@ =~= sessions_of(memories@.take(0)));
    while i < memories.len()
        invariant
            i <= memories.len(),
            seen@ == sessions_of(memories@.take(i as int)),
            seen@.finite(),
        decreases memories.len() - i,
    {
        let ghost before = memories@.take(i as int);
        let ghost after = memories@.take(i + 1);
        assert(after =~= before.push(memories@[i as int]));
        match memories[i] {
            Some(s) => {
                seen.insert(s);
                assert(seen@ =~= sessions_of(after)) by {
                    assert forall|x: u128| seen@.contains(x) <==> after.contains(Some(x)) by {
                        if after.contains(Some(x)) {
                            let k = choose|k: int| 0 <= k < after.len() && after[k] == Some(x);
                            if k < before.len() {
                                assert(before[k] == Some(x));
                            }
                        }
                        if before.contains(Some(x)) {
                            let k = choose|k: int| 0 <= k < before.len() && before[k] == Some(x);
                            assert(after[k] == Some(x));
                        }
                        if x == s {
                            assert(after[i as int] == Some(x));
                        }
                    }
                }
            },
            None => {
                assert(seen@ =~= sessions_of(after)) by {
                    assert forall|x: u128| before.contains(Some(x)) <==> after.contains(
                        Some(x),
                    ) by {
                        if after.contains(Some(x)) {
                            let k = choose|k: int| 0 <= k < after.len() && after[k] == Some(x);
                            assert(before[k] == Some(x));
                        }
                        if before.contains(Some(x)) {
                            let k = choose|k: int| 0 <= k < before.len() && before[k] == Some(x);
                            assert(after[k] == Some(x));
                        }
                    }
                }
            },
        }
        i += 1;
    }
    assert(memories@.take(memories.len() as int) =~= memories@);
    seen.len()
}

// ---------------------------------------------------------------------------
// Where a text leaves its marks
// ---------------------------------------------------------------------------

/// The number of places in an embedding.
pub const EMBEDDING_DIM: usize = 128;

/// The marks that one word leaves.
pub const MARKS_PER_WORD: usize = 8;

/// One mark in an embedding: a place, and the weight added there, in parts
/// of 255.
#[derive(Debug, Clone, Copy, PartialEq, Eq, Structural)]
pub struct Mark {
    pub index: usize,
    pub weight: u8,
}

/// `s` in lower case, as `str::to_lowercase` gives it.
pub uninterp spec fn lowercase(s: Seq<char>) -> Seq<char>;

/// `str::to_lowercase`: the lower-case equivalent of a text by the rules of
/// Unicode, fixed by the text alone.
#[verifier::external_body]
fn to_lowercase(s: &str) -> (lower: String)
    ensures
        lower@ == lowercase(s@),
{
    s.to_lowercase()
}

/// What hashing the text `s` feeds to a hasher, as the implementation of
/// `Hash` for `str` does it.
pub uninterp spec fn hash_feed(s: Seq<char>) -> Seq<Seq<u8>>;

/// `Hash::hash` for `str`: feeds the hasher with data that the text alone
/// fixes, after whatever the hasher was fed before.
#[verifier::external_body]
fn feed_hasher(s: &str, state: &mut DefaultHasher)
    ensures
        final(state)@ == old(state)@ + hash_feed(s@),
{
    s.hash(state)
}

/// The hash of a word: what a fresh default hasher makes of the word in
/// lower case.
pub open spec fn word_hash(word: Seq<char>) -> u64 {
    DefaultHasher::spec_finish(Seq::<Seq<u8>>::empty() + hash_feed(lowercase(word)))
}

/// The mark numbered `j` of the word at position `i` of a text, whose hash
/// is `hash`: the place is the byte numbered `j` of the hash and all above
/// it, moved on by `i`, around the embedding; the weight is the byte of the
/// hash that starts at bit `4 * j`.
pub open spec fn mark_of(hash: u64, i: nat, j: nat) -> Mark {
    Mark {
        index: (((hash >> ((8 * j) as u64)) as nat + i) % (EMBEDDING_DIM as nat)) as usize,
        weight: ((hash >> ((4 * j) as u64)) & 0xff) as u8,
    }
}

/// The marks of the word at position `i`, in order.
pub open spec fn word_marks(hash: u64, i: nat) -> Seq<Mark> {
    Seq::new(MARKS_PER_WORD as nat, |j: int| mark_of(hash, i, j as nat))
}

/// The marks of a list of words, word by word.
pub open spec fn marks_of_words(ws: Seq<Seq<char>>) -> Seq<Mark>
    decreases ws.len(),
{
    if ws.len() == 0 {
        seq![]
    } else {
        marks_of_words(ws.drop_last()) + word_marks(
            word_hash(ws.last()),
            (ws.len() - 1) as nat,
        )
    }
}

/// The marks that the text `s` leaves in its embedding.
pub open spec fn marks(s: Seq<char>) -> Seq<Mark> {
    marks_of_words(words(s))
}

/// A text leaves eight marks for each of its words, each at a place of the
/// embedding.
pub proof fn lemma_marks(ws: Seq<Seq<char>>)
    ensures
        marks_of_words(ws).len() == MARKS_PER_WORD * ws.len(),
        forall|k: int|
            0 <= k < marks_of_words(ws).len() ==> (#[trigger] marks_of_words(ws)[k]).index
                < EMBEDDING_DIM,
    decreases ws.len(),
{
    if ws.len() > 0 {
        lemma_marks(ws.drop_last());
        let head = marks_of_words(ws.drop_last());
        let tail = word_marks(word_hash(ws.last()), (ws.len() - 1) as nat);
        assert forall|k: int| 0 <= k < marks_of_words(ws).len() implies (#[trigger] marks_of_words(
            ws,
        )[k]).index < EMBEDDING_DIM by {
            if k >= head.len() {
                assert(marks_of_words(ws)[k] == tail[k - head.len()]);
            } else {
                assert(marks_of_words(ws)[k] == head[k]);
            }
        }
    }
}

fn hash_word(word: &str) -> (hash: u64)
    ensures
        hash == word_hash(word@),
{
    let lower = to_lowercase(word);
    let mut hasher = DefaultHasher::new();
    feed_hasher(lower.as_str(), &mut hasher);
    hasher.finish()
}

fn mark(hash: u64, i: usize, j: usize) -> (m: Mark)
    requires
        j < MARKS_PER_WORD,
    ensures
        m == mark_of(hash, i as nat, j as nat),
{
    let high: u64 = hash >> ((8 * j) as u64);
    let low: u64 = (hash >> ((4 * j) as u64)) & 0xff;
    assert(low <= 0xff) by (bit_vector)
        requires
            low == (hash >> ((4 * j) as u64)) & 0xff,
    ;
    let place: u64 = (high % 128 + (i % 128) as u64) % 128;
    assert(place == (high as nat + i as nat) % 128) by {
        vstd::arithmetic::div_mod::lemma_add_mod_noop(high as int, i as int, 128);
    }
    Mark { index: place as usize, weight: low as u8 }
}

/// The eight marks of the word at position `position` of a text, for a word
/// whose hash is `hash`.
pub fn marks_for_hash(hash: u64, position: usize) -> (out: Vec<Mark>)
    ensures
        out@ == word_marks(hash, position as nat),
{
    let mut out: Vec<Mark> = Vec::new();
    let mut j: usize = 0;
    while j < MARKS_PER_WORD
        invariant
            j <= MARKS_PER_WORD,
            out@ == word_marks(hash, position as nat).take(j as int),
        decreases MARKS_PER_WORD - j,
    {
        out.push(mark(hash, position, j));
        assert(out@ =~= word_marks(hash, position as nat).take(j + 1));
        j += 1;
    }
    assert(word_marks(hash, position as nat).take(MARKS_PER_WORD as int) =~= word_marks(
        hash,
        position as nat,
    ));
    out
}

fn append_marks(out: &mut Vec<Mark>, tail: &[Mark])
    ensures
        final(out)@ == old(out)@ + tail@,
{
    let mut k: usize = 0;
    while k < tail.len()
        invariant
            k <= tail.len(),
            out@ == old(out)@ + tail@.take(k as int),
        decreases tail.len() - k,
    {
        out.push(tail[k]);
        assert(out@ =~= old(out)@ + tail@.take(k + 1));
        k += 1;
    }
    assert(tail@.take(tail.len() as int) =~= tail@);
}

/// The marks that `text` leaves in its embedding: for each of its words, in
/// order, the eight marks that the hash of the word in lower case fixes.
/// The embedding itself adds, mark by mark, the weight over 255 at the
/// place, and is then brought to length one.
pub fn hash_embed(text: &str) -> (out: Vec<Mark>)
    ensures
        out@ == marks(text@),
{
    let chars = to_chars(text);
    let ws = split_whitespace(chars.as_slice());
    let ghost all = words(text@);
    let mut out: Vec<Mark> = Vec::new();
    let mut i: usize = 0;
    assert(all.take(0) =~= Seq::<Seq<char>>::empty());
    while i < ws.len()
        invariant
            i <= ws.len(),
            all == words(text@),
            crate::text::contents(ws@) == all,
            out@ == marks_of_words(all.take(i as int)),
        decreases ws.len() - i,
    {
        let word = from_chars(ws[i].as_slice());
        let hash = hash_word(word.as_str());
        assert(all.take(i + 1).drop_last() =~= all.take(i as int));
        assert(all.take(i + 1).last() == ws@[i as int]@);
        let marks = marks_for_hash(hash, i);
        append_marks(&mut out, marks.as_slice());
        i += 1;
    }
    assert(all.take(ws.len() as int) =~= all);
    out
}

} // verus!
