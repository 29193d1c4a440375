//! Text as sequences of characters: searching, trimming, replacing, splitting
//! and the small amount of number formatting the rest of the crate needs.
//!
//! Every function here is specified over `Seq<char>`. Positions are character
//! positions; the one place where UTF-8 byte counts matter is [`byte_prefix`].

use vstd::prelude::*;
use vstd::utf8::encode_scalar;
use vstd::utf8::encode_utf8;

verus! {

// ---------------------------------------------------------------------------
// Conversions between strings and character vectors
// ---------------------------------------------------------------------------

/// The characters of `s`, in order.
pub fn to_chars(s: &str) -> (out: Vec<char>)
    ensures
        out@ == s@,
{
    let mut out: Vec<char> = Vec::new();
    for c in it: s.chars()
        invariant
            out@ == s@.take(it.index() as int),
            it.seq() == s@,
    {
        out.push(c);
        assert(s@.take(it.index() + 1) =~= s@.take(it.index() as int).push(c));
    }
    assert(s@.take(s@.len() as int) =~= s@);
    out
}

/// `String::push` appends exactly one character to the end of the string.
#[verifier::external_body]
fn push_char(s: &mut String, c: char)
    ensures
        final(s)@ == old(s)@.push(c),
{
    s.push(c)
}

/// The string made of the characters of `chars`, in order.
pub fn from_chars(chars: &[char]) -> (out: String)
    ensures
        out@ == chars@,
{
    let mut out = String::new();
    let mut i: usize = 0;
    while i < chars.len()
        invariant
            i <= chars.len(),
            out@ == chars@.take(i as int),
        decreases chars.len() - i,
    {
        push_char(&mut out, chars[i]);
        assert(chars@.take(i + 1) =~= chars@.take(i as int).push(chars@[i as int]));
        i += 1;
    }
    assert(chars@.take(chars.len() as int) =~= chars@);
    out
}

/// Appends the characters of `tail` to `buf`.
pub fn append(buf: &mut Vec<char>, tail: &[char])
    ensures
        final(buf)@ == old(buf)@ + tail@,
{
    let mut i: usize = 0;
    while i < tail.len()
        invariant
            i <= tail.len(),
            buf@ == old(buf)@ + tail@.take(i as int),
        decreases tail.len() - i,
    {
        buf.push(tail[i]);
        assert(tail@.take(i + 1) =~= tail@.take(i as int).push(tail@[i as int]));
        assert(buf@ =~= old(buf)@ + tail@.take(i + 1));
        i += 1;
    }
    assert(tail@.take(tail.len() as int) =~= tail@);
}

/// Appends the characters of the string `tail` to `buf`.
pub fn append_str(buf: &mut Vec<char>, tail: &str)
    ensures
        final(buf)@ == old(buf)@ + tail@,
{
    let t = to_chars(tail);
    append(buf, t.as_slice());
}

// ---------------------------------------------------------------------------
// Searching
// ---------------------------------------------------------------------------

/// `needle` stands in `hay` at position `i`.
pub open spec fn occurs_at(hay: Seq<char>, needle: Seq<char>, i: int) -> bool {
    &&& 0 <= i
    &&& i + needle.len() <= hay.len()
    &&& hay.subrange(i, i + needle.len()) == needle
}

/// `needle` stands somewhere in `hay`.
pub open spec fn contains(hay: Seq<char>, needle: Seq<char>) -> bool {
    exists|i: int| occurs_at(hay, needle, i)
}

/// `i` is the leftmost position at which `needle` stands in `hay`.
pub open spec fn is_first_occurrence(hay: Seq<char>, needle: Seq<char>, i: int) -> bool {
    &&& occurs_at(hay, needle, i)
    &&& forall|j: int| 0 <= j < i ==> !occurs_at(hay, needle, j)
}

/// The leftmost position of `needle` in `hay`, if there is one.
pub open spec fn index_of(hay: Seq<char>, needle: Seq<char>) -> Option<int> {
    if contains(hay, needle) {
        Some(choose|i: int| is_first_occurrence(hay, needle, i))
    } else {
        None
    }
}

/// The leftmost position of the character `c` in `hay`, if there is one.
pub open spec fn index_of_char(hay: Seq<char>, c: char) -> Option<int> {
    index_of(hay, seq![c])
}

/// A leftmost occurrence is what [`index_of`] reports, and there is only one.
pub proof fn lemma_first_occurrence_is_index(hay: Seq<char>, needle: Seq<char>, i: int)
    requires
        is_first_occurrence(hay, needle, i),
    ensures
        index_of(hay, needle) == Some(i),
{
    assert(contains(hay, needle));
    let k = choose|k: int| is_first_occurrence(hay, needle, k);
    assert(is_first_occurrence(hay, needle, k));
    if k < i {
        assert(!occurs_at(hay, needle, k));
    }
    if i < k {
        assert(!occurs_at(hay, needle, i));
    }
}

/// Whatever [`index_of`] reports is a leftmost occurrence; it reports nothing
/// exactly when `needle` stands nowhere in `hay`.
pub proof fn lemma_index_of(hay: Seq<char>, needle: Seq<char>)
    ensures
        match index_of(hay, needle) {
            Some(i) => is_first_occurrence(hay, needle, i),
            None => !contains(hay, needle),
        },
{
    if contains(hay, needle) {
        let w = choose|i: int| occurs_at(hay, needle, i);
        lemma_least_occurrence(hay, needle, w);
    }
}

/// Below every occurrence there is a leftmost one.
proof fn lemma_least_occurrence(hay: Seq<char>, needle: Seq<char>, w: int)
    requires
        occurs_at(hay, needle, w),
    ensures
        exists|i: int| is_first_occurrence(hay, needle, i),
    decreases w,
{
    if exists|j: int| 0 <= j < w && occurs_at(hay, needle, j) {
        let j = choose|j: int| 0 <= j < w && occurs_at(hay, needle, j);
        lemma_least_occurrence(hay, needle, j);
    } else {
        assert(is_first_occurrence(hay, needle, w));
    }
}

/// Tells whether `needle` stands in `hay` at position `i`.
pub fn matches_at(hay: &[char], needle: &[char], i: usize) -> (b: bool)
    ensures
        b == occurs_at(hay@, needle@, i as int),
{
    let n = needle.len();
    if i > hay.len() || n > hay.len() - i {
        return false;
    }
    let mut k: usize = 0;
    while k < n
        invariant
            k <= n,
            n == needle.len(),
            i + n <= hay.len(),
            forall|t: int| 0 <= t < k ==> hay@[i + t] == needle@[t],
        decreases n - k,
    {
        if hay[i + k] != needle[k] {
            assert(hay@.subrange(i as int, i + n)[k as int] == hay@[i + k]);
            return false;
        }
        k += 1;
    }
    assert(hay@.subrange(i as int, i + n) =~= needle@);
    true
}

/// The leftmost position of `needle` in `hay`.
pub fn find(hay: &[char], needle: &[char]) -> (r: Option<usize>)
    ensures
        match r {
            Some(i) => index_of(hay@, needle@) == Some(i as int) && is_first_occurrence(
                hay@,
                needle@,
                i as int,
            ),
            None => index_of(hay@, needle@) is None && !contains(hay@, needle@),
        },
{
    let h = hay.len();
    let n = needle.len();
    if n > h {
        assert(forall|j: int| !occurs_at(hay@, needle@, j));
        return None;
    }
    let last = h - n;
    let mut i: usize = 0;
    loop
        invariant
            h == hay.len(),
            n == needle.len(),
            last == h - n,
            i <= last,
            forall|j: int| 0 <= j < i ==> !occurs_at(hay@, needle@, j),
        ensures
            forall|j: int| !occurs_at(hay@, needle@, j),
        decreases last - i,
    {
        if matches_at(hay, needle, i) {
            proof {
                lemma_first_occurrence_is_index(hay@, needle@, i as int);
            }
            return Some(i);
        }
        if i == last {
            break;
        }
        i += 1;
    }
    None
}

/// The leftmost position of the character `c` in `hay`.
pub fn find_char(hay: &[char], c: char) -> (r: Option<usize>)
    ensures
        match r {
            Some(i) => index_of_char(hay@, c) == Some(i as int) && i < hay.len() && hay@[i as int]
                == c,
            None => index_of_char(hay@, c) is None,
        },
{
    let mut needle: Vec<char> = Vec::new();
    needle.push(c);
    assert(needle@ =~= seq![c]);
    let r = find(hay, needle.as_slice());
    proof {
        if let Some(i) = r {
            assert(hay@.subrange(i as int, i + 1)[0] == hay@[i as int]);
        }
    }
    r
}

/// The leftmost position of the text `needle` in `hay`.
pub fn find_str(hay: &[char], needle: &str) -> (r: Option<usize>)
    ensures
        match r {
            Some(i) => index_of(hay@, needle@) == Some(i as int) && i + needle@.len()
                <= hay.len(),
            None => index_of(hay@, needle@) is None,
        },
{
    let n = to_chars(needle);
    find(hay, n.as_slice())
}

/// Tells whether the text `needle` stands somewhere in `hay`.
pub fn includes(hay: &[char], needle: &str) -> (b: bool)
    ensures
        b == contains(hay@, needle@),
{
    let n = to_chars(needle);
    find(hay, n.as_slice()).is_some()
}

// ---------------------------------------------------------------------------
// Cutting around a match
// ---------------------------------------------------------------------------

/// The part of `s` before the first `stop`, or all of `s` where `stop` does
/// not occur.
pub open spec fn up_to(s: Seq<char>, stop: Seq<char>) -> Seq<char> {
    match index_of(s, stop) {
        Some(i) => s.take(i),
        None => s,
    }
}

/// The part of `s` before the first `stop`, or all of `s` where `stop` does
/// not occur.
pub fn cut_before<'a>(s: &'a [char], stop: &str) -> (r: &'a [char])
    ensures
        r@ == up_to(s@, stop@),
{
    match find_str(s, stop) {
        Some(i) => &s[0..i],
        None => s,
    }
}

/// The text between the first two apostrophes of `s`.
pub open spec fn first_quoted(s: Seq<char>) -> Option<Seq<char>> {
    match index_of_char(s, '\'') {
        Some(open) => match index_of_char(s.skip(open + 1), '\'') {
            Some(len) => Some(s.subrange(open + 1, open + 1 + len)),
            None => None,
        },
        None => None,
    }
}

/// The text between the first two apostrophes of `s`; `None` where `s` holds
/// fewer than two.
pub fn quoted<'a>(s: &'a [char]) -> (r: Option<&'a [char]>)
    ensures
        match r {
            Some(q) => first_quoted(s@) == Some(q@),
            None => first_quoted(s@) is None,
        },
{
    match find_char(s, '\'') {
        Some(open) => {
            let rest = &s[open + 1..s.len()];
            assert(rest@ == s@.skip(open + 1));
            match find_char(rest, '\'') {
                Some(len) => Some(&s[open + 1..open + 1 + len]),
                None => None,
            }
        },
        None => None,
    }
}

// ---------------------------------------------------------------------------
// Whitespace
// ---------------------------------------------------------------------------

/// Whether `c` carries the Unicode property `White_Space`, as
/// `char::is_whitespace` reports it.
pub uninterp spec fn is_whitespace(c: char) -> bool;

/// `char::is_whitespace`: the answer is fixed by the character alone, and is
/// the Unicode property `White_Space` that `str::trim` and
/// `str::split_whitespace` go by as well.
#[verifier::external_body]
fn char_is_whitespace(c: char) -> (b: bool)
    ensures
        b == is_whitespace(c),
{
    c.is_whitespace()
}

/// Every character of `s` in `[from, to)` is whitespace.
pub open spec fn all_whitespace(s: Seq<char>, from: int, to: int) -> bool {
    forall|i: int| from <= i < to ==> is_whitespace(#[trigger] s[i])
}

/// Where the trimmed text starts: the first position that holds no
/// whitespace, or the length of `s`.
pub open spec fn trim_start_index(s: Seq<char>) -> int
    decreases s.len(),
{
    if s.len() > 0 && is_whitespace(s[0]) {
        1 + trim_start_index(s.drop_first())
    } else {
        0
    }
}

/// Where the text trimmed at its end stops: one past the last position that
/// holds no whitespace, or zero.
pub open spec fn trim_end_index(s: Seq<char>) -> int
    decreases s.len(),
{
    if s.len() > 0 && is_whitespace(s.last()) {
        trim_end_index(s.drop_last())
    } else {
        s.len() as int
    }
}

/// `s` without its leading and trailing whitespace.
pub open spec fn trimmed(s: Seq<char>) -> Seq<char> {
    let t = s.skip(trim_start_index(s));
    t.take(trim_end_index(t))
}

/// A position before which all is whitespace, and which holds none itself,
/// is where the trimmed text starts.
pub proof fn lemma_trim_start_index(s: Seq<char>, a: int)
    requires
        0 <= a <= s.len(),
        all_whitespace(s, 0, a),
        a < s.len() ==> !is_whitespace(s[a]),
    ensures
        trim_start_index(s) == a,
    decreases a,
{
    if a > 0 {
        assert(is_whitespace(s[0]));
        let t = s.drop_first();
        assert(forall|i: int| 0 <= i < a - 1 ==> t[i] == s[i + 1]);
        assert(all_whitespace(t, 0, a - 1));
        lemma_trim_start_index(t, a - 1);
    }
}

/// A position from which all is whitespace, and before which stands none,
/// is where the text trimmed at its end stops.
pub proof fn lemma_trim_end_index(s: Seq<char>, b: int)
    requires
        0 <= b <= s.len(),
        all_whitespace(s, b, s.len() as int),
        b > 0 ==> !is_whitespace(s[b - 1]),
    ensures
        trim_end_index(s) == b,
    decreases s.len() - b,
{
    if b < s.len() {
        assert(is_whitespace(s.last()));
        let t = s.drop_last();
        assert(forall|i: int| b <= i < t.len() ==> t[i] == s[i]);
        assert(all_whitespace(t, b, t.len() as int));
        lemma_trim_end_index(t, b);
    }
}

/// Trimmed text neither starts nor ends with whitespace, and trimming it
/// again changes nothing.
pub proof fn lemma_trimmed_is_tight(s: Seq<char>)
    ensures
        trimmed(s).len() > 0 ==> !is_whitespace(trimmed(s).first()) && !is_whitespace(
            trimmed(s).last(),
        ),
        trimmed(trimmed(s)) == trimmed(s),
{
    lemma_trim_start_bounds(s);
    let t = s.skip(trim_start_index(s));
    lemma_trim_end_bounds(t);
    let r = trimmed(s);
    if r.len() > 0 {
        assert(r.first() == t[0]);
        assert(r.last() == t[trim_end_index(t) - 1]);
        lemma_trim_start_index(r, 0);
        assert(r.skip(0) =~= r);
        lemma_trim_end_index(r, r.len() as int);
        assert(r.take(r.len() as int) =~= r);
    } else {
        assert(r.skip(0) =~= r);
        assert(r.take(0) =~= r);
    }
}

/// What the index at which trimmed text starts means.
pub proof fn lemma_trim_start_bounds(s: Seq<char>)
    ensures
        0 <= trim_start_index(s) <= s.len(),
        all_whitespace(s, 0, trim_start_index(s)),
        trim_start_index(s) < s.len() ==> !is_whitespace(s[trim_start_index(s)]),
    decreases s.len(),
{
    if s.len() > 0 && is_whitespace(s[0]) {
        let t = s.drop_first();
        lemma_trim_start_bounds(t);
        let a = trim_start_index(t);
        assert forall|i: int| 0 <= i < a + 1 implies is_whitespace(#[trigger] s[i]) by {
            if i > 0 {
                assert(s[i] == t[i - 1]);
            }
        }
        if a + 1 < s.len() {
            assert(s[a + 1] == t[a]);
        }
    }
}

/// What the index at which text trimmed at its end stops means.
pub proof fn lemma_trim_end_bounds(s: Seq<char>)
    ensures
        0 <= trim_end_index(s) <= s.len(),
        all_whitespace(s, trim_end_index(s), s.len() as int),
        trim_end_index(s) > 0 ==> !is_whitespace(s[trim_end_index(s) - 1]),
    decreases s.len(),
{
    if s.len() > 0 && is_whitespace(s.last()) {
        let t = s.drop_last();
        lemma_trim_end_bounds(t);
        let b = trim_end_index(t);
        assert forall|i: int| b <= i < s.len() implies is_whitespace(#[trigger] s[i]) by {
            if i < t.len() {
                assert(s[i] == t[i]);
            }
        }
        if b > 0 {
            assert(s[b - 1] == t[b - 1]);
        }
    }
}

/// `s` without its leading and trailing whitespace.
pub fn trim<'a>(s: &'a [char]) -> (r: &'a [char])
    ensures
        r@ == trimmed(s@),
{
    let n = s.len();
    let mut a: usize = 0;
    while a < n && char_is_whitespace(s[a])
        invariant
            n == s.len(),
            a <= n,
            all_whitespace(s@, 0, a as int),
        decreases n - a,
    {
        a += 1;
    }
    proof {
        lemma_trim_start_index(s@, a as int);
    }
    let t = &s[a..n];
    assert(t@ == s@.skip(a as int));
    let m = t.len();
    let mut b: usize = m;
    while b > 0 && char_is_whitespace(t[b - 1])
        invariant
            m == t.len(),
            b <= m,
            all_whitespace(t@, b as int, m as int),
        decreases b,
    {
        b -= 1;
    }
    proof {
        lemma_trim_end_index(t@, b as int);
    }
    &t[0..b]
}

// ---------------------------------------------------------------------------
// Replacing
// ---------------------------------------------------------------------------

/// `s` with every occurrence of `from` replaced by `to`, the occurrences
/// taken from the left and never overlapping. An empty `from` matches before
/// every character and once more at the end.
pub open spec fn replaced(s: Seq<char>, from: Seq<char>, to: Seq<char>) -> Seq<char>
    decreases s.len(),
{
    if from.len() == 0 {
        if s.len() == 0 {
            to
        } else {
            to + seq![s[0]] + replaced(s.drop_first(), from, to)
        }
    } else if s.len() < from.len() {
        s
    } else if occurs_at(s, from, 0) {
        to + replaced(s.skip(from.len() as int), from, to)
    } else {
        seq![s[0]] + replaced(s.drop_first(), from, to)
    }
}

/// Text in which `from` does not occur is left as it is.
pub proof fn lemma_replaced_without_match(s: Seq<char>, from: Seq<char>, to: Seq<char>)
    requires
        from.len() > 0,
        !contains(s, from),
    ensures
        replaced(s, from, to) == s,
    decreases s.len(),
{
    if s.len() >= from.len() {
        assert(!occurs_at(s, from, 0));
        let t = s.drop_first();
        assert forall|i: int| !occurs_at(t, from, i) by {
            if occurs_at(t, from, i) {
                assert(t.subrange(i, i + from.len()) =~= s.subrange(i + 1, i + 1 + from.len()));
                assert(occurs_at(s, from, i + 1));
            }
        }
        lemma_replaced_without_match(t, from, to);
        assert(seq![s[0]] + t =~= s);
    }
}

/// `s` with every occurrence of `from` replaced by `to`.
pub fn replace(s: &[char], from: &[char], to: &[char]) -> (out: Vec<char>)
    ensures
        out@ == replaced(s@, from@, to@),
{
    let n = s.len();
    let m = from.len();
    let mut out: Vec<char> = Vec::new();
    let mut i: usize = 0;
    assert(s@.skip(0) =~= s@);
    if m == 0 {
        loop
            invariant_except_break
                replaced(s@, from@, to@) == out@ + replaced(s@.skip(i as int), from@, to@),
            invariant
                n == s.len(),
                from@.len() == 0,
                i <= n,
            ensures
                out@ == replaced(s@, from@, to@),
            decreases n - i,
        {
            let ghost before = out@;
            let ghost rest = s@.skip(i as int);
            append(&mut out, to);
            if i == n {
                assert(rest.len() == 0);
                break;
            }
            out.push(s[i]);
            assert(rest[0] == s@[i as int]);
            assert(rest.drop_first() =~= s@.skip(i + 1));
            assert(out@ =~= before + (to@ + seq![rest[0]]));
            assert(before + (to@ + seq![rest[0]] + replaced(rest.drop_first(), from@, to@))
                =~= before + (to@ + seq![rest[0]]) + replaced(rest.drop_first(), from@, to@));
            i += 1;
        }
        return out;
    }
    while i < n
        invariant
            n == s.len(),
            m == from.len(),
            m > 0,
            i <= n,
            replaced(s@, from@, to@) == out@ + replaced(s@.skip(i as int), from@, to@),
        decreases n - i,
    {
        let ghost before = out@;
        let ghost rest = s@.skip(i as int);
        let hit = matches_at(s, from, i);
        proof {
            if hit {
                assert(rest.subrange(0, m as int) =~= s@.subrange(i as int, i + m));
            } else if rest.len() >= m {
                assert(rest.subrange(0, m as int) =~= s@.subrange(i as int, i + m));
            }
            assert(hit == occurs_at(rest, from@, 0));
        }
        if hit {
            append(&mut out, to);
            assert(rest.skip(m as int) =~= s@.skip(i + m));
            assert(before + (to@ + replaced(rest.skip(m as int), from@, to@)) =~= before + to@
                + replaced(rest.skip(m as int), from@, to@));
            i += m;
        } else if n - i < m {
            append(&mut out, &s[i..n]);
            assert(s@.subrange(i as int, n as int) =~= rest);
            assert(s@.skip(n as int).len() == 0);
            assert(out@ + replaced(s@.skip(n as int), from@, to@) =~= out@);
            i = n;
        } else {
            out.push(s[i]);
            assert(rest[0] == s@[i as int]);
            assert(rest.drop_first() =~= s@.skip(i + 1));
            assert(out@ =~= before + seq![rest[0]]);
            assert(before + (seq![rest[0]] + replaced(rest.drop_first(), from@, to@)) =~= before
                + seq![rest[0]] + replaced(rest.drop_first(), from@, to@));
            i += 1;
        }
    }
    assert(s@.skip(n as int).len() == 0);
    assert(out@ + replaced(s@.skip(n as int), from@, to@) =~= out@);
    out
}

// ---------------------------------------------------------------------------
// Words
// ---------------------------------------------------------------------------

/// The words of `s`: its maximal runs of characters that are not whitespace,
/// from left to right. The definition reads `s` one character at a time: a
/// whitespace character adds nothing, a character that follows a word
/// character extends the last word, and any other character starts a word.
pub open spec fn words(s: Seq<char>) -> Seq<Seq<char>>
    decreases s.len(),
{
    if s.len() == 0 {
        seq![]
    } else {
        let before = words(s.drop_last());
        let c = s.last();
        if is_whitespace(c) {
            before
        } else if s.len() >= 2 && !is_whitespace(s[s.len() - 2]) && before.len() > 0 {
            before.drop_last().push(before.last().push(c))
        } else {
            before.push(seq![c])
        }
    }
}

/// No word is empty, and no word holds whitespace.
pub proof fn lemma_words_are_solid(s: Seq<char>)
    ensures
        forall|k: int|
            0 <= k < words(s).len() ==> (#[trigger] words(s)[k]).len() > 0 && forall|i: int|
                0 <= i < words(s)[k].len() ==> !is_whitespace(#[trigger] words(s)[k][i]),
        s.len() > 0 && !is_whitespace(s.last()) ==> words(s).len() > 0,
    decreases s.len(),
{
    if s.len() > 0 {
        let t = s.drop_last();
        lemma_words_are_solid(t);
        let before = words(t);
        let c = s.last();
        if is_whitespace(c) {
        } else if s.len() >= 2 && !is_whitespace(s[s.len() - 2]) && before.len() > 0 {
            let w = before.last().push(c);
            let after = before.drop_last().push(w);
            assert forall|k: int| 0 <= k < after.len() implies (#[trigger] after[k]).len() > 0
                && forall|i: int| 0 <= i < after[k].len() ==> !is_whitespace(
                #[trigger] after[k][i],
            ) by {
                if k < after.len() - 1 {
                    assert(after[k] == before[k]);
                } else {
                    assert(after[k] == w);
                    assert forall|i: int| 0 <= i < w.len() implies !is_whitespace(
                        #[trigger] w[i],
                    ) by {
                        if i < w.len() - 1 {
                            assert(w[i] == before.last()[i]);
                        }
                    }
                }
            }
        } else {
            let after = before.push(seq![c]);
            assert forall|k: int| 0 <= k < after.len() implies (#[trigger] after[k]).len() > 0
                && forall|i: int| 0 <= i < after[k].len() ==> !is_whitespace(
                #[trigger] after[k][i],
            ) by {
                if k < after.len() - 1 {
                    assert(after[k] == before[k]);
                } else {
                    assert(after[k] == seq![c]);
                }
            }
        }
    }
}

/// The view of a list of character vectors: the list of their contents.
pub open spec fn contents(v: Seq<Vec<char>>) -> Seq<Seq<char>> {
    v.map_values(|w: Vec<char>| w@)
}

/// The words of `s`, from left to right.
pub fn split_whitespace(s: &[char]) -> (out: Vec<Vec<char>>)
    ensures
        contents(out@) == words(s@),
{
    let n = s.len();
    let mut out: Vec<Vec<char>> = Vec::new();
    let mut current: Vec<char> = Vec::new();
    let mut in_word = false;
    let mut i: usize = 0;
    assert(contents(out@) =~= Seq::<Seq<char>>::empty());
    assert(s@.take(0) =~= Seq::<char>::empty());
    while i < n
        invariant
            n == s.len(),
            i <= n,
            in_word == (i > 0 && !is_whitespace(s@[i - 1])),
            in_word ==> words(s@.take(i as int)) == contents(out@).push(current@),
            !in_word ==> words(s@.take(i as int)) == contents(out@) && current@.len() == 0,
        decreases n - i,
    {
        let c = s[i];
        let ghost upto = s@.take(i as int);
        let ghost next = s@.take(i + 1);
        let ghost done = contents(out@);
        proof {
            assert(next.drop_last() =~= upto);
            assert(next.last() == c);
            if i > 0 {
                assert(next[next.len() - 2] == s@[i - 1]);
            }
        }
        if char_is_whitespace(c) {
            if in_word {
                out.push(current);
                assert(contents(out@) =~= done.push(current@));
                current = Vec::new();
            }
            in_word = false;
        } else {
            if in_word {
                proof {
                    let before = done.push(current@);
                    assert(before.drop_last() =~= done);
                    assert(before.last() == current@);
                }
            }
            current.push(c);
            proof {
                if !in_word {
                    assert(current@ =~= seq![c]);
                }
            }
            in_word = true;
        }
        i += 1;
    }
    assert(s@.take(n as int) =~= s@);
    if in_word {
        let ghost done = contents(out@);
        out.push(current);
        assert(contents(out@) =~= done.push(current@));
    }
    out
}

// ---------------------------------------------------------------------------
// Numbers
// ---------------------------------------------------------------------------

/// The character that writes the digit `d`.
pub open spec fn digit(d: int) -> char {
    seq!['0', '1', '2', '3', '4', '5', '6', '7', '8', '9'][d]
}

/// `n` written in base ten, without leading zeros.
pub open spec fn decimal(n: nat) -> Seq<char>
    decreases n,
{
    if n < 10 {
        seq![digit(n as int)]
    } else {
        decimal(n / 10).push(digit((n % 10) as int))
    }
}

/// `n` written in base ten with at least two digits.
pub open spec fn two_digits(n: nat) -> Seq<char> {
    if n < 10 {
        seq!['0'] + decimal(n)
    } else {
        decimal(n)
    }
}

fn digit_char(d: u64) -> (c: char)
    requires
        d < 10,
    ensures
        c == digit(d as int),
{
    if d == 0 {
        '0'
    } else if d == 1 {
        '1'
    } else if d == 2 {
        '2'
    } else if d == 3 {
        '3'
    } else if d == 4 {
        '4'
    } else if d == 5 {
        '5'
    } else if d == 6 {
        '6'
    } else if d == 7 {
        '7'
    } else if d == 8 {
        '8'
    } else {
        '9'
    }
}

/// Appends `n`, written in base ten, to `buf`.
pub fn append_decimal(buf: &mut Vec<char>, n: u64)
    ensures
        final(buf)@ == old(buf)@ + decimal(n as nat),
    decreases n,
{
    if n < 10 {
        buf.push(digit_char(n));
        assert(buf@ =~= old(buf)@ + decimal(n as nat));
    } else {
        append_decimal(buf, n / 10);
        buf.push(digit_char(n % 10));
        assert(buf@ =~= old(buf)@ + decimal(n as nat));
    }
}

/// Appends `n`, written in base ten with at least two digits, to `buf`.
pub fn append_two_digits(buf: &mut Vec<char>, n: u64)
    ensures
        final(buf)@ == old(buf)@ + two_digits(n as nat),
{
    if n < 10 {
        buf.push('0');
        append_decimal(buf, n);
        assert(buf@ =~= old(buf)@ + two_digits(n as nat));
    } else {
        append_decimal(buf, n);
    }
}

// ---------------------------------------------------------------------------
// UTF-8 byte counts
// ---------------------------------------------------------------------------

/// The number of bytes that `c` takes in UTF-8.
pub open spec fn utf8_width(c: char) -> nat {
    encode_scalar(c as u32).len()
}

/// The number of bytes that `s` takes in UTF-8.
pub open spec fn utf8_len(s: Seq<char>) -> nat {
    encode_utf8(s).len()
}

/// How many leading characters of `s` fit into `limit` bytes of UTF-8.
pub open spec fn byte_prefix_chars(s: Seq<char>, limit: nat) -> nat
    decreases s.len(),
{
    if s.len() == 0 || utf8_width(s[0]) > limit {
        0
    } else {
        1 + byte_prefix_chars(s.drop_first(), (limit - utf8_width(s[0])) as nat)
    }
}

/// The longest prefix of `s` that takes at most `limit` bytes in UTF-8.
pub open spec fn byte_prefix(s: Seq<char>, limit: nat) -> Seq<char> {
    s.take(byte_prefix_chars(s, limit) as int)
}

/// A character takes between one and four bytes, by the size of its code.
pub proof fn lemma_utf8_width(c: char)
    ensures
        utf8_width(c) == if (c as u32) <= 0x7F {
            1nat
        } else if (c as u32) <= 0x7FF {
            2nat
        } else if (c as u32) <= 0xFFFF {
            3nat
        } else {
            4nat
        },
{
    broadcast use vstd::utf8::char_is_scalar;

    assert(vstd::utf8::is_scalar(c as u32));
}

/// The bytes of a text are those of its first character and those of the
/// rest.
pub proof fn lemma_utf8_len_step(s: Seq<char>)
    requires
        s.len() > 0,
    ensures
        utf8_len(s) == utf8_width(s[0]) + utf8_len(s.drop_first()),
{
}

/// [`byte_prefix`] fits the limit, and is the longest prefix that does: it is
/// all of `s`, or one more character would not fit. It is all of `s` exactly
/// when `s` itself fits.
pub proof fn lemma_byte_prefix(s: Seq<char>, limit: nat)
    ensures
        byte_prefix_chars(s, limit) <= s.len(),
        utf8_len(byte_prefix(s, limit)) <= limit,
        byte_prefix_chars(s, limit) < s.len() ==> utf8_len(
            s.take(byte_prefix_chars(s, limit) as int + 1),
        ) > limit,
        byte_prefix_chars(s, limit) == s.len() <==> utf8_len(s) <= limit,
    decreases s.len(),
{
    if s.len() == 0 {
        assert(s.take(0) =~= s);
    } else if utf8_width(s[0]) > limit {
        assert(s.take(0) =~= Seq::<char>::empty());
        assert(s.take(1).drop_first() =~= Seq::<char>::empty());
        lemma_utf8_len_step(s.take(1));
        lemma_utf8_len_step(s);
    } else {
        let t = s.drop_first();
        let rest = (limit - utf8_width(s[0])) as nat;
        lemma_byte_prefix(t, rest);
        let k = byte_prefix_chars(t, rest) as int;
        assert(s.take(k + 1).drop_first() =~= t.take(k));
        lemma_utf8_len_step(s.take(k + 1));
        lemma_utf8_len_step(s);
        if k < t.len() {
            assert(s.take(k + 2).drop_first() =~= t.take(k + 1));
            lemma_utf8_len_step(s.take(k + 2));
        }
    }
}

fn char_width(c: char) -> (w: usize)
    ensures
        w == utf8_width(c),
        1 <= w <= 4,
{
    proof {
        lemma_utf8_width(c);
    }
    let v = c as u32;
    if v <= 0x7F {
        1
    } else if v <= 0x7FF {
        2
    } else if v <= 0xFFFF {
        3
    } else {
        4
    }
}

/// The longest prefix of `s` that takes at most `limit` bytes in UTF-8.
pub fn take_bytes<'a>(s: &'a [char], limit: usize) -> (r: &'a [char])
    ensures
        r@ == byte_prefix(s@, limit as nat),
{
    let n = s.len();
    let mut k: usize = 0;
    let mut room: usize = limit;
    assert(s@.skip(0) =~= s@);
    while k < n && char_width(s[k]) <= room
        invariant
            n == s.len(),
            k <= n,
            byte_prefix_chars(s@, limit as nat) == k + byte_prefix_chars(
                s@.skip(k as int),
                room as nat,
            ),
        decreases n - k,
    {
        let ghost rest = s@.skip(k as int);
        assert(rest[0] == s@[k as int]);
        assert(rest.drop_first() =~= s@.skip(k + 1));
        room = room - char_width(s[k]);
        k += 1;
    }
    proof {
        let rest = s@.skip(k as int);
        if k < n {
            assert(rest[0] == s@[k as int]);
        }
    }
    &s[0..k]
}

// ---------------------------------------------------------------------------
// Comparing and joining
// ---------------------------------------------------------------------------

/// Tells whether two texts hold the same characters.
pub fn same(a: &[char], b: &[char]) -> (eq: bool)
    ensures
        eq == (a@ == b@),
{
    if a.len() != b.len() {
        return false;
    }
    let eq = matches_at(a, b, 0);
    assert(a@.subrange(0, a@.len() as int) =~= a@);
    eq
}

/// Tells whether two strings hold the same characters.
pub fn same_str(a: &str, b: &str) -> (eq: bool)
    ensures
        eq == (a@ == b@),
{
    let x = to_chars(a);
    let y = to_chars(b);
    same(x.as_slice(), y.as_slice())
}

/// The texts of `parts` in order, with `sep` between each two neighbours.
pub open spec fn joined(parts: Seq<Seq<char>>, sep: Seq<char>) -> Seq<char>
    decreases parts.len(),
{
    if parts.len() == 0 {
        seq![]
    } else if parts.len() == 1 {
        parts[0]
    } else {
        joined(parts.drop_last(), sep) + sep + parts.last()
    }
}

/// The texts of `parts` in order, with `sep` between each two neighbours.
pub fn join(parts: &Vec<Vec<char>>, sep: &str) -> (out: Vec<char>)
    ensures
        out@ == joined(contents(parts@), sep@),
{
    let mut out: Vec<char> = Vec::new();
    let ghost all = contents(parts@);
    let mut i: usize = 0;
    assert(all.take(0) =~= Seq::<Seq<char>>::empty());
    while i < parts.len()
        invariant
            i <= parts.len(),
            all == contents(parts@),
            out@ == joined(all.take(i as int), sep@),
        decreases parts.len() - i,
    {
        let ghost before = all.take(i as int);
        let ghost next = all.take(i + 1);
        assert(next.drop_last() =~= before);
        assert(next.last() == parts@[i as int]@);
        if i > 0 {
            append_str(&mut out, sep);
        }
        append(&mut out, parts[i].as_slice());
        assert(out@ =~= joined(next, sep@));
        i += 1;
    }
    assert(all.take(parts.len() as int) =~= all);
    out
}

} // verus!
