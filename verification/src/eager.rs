//! Eager input processing.
//!
//! Audio is split into fixed-size chunks with small overlaps while recording
//! continues; each chunk is transcribed as soon as it is complete, and at the
//! end the chunk transcripts are combined, deduplicating words repeated at the
//! chunk boundaries.
//!
//! Chunk sizes are counted in samples; the conversion from seconds (a floating
//! point computation) is done by the caller.

use vstd::prelude::*;

use crate::state::ChunkResult;
use crate::text::{
    append_chars, chars_eq_ignore_ascii_case, chars_of, eq_ignore_ascii_case, join_words,
    join_words_from, split_words, split_words_of, string_from_chars, trim, trim_chars, views,
};

verus! {

/// Configuration for eager processing, in samples.
#[derive(Debug, Clone, Copy)]
pub struct EagerConfig {
    /// Number of samples in each chunk
    pub chunk_len: usize,
    /// Number of samples shared by adjacent chunks
    pub overlap_len: usize,
}

impl EagerConfig {
    /// The distance between the starts of consecutive chunks
    /// (chunk size minus overlap, or zero when the overlap is not smaller).
    pub open spec fn stride(self) -> nat {
        if self.overlap_len <= self.chunk_len {
            (self.chunk_len - self.overlap_len) as nat
        } else {
            0
        }
    }

    /// First sample of chunk `index`.
    pub open spec fn chunk_start(self, index: nat) -> nat {
        index * self.stride()
    }

    /// One past the last sample of chunk `index`.
    pub open spec fn chunk_end(self, index: nat) -> nat {
        self.chunk_start(index) + self.chunk_len as nat
    }

    /// Create a configuration from a chunk size and an overlap, in samples
    pub fn new(chunk_len: usize, overlap_len: usize) -> (r: Self)
        ensures
            r.chunk_len == chunk_len,
            r.overlap_len == overlap_len,
    {
        EagerConfig { chunk_len, overlap_len }
    }

    /// Get chunk size in samples
    pub fn chunk_samples(&self) -> (r: usize)
        ensures
            r == self.chunk_len,
    {
        self.chunk_len
    }

    /// Get overlap size in samples
    pub fn overlap_samples(&self) -> (r: usize)
        ensures
            r == self.overlap_len,
    {
        self.overlap_len
    }

    /// Get the stride between chunk starts (chunk - overlap, saturating at zero)
    pub fn stride_samples(&self) -> (r: usize)
        ensures
            r == self.stride(),
    {
        self.chunk_len.saturating_sub(self.overlap_len)
    }
}

/// Extract a chunk from accumulated audio for transcription.
///
/// Returns `None` if there isn't enough audio for the requested chunk yet,
/// otherwise the samples `[index * stride, index * stride + chunk)`.
pub fn extract_chunk<T: Copy>(accumulated: &[T], chunk_index: usize, config: &EagerConfig) -> (r:
    Option<Vec<T>>)
    requires
        config.chunk_end(chunk_index as nat) <= usize::MAX,
    ensures
        match r {
            Some(chunk) => {
                &&& config.chunk_end(chunk_index as nat) <= accumulated@.len()
                &&& chunk@ == accumulated@.subrange(
                    config.chunk_start(chunk_index as nat) as int,
                    config.chunk_end(chunk_index as nat) as int,
                )
            },
            None => config.chunk_end(chunk_index as nat) > accumulated@.len(),
        },
{
    let chunk_size = config.chunk_samples();
    let stride = config.stride_samples();
    proof {
        assert(chunk_index * stride <= config.chunk_end(chunk_index as nat));
    }
    let start = chunk_index * stride;
    let end = start + chunk_size;
    if end > accumulated.len() {
        return None;
    }
    let mut chunk: Vec<T> = Vec::new();
    let mut i: usize = start;
    while i < end
        invariant
            start <= i <= end,
            end <= accumulated@.len(),
            chunk@ == accumulated@.subrange(start as int, i as int),
        decreases end - i,
    {
        chunk.push(accumulated[i]);
        i += 1;
        assert(chunk@ =~= accumulated@.subrange(start as int, i as int));
    }
    Some(chunk)
}

/// Number of complete chunks available in `accumulated_len` samples.
pub open spec fn complete_chunks(accumulated_len: nat, config: EagerConfig) -> nat {
    if accumulated_len < config.chunk_len {
        0
    } else {
        1 + ((accumulated_len - config.chunk_len) as nat) / config.stride()
    }
}

/// Check how many complete chunks are available in the accumulated audio.
///
/// Counting divides by the stride, so a configuration whose overlap is not
/// smaller than its chunk (a zero stride) is accepted only while no chunk is
/// complete.
pub fn count_complete_chunks(accumulated_len: usize, config: &EagerConfig) -> (r: usize)
    requires
        accumulated_len < config.chunk_len || config.stride() > 0,
    ensures
        r == complete_chunks(accumulated_len as nat, *config),
{
    let stride = config.stride_samples();
    let chunk_size = config.chunk_samples();
    if accumulated_len < chunk_size {
        return 0;
    }
    let available_after_first = accumulated_len.saturating_sub(chunk_size);
    proof {
        assert(available_after_first / stride <= available_after_first) by (nonlinear_arith)
            requires
                stride > 0,
        ;
    }
    1 + available_after_first / stride
}

/// A chunk counted as complete can be extracted, and the first chunk not
/// counted cannot: `count_complete_chunks` counts exactly the chunks that
/// `extract_chunk` returns.
pub proof fn lemma_complete_chunks_are_extractable(
    accumulated_len: nat,
    config: EagerConfig,
    chunk_index: nat,
)
    requires
        config.stride() > 0,
    ensures
        chunk_index < complete_chunks(accumulated_len, config) <==> config.chunk_end(chunk_index)
            <= accumulated_len,
{
    let d = config.stride();
    let c = config.chunk_len as nat;
    if accumulated_len >= c {
        let x = (accumulated_len - c) as nat;
        let q = x / d;
        assert(q * d <= x && x < q * d + d) by (nonlinear_arith)
            requires
                d > 0,
                q == x / d,
        ;
        if chunk_index <= q {
            assert(chunk_index * d <= q * d) by (nonlinear_arith)
                requires
                    chunk_index <= q,
            ;
        } else {
            assert(chunk_index * d >= (q + 1) * d) by (nonlinear_arith)
                requires
                    chunk_index >= q + 1,
            ;
            assert((q + 1) * d == q * d + d) by (nonlinear_arith);
        }
    } else {
        assert(chunk_index * d >= 0) by (nonlinear_arith)
            requires
                d > 0,
        ;
    }
}

/// Consecutive chunks overlap: the samples of chunk `index + 1` that precede
/// the end of chunk `index` are the last samples of chunk `index`.
pub proof fn lemma_consecutive_chunks_overlap(config: EagerConfig, chunk_index: nat)
    ensures
        config.chunk_start(chunk_index + 1) == config.chunk_start(chunk_index) + config.stride(),
        config.overlap_len <= config.chunk_len ==> config.chunk_end(chunk_index)
            - config.chunk_start(chunk_index + 1) == config.overlap_len,
{
    let d = config.stride();
    assert((chunk_index + 1) * d == chunk_index * d + d) by (nonlinear_arith);
}

// ---------------------------------------------------------------------------
// Ordering chunk results
// ---------------------------------------------------------------------------

/// Inserts `x` after every element whose chunk index is not greater than its own.
pub open spec fn insert_by_index(s: Seq<ChunkResult>, x: ChunkResult) -> Seq<ChunkResult>
    decreases s.len(),
{
    if s.len() == 0 {
        seq![x]
    } else if s.last().chunk_index <= x.chunk_index {
        s.push(x)
    } else {
        insert_by_index(s.drop_last(), x).push(s.last())
    }
}

/// Stable sort by chunk index (the order `sort_by_key(|r| r.chunk_index)` gives).
pub open spec fn sort_by_index(s: Seq<ChunkResult>) -> Seq<ChunkResult>
    decreases s.len(),
{
    if s.len() == 0 {
        seq![]
    } else {
        insert_by_index(sort_by_index(s.drop_last()), s.last())
    }
}

/// Whether the chunk indices never decrease along `s`.
pub open spec fn sorted_by_index(s: Seq<ChunkResult>) -> bool {
    forall|i: int, j: int| 0 <= i <= j < s.len() ==> s[i].chunk_index <= s[j].chunk_index
}

proof fn lemma_insert_by_index(s: Seq<ChunkResult>, x: ChunkResult)
    ensures
        insert_by_index(s, x).len() == s.len() + 1,
        insert_by_index(s, x).to_multiset() == s.to_multiset().insert(x),
        sorted_by_index(s) ==> sorted_by_index(insert_by_index(s, x)),
    decreases s.len(),
{
    broadcast use vstd::seq_lib::group_to_multiset_ensures;

    if s.len() == 0 {
        assert(seq![x] =~= Seq::<ChunkResult>::empty().push(x));
    } else if s.last().chunk_index <= x.chunk_index {
    } else {
        let t = s.drop_last();
        lemma_insert_by_index(t, x);
        assert(s =~= t.push(s.last()));
        assert(insert_by_index(s, x).to_multiset() =~= s.to_multiset().insert(x));
        if sorted_by_index(s) {
            let r = insert_by_index(s, x);
            let ti = insert_by_index(t, x);
            assert forall|i: int, j: int| 0 <= i <= j < r.len() implies r[i].chunk_index
                <= r[j].chunk_index by {
                if j == r.len() - 1 {
                    if i < j {
                        // every element of t.insert(x) is at most s.last()
                        assert(ti.to_multiset().contains(ti[i]));
                        assert(ti.to_multiset().count(ti[i]) > 0);
                        if ti[i] == x {
                        } else {
                            assert(t.to_multiset().count(ti[i]) > 0);
                            assert(t.contains(ti[i]));
                            let k = choose|k: int| 0 <= k < t.len() && t[k] == ti[i];
                            assert(s[k] == t[k]);
                        }
                    }
                }
            }
        }
    }
}

proof fn lemma_sort_by_index(s: Seq<ChunkResult>)
    ensures
        sort_by_index(s).len() == s.len(),
        sort_by_index(s).to_multiset() == s.to_multiset(),
        sorted_by_index(sort_by_index(s)),
    decreases s.len(),
{
    broadcast use vstd::seq_lib::group_to_multiset_ensures;

    if s.len() > 0 {
        let t = s.drop_last();
        lemma_sort_by_index(t);
        lemma_insert_by_index(sort_by_index(t), s.last());
        assert(s =~= t.push(s.last()));
    }
}

/// Sorting chunk results by index keeps every result, as many times as it
/// occurs, and leaves the chunk indices in non-decreasing order.
pub proof fn lemma_sorted_results_are_a_sorted_permutation(results: Seq<ChunkResult>)
    ensures
        sort_by_index(results).to_multiset() == results.to_multiset(),
        sorted_by_index(sort_by_index(results)),
{
    lemma_sort_by_index(results);
}

/// No two results carry the same chunk index.
pub open spec fn distinct_indices(s: Seq<ChunkResult>) -> bool {
    forall|i: int, j: int|
        0 <= i < s.len() && 0 <= j < s.len() && i != j ==> s[i].chunk_index != s[j].chunk_index
}

proof fn lemma_sorted_distinct_unique(a: Seq<ChunkResult>, b: Seq<ChunkResult>)
    requires
        sorted_by_index(a),
        sorted_by_index(b),
        distinct_indices(a),
        distinct_indices(b),
        a.to_multiset() == b.to_multiset(),
    ensures
        a == b,
    decreases a.len(),
{
    broadcast use vstd::seq_lib::group_to_multiset_ensures;

    assert(a.len() == a.to_multiset().len());
    assert(b.len() == b.to_multiset().len());
    if a.len() == 0 {
        assert(a =~= b);
    } else {
        let n = a.len() - 1;
        let x = a.last();
        let y = b.last();
        assert(a.contains(x));
        assert(a.to_multiset().count(x) > 0);
        assert(b.contains(x));
        let p = choose|p: int| 0 <= p < b.len() && b[p] == x;
        assert(b.contains(y));
        assert(b.to_multiset().count(y) > 0);
        assert(a.contains(y));
        let q = choose|q: int| 0 <= q < a.len() && a[q] == y;
        assert(b[p].chunk_index <= b[n].chunk_index);
        assert(a[q].chunk_index <= a[n].chunk_index);
        assert(p == n);
        assert(x == y);
        assert(a.remove(n) =~= a.drop_last());
        assert(b.remove(n) =~= b.drop_last());
        assert(a.drop_last().to_multiset() == a.to_multiset().remove(x));
        assert(b.drop_last().to_multiset() == b.to_multiset().remove(y));
        lemma_sorted_distinct_unique(a.drop_last(), b.drop_last());
        assert(a =~= a.drop_last().push(x));
        assert(b =~= b.drop_last().push(y));
    }
}

proof fn lemma_sort_keeps_distinct(r: Seq<ChunkResult>)
    requires
        distinct_indices(r),
    ensures
        distinct_indices(sort_by_index(r)),
{
    broadcast use vstd::seq_lib::group_to_multiset_ensures;

    let a = sort_by_index(r);
    lemma_sort_by_index(r);
    assert(r.no_duplicates());
    r.lemma_multiset_has_no_duplicates();
    a.lemma_multiset_has_no_duplicates_conv();
    assert forall|i: int, j: int|
        0 <= i < a.len() && 0 <= j < a.len() && i != j implies a[i].chunk_index
        != a[j].chunk_index by {
        assert(a.contains(a[i]));
        assert(a.contains(a[j]));
        assert(a.to_multiset().count(a[i]) > 0);
        assert(a.to_multiset().count(a[j]) > 0);
        assert(r.contains(a[i]));
        assert(r.contains(a[j]));
        let ki = choose|k: int| 0 <= k < r.len() && r[k] == a[i];
        let kj = choose|k: int| 0 <= k < r.len() && r[k] == a[j];
        if a[i].chunk_index == a[j].chunk_index {
            assert(ki == kj);
        }
    }
}

/// The order in which chunk results arrive does not matter: results holding
/// the same chunks (each chunk index once) combine into the same text.
pub proof fn lemma_combine_ignores_arrival_order(r1: Seq<ChunkResult>, r2: Seq<ChunkResult>)
    requires
        distinct_indices(r1),
        r1.to_multiset() == r2.to_multiset(),
    ensures
        combined_transcript(r1) == combined_transcript(r2),
{
    broadcast use vstd::seq_lib::group_to_multiset_ensures;

    assert(r1.len() == r1.to_multiset().len());
    assert(r2.len() == r2.to_multiset().len());
    // r2 also has distinct chunk indices
    assert(r1.no_duplicates());
    r1.lemma_multiset_has_no_duplicates();
    r2.lemma_multiset_has_no_duplicates_conv();
    assert forall|i: int, j: int|
        0 <= i < r2.len() && 0 <= j < r2.len() && i != j implies r2[i].chunk_index
        != r2[j].chunk_index by {
        assert(r2.contains(r2[i]));
        assert(r2.contains(r2[j]));
        assert(r2.to_multiset().count(r2[i]) > 0);
        assert(r2.to_multiset().count(r2[j]) > 0);
        assert(r1.contains(r2[i]));
        assert(r1.contains(r2[j]));
        let ki = choose|k: int| 0 <= k < r1.len() && r1[k] == r2[i];
        let kj = choose|k: int| 0 <= k < r1.len() && r1[k] == r2[j];
        if r2[i].chunk_index == r2[j].chunk_index {
            assert(ki == kj);
        }
    }
    lemma_sort_by_index(r1);
    lemma_sort_by_index(r2);
    lemma_sort_keeps_distinct(r1);
    lemma_sort_keeps_distinct(r2);
    lemma_sorted_distinct_unique(sort_by_index(r1), sort_by_index(r2));
    if r1.len() == 1 {
        assert(r1.contains(r1[0]));
        assert(r1.to_multiset().count(r1[0]) > 0);
        assert(r2.contains(r1[0]));
        assert(r1 =~= r2);
    }
}

fn insert_sorted(sorted: &mut Vec<ChunkResult>, x: ChunkResult)
    ensures
        final(sorted)@ == insert_by_index(old(sorted)@, x),
{
    let ghost s = sorted@;
    let mut j: usize = sorted.len();
    assert(s.take(j as int) =~= s);
    assert(s.skip(j as int) =~= Seq::<ChunkResult>::empty());
    assert(insert_by_index(s, x) =~= insert_by_index(s.take(j as int), x) + s.skip(j as int));
    while j > 0 && sorted[j - 1].chunk_index > x.chunk_index
        invariant
            sorted@ == s,
            j <= s.len(),
            insert_by_index(s, x) == insert_by_index(s.take(j as int), x) + s.skip(j as int),
        decreases j,
    {
        let ghost pre = s.take(j as int);
        assert(pre.drop_last() =~= s.take(j - 1));
        assert(pre.last() == s[j - 1]);
        assert(insert_by_index(pre, x) == insert_by_index(s.take(j - 1), x).push(s[j - 1]));
        assert(insert_by_index(s.take(j - 1), x).push(s[j - 1]) + s.skip(j as int)
            =~= insert_by_index(s.take(j - 1), x) + s.skip(j - 1));
        j -= 1;
    }
    sorted.insert(j, x);
    assert(sorted@ =~= insert_by_index(s, x));
}

/// Sorts chunk results by chunk index, keeping results with equal indices in
/// the order in which they arrived.
pub fn sort_chunk_results(results: Vec<ChunkResult>) -> (sorted: Vec<ChunkResult>)
    ensures
        sorted@ == sort_by_index(results@),
{
    let ghost orig = results@;
    let mut rest = results;
    let mut sorted: Vec<ChunkResult> = Vec::new();
    let ghost mut k: int = 0;
    while rest.len() > 0
        invariant
            0 <= k <= orig.len(),
            rest@ == orig.skip(k),
            sorted@ == sort_by_index(orig.take(k)),
        decreases rest.len(),
    {
        let x = rest.remove(0);
        proof {
            assert(x == orig[k]);
            assert(orig.take(k + 1).drop_last() =~= orig.take(k));
            assert(orig.take(k + 1).last() == orig[k]);
        }
        insert_sorted(&mut sorted, x);
        proof {
            k = k + 1;
            assert(rest@ =~= orig.skip(k));
        }
    }
    assert(orig.take(k) =~= orig);
    sorted
}

// ---------------------------------------------------------------------------
// Deduplicating chunk boundaries
// ---------------------------------------------------------------------------

/// The last `k` words of `previous` equal the first `k` words of `next`,
/// ignoring ASCII case.
pub open spec fn overlap_matches(previous: Seq<Seq<char>>, next: Seq<Seq<char>>, k: int) -> bool {
    &&& 0 <= k <= previous.len()
    &&& k <= next.len()
    &&& forall|j: int|
        0 <= j < k ==> eq_ignore_ascii_case(previous[previous.len() - k + j], #[trigger] next[j])
}

/// The largest `k <= m` at which the word lists overlap, or 0 if there is none.
pub open spec fn longest_overlap(previous: Seq<Seq<char>>, next: Seq<Seq<char>>, m: int) -> int
    decreases m,
{
    if m <= 0 {
        0
    } else if overlap_matches(previous, next, m) {
        m
    } else {
        longest_overlap(previous, next, m - 1)
    }
}

/// What `deduplicate_boundary(previous, new_text)` returns: `new_text` without
/// its longest word prefix that repeats the end of `previous` (words rejoined
/// by single spaces), or `new_text` unchanged when nothing repeats.
pub open spec fn deduplicated(previous: Seq<char>, new_text: Seq<char>) -> Seq<char> {
    let pw = split_words(previous);
    let nw = split_words(new_text);
    if pw.len() == 0 || nw.len() == 0 {
        new_text
    } else {
        let m = if pw.len() < nw.len() {
            pw.len()
        } else {
            nw.len()
        };
        let k = longest_overlap(pw, nw, m as int);
        if k > 0 {
            join_words(nw.skip(k))
        } else {
            new_text
        }
    }
}

/// The overlap removed is the longest one: it matches, and no longer word
/// run (up to the length of the shorter text) does.
pub proof fn lemma_longest_overlap_is_longest(previous: Seq<Seq<char>>, next: Seq<Seq<char>>, m: int)
    requires
        0 <= m <= previous.len(),
        m <= next.len(),
    ensures
        0 <= longest_overlap(previous, next, m) <= m,
        longest_overlap(previous, next, m) > 0 ==> overlap_matches(
            previous,
            next,
            longest_overlap(previous, next, m),
        ),
        forall|k: int|
            longest_overlap(previous, next, m) < k <= m ==> !#[trigger] overlap_matches(
                previous,
                next,
                k,
            ),
    decreases m,
{
    if m > 0 && !overlap_matches(previous, next, m) {
        lemma_longest_overlap_is_longest(previous, next, m - 1);
    }
}

/// The last `k` words of `previous`, taken as a run, equal the first `k`
/// words of `next` word for word (ignoring ASCII case).
pub open spec fn words_repeat_at_boundary(previous: Seq<Seq<char>>, next: Seq<Seq<char>>, k: int) -> bool {
    let tail = previous.skip(previous.len() - k);
    let head = next.take(k);
    &&& 0 < k <= previous.len()
    &&& k <= next.len()
    &&& forall|j: int| 0 <= j < k ==> eq_ignore_ascii_case(#[trigger] tail[j], head[j])
}

/// Deduplication removes only words that repeat: when no run of words at
/// the end of the previous text repeats at the start of the new one, the new
/// text is kept as it is; otherwise the first `k` words of the new text are
/// dropped for the longest such run of `k` words (up to the shorter text's
/// word count), and the remaining words are kept.
pub proof fn lemma_deduplicated_drops_only_repeated_words(previous: Seq<char>, new_text: Seq<char>)
    ensures
        ({
            let pw = split_words(previous);
            let nw = split_words(new_text);
            let m = if pw.len() < nw.len() { pw.len() } else { nw.len() };
            &&& (forall|k: int| 0 < k <= m ==> !#[trigger] words_repeat_at_boundary(pw, nw, k))
                ==> deduplicated(previous, new_text) == new_text
            &&& deduplicated(previous, new_text) != new_text ==> exists|k: int|
                0 < k <= m && #[trigger] words_repeat_at_boundary(pw, nw, k)
                    && deduplicated(previous, new_text) == join_words(nw.skip(k))
                    && forall|l: int| k < l <= m ==> !words_repeat_at_boundary(pw, nw, l)
        }),
{
    let pw = split_words(previous);
    let nw = split_words(new_text);
    let m = if pw.len() < nw.len() { pw.len() } else { nw.len() };
    assert forall|k: int| 0 < k <= m implies #[trigger] words_repeat_at_boundary(pw, nw, k)
        == overlap_matches(pw, nw, k) by {
        let tail = pw.skip(pw.len() - k);
        let head = nw.take(k);
        assert forall|j: int| 0 <= j < k implies tail[j] == pw[pw.len() - k + j] && head[j]
            == nw[j] by {}
        if overlap_matches(pw, nw, k) {
            assert forall|j: int| 0 <= j < k implies eq_ignore_ascii_case(#[trigger] tail[j], head[j]) by {
                assert(tail[j] == pw[pw.len() - k + j]);
                assert(head[j] == nw[j]);
            }
        }
        if words_repeat_at_boundary(pw, nw, k) {
            assert forall|j: int| 0 <= j < k implies eq_ignore_ascii_case(
                pw[pw.len() - k + j],
                #[trigger] nw[j],
            ) by {
                assert(tail[j] == pw[pw.len() - k + j]);
                assert(head[j] == nw[j]);
            }
        }
    }
    if pw.len() > 0 && nw.len() > 0 {
        lemma_longest_overlap_is_longest(pw, nw, m as int);
        let k = longest_overlap(pw, nw, m as int);
        if k > 0 {
            assert(words_repeat_at_boundary(pw, nw, k));
        }
    }
}

fn overlap_matches_at(pw: &Vec<Vec<char>>, nw: &Vec<Vec<char>>, k: usize) -> (r: bool)
    requires
        k <= pw.len(),
        k <= nw.len(),
    ensures
        r == overlap_matches(views(pw@), views(nw@), k as int),
{
    let plen = pw.len();
    let mut j: usize = 0;
    while j < k
        invariant
            plen == pw.len(),
            k <= plen,
            k <= nw.len(),
            j <= k,
            forall|t: int|
                0 <= t < j ==> eq_ignore_ascii_case(
                    views(pw@)[plen - k + t],
                    #[trigger] views(nw@)[t],
                ),
        decreases k - j,
    {
        if !chars_eq_ignore_ascii_case(&pw[plen - k + j], &nw[j]) {
            assert(!eq_ignore_ascii_case(views(pw@)[plen - k + j], views(nw@)[j as int]));
            return false;
        }
        j += 1;
    }
    true
}

fn copy_chars(s: &Vec<char>) -> (r: Vec<char>)
    ensures
        r@ == s@,
{
    let mut r: Vec<char> = Vec::new();
    append_chars(&mut r, s);
    assert(r@ =~= s@);
    r
}

/// `deduplicate_boundary` over character buffers.
pub fn deduplicate_chars(previous: &Vec<char>, new_text: &Vec<char>) -> (r: Vec<char>)
    ensures
        r@ == deduplicated(previous@, new_text@),
{
    let previous_words = split_words_of(previous);
    let new_words = split_words_of(new_text);
    if previous_words.len() == 0 || new_words.len() == 0 {
        return copy_chars(new_text);
    }
    let max_overlap = if previous_words.len() < new_words.len() {
        previous_words.len()
    } else {
        new_words.len()
    };
    let ghost pw = views(previous_words@);
    let ghost nw = views(new_words@);
    let mut best_overlap: usize = 0;
    let mut checked: usize = 0;
    while checked < max_overlap
        invariant
            checked <= max_overlap,
            max_overlap <= previous_words.len(),
            max_overlap <= new_words.len(),
            pw == views(previous_words@),
            nw == views(new_words@),
            best_overlap == longest_overlap(pw, nw, checked as int),
            best_overlap <= checked,
        decreases max_overlap - checked,
    {
        let overlap_len = checked + 1;
        if overlap_matches_at(&previous_words, &new_words, overlap_len) {
            best_overlap = overlap_len;
        }
        checked = overlap_len;
    }
    if best_overlap > 0 {
        join_words_from(&new_words, best_overlap)
    } else {
        copy_chars(new_text)
    }
}

/// Remove duplicate text at the boundary between previous and new transcription.
///
/// Looks for the longest run of words at the end of `previous` that matches
/// (ignoring ASCII case) the words at the start of `new_text`, and returns
/// `new_text` with that run removed; `new_text` is returned unchanged when no
/// run matches or either text has no words.
pub fn deduplicate_boundary(previous: &str, new_text: &str) -> (r: String)
    ensures
        r@ == deduplicated(previous@, new_text@),
{
    let p = chars_of(previous);
    let n = chars_of(new_text);
    let d = deduplicate_chars(&p, &n);
    string_from_chars(&d)
}

// ---------------------------------------------------------------------------
// Combining chunk results
// ---------------------------------------------------------------------------

/// Appends the deduplicated text of the next chunk to the text so far,
/// separated by a space unless one side already provides it.
pub open spec fn append_chunk_text(combined: Seq<char>, text: Seq<char>) -> Seq<char> {
    let new_text = deduplicated(combined, text);
    if new_text.len() == 0 {
        combined
    } else if combined.len() > 0 && combined.last() != ' ' && new_text[0] != ' ' {
        combined + seq![' '] + new_text
    } else {
        combined + new_text
    }
}

/// The chunk texts combined left to right, before trimming.
pub open spec fn fold_chunk_texts(texts: Seq<Seq<char>>) -> Seq<char>
    decreases texts.len(),
{
    if texts.len() == 0 {
        seq![]
    } else if texts.len() == 1 {
        texts[0]
    } else {
        append_chunk_text(fold_chunk_texts(texts.drop_last()), texts.last())
    }
}

/// The texts of a sequence of chunk results.
pub open spec fn chunk_texts(results: Seq<ChunkResult>) -> Seq<Seq<char>> {
    Seq::new(results.len(), |i: int| results[i].text@)
}

/// What `combine_chunk_results` returns.
pub open spec fn combined_transcript(results: Seq<ChunkResult>) -> Seq<char> {
    if results.len() == 0 {
        seq![]
    } else if results.len() == 1 {
        results[0].text@
    } else {
        trim(fold_chunk_texts(chunk_texts(sort_by_index(results))))
    }
}

/// Combine transcription results from multiple chunks (given in any order),
/// ordering them by chunk index and removing the duplicated words at each
/// chunk boundary.
pub fn combine_chunk_results(results: Vec<ChunkResult>) -> (r: String)
    ensures
        r@ == combined_transcript(results@),
{
    if results.len() == 0 {
        return String::new();
    }
    let ghost orig = results@;
    proof {
        lemma_sort_by_index(orig);
    }
    let sorted = sort_chunk_results(results);
    if sorted.len() == 1 {
        proof {
            assert(orig.drop_last() =~= Seq::<ChunkResult>::empty());
            assert(sort_by_index(orig.drop_last()) =~= Seq::<ChunkResult>::empty());
            assert(sort_by_index(orig) =~= seq![orig.last()]);
        }
        return sorted[0].text.clone();
    }
    let ghost texts = chunk_texts(sorted@);
    let mut combined = chars_of(sorted[0].text.as_str());
    assert(texts.take(1).len() == 1);
    let mut i: usize = 1;
    while i < sorted.len()
        invariant
            1 <= i <= sorted.len(),
            texts == chunk_texts(sorted@),
            combined@ == fold_chunk_texts(texts.take(i as int)),
        decreases sorted.len() - i,
    {
        let t = chars_of(sorted[i].text.as_str());
        let new_text = deduplicate_chars(&combined, &t);
        if new_text.len() > 0 {
            if combined.len() > 0 && combined[combined.len() - 1] != ' ' && new_text[0] != ' ' {
                combined.push(' ');
            }
            append_chars(&mut combined, &new_text);
        }
        proof {
            let next = texts.take(i + 1);
            assert(next.drop_last() =~= texts.take(i as int));
            assert(next.last() == t@);
        }
        i += 1;
    }
    assert(texts.take(i as int) =~= texts);
    let trimmed = trim_chars(&combined);
    string_from_chars(&trimmed)
}

} // verus!
