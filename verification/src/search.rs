//! Search result ranking.
//!
//! The search engine returns scored word meanings. They are grouped by the word
//! they belong to (a word appears once, with all of its matched meanings in the
//! order the engine returned them), and the words are then ordered by their
//! cumulative score, highest first.
//!
//! Scores are 32-bit floating-point numbers. They are handed to this module as
//! their bit patterns; [`total_order_key`] orders bit patterns exactly as
//! `f32::total_cmp` orders the numbers.

use vstd::prelude::*;
use crate::models::{Timestamp, WordMeaningRecord, WordRecord};

verus! {

/// The language of a word.
#[derive(Clone, Copy, Debug, PartialEq, Eq, Structural)]
pub enum WordLanguage {
    English,
    Slovene,
}

/// One scored word meaning returned by the search engine, with the result
/// of looking its word and meaning up in the entity cache. The word is only
/// looked up on its first hit, so only the word flag of a word's first hit is
/// read.
#[derive(Clone, Copy, Debug, PartialEq, Eq, Structural)]
pub struct SearchHit {
    pub language: WordLanguage,
    pub word_id: u128,
    pub word_meaning_id: u128,
    /// The bit pattern of the `f32` score.
    pub score_bits: u32,
    /// Whether the word is present in the entity cache.
    pub word_in_cache: bool,
    /// Whether the word meaning is present in the entity cache.
    pub meaning_in_cache: bool,
}

/// Why detailed search results could not be produced.
#[derive(Clone, Copy, Debug, PartialEq, Eq, Structural)]
pub enum DetailedSearchResultGenerationError {
    MatchedWordNotFoundInCache { word_id: u128 },
    MatchedWordMeaningNotFoundInCache { word_meaning_id: u128 },
}

/// One word of the search results and the hits (indices into the engine's
/// results) of its matched meanings.
#[derive(Clone, Debug, PartialEq, Eq)]
pub struct WordSearchGroup {
    pub language: WordLanguage,
    pub word_id: u128,
    pub hit_indices: Vec<usize>,
}

/// Whether a hit before index `i` belongs to the same word as hit `i`.
pub open spec fn word_seen_before(hits: Seq<SearchHit>, i: int) -> bool {
    exists|j: int| #![trigger hits[j]] 0 <= j < i && hits[j].word_id == hits[i].word_id
}

/// Whether hit `i` cannot be turned into a detailed result: its meaning is not
/// cached, or it is the first hit of its word and the word is not cached.
pub open spec fn hit_fails(hits: Seq<SearchHit>, i: int) -> bool {
    !hits[i].meaning_in_cache || (!word_seen_before(hits, i) && !hits[i].word_in_cache)
}

/// The error reported for a failing hit `i`.
pub open spec fn hit_error(hits: Seq<SearchHit>, i: int) -> DetailedSearchResultGenerationError {
    if !word_seen_before(hits, i) && !hits[i].word_in_cache {
        DetailedSearchResultGenerationError::MatchedWordNotFoundInCache { word_id: hits[i].word_id }
    } else {
        DetailedSearchResultGenerationError::MatchedWordMeaningNotFoundInCache { word_meaning_id: hits[i].word_meaning_id }
    }
}

/// The indices of the first hit of every word among the first `n` hits, in order.
pub open spec fn first_occurrences(hits: Seq<SearchHit>, n: int) -> Seq<int>
    decreases n,
{
    if n <= 0 {
        seq![]
    } else if word_seen_before(hits, n - 1) {
        first_occurrences(hits, n - 1)
    } else {
        first_occurrences(hits, n - 1).push(n - 1)
    }
}

/// The indices of the hits of word `w` among the first `n` hits, in order.
pub open spec fn indices_of_word(hits: Seq<SearchHit>, w: u128, n: int) -> Seq<usize>
    decreases n,
{
    if n <= 0 {
        seq![]
    } else if hits[n - 1].word_id == w {
        indices_of_word(hits, w, n - 1).push((n - 1) as usize)
    } else {
        indices_of_word(hits, w, n - 1)
    }
}

/// Whether all hits of the same word have the same language.
pub open spec fn languages_consistent(hits: Seq<SearchHit>) -> bool {
    forall|i: int, j: int| 0 <= i < hits.len() && 0 <= j < hits.len() && hits[i].word_id == hits[j].word_id
        ==> hits[i].language == hits[j].language
}

/// Whether `group` is the group of the word whose first hit is hit `first`.
pub open spec fn group_of_first(group: WordSearchGroup, hits: Seq<SearchHit>, first: int) -> bool {
    &&& group.word_id == hits[first].word_id
    &&& group.language == hits[first].language
    &&& group.hit_indices@ == indices_of_word(hits, group.word_id, hits.len() as int)
}

/// Whether `groups` is the grouping of `hits` by word: one group per word, in
/// the order words first appear, each holding all hits of its word in order.
pub open spec fn is_grouping_of(groups: Seq<WordSearchGroup>, hits: Seq<SearchHit>) -> bool {
    let firsts = first_occurrences(hits, hits.len() as int);
    &&& groups.len() == firsts.len()
    &&& forall|k: int| 0 <= k < groups.len() ==> group_of_first(#[trigger] groups[k], hits, firsts[k])
}

proof fn lemma_first_occurrences_bounded(hits: Seq<SearchHit>, n: int)
    requires
        0 <= n,
    ensures
        forall|k: int| 0 <= k < first_occurrences(hits, n).len() ==> 0 <= #[trigger] first_occurrences(hits, n)[k] < n,
    decreases n,
{
    if n > 0 {
        lemma_first_occurrences_bounded(hits, n - 1);
        let prev = first_occurrences(hits, n - 1);
        if !word_seen_before(hits, n - 1) {
            assert(first_occurrences(hits, n) == prev.push(n - 1));
            assert forall|k: int| 0 <= k < first_occurrences(hits, n).len() implies 0 <= #[trigger] first_occurrences(hits, n)[k] < n by {
                if k < prev.len() { assert(first_occurrences(hits, n)[k] == prev[k]); }
            }
        }
    }
}

proof fn lemma_first_occurrences_cover(hits: Seq<SearchHit>, n: int, j: int)
    requires
        0 <= j < n,
    ensures
        exists|k: int| 0 <= k < first_occurrences(hits, n).len()
            && hits[#[trigger] first_occurrences(hits, n)[k]].word_id == hits[j].word_id,
    decreases n,
{
    let prev = first_occurrences(hits, n - 1);
    let cur = first_occurrences(hits, n);
    if j < n - 1 {
        lemma_first_occurrences_cover(hits, n - 1, j);
        let k = choose|k: int| 0 <= k < prev.len() && hits[#[trigger] prev[k]].word_id == hits[j].word_id;
        if !word_seen_before(hits, n - 1) {
            assert(cur == prev.push(n - 1));
            assert(cur[k] == prev[k]);
        }
        assert(hits[cur[k]].word_id == hits[j].word_id);
    } else {
        if word_seen_before(hits, n - 1) {
            let j2 = choose|j2: int| #![trigger hits[j2]] 0 <= j2 < n - 1 && hits[j2].word_id == hits[n - 1].word_id;
            lemma_first_occurrences_cover(hits, n - 1, j2);
            let k = choose|k: int| 0 <= k < prev.len() && hits[#[trigger] prev[k]].word_id == hits[j2].word_id;
            assert(hits[cur[k]].word_id == hits[j].word_id);
        } else {
            assert(cur == prev.push(n - 1));
            assert(cur[prev.len() as int] == n - 1);
        }
    }
}

proof fn lemma_indices_of_unseen_word_empty(hits: Seq<SearchHit>, w: u128, n: int)
    requires
        0 <= n <= hits.len(),
        forall|j: int| 0 <= j < n ==> hits[j].word_id != w,
    ensures
        indices_of_word(hits, w, n) == Seq::<usize>::empty(),
    decreases n,
{
    if n > 0 {
        lemma_indices_of_unseen_word_empty(hits, w, n - 1);
    }
}

proof fn lemma_first_occurrences_are_first_and_increasing(hits: Seq<SearchHit>, n: int)
    requires
        0 <= n,
    ensures
        forall|k: int| 0 <= k < first_occurrences(hits, n).len() ==> !word_seen_before(hits, #[trigger] first_occurrences(hits, n)[k]),
        forall|a: int, b: int| 0 <= a < b < first_occurrences(hits, n).len()
            ==> first_occurrences(hits, n)[a] < first_occurrences(hits, n)[b],
    decreases n,
{
    if n > 0 {
        lemma_first_occurrences_are_first_and_increasing(hits, n - 1);
        lemma_first_occurrences_bounded(hits, n - 1);
        let prev = first_occurrences(hits, n - 1);
        if !word_seen_before(hits, n - 1) {
            let cur = first_occurrences(hits, n);
            assert(cur == prev.push(n - 1));
            assert forall|k: int| 0 <= k < cur.len() implies !word_seen_before(hits, #[trigger] cur[k]) by {
                if k < prev.len() { assert(cur[k] == prev[k]); }
            }
            assert forall|a: int, b: int| 0 <= a < b < cur.len() implies cur[a] < cur[b] by {
                assert(cur[a] == prev[a]);
                if b < prev.len() { assert(cur[b] == prev[b]); }
            }
        }
    }
}

/// A grouping puts every hit in exactly one group: the groups belong to
/// distinct words, and every hit's word has a group, which lists the hit.
pub proof fn lemma_grouping_partitions_hits(groups: Seq<WordSearchGroup>, hits: Seq<SearchHit>)
    requires
        is_grouping_of(groups, hits),
    ensures
        forall|a: int, b: int| 0 <= a < b < groups.len() ==> #[trigger] groups[a].word_id != #[trigger] groups[b].word_id,
        forall|j: int| #![trigger hits[j]] 0 <= j < hits.len()
            ==> exists|k: int| #![trigger groups[k]] 0 <= k < groups.len() && groups[k].word_id == hits[j].word_id,
{
    let n = hits.len() as int;
    let firsts = first_occurrences(hits, n);
    lemma_first_occurrences_bounded(hits, n);
    lemma_first_occurrences_are_first_and_increasing(hits, n);
    assert forall|a: int, b: int| 0 <= a < b < groups.len() implies #[trigger] groups[a].word_id != #[trigger] groups[b].word_id by {
        assert(group_of_first(groups[a], hits, firsts[a]));
        assert(group_of_first(groups[b], hits, firsts[b]));
        assert(firsts[a] < firsts[b]);
        assert(!word_seen_before(hits, firsts[b]));
        if hits[firsts[a]].word_id == hits[firsts[b]].word_id {
            assert(hits[firsts[a]].word_id == hits[firsts[b]].word_id && 0 <= firsts[a] < firsts[b]);
            assert(word_seen_before(hits, firsts[b]));
        }
    }
    assert forall|j: int| #![trigger hits[j]] 0 <= j < hits.len()
        implies exists|k: int| #![trigger groups[k]] 0 <= k < groups.len() && groups[k].word_id == hits[j].word_id by {
        lemma_first_occurrences_cover(hits, n, j);
        let k = choose|k: int| 0 <= k < firsts.len() && hits[#[trigger] firsts[k]].word_id == hits[j].word_id;
        assert(group_of_first(groups[k], hits, firsts[k]));
        assert(groups[k].word_id == hits[j].word_id);
    }
}

/// Groups search hits by word (see the module documentation). Fails on the first
/// hit whose meaning, or whose word when first seen, is missing from the cache.
pub fn group_search_hits(hits: &Vec<SearchHit>) -> (r: Result<Vec<WordSearchGroup>, DetailedSearchResultGenerationError>)
    requires
        languages_consistent(hits@),
    ensures
        match r {
            Err(e) => exists|i: int| 0 <= i < hits@.len() && hit_fails(hits@, i)
                && (forall|j: int| 0 <= j < i ==> !hit_fails(hits@, j)) && e == hit_error(hits@, i),
            Ok(groups) => (forall|i: int| 0 <= i < hits@.len() ==> !hit_fails(hits@, i))
                && is_grouping_of(groups@, hits@),
        },
{
    let n = hits.len();
    let mut firsts: Vec<usize> = Vec::new();
    let mut i: usize = 0;
    while i < n
        invariant
            n == hits@.len(),
            i <= n,
            firsts@.len() == first_occurrences(hits@, i as int).len(),
            forall|k: int| 0 <= k < firsts@.len() ==> firsts@[k] as int == #[trigger] first_occurrences(hits@, i as int)[k],
            forall|j: int| 0 <= j < i ==> !hit_fails(hits@, j),
        decreases n - i,
    {
        proof { lemma_first_occurrences_bounded(hits@, i as int); }
        let hit = hits[i];
        let mut found = false;
        let mut k: usize = 0;
        while k < firsts.len()
            invariant
                n == hits@.len(),
                i < n,
                hit == hits@[i as int],
                firsts@.len() == first_occurrences(hits@, i as int).len(),
                forall|q: int| 0 <= q < firsts@.len() ==> firsts@[q] as int == #[trigger] first_occurrences(hits@, i as int)[q],
                forall|q: int| 0 <= q < first_occurrences(hits@, i as int).len() ==> 0 <= #[trigger] first_occurrences(hits@, i as int)[q] < i,
                k <= firsts@.len(),
                found <==> exists|q: int| 0 <= q < k && hits@[#[trigger] firsts@[q] as int].word_id == hit.word_id,
            decreases firsts@.len() - k,
        {
            assert(firsts@[k as int] as int == first_occurrences(hits@, i as int)[k as int]);
            if hits[firsts[k]].word_id == hit.word_id {
                found = true;
            }
            k = k + 1;
        }
        proof {
            if found {
                let q = choose|q: int| 0 <= q < firsts@.len() && hits@[#[trigger] firsts@[q] as int].word_id == hit.word_id;
                assert(firsts@[q] as int == first_occurrences(hits@, i as int)[q]);
                let w = firsts@[q] as int;
                assert(0 <= w < i && hits@[w].word_id == hits@[i as int].word_id);
                assert(word_seen_before(hits@, i as int));
            } else if word_seen_before(hits@, i as int) {
                let j = choose|j: int| #![trigger hits@[j]] 0 <= j < i && hits@[j].word_id == hits@[i as int].word_id;
                lemma_first_occurrences_cover(hits@, i as int, j);
                let q = choose|q: int| 0 <= q < first_occurrences(hits@, i as int).len()
                    && hits@[#[trigger] first_occurrences(hits@, i as int)[q]].word_id == hits@[j].word_id;
                assert(firsts@[q] as int == first_occurrences(hits@, i as int)[q]);
                assert(hits@[firsts@[q] as int].word_id == hit.word_id);
                assert(false);
            }
        }
        if !found && !hit.word_in_cache {
            assert(hit_fails(hits@, i as int));
            return Err(DetailedSearchResultGenerationError::MatchedWordNotFoundInCache { word_id: hit.word_id });
        }
        if !hit.meaning_in_cache {
            assert(hit_fails(hits@, i as int));
            return Err(DetailedSearchResultGenerationError::MatchedWordMeaningNotFoundInCache { word_meaning_id: hit.word_meaning_id });
        }
        if !found {
            firsts.push(i);
        }
        proof {
            let prev = first_occurrences(hits@, i as int);
            let cur = first_occurrences(hits@, i + 1);
            if !found {
                assert(cur == prev.push(i as int));
                assert forall|k: int| 0 <= k < firsts@.len() implies firsts@[k] as int == #[trigger] first_occurrences(hits@, i + 1)[k] by {
                    if k < prev.len() { assert(cur[k] == prev[k]); }
                }
            } else {
                assert(cur == prev);
            }
        }
        i = i + 1;
    }
    proof { lemma_first_occurrences_bounded(hits@, n as int); }
    let mut groups: Vec<WordSearchGroup> = Vec::new();
    let mut k: usize = 0;
    while k < firsts.len()
        invariant
            n == hits@.len(),
            firsts@.len() == first_occurrences(hits@, n as int).len(),
            forall|q: int| 0 <= q < firsts@.len() ==> firsts@[q] as int == #[trigger] first_occurrences(hits@, n as int)[q],
            forall|q: int| 0 <= q < first_occurrences(hits@, n as int).len() ==> 0 <= #[trigger] first_occurrences(hits@, n as int)[q] < n,
            k <= firsts@.len(),
            groups@.len() == k,
            forall|q: int| 0 <= q < k ==> group_of_first(#[trigger] groups@[q], hits@, first_occurrences(hits@, n as int)[q]),
        decreases firsts@.len() - k,
    {
        assert(firsts@[k as int] as int == first_occurrences(hits@, n as int)[k as int]);
        let first = hits[firsts[k]];
        let mut indices: Vec<usize> = Vec::new();
        let mut j: usize = 0;
        while j < n
            invariant
                n == hits@.len(),
                j <= n,
                indices@ == indices_of_word(hits@, first.word_id, j as int),
            decreases n - j,
        {
            if hits[j].word_id == first.word_id {
                indices.push(j);
            }
            j = j + 1;
        }
        let ghost old_groups = groups@;
        let ghost fk = first_occurrences(hits@, n as int)[k as int];
        assert(first == hits@[fk]);
        groups.push(WordSearchGroup { language: first.language, word_id: first.word_id, hit_indices: indices });
        proof {
            assert(group_of_first(groups@[k as int], hits@, fk));
            assert forall|q: int| 0 <= q < k + 1 implies group_of_first(#[trigger] groups@[q], hits@, first_occurrences(hits@, n as int)[q]) by {
                if q < k {
                    assert(groups@[q] == old_groups[q]);
                }
            }
        }
        k = k + 1;
    }
    Ok(groups)
}

/// What the entity cache holds for one translation of a matched meaning:
/// the link itself (when and by whom it was made), the translated meaning,
/// and the word that meaning belongs to (each `None` when not cached).
#[derive(Clone, Debug, PartialEq, Eq)]
pub struct TranslationLookup {
    pub link: Option<(Timestamp, Option<u128>)>,
    pub meaning: Option<WordMeaningRecord>,
    pub word: Option<WordRecord>,
}

/// A translation of a matched meaning, as search results show it.
#[derive(Clone, Debug, PartialEq, Eq)]
pub struct CachedTranslation {
    pub word: WordRecord,
    pub word_meaning: WordMeaningRecord,
    pub translated_at: Timestamp,
    pub translated_by: Option<u128>,
}

/// The translation a lookup gives, when the link, the meaning and the word are all cached.
pub open spec fn translation_of_lookup(l: TranslationLookup) -> Option<CachedTranslation> {
    match (l.link, l.meaning, l.word) {
        (Some((at, by)), Some(m), Some(w)) => Some(CachedTranslation { word: w, word_meaning: m, translated_at: at, translated_by: by }),
        _ => None,
    }
}

/// The translations the lookups give, in order, skipping those not fully cached.
pub open spec fn cached_translations_of(lookups: Seq<TranslationLookup>) -> Seq<CachedTranslation>
    decreases lookups.len(),
{
    if lookups.len() == 0 {
        seq![]
    } else {
        let rest = cached_translations_of(lookups.drop_last());
        match translation_of_lookup(lookups.last()) {
            Some(t) => rest.push(t),
            None => rest,
        }
    }
}

/// The translations of a matched meaning that are fully cached, in order;
/// translations missing from the cache are left out.
pub fn cached_translations(lookups: Vec<TranslationLookup>) -> (r: Vec<CachedTranslation>)
    ensures
        r@ == cached_translations_of(lookups@),
{
    let ghost all = lookups@;
    let mut source = lookups;
    let mut stack: Vec<TranslationLookup> = Vec::new();
    while source.len() > 0
        invariant
            source@ == all.subrange(0, source@.len() as int),
            stack@.len() == all.len() - source@.len(),
            forall|k: int| 0 <= k < stack@.len() ==> #[trigger] stack@[k] == all[all.len() - 1 - k],
        decreases source@.len(),
    {
        let last = source.pop().unwrap();
        stack.push(last);
    }
    let mut out: Vec<CachedTranslation> = Vec::new();
    while stack.len() > 0
        invariant
            stack@.len() <= all.len(),
            forall|k: int| 0 <= k < stack@.len() ==> #[trigger] stack@[k] == all[all.len() - 1 - k],
            out@ == cached_translations_of(all.subrange(0, all.len() - stack@.len())),
        decreases stack@.len(),
    {
        let ghost done = all.len() - stack@.len();
        let next = stack.pop().unwrap();
        assert(next == all[done]);
        assert(all.subrange(0, done + 1).drop_last() =~= all.subrange(0, done));
        match next {
            TranslationLookup { link: Some((at, by)), meaning: Some(m), word: Some(w) } => {
                out.push(CachedTranslation { word: w, word_meaning: m, translated_at: at, translated_by: by });
            },
            _ => {},
        }
    }
    assert(all.subrange(0, all.len() as int) =~= all);
    out
}

/// What the entity cache holds for a matched meaning: the meaning, the
/// categories it is in, and a lookup for each of its translations.
#[derive(Clone, Debug, PartialEq, Eq)]
pub struct CachedMeaning {
    pub meaning: WordMeaningRecord,
    pub categories: Vec<u128>,
    pub translations: Vec<TranslationLookup>,
}

/// A matched meaning with its details and its score (an `f32` bit pattern).
#[derive(Clone, Debug, PartialEq, Eq)]
pub struct ScoredMeaning {
    pub score_bits: u32,
    pub meaning: WordMeaningRecord,
    pub categories: Vec<u128>,
    pub translations: Vec<CachedTranslation>,
}

/// Whether `r` is the scored meaning built from `cached` with score `score_bits`.
pub open spec fn is_scored_meaning_of(r: Option<ScoredMeaning>, cached: Option<CachedMeaning>, score_bits: u32) -> bool {
    match (cached, r) {
        (None, None) => true,
        (Some(c), Some(m)) => m.score_bits == score_bits && m.meaning == c.meaning && m.categories@ == c.categories@
            && m.translations@ == cached_translations_of(c.translations@),
        _ => false,
    }
}

fn build_scored_meaning(cached: Option<CachedMeaning>, score_bits: u32) -> (r: Option<ScoredMeaning>)
    ensures
        is_scored_meaning_of(r, cached, score_bits),
{
    match cached {
        None => None,
        Some(c) => {
            let translations = cached_translations(c.translations);
            Some(ScoredMeaning { score_bits, meaning: c.meaning, categories: c.categories, translations })
        },
    }
}

/// A matched English meaning with its details and score, when the meaning is
/// cached (`None` otherwise); translations not fully cached are left out.
pub fn build_scored_english_word_meaning_from_cache(cached: Option<CachedMeaning>, score_bits: u32) -> (r: Option<ScoredMeaning>)
    ensures
        is_scored_meaning_of(r, cached, score_bits),
{
    build_scored_meaning(cached, score_bits)
}

/// A matched Slovene meaning with its details and score, when the meaning is
/// cached (`None` otherwise); translations not fully cached are left out.
pub fn build_scored_slovene_word_meaning_from_cache(cached: Option<CachedMeaning>, score_bits: u32) -> (r: Option<ScoredMeaning>)
    ensures
        is_scored_meaning_of(r, cached, score_bits),
{
    build_scored_meaning(cached, score_bits)
}

/// The scored meanings of the hits of word `w` among the first `n` hits, in
/// hit order (`meanings` holds one scored meaning per hit).
pub open spec fn meanings_of_word(hits: Seq<SearchHit>, meanings: Seq<ScoredMeaning>, w: u128, n: int) -> Seq<ScoredMeaning>
    decreases n,
{
    if n <= 0 {
        seq![]
    } else if hits[n - 1].word_id == w {
        meanings_of_word(hits, meanings, w, n - 1).push(meanings[n - 1])
    } else {
        meanings_of_word(hits, meanings, w, n - 1)
    }
}

/// One word of the ranked search results: the word, its cumulative score
/// (an `f32` bit pattern) and the scored meanings that matched, in hit order.
#[derive(Debug, PartialEq, Eq)]
pub struct RankedWord {
    pub language: WordLanguage,
    pub word_id: u128,
    pub cumulative_score_bits: u32,
    pub meanings: Vec<ScoredMeaning>,
}

/// Whether `ranked` lists the groups in the order `order`, each with its
/// score and its word's scored meanings.
pub open spec fn is_ranking_in_order(
    ranked: Seq<RankedWord>,
    order: Seq<usize>,
    groups: Seq<WordSearchGroup>,
    hits: Seq<SearchHit>,
    meanings: Seq<ScoredMeaning>,
    scores: Seq<u32>,
) -> bool {
    &&& ranked.len() == order.len()
    &&& forall|i: int| 0 <= i < ranked.len() ==> {
        let g = groups[order[i] as int];
        &&& (#[trigger] ranked[i]).word_id == g.word_id
        &&& ranked[i].language == g.language
        &&& ranked[i].cumulative_score_bits == scores[order[i] as int]
        &&& ranked[i].meanings@ == meanings_of_word(hits, meanings, g.word_id, hits.len() as int)
    }
}

/// The ranked search results: every word of the grouping with its cumulative
/// score and all of its scored meanings in hit order, the words ordered by
/// descending cumulative score. `meanings` holds the scored meaning of each
/// hit and `cumulative_scores` the cumulative score of each group.
pub fn rank_search_results(
    hits: &Vec<SearchHit>,
    groups: &Vec<WordSearchGroup>,
    meanings: Vec<ScoredMeaning>,
    cumulative_scores: &Vec<u32>,
) -> (r: Vec<RankedWord>)
    requires
        is_grouping_of(groups@, hits@),
        meanings@.len() == hits@.len(),
        cumulative_scores@.len() == groups@.len(),
    ensures
        exists|order: Seq<usize>| {
            &&& is_permutation_of_range(order, groups@.len() as int)
            &&& is_descending_by_score(order, cumulative_scores@)
            &&& is_descending_in_float_order(order, cumulative_scores@)
            &&& is_ranking_in_order(r@, order, groups@, hits@, meanings@, cumulative_scores@)
        },
{
    let ghost all = meanings@;
    let n = hits.len();
    let g = groups.len();
    proof { lemma_grouping_partitions_hits(groups@, hits@); }
    // The meanings, last hit first, so that popping gives them in hit order.
    let mut source = meanings;
    let mut stack: Vec<ScoredMeaning> = Vec::new();
    while source.len() > 0
        invariant
            source@ == all.subrange(0, source@.len() as int),
            stack@.len() == all.len() - source@.len(),
            forall|q: int| 0 <= q < stack@.len() ==> #[trigger] stack@[q] == all[all.len() - 1 - q],
        decreases source@.len(),
    {
        let last = source.pop().unwrap();
        stack.push(last);
    }
    let mut buckets: Vec<Vec<ScoredMeaning>> = Vec::new();
    let mut k: usize = 0;
    while k < g
        invariant
            g == groups@.len(),
            k <= g,
            buckets@.len() == k,
            forall|q: int| 0 <= q < k ==> (#[trigger] buckets@[q])@ == Seq::<ScoredMeaning>::empty(),
        decreases g - k,
    {
        buckets.push(Vec::new());
        k = k + 1;
    }
    proof {
        assert forall|q: int| 0 <= q < g implies (#[trigger] buckets@[q])@ == meanings_of_word(hits@, all, groups@[q].word_id, 0) by {}
    }
    let mut j: usize = 0;
    while j < n
        invariant
            n == hits@.len(),
            g == groups@.len(),
            all.len() == n,
            j <= n,
            stack@.len() == n - j,
            forall|q: int| 0 <= q < stack@.len() ==> #[trigger] stack@[q] == all[all.len() - 1 - q],
            buckets@.len() == g,
            forall|q: int| 0 <= q < g ==> (#[trigger] buckets@[q])@ == meanings_of_word(hits@, all, groups@[q].word_id, j as int),
            forall|a: int, b: int| 0 <= a < b < g ==> #[trigger] groups@[a].word_id != #[trigger] groups@[b].word_id,
            forall|x: int| #![trigger hits@[x]] 0 <= x < n
                ==> exists|q: int| #![trigger groups@[q]] 0 <= q < g && groups@[q].word_id == hits@[x].word_id,
        decreases n - j,
    {
        let m = stack.pop().unwrap();
        assert(m == all[j as int]);
        let w = hits[j].word_id;
        let ghost witness = choose|q: int| 0 <= q < g && groups@[q].word_id == hits@[j as int].word_id;
        let mut q: usize = 0;
        while q < g && groups[q].word_id != w
            invariant
                g == groups@.len(),
                q <= g,
                0 <= witness < g,
                groups@[witness].word_id == w,
                forall|p: int| 0 <= p < q ==> groups@[p].word_id != w,
            decreases g - q,
        {
            q = q + 1;
        }
        let ghost before = buckets@;
        let mut bucket: Vec<ScoredMeaning> = Vec::new();
        std::mem::swap(&mut bucket, &mut buckets[q]);
        bucket.push(m);
        std::mem::swap(&mut bucket, &mut buckets[q]);
        proof {
            assert forall|p: int| 0 <= p < g implies (#[trigger] buckets@[p])@
                == meanings_of_word(hits@, all, groups@[p].word_id, j + 1) by {
                if p != q {
                    assert(buckets@[p] == before[p]);
                    if groups@[p].word_id == w {
                        if p < q {
                        } else {
                            assert(groups@[q as int].word_id == groups@[p].word_id);
                        }
                    }
                }
            }
        }
        j = j + 1;
    }
    let order = order_by_cumulative_score(cumulative_scores);
    let ghost full = buckets@;
    let mut ranked: Vec<RankedWord> = Vec::new();
    let mut i: usize = 0;
    while i < g
        invariant
            g == groups@.len(),
            n == hits@.len(),
            i <= g,
            cumulative_scores@.len() == g,
            is_permutation_of_range(order@, g as int),
            buckets@.len() == g,
            full.len() == g,
            forall|q: int| 0 <= q < g ==> (#[trigger] full[q])@ == meanings_of_word(hits@, all, groups@[q].word_id, n as int),
            forall|q: int| 0 <= q < g && (forall|p: int| 0 <= p < i ==> order@[p] != q) ==> #[trigger] buckets@[q] == full[q],
            ranked@.len() == i,
            is_ranking_in_order(ranked@, order@.subrange(0, i as int), groups@, hits@, all, cumulative_scores@),
        decreases g - i,
    {
        let k = order[i];
        assert(forall|p: int| 0 <= p < i ==> order@[p] != k);
        let mut bucket: Vec<ScoredMeaning> = Vec::new();
        std::mem::swap(&mut bucket, &mut buckets[k]);
        assert(bucket == full[k as int]);
        let group = &groups[k];
        ranked.push(RankedWord {
            language: group.language,
            word_id: group.word_id,
            cumulative_score_bits: cumulative_scores[k],
            meanings: bucket,
        });
        proof {
            assert forall|q: int| 0 <= q < g && (forall|p: int| 0 <= p < i + 1 ==> order@[p] != q)
                implies #[trigger] buckets@[q] == full[q] by {
                assert(order@[i as int] != q);
            }
            let prefix = order@.subrange(0, i + 1);
            assert forall|x: int| 0 <= x < ranked@.len() implies {
                let gr = groups@[prefix[x] as int];
                &&& (#[trigger] ranked@[x]).word_id == gr.word_id
                &&& ranked@[x].language == gr.language
                &&& ranked@[x].cumulative_score_bits == cumulative_scores@[prefix[x] as int]
                &&& ranked@[x].meanings@ == meanings_of_word(hits@, all, gr.word_id, hits@.len() as int)
            } by {
                if x < i {
                    assert(prefix[x] == order@.subrange(0, i as int)[x]);
                }
            }
        }
        i = i + 1;
    }
    assert(order@.subrange(0, g as int) =~= order@);
    ranked
}

/// A key whose unsigned order is the order `f32::total_cmp` gives the floats
/// with bit pattern `bits`: negative numbers (sign bit set) have all bits
/// flipped, the others have the sign bit set.
pub open spec fn total_order_key(bits: u32) -> u32 {
    if bits >= 0x8000_0000 { (0xFFFF_FFFFu32 - bits) as u32 } else { (bits + 0x8000_0000u32) as u32 }
}

/// The total-order key of an `f32` bit pattern (see [`total_order_key`]).
pub fn score_order_key(bits: u32) -> (r: u32)
    ensures
        r == total_order_key(bits),
{
    if bits >= 0x8000_0000 { 0xFFFF_FFFFu32 - bits } else { bits + 0x8000_0000u32 }
}

/// Whether the `f32` with bit pattern `a` comes strictly before the one with
/// bit pattern `b` in IEEE 754 total order (the order of `f32::total_cmp`):
/// every value with the sign bit set comes before every value without it;
/// without the sign bit, larger magnitude bits are larger; with it, larger
/// magnitude bits are smaller.
pub open spec fn float_total_less(a: u32, b: u32) -> bool {
    let a_negative = a >= 0x8000_0000;
    let b_negative = b >= 0x8000_0000;
    if a_negative != b_negative {
        a_negative
    } else if a_negative {
        a > b
    } else {
        a < b
    }
}

/// The score key orders bit patterns exactly as IEEE 754 total order orders
/// their floats, and tells distinct bit patterns apart.
pub proof fn lemma_score_key_follows_float_total_order(a: u32, b: u32)
    ensures
        total_order_key(a) < total_order_key(b) <==> float_total_less(a, b),
        total_order_key(a) == total_order_key(b) <==> a == b,
{
    assert((if a >= 0x8000_0000u32 { (0xFFFF_FFFFu32 - a) as u32 } else { (a + 0x8000_0000u32) as u32 })
        < (if b >= 0x8000_0000u32 { (0xFFFF_FFFFu32 - b) as u32 } else { (b + 0x8000_0000u32) as u32 })
        <==> (if (a >= 0x8000_0000u32) != (b >= 0x8000_0000u32) { a >= 0x8000_0000u32 } else if a >= 0x8000_0000u32 { a > b } else { a < b }))
        by (bit_vector);
    assert(((if a >= 0x8000_0000u32 { (0xFFFF_FFFFu32 - a) as u32 } else { (a + 0x8000_0000u32) as u32 })
        == (if b >= 0x8000_0000u32 { (0xFFFF_FFFFu32 - b) as u32 } else { (b + 0x8000_0000u32) as u32 }))
        <==> a == b) by (bit_vector);
}

/// Whether `order` never puts a score before a strictly greater one (in IEEE
/// 754 total order of the `f32`s with these bit patterns).
pub open spec fn is_descending_in_float_order(order: Seq<usize>, scores: Seq<u32>) -> bool {
    forall|i: int, j: int| 0 <= i < j < order.len()
        ==> !float_total_less(#[trigger] scores[order[i] as int], #[trigger] scores[order[j] as int])
}

/// An order descending by score key is descending in float total order.
pub proof fn lemma_key_order_is_float_order(order: Seq<usize>, scores: Seq<u32>)
    requires
        is_descending_by_score(order, scores),
    ensures
        is_descending_in_float_order(order, scores),
{
    assert forall|i: int, j: int| 0 <= i < j < order.len()
        implies !float_total_less(#[trigger] scores[order[i] as int], #[trigger] scores[order[j] as int]) by {
        lemma_score_key_follows_float_total_order(scores[order[i] as int], scores[order[j] as int]);
    }
}

/// Whether `order` lists each of `0..n` exactly once.
pub open spec fn is_permutation_of_range(order: Seq<usize>, n: int) -> bool {
    &&& order.len() == n
    &&& forall|i: int| 0 <= i < n ==> #[trigger] order[i] < n
    &&& forall|i: int, j: int| 0 <= i < j < n ==> order[i] != order[j]
}

/// Whether `order` lists scores from the highest to the lowest.
pub open spec fn is_descending_by_score(order: Seq<usize>, scores: Seq<u32>) -> bool {
    forall|i: int, j: int| 0 <= i < j < order.len()
        ==> total_order_key(scores[order[i] as int]) >= total_order_key(scores[order[j] as int])
}

/// Orders groups by their cumulative score (given as `f32` bit patterns),
/// highest first.
pub fn order_by_cumulative_score(scores: &Vec<u32>) -> (order: Vec<usize>)
    ensures
        is_permutation_of_range(order@, scores@.len() as int),
        is_descending_by_score(order@, scores@),
        is_descending_in_float_order(order@, scores@),
{
    let n = scores.len();
    let mut order: Vec<usize> = Vec::new();
    let mut i: usize = 0;
    while i < n
        invariant
            n == scores@.len(),
            i <= n,
            is_permutation_of_range(order@, i as int),
            is_descending_by_score(order@, scores@),
        decreases n - i,
    {
        let key = score_order_key(scores[i]);
        let mut p: usize = 0;
        while p < order.len() && score_order_key(scores[order[p]]) >= key
            invariant
                n == scores@.len(),
                i < n,
                key == total_order_key(scores@[i as int]),
                is_permutation_of_range(order@, i as int),
                p <= order@.len(),
                forall|q: int| 0 <= q < p ==> total_order_key(scores@[order@[q] as int]) >= key,
            decreases order@.len() - p,
        {
            p = p + 1;
        }
        proof {
            assert forall|q: int| p <= q < order@.len() implies total_order_key(scores@[order@[q] as int]) < key by {
                if p < order@.len() {
                    assert(total_order_key(scores@[order@[p as int] as int]) < key);
                    if q > p {
                        assert(total_order_key(scores@[order@[p as int] as int]) >= total_order_key(scores@[order@[q] as int]));
                    }
                }
            }
        }
        let ghost old_order = order@;
        order.insert(p, i);
        proof {
            assert(order@ == old_order.insert(p as int, i));
            assert forall|a: int| 0 <= a < i + 1 implies #[trigger] order@[a] < i + 1 by {
                if a < p { assert(order@[a] == old_order[a]); }
                else if a > p { assert(order@[a] == old_order[a - 1]); }
            }
            assert forall|a: int, b: int| 0 <= a < b < i + 1 implies order@[a] != order@[b] by {
                if a < p { assert(order@[a] == old_order[a]); }
                else if a > p { assert(order@[a] == old_order[a - 1]); }
                if b < p { assert(order@[b] == old_order[b]); }
                else if b > p { assert(order@[b] == old_order[b - 1]); }
            }
            assert forall|a: int, b: int| 0 <= a < b < order@.len()
                implies total_order_key(scores@[order@[a] as int]) >= total_order_key(scores@[order@[b] as int]) by {
                if a < p { assert(order@[a] == old_order[a]); }
                else if a > p { assert(order@[a] == old_order[a - 1]); }
                if b < p { assert(order@[b] == old_order[b]); }
                else if b > p { assert(order@[b] == old_order[b - 1]); }
            }
        }
        i = i + 1;
    }
    proof { lemma_key_order_is_float_order(order@, scores@); }
    order
}

} // verus!
