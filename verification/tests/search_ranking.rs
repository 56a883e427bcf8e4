use kolomoni::models::{Timestamp, WordMeaningRecord, WordRecord};
use kolomoni::search::{
    rank_search_results, ScoredMeaning, build_scored_english_word_meaning_from_cache, build_scored_slovene_word_meaning_from_cache, CachedMeaning, TranslationLookup,
    group_search_hits, order_by_cumulative_score, score_order_key, DetailedSearchResultGenerationError, SearchHit, WordLanguage,
};

fn hit(word_id: u128, word_meaning_id: u128, score: f32) -> SearchHit {
    SearchHit {
        language: WordLanguage::English,
        word_id,
        word_meaning_id,
        score_bits: score.to_bits(),
        word_in_cache: true,
        meaning_in_cache: true,
    }
}

#[test]
fn hits_are_grouped_by_word_in_first_appearance_order() {
    let hits = vec![hit(10, 1, 0.5), hit(20, 2, 0.9), hit(10, 3, 0.1), hit(30, 4, 0.2), hit(20, 5, 0.3)];
    let groups = group_search_hits(&hits).unwrap();
    let words: Vec<u128> = groups.iter().map(|g| g.word_id).collect();
    assert_eq!(words, vec![10, 20, 30]);
    assert_eq!(groups[0].hit_indices, vec![0, 2]);
    assert_eq!(groups[1].hit_indices, vec![1, 4]);
    assert_eq!(groups[2].hit_indices, vec![3]);
}

#[test]
fn a_missing_word_is_reported_on_its_first_hit() {
    let mut hits = vec![hit(10, 1, 0.5), hit(20, 2, 0.9)];
    hits[1].word_in_cache = false;
    assert_eq!(
        group_search_hits(&hits),
        Err(DetailedSearchResultGenerationError::MatchedWordNotFoundInCache { word_id: 20 })
    );
}

#[test]
fn a_missing_meaning_is_reported() {
    let mut hits = vec![hit(10, 1, 0.5), hit(10, 2, 0.9)];
    hits[1].meaning_in_cache = false;
    // The word is only looked up on its first hit, so a later hit of a word
    // missing from the cache does not fail on the word.
    hits[1].word_in_cache = false;
    assert_eq!(
        group_search_hits(&hits),
        Err(DetailedSearchResultGenerationError::MatchedWordMeaningNotFoundInCache { word_meaning_id: 2 })
    );
}

#[test]
fn empty_results_give_no_groups() {
    assert_eq!(group_search_hits(&vec![]).unwrap().len(), 0);
    assert_eq!(order_by_cumulative_score(&vec![]), Vec::<usize>::new());
}

#[test]
fn score_keys_order_like_total_cmp() {
    let values = [f32::NEG_INFINITY, -3.5, -1.0, -0.0, 0.0, 1e-30, 0.25, 1.0, 7.5, f32::INFINITY, f32::NAN, -f32::NAN];
    for a in values {
        for b in values {
            let by_key = score_order_key(a.to_bits()).cmp(&score_order_key(b.to_bits()));
            assert_eq!(by_key, a.total_cmp(&b), "{} vs {}", a, b);
        }
    }
}

#[test]
fn groups_are_ordered_by_descending_cumulative_score() {
    let scores: Vec<u32> = [0.5f32, 2.25, -1.0, 2.25, 0.75].iter().map(|s| s.to_bits()).collect();
    let order = order_by_cumulative_score(&scores);
    assert_eq!(order.len(), 5);
    let ordered: Vec<f32> = order.iter().map(|&i| f32::from_bits(scores[i])).collect();
    assert_eq!(ordered, vec![2.25, 2.25, 0.75, 0.5, -1.0]);
    let mut seen = order.clone();
    seen.sort();
    assert_eq!(seen, vec![0, 1, 2, 3, 4]);
}

#[test]
fn scored_meanings_keep_only_fully_cached_translations() {
    let at = Timestamp { unix_seconds: 1, subsec_nanos: 0 };
    let meaning = |id| WordMeaningRecord { word_meaning_id: id, disambiguation: None, abbreviation: None, description: None, created_at: at, last_modified_at: at };
    let word = WordRecord { id: 9, lemma: "hiša".into(), created_at: at, last_modified_at: at };
    let cached = CachedMeaning {
        meaning: meaning(1),
        categories: vec![4, 5],
        translations: vec![
            TranslationLookup { link: Some((at, Some(7))), meaning: Some(meaning(2)), word: Some(word.clone()) },
            TranslationLookup { link: Some((at, None)), meaning: None, word: None },
            TranslationLookup { link: None, meaning: Some(meaning(3)), word: Some(word.clone()) },
        ],
    };
    let scored = build_scored_english_word_meaning_from_cache(Some(cached), 1.5f32.to_bits()).unwrap();
    assert_eq!(f32::from_bits(scored.score_bits), 1.5);
    assert_eq!(scored.meaning.word_meaning_id, 1);
    assert_eq!(scored.categories, vec![4, 5]);
    assert_eq!(scored.translations.len(), 1);
    assert_eq!(scored.translations[0].word_meaning.word_meaning_id, 2);
    assert_eq!(scored.translations[0].translated_by, Some(7));
    assert_eq!(build_scored_slovene_word_meaning_from_cache(None, 0), None);
}

#[test]
fn ranked_results_list_words_by_score_with_their_meanings() {
    let hits = vec![hit(10, 1, 0.5), hit(20, 2, 0.9), hit(10, 3, 0.1)];
    let groups = group_search_hits(&hits).unwrap();
    let at = Timestamp { unix_seconds: 1, subsec_nanos: 0 };
    let scored = |id: u128, score: f32| ScoredMeaning {
        score_bits: score.to_bits(),
        meaning: WordMeaningRecord { word_meaning_id: id, disambiguation: None, abbreviation: None, description: None, created_at: at, last_modified_at: at },
        categories: vec![],
        translations: vec![],
    };
    let meanings = vec![scored(1, 0.5), scored(2, 0.9), scored(3, 0.1)];
    let cumulative = vec![0.6f32.to_bits(), 0.9f32.to_bits()];
    let ranked = rank_search_results(&hits, &groups, meanings, &cumulative);
    assert_eq!(ranked.len(), 2);
    assert_eq!(ranked[0].word_id, 20);
    assert_eq!(ranked[0].meanings.iter().map(|m| m.meaning.word_meaning_id).collect::<Vec<_>>(), vec![2]);
    assert_eq!(ranked[1].word_id, 10);
    assert_eq!(f32::from_bits(ranked[1].cumulative_score_bits), 0.6);
    assert_eq!(ranked[1].meanings.iter().map(|m| m.meaning.word_meaning_id).collect::<Vec<_>>(), vec![1, 3]);
}
