use voxtype::eager::{
    combine_chunk_results, count_complete_chunks, deduplicate_boundary, extract_chunk, EagerConfig,
};
use voxtype::state::ChunkResult;

/// 5 s chunks with 0.5 s overlap at 16 kHz
fn test_config() -> EagerConfig {
    EagerConfig::new(80000, 8000)
}

fn chunk(text: &str, chunk_index: usize) -> ChunkResult {
    ChunkResult { text: text.to_string(), chunk_index }
}

#[test]
fn test_chunk_samples() {
    let config = test_config();
    assert_eq!(config.chunk_samples(), 80000);
    assert_eq!(config.overlap_samples(), 8000);
    assert_eq!(config.stride_samples(), 72000);
}

#[test]
fn test_count_complete_chunks_empty() {
    let config = test_config();
    assert_eq!(count_complete_chunks(0, &config), 0);
}

#[test]
fn test_count_complete_chunks_less_than_one() {
    let config = test_config();
    assert_eq!(count_complete_chunks(40000, &config), 0);
}

#[test]
fn test_count_complete_chunks_one() {
    let config = test_config();
    assert_eq!(count_complete_chunks(80000, &config), 1);
}

#[test]
fn test_count_complete_chunks_multiple() {
    let config = test_config();
    assert_eq!(count_complete_chunks(152000, &config), 2);
    assert_eq!(count_complete_chunks(224000, &config), 3);
}

#[test]
fn test_count_complete_chunks_twelve_seconds() {
    let config = test_config();
    let audio_len = 192000;
    assert_eq!(count_complete_chunks(audio_len, &config), 2);
}

#[test]
fn test_extract_chunk_insufficient_data() {
    let config = test_config();
    let audio = vec![0.0f32; 40000];
    assert!(extract_chunk(&audio, 0, &config).is_none());
}

#[test]
fn test_extract_chunk_first() {
    let config = test_config();
    let audio: Vec<f32> = (0..100000).map(|i| i as f32).collect();
    let chunk = extract_chunk(&audio, 0, &config).unwrap();
    assert_eq!(chunk.len(), 80000);
    assert_eq!(chunk[0], 0.0);
}

#[test]
fn test_extract_chunk_second() {
    let config = test_config();
    let audio: Vec<f32> = (0..200000).map(|i| i as f32).collect();
    let chunk = extract_chunk(&audio, 1, &config).unwrap();
    assert_eq!(chunk.len(), 80000);
    assert_eq!(chunk[0], 72000.0);
}

#[test]
fn test_extract_chunk_ranges_for_twelve_seconds_audio() {
    let config = test_config();
    let audio: Vec<f32> = (0..192000).map(|i| i as f32).collect();

    let chunk0 = extract_chunk(&audio, 0, &config).unwrap();
    assert_eq!(chunk0.len(), 80000);
    assert_eq!(chunk0[0], 0.0);
    assert_eq!(chunk0[79999], 79999.0);

    let chunk1 = extract_chunk(&audio, 1, &config).unwrap();
    assert_eq!(chunk1.len(), 80000);
    assert_eq!(chunk1[0], 72000.0);
    assert_eq!(chunk1[79999], 151999.0);
}

#[test]
fn test_deduplicate_boundary_no_overlap() {
    let result = deduplicate_boundary("hello world", "foo bar");
    assert_eq!(result, "foo bar");
}

#[test]
fn test_deduplicate_boundary_single_word_overlap() {
    let result = deduplicate_boundary("hello world", "world foo bar");
    assert_eq!(result, "foo bar");
}

#[test]
fn test_deduplicate_boundary_multi_word_overlap() {
    let result = deduplicate_boundary("hello world foo", "world foo bar baz");
    assert_eq!(result, "bar baz");
}

#[test]
fn test_deduplicate_boundary_case_insensitive() {
    let result = deduplicate_boundary("Hello World", "world foo");
    assert_eq!(result, "foo");
}

#[test]
fn test_deduplicate_boundary_empty_previous() {
    let result = deduplicate_boundary("", "hello world");
    assert_eq!(result, "hello world");
}

#[test]
fn test_deduplicate_boundary_empty_new() {
    let result = deduplicate_boundary("hello world", "");
    assert_eq!(result, "");
}

#[test]
fn test_combine_chunk_results_empty() {
    let results: Vec<ChunkResult> = vec![];
    assert_eq!(combine_chunk_results(results), "");
}

#[test]
fn test_combine_chunk_results_single() {
    let results = vec![chunk("hello world", 0)];
    assert_eq!(combine_chunk_results(results), "hello world");
}

#[test]
fn test_combine_chunk_results_multiple_no_overlap() {
    let results = vec![chunk("hello world", 0), chunk("foo bar", 1)];
    assert_eq!(combine_chunk_results(results), "hello world foo bar");
}

#[test]
fn test_combine_chunk_results_with_overlap() {
    let results = vec![chunk("hello world foo", 0), chunk("foo bar baz", 1)];
    assert_eq!(combine_chunk_results(results), "hello world foo bar baz");
}

#[test]
fn test_combine_chunk_results_deduplicates_overlap_boundary() {
    let results = vec![
        chunk("we should deploy this now", 0),
        chunk("deploy this now please", 1),
    ];
    assert_eq!(combine_chunk_results(results), "we should deploy this now please");
}

#[test]
fn test_combine_chunk_results_out_of_order() {
    let results = vec![chunk("bar baz", 1), chunk("hello world bar", 0)];
    assert_eq!(combine_chunk_results(results), "hello world bar baz");
}

#[test]
fn test_combine_chunk_results_three_chunks() {
    let results = vec![
        chunk("one two three", 0),
        chunk("three four five", 1),
        chunk("five six seven", 2),
    ];
    assert_eq!(combine_chunk_results(results), "one two three four five six seven");
}

// ---------------------------------------------------------------------------
// Further cases
// ---------------------------------------------------------------------------

#[test]
fn complete_chunks_are_extractable_and_the_next_is_not() {
    let config = test_config();
    let audio: Vec<u8> = vec![7; 230000];
    let n = count_complete_chunks(audio.len(), &config);
    assert_eq!(n, 3);
    for i in 0..n {
        assert!(extract_chunk(&audio, i, &config).is_some());
    }
    assert!(extract_chunk(&audio, n, &config).is_none());
}

#[test]
fn consecutive_chunks_share_the_overlap() {
    let config = test_config();
    let audio: Vec<u32> = (0..300000).collect();
    let a = extract_chunk(&audio, 1, &config).unwrap();
    let b = extract_chunk(&audio, 2, &config).unwrap();
    assert_eq!(&a[72000..], &b[..8000]);
}

#[test]
fn stride_saturates_when_overlap_exceeds_chunk() {
    let config = EagerConfig::new(100, 150);
    assert_eq!(config.stride_samples(), 0);
    assert_eq!(count_complete_chunks(50, &config), 0);
}

#[test]
fn combine_ignores_arrival_order() {
    let in_order = vec![chunk("alpha beta", 0), chunk("beta gamma", 1), chunk("delta", 2)];
    let shuffled = vec![chunk("delta", 2), chunk("alpha beta", 0), chunk("beta gamma", 1)];
    assert_eq!(combine_chunk_results(in_order), combine_chunk_results(shuffled));
}

#[test]
fn combine_keeps_single_chunk_untrimmed() {
    let results = vec![chunk("  padded  ", 4)];
    assert_eq!(combine_chunk_results(results), "  padded  ");
}

#[test]
fn combine_trims_and_skips_fully_duplicated_chunk() {
    let results = vec![chunk(" one two ", 0), chunk("ONE TWO", 1), chunk("three", 2)];
    assert_eq!(combine_chunk_results(results), "one two three");
}

#[test]
fn deduplicate_prefers_longest_overlap() {
    // "a" alone and "a a" both match; the longer one is removed
    assert_eq!(deduplicate_boundary("x a a", "a a b"), "b");
}

#[test]
fn deduplicate_rejoins_words_with_single_spaces() {
    assert_eq!(deduplicate_boundary("end", "end\tnext   words\n"), "next words");
}

#[test]
fn deduplicate_keeps_whitespace_only_new_text() {
    assert_eq!(deduplicate_boundary("hello", "   "), "   ");
}
