use tantivy_go::edge_ngram::{EdgeNgramTokenizer, EdgeToken};

fn token(offset_to: usize, position: usize, text: &str) -> EdgeToken {
    EdgeToken {
        offset_from: 0,
        offset_to,
        position,
        text: text.to_string(),
        position_length: 1,
    }
}

#[test]
fn test_edge_ngram_tokenizer_thai() {
    let tokenizer = EdgeNgramTokenizer::new(1, 4, 20);
    let tokens = tokenizer.tokenize("ตัวอย่ง");
    let expected_tokens = vec![
        token(1, 0, "ตั"),
        token(1, 1, "ว"),
        token(1, 2, "อ"),
        token(1, 3, "ย่"),
        token(1, 4, "ง"),
    ];
    assert_eq!(tokens, expected_tokens);
}

#[test]
fn test_edge_ngram_tokenizer_basic() {
    let tokenizer = EdgeNgramTokenizer::new(2, 5, 20);
    let tokens = tokenizer.tokenize("hello my friend");
    let expected_tokens = vec![
        token(2, 0, "he"),
        token(3, 0, "hel"),
        token(4, 0, "hell"),
        token(5, 0, "hello"),
        token(2, 1, "my"),
        token(2, 2, "fr"),
        token(3, 2, "fri"),
        token(4, 2, "frie"),
        token(5, 2, "frien"),
    ];
    assert_eq!(tokens, expected_tokens);
}

#[test]
fn test_edge_ngram_tokenizer_with_limit() {
    let tokenizer = EdgeNgramTokenizer::new(2, 5, 10);
    let tokens = tokenizer.tokenize("hello my friend");
    let expected_tokens = vec![
        token(2, 0, "he"),
        token(3, 0, "hel"),
        token(4, 0, "hell"),
        token(5, 0, "hello"),
        token(2, 1, "my"),
    ];
    assert_eq!(tokens, expected_tokens);
}

#[test]
fn test_edge_ngram_tokenizer_min_gram() {
    let tokenizer = EdgeNgramTokenizer::new(2, 3, 10);
    let tokens = tokenizer.tokenize("hi my");
    let expected_tokens = vec![token(2, 0, "hi"), token(2, 1, "my")];
    assert_eq!(tokens, expected_tokens);
}

#[test]
fn test_edge_ngram_tokenizer_empty_string() {
    let tokenizer = EdgeNgramTokenizer::new(1, 3, 10);
    assert!(tokenizer.tokenize("").is_empty());
}

#[test]
fn test_edge_ngram_tokenizer_word_shorter_than_min_gram() {
    let tokenizer = EdgeNgramTokenizer::new(6, 10, 10);
    assert!(tokenizer.tokenize("hello").is_empty());
}

#[test]
fn edge_ngram_short_word_takes_no_position() {
    // "a" yields nothing, so "cat" is the first word that produces tokens.
    let tokenizer = EdgeNgramTokenizer::new(2, 3, 20);
    let tokens = tokenizer.tokenize("a cat");
    assert_eq!(tokens, vec![token(2, 0, "ca"), token(3, 0, "cat")]);
}

#[test]
fn edge_ngram_truncates_by_cluster_before_splitting() {
    // Six clusters keep "hello " and drop "world" entirely.
    let tokenizer = EdgeNgramTokenizer::new(1, 2, 6);
    let tokens = tokenizer.tokenize("hello world");
    assert_eq!(tokens, vec![token(1, 0, "h"), token(2, 0, "he")]);
    // A cut inside the second word keeps its leading clusters.
    let tokenizer = EdgeNgramTokenizer::new(1, 5, 8);
    let tokens = tokenizer.tokenize("ab cdefg");
    assert_eq!(
        tokens,
        vec![
            token(1, 0, "a"),
            token(2, 0, "ab"),
            token(1, 1, "c"),
            token(2, 1, "cd"),
            token(3, 1, "cde"),
            token(4, 1, "cdef"),
            token(5, 1, "cdefg"),
        ]
    );
}

#[test]
fn edge_ngram_keeps_combining_marks_in_clusters() {
    // "e\u{301}" is one cluster: a two-cluster word of three chars.
    let tokenizer = EdgeNgramTokenizer::new(1, 2, 10);
    let tokens = tokenizer.tokenize("e\u{301}t");
    assert_eq!(tokens, vec![token(1, 0, "e\u{301}"), token(2, 0, "e\u{301}t")]);
}

#[test]
fn edge_ngram_over_given_words() {
    let tokenizer = EdgeNgramTokenizer::new(2, 3, 10);
    let words = vec![
        vec!["a".to_string()],
        vec!["b".to_string(), "c".to_string(), "d".to_string(), "e".to_string()],
    ];
    let tokens = tokenizer.grams_of_words(&words);
    assert_eq!(tokens, vec![token(2, 0, "bc"), token(3, 0, "bcd")]);
}

#[test]
fn edge_ngram_zero_min_gram_emits_empty_prefix() {
    let tokenizer = EdgeNgramTokenizer::new(0, 1, 10);
    let tokens = tokenizer.tokenize("xy");
    assert_eq!(tokens, vec![token(0, 0, ""), token(1, 0, "x")]);
}
