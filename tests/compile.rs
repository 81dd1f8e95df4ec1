use tantivy::schema::{IndexRecordOption, Schema, TextFieldIndexing, INDEXED, STORED, TEXT};
use tantivy::tokenizer::{SimpleTokenizer, TextAnalyzer};
use tantivy::Index;
use tantivy_go::compile::{compile, compile_with};
use tantivy_go::error::CompileError;
use tantivy_go::models::QueryModifier::{Must, MustNot, Should};
use tantivy_go::models::{Boost, BoolQuery, FinalQuery, GoQuery, QueryElement, QueryModifier};
use tantivy_go::plan::{Occur, QueryNode, Weight};
use tantivy_go::terms::{extract_terms, ExtractError, Extraction};

fn boost(b: f32) -> Boost {
    Boost::from_bits(b.to_bits())
}

fn strings(items: &[&str]) -> Vec<String> {
    items.iter().map(|s| s.to_string()).collect()
}

fn el(modifier: QueryModifier, query: GoQuery) -> QueryElement {
    QueryElement { query: Some(query), modifier }
}

/// A RAM index whose text fields use the simple tokenizer, plus a numeric field.
fn index_with(fields: &[&str]) -> (Index, Schema) {
    let text_analyzer_simple = TextAnalyzer::builder(SimpleTokenizer::default()).build();
    let mut text_options = TEXT;
    text_options = text_options | STORED;
    text_options = text_options.set_indexing_options(
        TextFieldIndexing::default()
            .set_tokenizer("simple")
            .set_index_option(IndexRecordOption::WithFreqsAndPositions),
    );
    let mut schema_builder = Schema::builder();
    for name in fields {
        schema_builder.add_text_field(name, text_options.clone());
    }
    schema_builder.add_i64_field("count", INDEXED);
    let schema = schema_builder.build();
    let index = Index::create_in_ram(schema.clone());
    index.tokenizers().register("simple", text_analyzer_simple);
    (index, schema)
}

fn terms(words: &[&str]) -> Vec<(usize, String)> {
    words.iter().enumerate().map(|(i, w)| (i, w.to_string())).collect()
}

fn phrase(field: u32, words: &[&str]) -> QueryNode {
    QueryNode::Phrase { field, terms: terms(words) }
}

fn phrase_prefix(field: u32, words: &[&str]) -> QueryNode {
    QueryNode::PhrasePrefix { field, terms: terms(words) }
}

fn term(field: u32, text: &str) -> QueryNode {
    QueryNode::Term { field, text: text.to_string(), positions: false }
}

fn boosted(node: QueryNode, b: f32) -> QueryNode {
    QueryNode::Boosted { node: Box::new(node), weight: Weight::Given(boost(b)) }
}

fn expected_query() -> FinalQuery {
    FinalQuery {
        texts: strings(&[
            "some words",
            "term",
            "another term",
            "term2",
            "term3",
            "not single term",
            "sample three words",
            "one",
        ]),
        fields: strings(&[
            "body1", "body2", "body3", "title1", "title2", "title3", "summary", "comments",
        ]),
        query: BoolQuery {
            subqueries: vec![
                el(Must, GoQuery::PhraseQuery { field_index: 0, text_index: 0, boost: boost(1.0) }),
                el(Should, GoQuery::PhrasePrefixQuery { field_index: 1, text_index: 1, boost: boost(1.0) }),
                el(MustNot, GoQuery::TermPrefixQuery { field_index: 2, text_index: 1, boost: boost(1.0) }),
                el(Must, GoQuery::PhraseQuery { field_index: 3, text_index: 2, boost: boost(0.1) }),
                el(Should, GoQuery::PhrasePrefixQuery { field_index: 4, text_index: 3, boost: boost(0.1) }),
                el(MustNot, GoQuery::TermPrefixQuery { field_index: 5, text_index: 3, boost: boost(0.1) }),
                el(
                    Must,
                    GoQuery::BoolQuery {
                        subqueries: vec![
                            el(Should, GoQuery::PhrasePrefixQuery { field_index: 6, text_index: 4, boost: boost(1.0) }),
                            el(
                                Should,
                                GoQuery::BoolQuery {
                                    subqueries: vec![
                                        el(Must, GoQuery::PhraseQuery { field_index: 7, text_index: 5, boost: boost(0.8) }),
                                        el(MustNot, GoQuery::EveryTermQuery { field_index: 0, text_index: 6, boost: boost(0.4) }),
                                    ],
                                    boost: boost(0.3f32),
                                },
                            ),
                        ],
                        boost: boost(1f32),
                    },
                ),
                el(Must, GoQuery::OneOfTermQuery { field_index: 1, text_index: 6, boost: boost(1f32) }),
                el(Must, GoQuery::PhraseQuery { field_index: 1, text_index: 7, boost: boost(1f32) }),
                el(Must, GoQuery::TermQuery { field_index: 1, text_index: 7, boost: boost(1f32) }),
            ],
        },
    }
}

#[test]
fn test_convert() {
    let given_query = expected_query();
    let (index, _schema) = index_with(&[
        "body1", "body2", "body3", "title1", "title2", "title3", "summary", "comments",
    ]);
    let (body1, body2, body3, title1, title2, title3, summary, comments) = (0, 1, 2, 3, 4, 5, 6, 7);

    let parsed = compile(&index, &given_query).expect("can't convert");
    let expected = QueryNode::Boolean {
        clauses: vec![
            (Occur::Must, phrase(body1, &["some", "words"])),
            (Occur::Should, phrase_prefix(body2, &["term"])),
            (Occur::MustNot, phrase_prefix(body3, &["term"])),
            (Occur::Must, boosted(phrase(title1, &["another", "term"]), 0.1)),
            (Occur::Should, boosted(phrase_prefix(title2, &["term2"]), 0.1)),
            (Occur::MustNot, boosted(phrase_prefix(title3, &["term2"]), 0.1)),
            (
                Occur::Must,
                QueryNode::Boolean {
                    clauses: vec![
                        (Occur::Should, phrase_prefix(summary, &["term3"])),
                        (
                            Occur::Should,
                            boosted(
                                QueryNode::Boolean {
                                    clauses: vec![
                                        (
                                            Occur::Must,
                                            boosted(phrase(comments, &["not", "single", "term"]), 0.8),
                                        ),
                                        (
                                            Occur::MustNot,
                                            boosted(
                                                QueryNode::Boolean {
                                                    clauses: vec![
                                                        (Occur::Must, term(body1, "sample")),
                                                        (Occur::Must, term(body1, "three")),
                                                        (Occur::Must, term(body1, "words")),
                                                    ],
                                                },
                                                0.4f32,
                                            ),
                                        ),
                                    ],
                                },
                                0.3f32,
                            ),
                        ),
                    ],
                },
            ),
            (
                Occur::Must,
                QueryNode::Boolean {
                    clauses: vec![
                        (
                            Occur::Should,
                            QueryNode::Boosted {
                                node: Box::new(term(body2, "sample")),
                                weight: Weight::Decay { rank: 1, count: 3 },
                            },
                        ),
                        (
                            Occur::Should,
                            QueryNode::Boosted {
                                node: Box::new(term(body2, "three")),
                                weight: Weight::Decay { rank: 2, count: 3 },
                            },
                        ),
                        (
                            Occur::Should,
                            QueryNode::Boosted {
                                node: Box::new(term(body2, "words")),
                                weight: Weight::Decay { rank: 3, count: 3 },
                            },
                        ),
                    ],
                },
            ),
            (
                Occur::Must,
                QueryNode::Term { field: body2, text: "one".to_string(), positions: true },
            ),
            (Occur::Must, term(body2, "one")),
        ],
    };
    assert_eq!(parsed, expected);
}

fn one_clause(texts: &[&str], fields: &[&str], e: QueryElement) -> FinalQuery {
    FinalQuery {
        texts: strings(texts),
        fields: strings(fields),
        query: BoolQuery { subqueries: vec![e] },
    }
}

#[test]
fn compile_is_deterministic() {
    let (index, _schema) = index_with(&[
        "body1", "body2", "body3", "title1", "title2", "title3", "summary", "comments",
    ]);
    let q = expected_query();
    assert_eq!(compile(&index, &q), compile(&index, &q));
}

#[test]
fn leaf_boost_of_one_adds_no_node() {
    let (index, _schema) = index_with(&["body"]);
    let plain = one_clause(
        &["x"],
        &["body"],
        el(QueryModifier::Must, GoQuery::TermQuery { field_index: 0, text_index: 0, boost: boost(1.0) }),
    );
    let scaled = one_clause(
        &["x"],
        &["body"],
        el(QueryModifier::Must, GoQuery::TermQuery { field_index: 0, text_index: 0, boost: boost(2.5) }),
    );
    assert_eq!(
        compile(&index, &plain),
        Ok(QueryNode::Boolean { clauses: vec![(Occur::Must, term(0, "x"))] })
    );
    assert_eq!(
        compile(&index, &scaled),
        Ok(QueryNode::Boolean { clauses: vec![(Occur::Must, boosted(term(0, "x"), 2.5))] })
    );
}

#[test]
fn single_term_phrase_is_a_term_match() {
    let (index, _schema) = index_with(&["body"]);
    let q = one_clause(
        &["hello"],
        &["body"],
        el(QueryModifier::Should, GoQuery::PhraseQuery { field_index: 0, text_index: 0, boost: boost(1.0) }),
    );
    assert_eq!(
        compile(&index, &q),
        Ok(QueryNode::Boolean {
            clauses: vec![(
                Occur::Should,
                QueryNode::Term { field: 0, text: "hello".to_string(), positions: true }
            )]
        })
    );
}

#[test]
fn empty_text_required_clause_matches_nothing() {
    let (index, _schema) = index_with(&["body"]);
    let q = one_clause(
        &["  ...  "],
        &["body"],
        el(QueryModifier::Must, GoQuery::EveryTermQuery { field_index: 0, text_index: 0, boost: boost(3.0) }),
    );
    assert_eq!(
        compile(&index, &q),
        Ok(QueryNode::Boolean { clauses: vec![(Occur::Must, QueryNode::Nothing)] })
    );
}

#[test]
fn empty_text_optional_clause_is_dropped() {
    let (index, _schema) = index_with(&["body"]);
    let q = FinalQuery {
        texts: strings(&["", "kept"]),
        fields: strings(&["body"]),
        query: BoolQuery {
            subqueries: vec![
                el(QueryModifier::Should, GoQuery::TermQuery { field_index: 0, text_index: 0, boost: boost(1.0) }),
                el(QueryModifier::MustNot, GoQuery::PhraseQuery { field_index: 0, text_index: 0, boost: boost(1.0) }),
                el(QueryModifier::Should, GoQuery::TermQuery { field_index: 0, text_index: 1, boost: boost(1.0) }),
            ],
        },
    };
    assert_eq!(
        compile(&index, &q),
        Ok(QueryNode::Boolean { clauses: vec![(Occur::Should, term(0, "kept"))] })
    );
}

#[test]
fn group_of_dropped_clauses_follows_its_own_modifier() {
    let (index, _schema) = index_with(&["body"]);
    let dropped = || el(QueryModifier::Should, GoQuery::TermQuery { field_index: 0, text_index: 0, boost: boost(1.0) });
    let q = FinalQuery {
        texts: strings(&[""]),
        fields: strings(&["body"]),
        query: BoolQuery {
            subqueries: vec![
                el(QueryModifier::Must, GoQuery::BoolQuery { subqueries: vec![dropped()], boost: boost(2.0) }),
                el(QueryModifier::Should, GoQuery::BoolQuery { subqueries: vec![dropped()], boost: boost(2.0) }),
            ],
        },
    };
    assert_eq!(
        compile(&index, &q),
        Ok(QueryNode::Boolean { clauses: vec![(Occur::Must, QueryNode::Nothing)] })
    );
}

#[test]
fn every_term_is_a_conjunction() {
    let (index, _schema) = index_with(&["body"]);
    let q = one_clause(
        &["a b c"],
        &["body"],
        el(QueryModifier::Must, GoQuery::EveryTermQuery { field_index: 0, text_index: 0, boost: boost(2.0) }),
    );
    let conj = QueryNode::Boolean {
        clauses: vec![(Occur::Must, term(0, "a")), (Occur::Must, term(0, "b")), (Occur::Must, term(0, "c"))],
    };
    assert_eq!(
        compile(&index, &q),
        Ok(QueryNode::Boolean { clauses: vec![(Occur::Must, boosted(conj, 2.0))] })
    );
}

#[test]
fn one_of_terms_weights_decay() {
    let (index, _schema) = index_with(&["body"]);
    let q = one_clause(
        &["x y"],
        &["body"],
        el(QueryModifier::Should, GoQuery::OneOfTermQuery { field_index: 0, text_index: 0, boost: boost(1.0) }),
    );
    let disj = QueryNode::Boolean {
        clauses: vec![
            (Occur::Should, QueryNode::Boosted { node: Box::new(term(0, "x")), weight: Weight::Decay { rank: 1, count: 2 } }),
            (Occur::Should, QueryNode::Boosted { node: Box::new(term(0, "y")), weight: Weight::Decay { rank: 2, count: 2 } }),
        ],
    };
    assert_eq!(
        compile(&index, &q),
        Ok(QueryNode::Boolean { clauses: vec![(Occur::Should, disj)] })
    );
}

#[test]
fn all_dropped_is_no_usable_clauses() {
    let (index, _schema) = index_with(&["body"]);
    let q = one_clause(
        &["!!!"],
        &["body"],
        el(QueryModifier::Should, GoQuery::TermQuery { field_index: 0, text_index: 0, boost: boost(1.0) }),
    );
    assert_eq!(compile(&index, &q), Err(CompileError::NoUsableClauses));
}

#[test]
fn bad_indices_fail_anywhere() {
    let (index, _schema) = index_with(&["body"]);
    let deep_field = one_clause(
        &["x"],
        &["body"],
        el(
            QueryModifier::Should,
            GoQuery::BoolQuery {
                subqueries: vec![el(QueryModifier::Should, GoQuery::TermQuery { field_index: 4, text_index: 0, boost: boost(1.0) })],
                boost: boost(1.0),
            },
        ),
    );
    assert_eq!(compile(&index, &deep_field), Err(CompileError::InvalidFieldIndex));
    let text = one_clause(
        &["x"],
        &["body"],
        el(QueryModifier::Must, GoQuery::TermQuery { field_index: 0, text_index: 1, boost: boost(1.0) }),
    );
    assert_eq!(compile(&index, &text), Err(CompileError::InvalidTextIndex));
}

#[test]
fn tables_may_be_empty_only_with_match_all() {
    let (index, _schema) = index_with(&["body"]);
    let all = FinalQuery {
        texts: vec![],
        fields: vec![],
        query: BoolQuery { subqueries: vec![el(QueryModifier::Must, GoQuery::AllQuery { boost: boost(1.0) })] },
    };
    assert_eq!(
        compile(&index, &all),
        Ok(QueryNode::Boolean { clauses: vec![(Occur::Must, QueryNode::All)] })
    );
    let no_all = one_clause(
        &[],
        &["body"],
        el(QueryModifier::Must, GoQuery::TermQuery { field_index: 0, text_index: 0, boost: boost(1.0) }),
    );
    assert_eq!(compile(&index, &no_all), Err(CompileError::EmptyTables));
}

#[test]
fn missing_payload_fails() {
    let (index, _schema) = index_with(&["body"]);
    let q = one_clause(&["x"], &["body"], QueryElement { query: None, modifier: QueryModifier::Must });
    assert_eq!(compile(&index, &q), Err(CompileError::MissingQuery));
}

#[test]
fn unknown_field_and_missing_analyzer_fail() {
    let (index, _schema) = index_with(&["body"]);
    let unknown = one_clause(
        &["x"],
        &["nope"],
        el(QueryModifier::Should, GoQuery::TermQuery { field_index: 0, text_index: 0, boost: boost(1.0) }),
    );
    assert_eq!(compile(&index, &unknown), Err(CompileError::UnknownField));
    let numeric = one_clause(
        &["x"],
        &["count"],
        el(QueryModifier::Should, GoQuery::TermQuery { field_index: 0, text_index: 0, boost: boost(1.0) }),
    );
    assert!(matches!(
        compile(&index, &numeric),
        Err(CompileError::AnalyzerUnavailable { .. })
    ));
}

#[test]
fn unreferenced_broken_field_is_harmless() {
    let (index, _schema) = index_with(&["body"]);
    let q = one_clause(
        &["x"],
        &["body", "nope"],
        el(QueryModifier::Must, GoQuery::TermQuery { field_index: 0, text_index: 0, boost: boost(1.0) }),
    );
    assert_eq!(
        compile(&index, &q),
        Ok(QueryNode::Boolean { clauses: vec![(Occur::Must, term(0, "x"))] })
    );
}

#[test]
fn extract_terms_keeps_positions_and_reports_empty() {
    let (index, _schema) = index_with(&["body"]);
    assert_eq!(
        extract_terms(&index, "body", "big red dog"),
        Ok((0, vec![(0, "big".to_string()), (1, "red".to_string()), (2, "dog".to_string())]))
    );
    assert_eq!(extract_terms(&index, "body", " , "), Err(ExtractError::Empty));
    assert_eq!(extract_terms(&index, "other", "x"), Err(ExtractError::UnknownField));
}

#[test]
fn compile_with_uses_the_given_table() {
    let q = one_clause(
        &["whatever"],
        &["f"],
        el(QueryModifier::Must, GoQuery::PhrasePrefixQuery { field_index: 0, text_index: 0, boost: boost(1.0) }),
    );
    let table: Vec<Vec<Extraction>> = vec![vec![Ok((9, vec![(0, "ab".to_string()), (2, "cd".to_string())]))]];
    assert_eq!(
        compile_with(&q, &table),
        Ok(QueryNode::Boolean {
            clauses: vec![(
                Occur::Must,
                QueryNode::PhrasePrefix { field: 9, terms: vec![(0, "ab".to_string()), (2, "cd".to_string())] }
            )]
        })
    );
    let failing: Vec<Vec<Extraction>> = vec![vec![Err(ExtractError::AnalyzerUnavailable { reason: "r".to_string() })]];
    assert_eq!(
        compile_with(&q, &failing),
        Err(CompileError::AnalyzerUnavailable { reason: "r".to_string() })
    );
}
