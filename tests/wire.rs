use tantivy::schema::{IndexRecordOption, Schema, TextFieldIndexing, STORED, TEXT};
use tantivy::tokenizer::{SimpleTokenizer, TextAnalyzer};
use tantivy::Index;
use tantivy_go::compile::{compile_wire, parse_query_from_json, QueryError};
use tantivy_go::json::read_wire_query;
use tantivy_go::models::{Boost, GoQuery, QueryElement, QueryModifier, QueryType};
use tantivy_go::plan::{Occur, QueryNode, Weight};
use tantivy_go::wire::{decode_element, decode_query, encode_element, DecodeError, Slot, WireField};

fn boost(b: f32) -> Boost {
    Boost::from_bits(b.to_bits())
}

fn index() -> (Index, Schema) {
    let mut options = TEXT | STORED;
    options = options.set_indexing_options(
        TextFieldIndexing::default()
            .set_tokenizer("simple")
            .set_index_option(IndexRecordOption::WithFreqsAndPositions),
    );
    let mut builder = Schema::builder();
    builder.add_text_field("title", options.clone());
    builder.add_text_field("body", options);
    let schema = builder.build();
    let index = Index::create_in_ram(schema.clone());
    index.tokenizers().register("simple", TextAnalyzer::builder(SimpleTokenizer::default()).build());
    (index, schema)
}

const DOC: &str = r#"{
  "texts": ["quick fox", "lazy"],
  "fields": ["title", "body"],
  "query": {
    "subqueries": [
      {"query_modifier": 0, "query_type": 1, "query": {"field_index": 1, "text_index": 0, "boost": 0.5}},
      {"query_modifier": 2, "query_type": 0, "query": {"boost": 1.0, "subqueries": [
        {"query_modifier": 1, "query_type": 4, "query": {"field_index": 0, "text_index": 1}}
      ]}},
      {"query_modifier": 1, "query_type": 7, "query": {}}
    ]
  }
}"#;

#[test]
fn json_request_compiles() {
    let (index, _schema) = index();
    let node = parse_query_from_json(&index, DOC).expect("compiles");
    let expected = QueryNode::Boolean {
        clauses: vec![
            (
                Occur::Must,
                QueryNode::Boosted {
                    node: Box::new(QueryNode::Phrase {
                        field: 1,
                        terms: vec![(0, "quick".to_string()), (1, "fox".to_string())],
                    }),
                    weight: Weight::Given(boost(0.5)),
                },
            ),
            (
                Occur::MustNot,
                QueryNode::Boolean {
                    clauses: vec![(
                        Occur::Should,
                        QueryNode::Term { field: 0, text: "lazy".to_string(), positions: false },
                    )],
                },
            ),
            (Occur::Should, QueryNode::All),
        ],
    };
    assert_eq!(node, expected);
}

#[test]
fn json_decodes_with_defaults_and_keeps_references() {
    let w = read_wire_query(DOC).expect("json");
    let q = decode_query(w).expect("decodes");
    assert_eq!(q.texts, vec!["quick fox".to_string(), "lazy".to_string()]);
    assert_eq!(q.fields, vec!["title".to_string(), "body".to_string()]);
    assert_eq!(
        q.query.subqueries[0],
        QueryElement {
            query: Some(GoQuery::PhraseQuery { field_index: 1, text_index: 0, boost: boost(0.5) }),
            modifier: QueryModifier::Must,
        }
    );
    assert_eq!(
        q.query.subqueries[1],
        QueryElement {
            query: Some(GoQuery::BoolQuery {
                subqueries: vec![QueryElement {
                    query: Some(GoQuery::TermQuery { field_index: 0, text_index: 1, boost: Boost::one() }),
                    modifier: QueryModifier::Should,
                }],
                boost: boost(1.0),
            }),
            modifier: QueryModifier::MustNot,
        }
    );
    assert_eq!(
        q.query.subqueries[2],
        QueryElement { query: Some(GoQuery::AllQuery { boost: Boost::one() }), modifier: QueryModifier::Should }
    );
}

#[test]
fn wire_round_trip_keeps_references() {
    let w = read_wire_query(DOC).expect("json");
    let q = decode_query(w).expect("decodes");
    for e in &q.query.subqueries {
        let again = encode_element(e);
        assert_eq!(decode_element(&again).as_ref(), Ok(e));
    }
    let leaf = encode_element(&q.query.subqueries[0]);
    assert_eq!(leaf.field_index, Some(1));
    assert_eq!(leaf.text_index, Some(0));
    assert_eq!(leaf.query_type, Slot::Given(1));
    assert_eq!(leaf.query_modifier, Slot::Given(0));
}

fn first_fault(doc: &str) -> QueryError {
    let (index, _schema) = index();
    parse_query_from_json(&index, doc).expect_err("fails")
}

#[test]
fn decode_faults() {
    assert!(matches!(first_fault("{not json"), QueryError::Decode(DecodeError::Syntax { .. })));
    assert_eq!(
        first_fault(r#"{"fields": [], "query": {"subqueries": []}}"#),
        QueryError::Decode(DecodeError::MissingField { field: WireField::Texts })
    );
    assert_eq!(
        first_fault(r#"{"texts": ["a"], "fields": [1], "query": {"subqueries": []}}"#),
        QueryError::Decode(DecodeError::WrongShape { field: WireField::Fields })
    );
    let clause = |c: &str| format!(r#"{{"texts": ["a"], "fields": ["body"], "query": {{"subqueries": [{}]}}}}"#, c);
    assert_eq!(
        first_fault(&clause(r#"{"query_type": 4, "query": {}}"#)),
        QueryError::Decode(DecodeError::MissingField { field: WireField::QueryModifier })
    );
    assert_eq!(
        first_fault(&clause(r#"{"query_modifier": 3, "query_type": 4, "query": {}}"#)),
        QueryError::Decode(DecodeError::InvalidModifier)
    );
    assert_eq!(
        first_fault(&clause(r#"{"query_modifier": 0, "query_type": 8, "query": {}}"#)),
        QueryError::Decode(DecodeError::InvalidType)
    );
    assert_eq!(
        first_fault(&clause(r#"{"query_modifier": 0, "query_type": 4}"#)),
        QueryError::Decode(DecodeError::MissingField { field: WireField::Query })
    );
    assert_eq!(
        first_fault(&clause(r#"{"query_modifier": 0, "query_type": 0, "query": {"subqueries": []}}"#)),
        QueryError::Decode(DecodeError::MissingField { field: WireField::Boost })
    );
    assert_eq!(
        first_fault(&clause(r#"{"query_modifier": 0, "query_type": 0, "query": {"boost": 1, "subqueries": 5}}"#)),
        QueryError::Decode(DecodeError::WrongShape { field: WireField::Subqueries })
    );
}

#[test]
fn empty_tokens_everywhere_is_no_usable_clauses() {
    let doc = r#"{"texts": ["..."], "fields": ["body"], "query": {"subqueries": [
        {"query_modifier": 1, "query_type": 4, "query": {"field_index": 0, "text_index": 0}}]}}"#;
    assert_eq!(
        first_fault(doc),
        QueryError::Compile(tantivy_go::error::CompileError::NoUsableClauses)
    );
}

#[test]
fn wire_compile_reports_decode_first() {
    let (index, _schema) = index();
    let w = read_wire_query(r#"{"texts": [], "fields": ["body"], "query": 3}"#).expect("json");
    assert_eq!(
        compile_wire(&index, w),
        Err(QueryError::Decode(DecodeError::WrongShape { field: WireField::Subqueries }))
    );
}

#[test]
fn codes_map_to_kinds() {
    assert_eq!(QueryType::from_u64(0), Some(QueryType::BoolQuery));
    assert_eq!(QueryType::from_u64(6), Some(QueryType::OneOfTermQuery));
    assert_eq!(QueryType::from_u64(7), Some(QueryType::AllQuery));
    assert_eq!(QueryType::from_u64(8), None);
    assert_eq!(QueryModifier::from_u64(2), Some(QueryModifier::MustNot));
    assert_eq!(QueryModifier::from_u64(3), None);
    assert_eq!(QueryType::TermQuery.code(), 4);
    assert_eq!(QueryModifier::Should.code(), 1);
}
