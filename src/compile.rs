//! The query compiler: lowers a request's clause tree into a plan, clause by
//! clause, against what the field analyzers made of each referenced text.
use tantivy::Index;
use vstd::prelude::*;

use crate::error::CompileError;
use crate::models::{Boost, FinalQuery, GoQuery, QueryElement, QueryModifier};
use crate::compile_laws::law_compiled_plan_well_formed;
use crate::plan::{
    clauses_view, node_view, node_well_formed, terms_view, NodeSpec, Occur, QueryNode, Weight,
};
use crate::json::{json_accepts, read_wire_query};
use crate::terms::{extract_terms, settled, ExtractError, Extraction};
use crate::wire::{
    decode_query, law_query_fault_not_syntax, query_decodes_to, query_fault, DecodeError, WireQuery,
};

verus! {

broadcast use vstd::std_specs::vec::group_vec_axioms, vstd::seq::group_seq_axioms;

// ---------------------------------------------------------------------------
// What a query compiles to
// ---------------------------------------------------------------------------
/// A compiled clause, or nothing when the clause is dropped.
pub type ClauseSpec = Option<(Occur, NodeSpec)>;

pub open spec fn occur_of(m: QueryModifier) -> Occur {
    match m {
        QueryModifier::Must => Occur::Must,
        QueryModifier::Should => Occur::Should,
        QueryModifier::MustNot => Occur::MustNot,
    }
}

/// A boost of exactly one adds no node.
pub open spec fn boosted(n: NodeSpec, b: Boost) -> NodeSpec {
    if b.is_identity() {
        n
    } else {
        NodeSpec::Boosted { node: Box::new(n), weight: Weight::Given(b) }
    }
}

/// What a clause without terms becomes: a required clause stays, as a node
/// that matches nothing; an optional or excluding one is dropped.
pub open spec fn when_empty(m: QueryModifier) -> ClauseSpec {
    match m {
        QueryModifier::Must => Some((Occur::Must, NodeSpec::Nothing)),
        _ => None,
    }
}

/// The field index, text index and boost of a leaf clause.
pub open spec fn leaf_of(q: GoQuery) -> Option<(usize, usize, Boost)> {
    match q {
        GoQuery::PhraseQuery { field_index, text_index, boost } => Some(
            (field_index, text_index, boost),
        ),
        GoQuery::PhrasePrefixQuery { field_index, text_index, boost } => Some(
            (field_index, text_index, boost),
        ),
        GoQuery::TermPrefixQuery { field_index, text_index, boost } => Some(
            (field_index, text_index, boost),
        ),
        GoQuery::TermQuery { field_index, text_index, boost } => Some(
            (field_index, text_index, boost),
        ),
        GoQuery::EveryTermQuery { field_index, text_index, boost } => Some(
            (field_index, text_index, boost),
        ),
        GoQuery::OneOfTermQuery { field_index, text_index, boost } => Some(
            (field_index, text_index, boost),
        ),
        _ => None,
    }
}

pub open spec fn term_node(field: u32, text: Seq<char>) -> NodeSpec {
    NodeSpec::Term { field, text, positions: false }
}

/// The weight of the `i`-th (from zero) of `n` alternatives.
pub open spec fn decay(i: int, n: int) -> Weight {
    Weight::Decay { rank: (i + 1) as usize, count: n as usize }
}

/// The unboosted node of a leaf clause over its (non-empty) terms.
pub open spec fn leaf_shape(q: GoQuery, field: u32, terms: Seq<(usize, Seq<char>)>) -> NodeSpec {
    match q {
        GoQuery::TermQuery { .. } => term_node(field, terms[0].1),
        GoQuery::TermPrefixQuery { .. } => NodeSpec::PhrasePrefix {
            field,
            terms: seq![(0usize, terms[0].1)],
        },
        GoQuery::PhraseQuery { .. } => if terms.len() == 1 {
            NodeSpec::Term { field, text: terms[0].1, positions: true }
        } else {
            NodeSpec::Phrase { field, terms }
        },
        GoQuery::PhrasePrefixQuery { .. } => NodeSpec::PhrasePrefix { field, terms },
        GoQuery::EveryTermQuery { .. } => NodeSpec::Boolean {
            clauses: Seq::new(
                terms.len(),
                |i: int| (Occur::Must, term_node(field, terms[i].1)),
            ),
        },
        GoQuery::OneOfTermQuery { .. } => NodeSpec::Boolean {
            clauses: Seq::new(
                terms.len(),
                |i: int|
                    (
                        Occur::Should,
                        NodeSpec::Boosted {
                            node: Box::new(term_node(field, terms[i].1)),
                            weight: decay(i, terms.len() as int),
                        },
                    ),
            ),
        },
        _ => NodeSpec::Nothing,
    }
}

/// `table[f][t]` is what the analyzer of field `f` made of text `t`.
pub open spec fn table_fits(table: Seq<Vec<Extraction>>, n_fields: nat, n_texts: nat) -> bool {
    &&& table.len() == n_fields
    &&& forall|f: int| 0 <= f < table.len() ==> #[trigger] table[f]@.len() == n_texts
}

pub open spec fn compile_leaf(
    q: GoQuery,
    m: QueryModifier,
    n_texts: nat,
    table: Seq<Vec<Extraction>>,
) -> Result<ClauseSpec, CompileError> {
    let (fi, ti, boost) = leaf_of(q).unwrap();
    if fi >= table.len() {
        Err(CompileError::InvalidFieldIndex)
    } else if ti >= n_texts {
        Err(CompileError::InvalidTextIndex)
    } else {
        match table[fi as int]@[ti as int] {
            Err(ExtractError::Empty) => Ok(when_empty(m)),
            Err(ExtractError::UnknownField) => Err(CompileError::UnknownField),
            Err(ExtractError::AnalyzerUnavailable { reason }) => Err(
                CompileError::AnalyzerUnavailable { reason },
            ),
            Ok((field, terms)) => if terms@.len() == 0 {
                Ok(when_empty(m))
            } else {
                Ok(
                    Some(
                        (occur_of(m), boosted(leaf_shape(q, field, terms_view(terms@)), boost)),
                    ),
                )
            },
        }
    }
}

/// One clause, compiled depth-first; the first error met is the result.
pub open spec fn compile_element(
    e: QueryElement,
    n_texts: nat,
    table: Seq<Vec<Extraction>>,
) -> Result<ClauseSpec, CompileError>
    decreases e,
{
    match e.query {
        None => Err(CompileError::MissingQuery),
        Some(GoQuery::AllQuery { boost }) => Ok(
            Some((occur_of(e.modifier), boosted(NodeSpec::All, boost))),
        ),
        Some(GoQuery::BoolQuery { subqueries, boost }) => match compile_list(
            subqueries@,
            n_texts,
            table,
        ) {
            Err(err) => Err(err),
            Ok(cs) => if cs.len() == 0 {
                Ok(when_empty(e.modifier))
            } else {
                Ok(
                    Some(
                        (occur_of(e.modifier), boosted(NodeSpec::Boolean { clauses: cs }, boost)),
                    ),
                )
            },
        },
        Some(q) => compile_leaf(q, e.modifier, n_texts, table),
    }
}

/// The surviving clauses of a list, in order.
pub open spec fn compile_list(
    s: Seq<QueryElement>,
    n_texts: nat,
    table: Seq<Vec<Extraction>>,
) -> Result<Seq<(Occur, NodeSpec)>, CompileError>
    decreases s,
{
    if s.len() == 0 {
        Ok(Seq::empty())
    } else {
        match compile_list(s.drop_last(), n_texts, table) {
            Err(err) => Err(err),
            Ok(prev) => match compile_element(s.last(), n_texts, table) {
                Err(err) => Err(err),
                Ok(None) => Ok(prev),
                Ok(Some(c)) => Ok(prev.push(c)),
            },
        }
    }
}

/// Whether a match-all clause occurs anywhere in the clause.
pub open spec fn has_all_element(e: QueryElement) -> bool
    decreases e,
{
    match e.query {
        Some(GoQuery::AllQuery { .. }) => true,
        Some(GoQuery::BoolQuery { subqueries, .. }) => has_all_list(subqueries@),
        _ => false,
    }
}

pub open spec fn has_all_list(s: Seq<QueryElement>) -> bool
    decreases s,
{
    if s.len() == 0 {
        false
    } else {
        has_all_list(s.drop_last()) || has_all_element(s.last())
    }
}

/// The compiled form of a whole request, given what the analyzers made of
/// each (field, text) pair.
///
/// The field and text tables may be empty only when a match-all clause occurs
/// somewhere in the tree, at any depth. A request whose top-level clauses are
/// all dropped is an error rather than an empty group.
pub open spec fn compile_spec(q: FinalQuery, table: Seq<Vec<Extraction>>) -> Result<
    NodeSpec,
    CompileError,
> {
    if !has_all_list(q.query.subqueries@) && (q.fields@.len() == 0 || q.texts@.len() == 0) {
        Err(CompileError::EmptyTables)
    } else {
        match compile_list(q.query.subqueries@, q.texts@.len(), table) {
            Err(err) => Err(err),
            Ok(cs) => if cs.len() == 0 {
                Err(CompileError::NoUsableClauses)
            } else {
                Ok(NodeSpec::Boolean { clauses: cs })
            },
        }
    }
}

// ---------------------------------------------------------------------------
// Views of executable results
// ---------------------------------------------------------------------------
pub open spec fn clause_view(c: Option<(Occur, QueryNode)>) -> ClauseSpec {
    match c {
        None => None,
        Some((o, n)) => Some((o, node_view(n))),
    }
}

pub open spec fn clause_result_view(r: Result<Option<(Occur, QueryNode)>, CompileError>) -> Result<
    ClauseSpec,
    CompileError,
> {
    match r {
        Ok(c) => Ok(clause_view(c)),
        Err(e) => Err(e),
    }
}

pub open spec fn list_result_view(r: Result<Vec<(Occur, QueryNode)>, CompileError>) -> Result<
    Seq<(Occur, NodeSpec)>,
    CompileError,
> {
    match r {
        Ok(v) => Ok(clauses_view(v@)),
        Err(e) => Err(e),
    }
}

pub open spec fn node_result_view(r: Result<QueryNode, CompileError>) -> Result<
    NodeSpec,
    CompileError,
> {
    match r {
        Ok(n) => Ok(node_view(n)),
        Err(e) => Err(e),
    }
}

proof fn lemma_clauses_view_push(s: Seq<(Occur, QueryNode)>, c: (Occur, QueryNode))
    ensures
        clauses_view(s.push(c)) == clauses_view(s).push((c.0, node_view(c.1))),
        clauses_view(s.push(c)).len() == s.len() + 1,
    decreases s.len(),
{
    assert(s.push(c).drop_last() =~= s);
    lemma_clauses_view_len(s);
}

proof fn lemma_clauses_view_len(s: Seq<(Occur, QueryNode)>)
    ensures
        clauses_view(s).len() == s.len(),
    decreases s.len(),
{
    if s.len() > 0 {
        lemma_clauses_view_len(s.drop_last());
    }
}

/// Once a prefix of a clause list fails, every longer prefix fails the same way.
proof fn lemma_list_error_persists(
    s: Seq<QueryElement>,
    i: int,
    j: int,
    n_texts: nat,
    table: Seq<Vec<Extraction>>,
)
    requires
        0 <= i <= j <= s.len(),
        compile_list(s.subrange(0, i), n_texts, table) is Err,
    ensures
        compile_list(s.subrange(0, j), n_texts, table) == compile_list(
            s.subrange(0, i),
            n_texts,
            table,
        ),
    decreases j - i,
{
    if j > i {
        lemma_list_error_persists(s, i, j - 1, n_texts, table);
        assert(s.subrange(0, j).drop_last() =~= s.subrange(0, j - 1));
    }
}

// ---------------------------------------------------------------------------
// The compiler
// ---------------------------------------------------------------------------
fn modifier_to_occur(m: &QueryModifier) -> (r: Occur)
    ensures
        r == occur_of(*m),
{
    match m {
        QueryModifier::Must => Occur::Must,
        QueryModifier::Should => Occur::Should,
        QueryModifier::MustNot => Occur::MustNot,
    }
}

fn try_boost(n: QueryNode, b: Boost) -> (r: QueryNode)
    ensures
        r@ == boosted(n@, b),
{
    if b.is_one() {
        n
    } else {
        QueryNode::Boosted { node: Box::new(n), weight: Weight::Given(b) }
    }
}

fn empty_policy(m: &QueryModifier) -> (r: Option<(Occur, QueryNode)>)
    ensures
        clause_view(r) == when_empty(*m),
{
    match m {
        QueryModifier::Must => Some((Occur::Must, QueryNode::Nothing)),
        _ => None,
    }
}

fn copy_terms(terms: &Vec<(usize, String)>) -> (r: Vec<(usize, String)>)
    ensures
        terms_view(r@) == terms_view(terms@),
{
    let mut r: Vec<(usize, String)> = Vec::new();
    let mut i: usize = 0;
    while i < terms.len()
        invariant
            i <= terms@.len(),
            r@.len() == i,
            forall|k: int|
                0 <= k < i ==> #[trigger] r@[k].0 == terms@[k].0 && r@[k].1@ == terms@[k].1@,
        decreases terms@.len() - i,
    {
        r.push((terms[i].0, terms[i].1.clone()));
        i += 1;
    }
    assert(terms_view(r@) =~= terms_view(terms@));
    r
}

/// Lowers a leaf clause over its extracted terms.
fn lower_leaf(q: &GoQuery, field: u32, terms: &Vec<(usize, String)>) -> (r: QueryNode)
    requires
        terms@.len() > 0,
        leaf_of(*q) is Some,
    ensures
        r@ == leaf_shape(*q, field, terms_view(terms@)),
{
    let ghost tv = terms_view(terms@);
    match q {
        GoQuery::TermQuery { .. } => QueryNode::Term {
            field,
            text: terms[0].1.clone(),
            positions: false,
        },
        GoQuery::TermPrefixQuery { .. } => {
            let mut v: Vec<(usize, String)> = Vec::new();
            v.push((0, terms[0].1.clone()));
            let r = QueryNode::PhrasePrefix { field, terms: v };
            assert(terms_view(v@) =~= seq![(0usize, tv[0].1)]);
            r
        },
        GoQuery::PhraseQuery { .. } => {
            if terms.len() == 1 {
                QueryNode::Term { field, text: terms[0].1.clone(), positions: true }
            } else {
                QueryNode::Phrase { field, terms: copy_terms(terms) }
            }
        },
        GoQuery::PhrasePrefixQuery { .. } => QueryNode::PhrasePrefix {
            field,
            terms: copy_terms(terms),
        },
        GoQuery::EveryTermQuery { .. } => {
            let mut clauses: Vec<(Occur, QueryNode)> = Vec::new();
            let mut i: usize = 0;
            while i < terms.len()
                invariant
                    i <= terms@.len(),
                    tv == terms_view(terms@),
                    clauses_view(clauses@) =~= Seq::new(
                        i as nat,
                        |k: int| (Occur::Must, term_node(field, tv[k].1)),
                    ),
                decreases terms@.len() - i,
            {
                let c = (
                    Occur::Must,
                    QueryNode::Term { field, text: terms[i].1.clone(), positions: false },
                );
                proof {
                    lemma_clauses_view_push(clauses@, c);
                }
                clauses.push(c);
                i += 1;
            }
            QueryNode::Boolean { clauses }
        },
        GoQuery::OneOfTermQuery { .. } => {
            let n = terms.len();
            let mut clauses: Vec<(Occur, QueryNode)> = Vec::new();
            let mut i: usize = 0;
            while i < n
                invariant
                    i <= n,
                    n == terms@.len(),
                    tv == terms_view(terms@),
                    clauses_view(clauses@) =~= Seq::new(
                        i as nat,
                        |k: int|
                            (
                                Occur::Should,
                                NodeSpec::Boosted {
                                    node: Box::new(term_node(field, tv[k].1)),
                                    weight: decay(k, n as int),
                                },
                            ),
                    ),
                decreases n - i,
            {
                let term = QueryNode::Term { field, text: terms[i].1.clone(), positions: false };
                assert(node_view(term) == term_node(field, tv[i as int].1));
                let c = (
                    Occur::Should,
                    QueryNode::Boosted {
                        node: Box::new(term),
                        weight: Weight::Decay { rank: i + 1, count: n },
                    },
                );
                proof {
                    lemma_clauses_view_push(clauses@, c);
                    assert(node_view(c.1) == NodeSpec::Boosted {
                        node: Box::new(term_node(field, tv[i as int].1)),
                        weight: decay(i as int, n as int),
                    });
                }
                clauses.push(c);
                i += 1;
            }
            QueryNode::Boolean { clauses }
        },
        _ => QueryNode::Nothing,
    }
}

fn compile_leaf_clause(
    q: &GoQuery,
    m: &QueryModifier,
    n_texts: usize,
    table: &Vec<Vec<Extraction>>,
) -> (r: Result<Option<(Occur, QueryNode)>, CompileError>)
    requires
        leaf_of(*q) is Some,
        table_fits(table@, table@.len(), n_texts as nat),
    ensures
        clause_result_view(r) == compile_leaf(*q, *m, n_texts as nat, table@),
{
    let (fi, ti, boost) = match q {
        GoQuery::PhraseQuery { field_index, text_index, boost } => (*field_index, *text_index, *boost),
        GoQuery::PhrasePrefixQuery { field_index, text_index, boost } => (
            *field_index,
            *text_index,
            *boost,
        ),
        GoQuery::TermPrefixQuery { field_index, text_index, boost } => (
            *field_index,
            *text_index,
            *boost,
        ),
        GoQuery::TermQuery { field_index, text_index, boost } => (*field_index, *text_index, *boost),
        GoQuery::EveryTermQuery { field_index, text_index, boost } => (
            *field_index,
            *text_index,
            *boost,
        ),
        GoQuery::OneOfTermQuery { field_index, text_index, boost } => (
            *field_index,
            *text_index,
            *boost,
        ),
        _ => (0, 0, Boost::one()),
    };
    if fi >= table.len() {
        return Err(CompileError::InvalidFieldIndex);
    }
    if ti >= n_texts {
        return Err(CompileError::InvalidTextIndex);
    }
    match &table[fi][ti] {
        Err(ExtractError::Empty) => Ok(empty_policy(m)),
        Err(ExtractError::UnknownField) => Err(CompileError::UnknownField),
        Err(ExtractError::AnalyzerUnavailable { reason }) => Err(
            CompileError::AnalyzerUnavailable { reason: reason.clone() },
        ),
        Ok((field, terms)) => {
            if terms.len() == 0 {
                Ok(empty_policy(m))
            } else {
                let node = lower_leaf(q, *field, terms);
                Ok(Some((modifier_to_occur(m), try_boost(node, boost))))
            }
        },
    }
}

fn compile_one(e: &QueryElement, n_texts: usize, table: &Vec<Vec<Extraction>>) -> (r: Result<
    Option<(Occur, QueryNode)>,
    CompileError,
>)
    requires
        table_fits(table@, table@.len(), n_texts as nat),
    ensures
        clause_result_view(r) == compile_element(*e, n_texts as nat, table@),
    decreases e,
{
    match &e.query {
        None => Err(CompileError::MissingQuery),
        Some(GoQuery::AllQuery { boost }) => Ok(
            Some((modifier_to_occur(&e.modifier), try_boost(QueryNode::All, *boost))),
        ),
        Some(GoQuery::BoolQuery { subqueries, boost }) => {
            match compile_many(subqueries, n_texts, table) {
                Err(err) => Err(err),
                Ok(cs) => {
                    proof {
                        lemma_clauses_view_len(cs@);
                    }
                    if cs.len() == 0 {
                        Ok(empty_policy(&e.modifier))
                    } else {
                        Ok(
                            Some(
                                (
                                    modifier_to_occur(&e.modifier),
                                    try_boost(QueryNode::Boolean { clauses: cs }, *boost),
                                ),
                            ),
                        )
                    }
                },
            }
        },
        Some(q) => compile_leaf_clause(q, &e.modifier, n_texts, table),
    }
}

fn compile_many(s: &Vec<QueryElement>, n_texts: usize, table: &Vec<Vec<Extraction>>) -> (r: Result<
    Vec<(Occur, QueryNode)>,
    CompileError,
>)
    requires
        table_fits(table@, table@.len(), n_texts as nat),
    ensures
        list_result_view(r) == compile_list(s@, n_texts as nat, table@),
    decreases s,
{
    let mut out: Vec<(Occur, QueryNode)> = Vec::new();
    let mut i: usize = 0;
    while i < s.len()
        invariant
            i <= s@.len(),
            table_fits(table@, table@.len(), n_texts as nat),
            compile_list(s@.subrange(0, i as int), n_texts as nat, table@) == Ok::<
                Seq<(Occur, NodeSpec)>,
                CompileError,
            >(clauses_view(out@)),
        decreases s@.len() - i,
    {
        assert(s@.subrange(0, i + 1).drop_last() =~= s@.subrange(0, i as int));
        assert(s@.subrange(0, i + 1).last() == s@[i as int]);
        match compile_one(&s[i], n_texts, table) {
            Err(err) => {
                proof {
                    lemma_list_error_persists(s@, i as int + 1, s@.len() as int, n_texts as nat, table@);
                    assert(s@.subrange(0, s@.len() as int) =~= s@);
                }
                return Err(err);
            },
            Ok(None) => {},
            Ok(Some(c)) => {
                proof {
                    lemma_clauses_view_push(out@, c);
                }
                out.push(c);
            },
        }
        i += 1;
    }
    assert(s@.subrange(0, s@.len() as int) =~= s@);
    Ok(out)
}

fn has_all_one(e: &QueryElement) -> (r: bool)
    ensures
        r == has_all_element(*e),
    decreases e,
{
    match &e.query {
        Some(GoQuery::AllQuery { .. }) => true,
        Some(GoQuery::BoolQuery { subqueries, .. }) => has_all_many(subqueries),
        _ => false,
    }
}

fn has_all_many(s: &Vec<QueryElement>) -> (r: bool)
    ensures
        r == has_all_list(s@),
    decreases s,
{
    let mut found = false;
    let mut i: usize = 0;
    while i < s.len()
        invariant
            i <= s@.len(),
            found == has_all_list(s@.subrange(0, i as int)),
        decreases s@.len() - i,
    {
        assert(s@.subrange(0, i + 1).drop_last() =~= s@.subrange(0, i as int));
        assert(s@.subrange(0, i + 1).last() == s@[i as int]);
        if !found {
            found = has_all_one(&s[i]);
        }
        i += 1;
    }
    assert(s@.subrange(0, s@.len() as int) =~= s@);
    found
}

/// Compiles a request against the analyzer results in `table`, where
/// `table[f][t]` is what the analyzer of field `f` made of text `t`.
pub fn compile_with(q: &FinalQuery, table: &Vec<Vec<Extraction>>) -> (r: Result<
    QueryNode,
    CompileError,
>)
    requires
        table_fits(table@, q.fields@.len(), q.texts@.len()),
    ensures
        node_result_view(r) == compile_spec(*q, table@),
        r matches Ok(n) ==> node_well_formed(n@),
{
    proof {
        law_compiled_plan_well_formed(*q, table@);
    }
    if !has_all_many(&q.query.subqueries) && (q.fields.len() == 0 || q.texts.len() == 0) {
        return Err(CompileError::EmptyTables);
    }
    match compile_many(&q.query.subqueries, q.texts.len(), table) {
        Err(err) => Err(err),
        Ok(cs) => {
            proof {
                lemma_clauses_view_len(cs@);
            }
            if cs.len() == 0 {
                Err(CompileError::NoUsableClauses)
            } else {
                Ok(QueryNode::Boolean { clauses: cs })
            }
        },
    }
}

/// Appends the (field index, text index) pair of every leaf clause of `e`.
fn collect_refs(e: &QueryElement, out: &mut Vec<(usize, usize)>)
    decreases e,
{
    match &e.query {
        Some(GoQuery::BoolQuery { subqueries, .. }) => collect_refs_list(subqueries, out),
        Some(q) => {
            match q {
                GoQuery::PhraseQuery { field_index, text_index, .. }
                | GoQuery::PhrasePrefixQuery { field_index, text_index, .. }
                | GoQuery::TermPrefixQuery { field_index, text_index, .. }
                | GoQuery::TermQuery { field_index, text_index, .. }
                | GoQuery::EveryTermQuery { field_index, text_index, .. }
                | GoQuery::OneOfTermQuery { field_index, text_index, .. } => {
                    out.push((*field_index, *text_index));
                },
                _ => {},
            }
        },
        None => {},
    }
}

fn collect_refs_list(s: &Vec<QueryElement>, out: &mut Vec<(usize, usize)>)
    decreases s,
{
    let mut i: usize = 0;
    while i < s.len()
        invariant
            i <= s@.len(),
        decreases s@.len() - i,
    {
        collect_refs(&s[i], out);
        i += 1;
    }
}

fn refers_to(refs: &Vec<(usize, usize)>, f: usize, t: usize) -> (r: bool) {
    let mut i: usize = 0;
    while i < refs.len()
        invariant
            i <= refs@.len(),
        decreases refs@.len() - i,
    {
        if refs[i].0 == f && refs[i].1 == t {
            return true;
        }
        i += 1;
    }
    false
}

/// Runs the analyzer of each field over each text that some clause pairs it
/// with. Pairs that no clause refers to are not analyzed: their entry, never
/// read, says that there is nothing to match.
fn analyze_all(index: &Index, q: &FinalQuery) -> (table: Vec<Vec<Extraction>>)
    ensures
        table_fits(table@, q.fields@.len(), q.texts@.len()),
        forall|f: int, t: int|
            0 <= f < table@.len() && 0 <= t < table@[f]@.len() ==> settled(
                #[trigger] table@[f]@[t],
            ),
{
    let mut refs: Vec<(usize, usize)> = Vec::new();
    collect_refs_list(&q.query.subqueries, &mut refs);
    let mut table: Vec<Vec<Extraction>> = Vec::new();
    let mut f: usize = 0;
    while f < q.fields.len()
        invariant
            f <= q.fields@.len(),
            table_fits(table@, f as nat, q.texts@.len()),
            forall|a: int, b: int|
                0 <= a < table@.len() && 0 <= b < table@[a]@.len() ==> settled(
                    #[trigger] table@[a]@[b],
                ),
        decreases q.fields@.len() - f,
    {
        let mut row: Vec<Extraction> = Vec::new();
        let mut t: usize = 0;
        while t < q.texts.len()
            invariant
                t <= q.texts@.len(),
                f < q.fields@.len(),
                row@.len() == t,
                forall|b: int| 0 <= b < row@.len() ==> settled(#[trigger] row@[b]),
            decreases q.texts@.len() - t,
        {
            if refers_to(&refs, f, t) {
                row.push(extract_terms(index, q.fields[f].as_str(), q.texts[t].as_str()));
            } else {
                row.push(Err(ExtractError::Empty));
            }
            t += 1;
        }
        table.push(row);
        f += 1;
    }
    table
}

/// Whether `table` could have come from running the analyzers over the
/// fields and texts of `q`.
pub open spec fn analyzed_for(q: FinalQuery, table: Seq<Vec<Extraction>>) -> bool {
    &&& table_fits(table, q.fields@.len(), q.texts@.len())
    &&& forall|f: int, t: int|
        0 <= f < table.len() && 0 <= t < table[f]@.len() ==> settled(#[trigger] table[f]@[t])
}

/// Compiles a request against the fields and analyzers of `index`.
///
/// Which terms a text yields is up to the index's configuration; whatever the
/// analyzers return, the result is what [`compile_spec`] gives for it.
pub fn compile(index: &Index, q: &FinalQuery) -> (r: Result<QueryNode, CompileError>)
    ensures
        exists|table: Seq<Vec<Extraction>>|
            analyzed_for(*q, table) && node_result_view(r) == compile_spec(*q, table),
        r matches Ok(n) ==> node_well_formed(n@),
{
    let table = analyze_all(index, q);
    let r = compile_with(q, &table);
    assert(analyzed_for(*q, table@));
    r
}

/// Why a wire request did not compile.
#[derive(Debug, Clone, PartialEq, Eq)]
pub enum QueryError {
    Decode(DecodeError),
    Compile(CompileError),
}

/// Decodes a wire request and compiles it: a decoding fault comes first and
/// is exactly the request's first fault; otherwise the result is the
/// compilation of what the request decodes to.
pub fn compile_wire(index: &Index, w: WireQuery) -> (r: Result<QueryNode, QueryError>)
    ensures
        r matches Err(QueryError::Decode(e)) ==> query_fault(w) == Some(e),
        query_fault(w) matches Some(e) ==> r == Err::<QueryNode, QueryError>(QueryError::Decode(e)),
        r matches Ok(n) ==> node_well_formed(n@),
        query_fault(w) is None ==> exists|q: FinalQuery, table: Seq<Vec<Extraction>>|
            {
                &&& query_decodes_to(w, q)
                &&& analyzed_for(q, table)
                &&& match r {
                    Ok(n) => compile_spec(q, table) == Ok::<NodeSpec, CompileError>(n@),
                    Err(QueryError::Compile(e)) => compile_spec(q, table) == Err::<
                        NodeSpec,
                        CompileError,
                    >(e),
                    Err(QueryError::Decode(_)) => false,
                }
            },
{
    let ghost w0 = w;
    match decode_query(w) {
        Err(e) => Err(QueryError::Decode(e)),
        Ok(q) => {
            let r = compile(index, &q);
            let ghost table = choose|table: Seq<Vec<Extraction>>|
                analyzed_for(q, table) && node_result_view(r) == compile_spec(q, table);
            match r {
                Ok(n) => {
                    assert(query_decodes_to(w0, q) && analyzed_for(q, table));
                    Ok(n)
                },
                Err(e) => {
                    assert(query_decodes_to(w0, q) && analyzed_for(q, table));
                    Err(QueryError::Compile(e))
                },
            }
        },
    }
}

/// Parses a JSON request and compiles it against `index`. Text that is not JSON fails with [`DecodeError::Syntax`]; any
/// other outcome is that of [`compile_wire`] on the document's wire form.
pub fn parse_query_from_json(index: &Index, json: &str) -> (r: Result<
    QueryNode,
    QueryError,
>)
    ensures
        r matches Ok(n) ==> exists|q: FinalQuery, table: Seq<Vec<Extraction>>|
            analyzed_for(q, table) && compile_spec(q, table) == Ok::<NodeSpec, CompileError>(n@),
        r matches Ok(n) ==> node_well_formed(n@),
        !json_accepts(json@) <==> r matches Err(QueryError::Decode(DecodeError::Syntax { .. })),
{
    match read_wire_query(json) {
        Err(e) => Err(QueryError::Decode(e)),
        Ok(w) => {
            proof {
                law_query_fault_not_syntax(w);
            }
            compile_wire(index, w)
        },
    }
}

} // verus!
