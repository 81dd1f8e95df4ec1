//! Properties of the compiler, stated over its specification and proved.
use vstd::prelude::*;

use crate::compile::{
    boosted, compile_element, compile_list, compile_spec, has_all_list, leaf_of,
    leaf_shape, node_result_view, occur_of, table_fits, term_node, ClauseSpec,
};
use crate::error::CompileError;
use crate::models::{Boost, FinalQuery, GoQuery, QueryElement, QueryModifier};
use crate::plan::{
    clauses_well_formed, lemma_clauses_well_formed, node_well_formed, terms_view, NodeSpec, Occur,
    QueryNode, Weight,
};
use crate::terms::{ExtractError, Extraction};

verus! {

broadcast use vstd::std_specs::vec::group_vec_axioms, vstd::seq::group_seq_axioms;

/// The terms that the table holds for a leaf clause, when the analyzer ran
/// and produced some.
pub open spec fn leaf_terms(q: GoQuery, table: Seq<Vec<Extraction>>, n_texts: nat) -> Option<
    (u32, Seq<(usize, Seq<char>)>),
> {
    let (fi, ti, _b) = leaf_of(q).unwrap();
    if fi < table.len() && ti < n_texts {
        match table[fi as int]@[ti as int] {
            Ok((field, terms)) => if terms@.len() > 0 {
                Some((field, terms_view(terms@)))
            } else {
                None
            },
            _ => None,
        }
    } else {
        None
    }
}

/// Whether the table says that the analyzer produced no term for a leaf.
pub open spec fn leaf_is_empty(q: GoQuery, table: Seq<Vec<Extraction>>, n_texts: nat) -> bool {
    let (fi, ti, _b) = leaf_of(q).unwrap();
    &&& fi < table.len()
    &&& ti < n_texts
    &&& match table[fi as int]@[ti as int] {
        Ok((_, terms)) => terms@.len() == 0,
        Err(ExtractError::Empty) => true,
        _ => false,
    }
}

/// Compilation is a function of the request and of what the analyzers
/// returned: two compilations of the same request against the same analyzer
/// results give the same plan, or the same error.
pub proof fn law_compile_deterministic(
    q: FinalQuery,
    table: Seq<Vec<Extraction>>,
    first: Result<QueryNode, CompileError>,
    second: Result<QueryNode, CompileError>,
)
    requires
        node_result_view(first) == compile_spec(q, table),
        node_result_view(second) == compile_spec(q, table),
    ensures
        node_result_view(first) == node_result_view(second),
{
}

/// A leaf clause with terms is wrapped in a boost node exactly when its boost
/// is not one; with a boost of one the node is the bare leaf.
pub proof fn law_leaf_boost(e: QueryElement, n_texts: nat, table: Seq<Vec<Extraction>>)
    requires
        e.query is Some,
        leaf_of(e.query.unwrap()) is Some,
        leaf_terms(e.query.unwrap(), table, n_texts) is Some,
    ensures
        ({
            let q = e.query.unwrap();
            let (field, terms) = leaf_terms(q, table, n_texts).unwrap();
            let b = leaf_of(q).unwrap().2;
            let shape = leaf_shape(q, field, terms);
            &&& b.is_identity() ==> compile_element(e, n_texts, table) == Ok::<
                ClauseSpec,
                CompileError,
            >(Some((occur_of(e.modifier), shape)))
            &&& !b.is_identity() ==> compile_element(e, n_texts, table) == Ok::<
                ClauseSpec,
                CompileError,
            >(
                Some(
                    (
                        occur_of(e.modifier),
                        NodeSpec::Boosted { node: Box::new(shape), weight: Weight::Given(b) },
                    ),
                ),
            )
            &&& !(shape is Boosted)
        }),
{
}

/// A phrase whose text yields a single term compiles to a term match (with
/// positions), not to a phrase match.
pub proof fn law_single_term_phrase(e: QueryElement, n_texts: nat, table: Seq<Vec<Extraction>>)
    requires
        e.query matches Some(GoQuery::PhraseQuery { .. }),
        leaf_terms(e.query.unwrap(), table, n_texts) matches Some((_, terms)) && terms.len() == 1,
    ensures
        ({
            let (field, terms) = leaf_terms(e.query.unwrap(), table, n_texts).unwrap();
            compile_element(e, n_texts, table) == Ok::<ClauseSpec, CompileError>(
                Some(
                    (
                        occur_of(e.modifier),
                        boosted(
                            NodeSpec::Term { field, text: terms[0].1, positions: true },
                            leaf_of(e.query.unwrap()).unwrap().2,
                        ),
                    ),
                ),
            )
        }),
{
}

/// A leaf clause whose text yields no term becomes the match-nothing node
/// when required, and is dropped otherwise; a dropped clause leaves its
/// siblings' list as it was.
pub proof fn law_empty_leaf(
    e: QueryElement,
    before: Seq<QueryElement>,
    after: Seq<QueryElement>,
    n_texts: nat,
    table: Seq<Vec<Extraction>>,
)
    requires
        e.query is Some,
        leaf_of(e.query.unwrap()) is Some,
        leaf_is_empty(e.query.unwrap(), table, n_texts),
    ensures
        e.modifier == QueryModifier::Must ==> compile_element(e, n_texts, table) == Ok::<
            ClauseSpec,
            CompileError,
        >(Some((Occur::Must, NodeSpec::Nothing))),
        e.modifier != QueryModifier::Must ==> compile_element(e, n_texts, table) == Ok::<
            ClauseSpec,
            CompileError,
        >(None),
        e.modifier != QueryModifier::Must ==> compile_list(before + seq![e] + after, n_texts, table)
            == compile_list(before + after, n_texts, table),
{
    if e.modifier != QueryModifier::Must {
        lemma_dropped_anywhere(before, e, after, n_texts, table);
    }
}

/// A dropped clause, wherever it stands in a list, leaves the compiled list
/// as if it were not there.
pub proof fn lemma_dropped_anywhere(
    before: Seq<QueryElement>,
    e: QueryElement,
    after: Seq<QueryElement>,
    n_texts: nat,
    table: Seq<Vec<Extraction>>,
)
    requires
        compile_element(e, n_texts, table) == Ok::<ClauseSpec, CompileError>(None),
    ensures
        compile_list(before + seq![e] + after, n_texts, table) == compile_list(
            before + after,
            n_texts,
            table,
        ),
    decreases after.len(),
{
    if after.len() == 0 {
        assert(before + seq![e] + after =~= before.push(e));
        assert(before.push(e).drop_last() =~= before);
        assert(before + after =~= before);
    } else {
        let a = after.drop_last();
        lemma_dropped_anywhere(before, e, a, n_texts, table);
        assert((before + seq![e] + after).drop_last() =~= before + seq![e] + a);
        assert((before + after).drop_last() =~= before + a);
        assert((before + seq![e] + after).last() == after.last());
        assert((before + after).last() == after.last());
    }
}

/// An every-term clause over N terms is a conjunction of N required,
/// unboosted single-term matches, in token order, scaled by the clause boost.
pub proof fn law_every_term(e: QueryElement, n_texts: nat, table: Seq<Vec<Extraction>>)
    requires
        e.query matches Some(GoQuery::EveryTermQuery { .. }),
        leaf_terms(e.query.unwrap(), table, n_texts) is Some,
    ensures
        ({
            let (field, terms) = leaf_terms(e.query.unwrap(), table, n_texts).unwrap();
            &&& compile_element(e, n_texts, table) matches Ok(Some((o, node)))
            &&& o == occur_of(e.modifier)
            &&& node == boosted(
                NodeSpec::Boolean {
                    clauses: Seq::new(
                        terms.len(),
                        |i: int| (Occur::Must, term_node(field, terms[i].1)),
                    ),
                },
                leaf_of(e.query.unwrap()).unwrap().2,
            )
        }),
{
}

/// The weight `1 - rank / (2 * count)` as a fraction `(numerator, denominator)`.
pub open spec fn decay_fraction(rank: int, count: int) -> (int, int) {
    (2 * count - rank, 2 * count)
}

/// In a one-of-terms clause over N terms, the i-th term (from one) is an
/// optional match weighted `1 - 0.5 * i / N`: the first closest to one, the
/// last exactly one half.
pub proof fn law_one_of_weights(
    e: QueryElement,
    n_texts: nat,
    table: Seq<Vec<Extraction>>,
    i: int,
)
    requires
        e.query matches Some(GoQuery::OneOfTermQuery { .. }),
        leaf_terms(e.query.unwrap(), table, n_texts) is Some,
        1 <= i <= leaf_terms(e.query.unwrap(), table, n_texts).unwrap().1.len(),
    ensures
        ({
            let (field, terms) = leaf_terms(e.query.unwrap(), table, n_texts).unwrap();
            let n = terms.len() as int;
            let b = leaf_of(e.query.unwrap()).unwrap().2;
            &&& compile_element(e, n_texts, table) matches Ok(Some((_, node)))
            &&& ({
                let group = if b.is_identity() {
                    node
                } else {
                    *node->Boosted_node
                };
                &&& group matches NodeSpec::Boolean { clauses }
                &&& group->clauses.len() == n
                &&& group->clauses[i - 1] == (
                    Occur::Should,
                    NodeSpec::Boosted {
                        node: Box::new(term_node(field, terms[i - 1].1)),
                        weight: Weight::Decay { rank: i as usize, count: n as usize },
                    },
                )
            })
            &&& i == n ==> 2 * decay_fraction(i, n).0 == decay_fraction(i, n).1
        }),
{
}

/// Whether every clause of a list is dropped.
pub open spec fn all_dropped(s: Seq<QueryElement>, n_texts: nat, table: Seq<Vec<Extraction>>) -> bool {
    forall|k: int|
        0 <= k < s.len() ==> #[trigger] compile_element(s[k], n_texts, table) == Ok::<
            ClauseSpec,
            CompileError,
        >(None)
}

proof fn lemma_all_dropped_list(s: Seq<QueryElement>, n_texts: nat, table: Seq<Vec<Extraction>>)
    requires
        all_dropped(s, n_texts, table),
    ensures
        compile_list(s, n_texts, table) == Ok::<Seq<(Occur, NodeSpec)>, CompileError>(
            Seq::empty(),
        ),
    decreases s.len(),
{
    if s.len() > 0 {
        let p = s.drop_last();
        assert forall|k: int| 0 <= k < p.len() implies #[trigger] compile_element(
            p[k],
            n_texts,
            table,
        ) == Ok::<ClauseSpec, CompileError>(None) by {
            assert(p[k] == s[k]);
        }
        lemma_all_dropped_list(p, n_texts, table);
        assert(compile_element(s[s.len() - 1], n_texts, table) == Ok::<ClauseSpec, CompileError>(
            None,
        ));
    }
}

/// A request whose top-level clauses are all dropped fails with
/// [`CompileError::NoUsableClauses`] (once its tables pass the emptiness check).
pub proof fn law_all_dropped_fails(q: FinalQuery, table: Seq<Vec<Extraction>>)
    requires
        has_all_list(q.query.subqueries@) || (q.fields@.len() > 0 && q.texts@.len() > 0),
        all_dropped(q.query.subqueries@, q.texts@.len(), table),
    ensures
        compile_spec(q, table) == Err::<NodeSpec, CompileError>(CompileError::NoUsableClauses),
{
    lemma_all_dropped_list(q.query.subqueries@, q.texts@.len(), table);
}

/// Whether a clause, anywhere in its tree, refers past the end of the field
/// or the text table.
pub open spec fn bad_ref_element(e: QueryElement, n_fields: nat, n_texts: nat) -> bool
    decreases e,
{
    match e.query {
        Some(GoQuery::BoolQuery { subqueries, .. }) => bad_ref_list(subqueries@, n_fields, n_texts),
        Some(q) => match leaf_of(q) {
            Some((fi, ti, _)) => fi >= n_fields || ti >= n_texts,
            None => false,
        },
        None => false,
    }
}

pub open spec fn bad_ref_list(s: Seq<QueryElement>, n_fields: nat, n_texts: nat) -> bool
    decreases s,
{
    if s.len() == 0 {
        false
    } else {
        bad_ref_list(s.drop_last(), n_fields, n_texts) || bad_ref_element(
            s.last(),
            n_fields,
            n_texts,
        )
    }
}

proof fn lemma_bad_ref_element(e: QueryElement, n_texts: nat, table: Seq<Vec<Extraction>>)
    requires
        bad_ref_element(e, table.len(), n_texts),
    ensures
        compile_element(e, n_texts, table) is Err,
    decreases e,
{
    match e.query {
        Some(GoQuery::BoolQuery { subqueries, .. }) => {
            lemma_bad_ref_list(subqueries@, n_texts, table);
        },
        _ => {},
    }
}

proof fn lemma_bad_ref_list(s: Seq<QueryElement>, n_texts: nat, table: Seq<Vec<Extraction>>)
    requires
        bad_ref_list(s, table.len(), n_texts),
    ensures
        compile_list(s, n_texts, table) is Err,
    decreases s,
{
    if s.len() > 0 {
        if bad_ref_list(s.drop_last(), table.len(), n_texts) {
            lemma_bad_ref_list(s.drop_last(), n_texts, table);
        } else {
            lemma_bad_ref_element(s.last(), n_texts, table);
        }
    }
}

/// A field or text index out of range anywhere in the tree makes the whole
/// compilation fail, wherever the offending clause stands.
pub proof fn law_bad_reference_fails(q: FinalQuery, table: Seq<Vec<Extraction>>)
    requires
        table_fits(table, q.fields@.len(), q.texts@.len()),
        bad_ref_list(q.query.subqueries@, q.fields@.len(), q.texts@.len()),
    ensures
        compile_spec(q, table) is Err,
{
    lemma_bad_ref_list(q.query.subqueries@, q.texts@.len(), table);
}

proof fn lemma_leaf_shape_well_formed(q: GoQuery, field: u32, terms: Seq<(usize, Seq<char>)>)
    requires
        terms.len() > 0,
        leaf_of(q) is Some,
    ensures
        node_well_formed(leaf_shape(q, field, terms)),
{
    let n = terms.len() as int;
    match q {
        GoQuery::EveryTermQuery { .. } => {
            let cs = Seq::new(terms.len(), |i: int| (Occur::Must, term_node(field, terms[i].1)));
            lemma_clauses_well_formed(cs);
        },
        GoQuery::OneOfTermQuery { .. } => {
            let cs = Seq::new(
                terms.len(),
                |i: int|
                    (
                        Occur::Should,
                        NodeSpec::Boosted {
                            node: Box::new(term_node(field, terms[i].1)),
                            weight: crate::compile::decay(i, n),
                        },
                    ),
            );
            assert forall|i: int| 0 <= i < cs.len() implies node_well_formed(#[trigger] cs[i].1) by {
                assert(node_well_formed(term_node(field, terms[i].1)));
            }
            lemma_clauses_well_formed(cs);
        },
        _ => {},
    }
}

proof fn lemma_boosted_well_formed(n: NodeSpec, b: Boost)
    requires
        node_well_formed(n),
    ensures
        node_well_formed(boosted(n, b)),
{
    if !b.is_identity() {
        assert(node_well_formed(*Box::new(n)));
    }
}

proof fn lemma_element_well_formed(e: QueryElement, n_texts: nat, table: Seq<Vec<Extraction>>)
    ensures
        compile_element(e, n_texts, table) matches Ok(Some((_, n))) ==> node_well_formed(n),
    decreases e,
{
    match e.query {
        Some(GoQuery::BoolQuery { subqueries, boost }) => {
            lemma_list_well_formed(subqueries@, n_texts, table);
            if let Ok(cs) = compile_list(subqueries@, n_texts, table) {
                lemma_boosted_well_formed(NodeSpec::Boolean { clauses: cs }, boost);
            }
        },
        Some(GoQuery::AllQuery { boost }) => {
            lemma_boosted_well_formed(NodeSpec::All, boost);
        },
        Some(q) => {
            if let Some((field, terms)) = leaf_terms(q, table, n_texts) {
                lemma_leaf_shape_well_formed(q, field, terms);
                lemma_boosted_well_formed(leaf_shape(q, field, terms), leaf_of(q).unwrap().2);
            }
        },
        None => {},
    }
}

proof fn lemma_list_well_formed(s: Seq<QueryElement>, n_texts: nat, table: Seq<Vec<Extraction>>)
    ensures
        compile_list(s, n_texts, table) matches Ok(cs) ==> clauses_well_formed(cs),
    decreases s,
{
    if s.len() > 0 {
        lemma_list_well_formed(s.drop_last(), n_texts, table);
        lemma_element_well_formed(s.last(), n_texts, table);
        if let Ok(prev) = compile_list(s.drop_last(), n_texts, table) {
            if let Ok(Some(c)) = compile_element(s.last(), n_texts, table) {
                assert(prev.push(c).drop_last() =~= prev);
            }
        }
    }
}

/// Every compiled plan has the shape the search engine needs: phrases of at
/// least two terms and phrase prefixes of at least one.
pub proof fn law_compiled_plan_well_formed(q: FinalQuery, table: Seq<Vec<Extraction>>)
    ensures
        compile_spec(q, table) matches Ok(n) ==> node_well_formed(n),
{
    lemma_list_well_formed(q.query.subqueries@, q.texts@.len(), table);
}

/// How many clauses of a list survive compilation.
pub open spec fn kept_count(s: Seq<QueryElement>, n_texts: nat, table: Seq<Vec<Extraction>>) -> nat
    decreases s.len(),
{
    if s.len() == 0 {
        0
    } else {
        kept_count(s.drop_last(), n_texts, table) + if compile_element(s.last(), n_texts, table) is Ok
            && compile_element(s.last(), n_texts, table)->Ok_0 is Some {
            1nat
        } else {
            0nat
        }
    }
}

proof fn lemma_list_len(s: Seq<QueryElement>, n_texts: nat, table: Seq<Vec<Extraction>>)
    requires
        compile_list(s, n_texts, table) is Ok,
    ensures
        compile_list(s, n_texts, table)->Ok_0.len() == kept_count(s, n_texts, table),
    decreases s.len(),
{
    if s.len() > 0 {
        lemma_list_len(s.drop_last(), n_texts, table);
    }
}

proof fn lemma_list_places(s: Seq<QueryElement>, n_texts: nat, table: Seq<Vec<Extraction>>, k: int)
    requires
        compile_list(s, n_texts, table) is Ok,
        0 <= k < s.len(),
    ensures
        compile_element(s[k], n_texts, table) is Ok,
        compile_element(s[k], n_texts, table) matches Ok(Some(c)) ==> compile_list(
            s,
            n_texts,
            table,
        )->Ok_0[kept_count(s.take(k), n_texts, table) as int] == c,
    decreases s.len(),
{
    let p = s.drop_last();
    assert(compile_list(p, n_texts, table) is Ok);
    lemma_list_len(p, n_texts, table);
    if k < s.len() - 1 {
        lemma_list_places(p, n_texts, table, k);
        assert(p[k] == s[k]);
        assert(p.take(k) =~= s.take(k));
        lemma_kept_mono(p, k + 1, n_texts, table);
        assert(p.take(k + 1).drop_last() =~= p.take(k));
        assert(p.take(k + 1).last() == p[k]);
    } else {
        assert(s.take(k) =~= p);
    }
}

proof fn lemma_kept_mono(s: Seq<QueryElement>, j: int, n_texts: nat, table: Seq<Vec<Extraction>>)
    requires
        0 <= j <= s.len(),
    ensures
        kept_count(s.take(j), n_texts, table) <= kept_count(s, n_texts, table),
    decreases s.len() - j,
{
    if j < s.len() {
        lemma_kept_mono(s, j + 1, n_texts, table);
        assert(s.take(j + 1).drop_last() =~= s.take(j));
    } else {
        assert(s.take(j) =~= s);
    }
}

/// When a request compiles, every top-level clause compiled without error,
/// and each surviving clause stands in the compiled group in request order,
/// after exactly the survivors that precede it: the per-clause laws above
/// describe the compiled request clause by clause.
pub proof fn law_request_keeps_clauses(q: FinalQuery, table: Seq<Vec<Extraction>>, k: int)
    requires
        compile_spec(q, table) is Ok,
        0 <= k < q.query.subqueries@.len(),
    ensures
        ({
            let s = q.query.subqueries@;
            let n = q.texts@.len();
            &&& compile_element(s[k], n, table) is Ok
            &&& compile_spec(q, table)->Ok_0 matches NodeSpec::Boolean { clauses }
            &&& compile_element(s[k], n, table) matches Ok(Some(c)) ==> compile_spec(
                q,
                table,
            )->Ok_0->clauses[kept_count(s.take(k), n, table) as int] == c
        }),
{
    lemma_list_places(q.query.subqueries@, q.texts@.len(), table, k);
}

} // verus!
