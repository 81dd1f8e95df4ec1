//! The wire form of a request, its decoding into the request model and its
//! encoding back.
use vstd::prelude::*;

use crate::models::{Boost, BoolQuery, FinalQuery, GoQuery, QueryElement, QueryModifier, QueryType, ONE_BITS};

verus! {

broadcast use vstd::std_specs::vec::group_vec_axioms, vstd::seq::group_seq_axioms;

/// A member of a wire object, as found.
#[derive(Debug, Clone, PartialEq, Eq)]
pub enum Slot<T> {
    /// The member is absent.
    Missing,
    /// The member is there, but of the wrong JSON type.
    Invalid,
    Given(T),
}

/// The names of the wire members that decoding reports on.
#[derive(Debug, Clone, Copy, PartialEq, Eq, Structural)]
pub enum WireField {
    Texts,
    Fields,
    Query,
    Subqueries,
    QueryModifier,
    QueryType,
    Boost,
}

/// Why a wire document does not decode.
#[derive(Debug, Clone, PartialEq, Eq)]
pub enum DecodeError {
    /// The text is not JSON.
    Syntax { reason: String },
    /// A required member is absent.
    MissingField { field: WireField },
    /// A member is of the wrong JSON type.
    WrongShape { field: WireField },
    /// `query_modifier` is not one of the modifier codes.
    InvalidModifier,
    /// `query_type` is not one of the clause kind codes.
    InvalidType,
}

/// One clause as it stands on the wire: each member as found, before any
/// code is checked or default filled in.
#[derive(Debug, PartialEq)]
pub struct WireElement {
    pub query_modifier: Slot<u64>,
    pub query_type: Slot<u64>,
    /// Whether the `query` member is an object.
    pub query_is_object: bool,
    /// `query.field_index`, when it is an unsigned integer.
    pub field_index: Option<u64>,
    /// `query.text_index`, when it is an unsigned integer.
    pub text_index: Option<u64>,
    /// `query.boost`, when it is a number.
    pub boost: Option<Boost>,
    /// `query.subqueries`; `Invalid` when it is not an array.
    pub subqueries: Slot<Vec<WireElement>>,
}

/// A whole request as it stands on the wire.
#[derive(Debug, PartialEq)]
pub struct WireQuery {
    /// `Invalid` when not an array of strings.
    pub texts: Slot<Vec<String>>,
    /// `Invalid` when not an array of strings.
    pub fields: Slot<Vec<String>>,
    /// `query.subqueries`; `Invalid` when `query` is not an object or the
    /// member is not an array.
    pub subqueries: Slot<Vec<WireElement>>,
}

pub open spec fn one() -> Boost {
    Boost { bits: ONE_BITS }
}

/// The leaf clause of kind code `t` (from 1 to 6).
pub open spec fn leaf_query(t: u64, fi: usize, ti: usize, boost: Boost) -> GoQuery {
    if t == 1 {
        GoQuery::PhraseQuery { field_index: fi, text_index: ti, boost }
    } else if t == 2 {
        GoQuery::PhrasePrefixQuery { field_index: fi, text_index: ti, boost }
    } else if t == 3 {
        GoQuery::TermPrefixQuery { field_index: fi, text_index: ti, boost }
    } else if t == 4 {
        GoQuery::TermQuery { field_index: fi, text_index: ti, boost }
    } else if t == 5 {
        GoQuery::EveryTermQuery { field_index: fi, text_index: ti, boost }
    } else {
        GoQuery::OneOfTermQuery { field_index: fi, text_index: ti, boost }
    }
}

pub open spec fn index_or_zero(v: Option<u64>) -> usize {
    match v {
        Some(n) => n as usize,
        None => 0,
    }
}

pub open spec fn boost_or_one(v: Option<Boost>) -> Boost {
    match v {
        Some(b) => b,
        None => one(),
    }
}

/// The first fault of a clause, checking the modifier, then the kind, then
/// the payload; a group's members are checked in order after its own.
///
/// A leaf's indices default to zero and its boost to one; a group's boost has
/// no default and must be present.
pub open spec fn element_fault(w: WireElement) -> Option<DecodeError>
    decreases w,
{
    match w.query_modifier {
        Slot::Missing => Some(DecodeError::MissingField { field: WireField::QueryModifier }),
        Slot::Invalid => Some(DecodeError::InvalidModifier),
        Slot::Given(m) => if m > 2 {
            Some(DecodeError::InvalidModifier)
        } else {
            match w.query_type {
                Slot::Missing => Some(DecodeError::MissingField { field: WireField::QueryType }),
                Slot::Invalid => Some(DecodeError::InvalidType),
                Slot::Given(t) => if t > 7 {
                    Some(DecodeError::InvalidType)
                } else if t == 0 {
                    match w.subqueries {
                        Slot::Missing => Some(
                            DecodeError::MissingField { field: WireField::Subqueries },
                        ),
                        _ => if w.boost is None {
                            Some(DecodeError::MissingField { field: WireField::Boost })
                        } else {
                            match w.subqueries {
                                Slot::Given(subs) => list_fault(subs@),
                                _ => Some(DecodeError::WrongShape { field: WireField::Subqueries }),
                            }
                        },
                    }
                } else if !w.query_is_object {
                    Some(DecodeError::MissingField { field: WireField::Query })
                } else {
                    None
                },
            }
        },
    }
}

/// The first fault among the clauses of a list.
pub open spec fn list_fault(s: Seq<WireElement>) -> Option<DecodeError>
    decreases s,
{
    if s.len() == 0 {
        None
    } else {
        match list_fault(s.drop_last()) {
            Some(e) => Some(e),
            None => element_fault(s.last()),
        }
    }
}

/// `e` is what the (faultless) wire clause `w` decodes to.
pub open spec fn decodes_to(w: WireElement, e: QueryElement) -> bool
    decreases w,
{
    &&& element_fault(w) is None
    &&& w.query_modifier == Slot::Given(e.modifier.spec_code())
    &&& w.query_type matches Slot::Given(t)
    &&& e.query is Some
    &&& (e.query.unwrap() is BoolQuery <==> t == 0)
    &&& match e.query.unwrap() {
        GoQuery::BoolQuery { subqueries, boost } => {
            &&& w.boost == Some(boost)
            &&& w.subqueries matches Slot::Given(ws)
            &&& list_decodes_to(ws@, subqueries@)
        },
        GoQuery::AllQuery { boost } => t == 7 && boost == boost_or_one(w.boost),
        q => 1 <= t <= 6 && q == leaf_query(
            t,
            index_or_zero(w.field_index),
            index_or_zero(w.text_index),
            boost_or_one(w.boost),
        ),
    }
}

pub open spec fn list_decodes_to(ws: Seq<WireElement>, es: Seq<QueryElement>) -> bool
    decreases ws,
{
    &&& ws.len() == es.len()
    &&& ws.len() > 0 ==> list_decodes_to(ws.drop_last(), es.drop_last()) && decodes_to(
        ws.last(),
        es.last(),
    )
}

/// The first fault of a whole request.
pub open spec fn query_fault(w: WireQuery) -> Option<DecodeError> {
    match w.texts {
        Slot::Missing => Some(DecodeError::MissingField { field: WireField::Texts }),
        Slot::Invalid => Some(DecodeError::WrongShape { field: WireField::Texts }),
        _ => match w.fields {
            Slot::Missing => Some(DecodeError::MissingField { field: WireField::Fields }),
            Slot::Invalid => Some(DecodeError::WrongShape { field: WireField::Fields }),
            _ => match w.subqueries {
                Slot::Missing => Some(DecodeError::MissingField { field: WireField::Subqueries }),
                Slot::Invalid => Some(DecodeError::WrongShape { field: WireField::Subqueries }),
                Slot::Given(subs) => list_fault(subs@),
            },
        },
    }
}

/// `q` is what the (faultless) wire request `w` decodes to: the tables are
/// kept as they are, in order, and every clause decodes in place.
pub open spec fn query_decodes_to(w: WireQuery, q: FinalQuery) -> bool {
    &&& query_fault(w) is None
    &&& w.texts matches Slot::Given(texts) && texts@ == q.texts@
    &&& w.fields matches Slot::Given(fields) && fields@ == q.fields@
    &&& w.subqueries matches Slot::Given(subs) && list_decodes_to(subs@, q.query.subqueries@)
}

fn modifier_of(w: &WireElement) -> (r: Result<QueryModifier, DecodeError>)
    ensures
        r matches Ok(m) ==> w.query_modifier == Slot::Given(m.spec_code()),
        r matches Err(e) ==> match w.query_modifier {
            Slot::Missing => e == DecodeError::MissingField { field: WireField::QueryModifier },
            Slot::Invalid => e == DecodeError::InvalidModifier,
            Slot::Given(m) => m > 2 && e == DecodeError::InvalidModifier,
        },
{
    match &w.query_modifier {
        Slot::Missing => Err(DecodeError::MissingField { field: WireField::QueryModifier }),
        Slot::Invalid => Err(DecodeError::InvalidModifier),
        Slot::Given(m) => match QueryModifier::from_u64(*m) {
            Some(q) => Ok(q),
            None => Err(DecodeError::InvalidModifier),
        },
    }
}

/// Decodes one wire clause.
pub fn decode_element(w: &WireElement) -> (r: Result<QueryElement, DecodeError>)
    ensures
        r is Ok <==> element_fault(*w) is None,
        r matches Ok(e) ==> decodes_to(*w, e),
        r matches Err(err) ==> element_fault(*w) == Some(err),
    decreases w,
{
    let modifier = match modifier_of(w) {
        Ok(m) => m,
        Err(e) => {
            return Err(e);
        },
    };
    let t = match &w.query_type {
        Slot::Missing => {
            return Err(DecodeError::MissingField { field: WireField::QueryType });
        },
        Slot::Invalid => {
            return Err(DecodeError::InvalidType);
        },
        Slot::Given(t) => *t,
    };
    let kind = match QueryType::from_u64(t) {
        Some(k) => k,
        None => {
            return Err(DecodeError::InvalidType);
        },
    };
    let query = match kind {
        QueryType::BoolQuery => {
            if let Slot::Missing = &w.subqueries {
                return Err(DecodeError::MissingField { field: WireField::Subqueries });
            }
            let boost = match w.boost {
                Some(b) => b,
                None => {
                    return Err(DecodeError::MissingField { field: WireField::Boost });
                },
            };
            let subqueries = match &w.subqueries {
                Slot::Given(subs) => match decode_list(subs) {
                    Ok(es) => es,
                    Err(e) => {
                        return Err(e);
                    },
                },
                _ => {
                    return Err(DecodeError::WrongShape { field: WireField::Subqueries });
                },
            };
            GoQuery::BoolQuery { subqueries, boost }
        },
        _ => {
            if !w.query_is_object {
                return Err(DecodeError::MissingField { field: WireField::Query });
            }
            let boost = match w.boost {
                Some(b) => b,
                None => Boost::one(),
            };
            let fi: usize = match w.field_index {
                Some(n) => #[verifier::truncate] (n as usize),
                None => 0,
            };
            let ti: usize = match w.text_index {
                Some(n) => #[verifier::truncate] (n as usize),
                None => 0,
            };
            match kind {
                QueryType::PhraseQuery => GoQuery::PhraseQuery {
                    field_index: fi,
                    text_index: ti,
                    boost,
                },
                QueryType::PhrasePrefixQuery => GoQuery::PhrasePrefixQuery {
                    field_index: fi,
                    text_index: ti,
                    boost,
                },
                QueryType::TermPrefixQuery => GoQuery::TermPrefixQuery {
                    field_index: fi,
                    text_index: ti,
                    boost,
                },
                QueryType::TermQuery => GoQuery::TermQuery { field_index: fi, text_index: ti, boost },
                QueryType::EveryTermQuery => GoQuery::EveryTermQuery {
                    field_index: fi,
                    text_index: ti,
                    boost,
                },
                QueryType::OneOfTermQuery => GoQuery::OneOfTermQuery {
                    field_index: fi,
                    text_index: ti,
                    boost,
                },
                _ => GoQuery::AllQuery { boost },
            }
        },
    };
    Ok(QueryElement { query: Some(query), modifier })
}

/// Decodes the clauses of a list, stopping at the first fault.
pub fn decode_list(ws: &Vec<WireElement>) -> (r: Result<Vec<QueryElement>, DecodeError>)
    ensures
        r is Ok <==> list_fault(ws@) is None,
        r matches Ok(es) ==> list_decodes_to(ws@, es@),
        r matches Err(err) ==> list_fault(ws@) == Some(err),
    decreases ws,
{
    let mut out: Vec<QueryElement> = Vec::new();
    let mut i: usize = 0;
    while i < ws.len()
        invariant
            i <= ws@.len(),
            list_fault(ws@.take(i as int)) is None,
            list_decodes_to(ws@.take(i as int), out@),
        decreases ws@.len() - i,
    {
        assert(ws@.take(i + 1).drop_last() =~= ws@.take(i as int));
        match decode_element(&ws[i]) {
            Ok(e) => {
                proof {
                    assert(out@.push(e).drop_last() =~= out@);
                }
                out.push(e);
            },
            Err(err) => {
                proof {
                    lemma_list_fault_first(ws@, i as int);
                }
                return Err(err);
            },
        }
        i += 1;
    }
    assert(ws@.take(ws@.len() as int) =~= ws@);
    Ok(out)
}

proof fn lemma_list_fault_first(s: Seq<WireElement>, i: int)
    requires
        0 <= i < s.len(),
        list_fault(s.take(i)) is None,
        element_fault(s[i]) is Some,
    ensures
        list_fault(s) == element_fault(s[i]),
    decreases s.len() - i,
{
    assert(s.take(i + 1).drop_last() =~= s.take(i));
    lemma_list_fault_stays(s, i + 1);
}

proof fn lemma_list_fault_stays(s: Seq<WireElement>, j: int)
    requires
        0 < j <= s.len(),
        list_fault(s.take(j)) is Some,
    ensures
        list_fault(s) == list_fault(s.take(j)),
    decreases s.len() - j,
{
    if j < s.len() {
        assert(s.take(j + 1).drop_last() =~= s.take(j));
        lemma_list_fault_stays(s, j + 1);
    } else {
        assert(s.take(j) =~= s);
    }
}

/// Decodes a whole wire request.
pub fn decode_query(w: WireQuery) -> (r: Result<FinalQuery, DecodeError>)
    ensures
        r is Ok <==> query_fault(w) is None,
        r matches Ok(q) ==> query_decodes_to(w, q),
        r matches Err(err) ==> query_fault(w) == Some(err),
{
    let texts = match w.texts {
        Slot::Missing => {
            return Err(DecodeError::MissingField { field: WireField::Texts });
        },
        Slot::Invalid => {
            return Err(DecodeError::WrongShape { field: WireField::Texts });
        },
        Slot::Given(t) => t,
    };
    let fields = match w.fields {
        Slot::Missing => {
            return Err(DecodeError::MissingField { field: WireField::Fields });
        },
        Slot::Invalid => {
            return Err(DecodeError::WrongShape { field: WireField::Fields });
        },
        Slot::Given(f) => f,
    };
    let subqueries = match &w.subqueries {
        Slot::Missing => {
            return Err(DecodeError::MissingField { field: WireField::Subqueries });
        },
        Slot::Invalid => {
            return Err(DecodeError::WrongShape { field: WireField::Subqueries });
        },
        Slot::Given(subs) => match decode_list(subs) {
            Ok(es) => es,
            Err(e) => {
                return Err(e);
            },
        },
    };
    Ok(FinalQuery { texts, fields, query: BoolQuery { subqueries } })
}

/// `w` is the wire form of `e`: codes and indices as they are, every member
/// that the kind uses present.
pub open spec fn encodes_to(e: QueryElement, w: WireElement) -> bool
    decreases e,
{
    &&& w.query_modifier == Slot::Given(e.modifier.spec_code())
    &&& w.query_is_object
    &&& match e.query {
        None => w.query_type == Slot::<u64>::Missing,
        Some(GoQuery::BoolQuery { subqueries, boost }) => {
            &&& w.query_type == Slot::Given(0u64)
            &&& w.boost == Some(boost)
            &&& w.subqueries matches Slot::Given(ws)
            &&& list_encodes_to(subqueries@, ws@)
        },
        Some(GoQuery::AllQuery { boost }) => {
            &&& w.query_type == Slot::Given(7u64)
            &&& w.boost == Some(boost)
        },
        Some(q) => {
            &&& w.query_type matches Slot::Given(t)
            &&& 1 <= t <= 6
            &&& w.subqueries == Slot::<Vec<WireElement>>::Missing
            &&& w.field_index matches Some(fi)
            &&& w.text_index matches Some(ti)
            &&& w.boost matches Some(b)
            &&& q == leaf_query(t, fi as usize, ti as usize, b)
            &&& fi == (fi as usize) as u64
            &&& ti == (ti as usize) as u64
        },
    }
}

pub open spec fn list_encodes_to(es: Seq<QueryElement>, ws: Seq<WireElement>) -> bool
    decreases es,
{
    &&& ws.len() == es.len()
    &&& es.len() > 0 ==> list_encodes_to(es.drop_last(), ws.drop_last()) && encodes_to(
        es.last(),
        ws.last(),
    )
}

/// Whether every clause of the tree carries a payload.
pub open spec fn well_formed(e: QueryElement) -> bool
    decreases e,
{
    match e.query {
        None => false,
        Some(GoQuery::BoolQuery { subqueries, .. }) => list_well_formed(subqueries@),
        _ => true,
    }
}

pub open spec fn list_well_formed(s: Seq<QueryElement>) -> bool
    decreases s,
{
    s.len() > 0 ==> list_well_formed(s.drop_last()) && well_formed(s.last())
}

/// Two wire clauses carry the same modifiers, kinds and table references,
/// clause by clause (a leaf's absent index reads as zero).
pub open spec fn same_refs(a: WireElement, b: WireElement) -> bool
    decreases a,
{
    &&& a.query_modifier == b.query_modifier
    &&& a.query_type == b.query_type
    &&& if a.query_type == Slot::Given(0u64) {
        &&& a.subqueries matches Slot::Given(xs)
        &&& b.subqueries matches Slot::Given(ys)
        &&& list_same_refs(xs@, ys@)
    } else if a.query_type == Slot::Given(7u64) {
        true
    } else {
        &&& index_or_zero(a.field_index) == index_or_zero(b.field_index)
        &&& index_or_zero(a.text_index) == index_or_zero(b.text_index)
    }
}

pub open spec fn list_same_refs(xs: Seq<WireElement>, ys: Seq<WireElement>) -> bool
    decreases xs,
{
    &&& xs.len() == ys.len()
    &&& xs.len() > 0 ==> list_same_refs(xs.drop_last(), ys.drop_last()) && same_refs(
        xs.last(),
        ys.last(),
    )
}

proof fn lemma_index_round_trip(x: usize)
    ensures
        ((x as u64) as usize) == x,
        (((x as u64) as usize) as u64) == x as u64,
{
    assert(((x as u64) as usize) == x) by (bit_vector);
}

/// Encodes one clause into its wire form.
pub fn encode_element(e: &QueryElement) -> (r: WireElement)
    ensures
        encodes_to(*e, r),
    decreases e,
{
    let modifier = Slot::Given(e.modifier.code());
    match &e.query {
        None => WireElement {
            query_modifier: modifier,
            query_type: Slot::Missing,
            query_is_object: true,
            field_index: None,
            text_index: None,
            boost: None,
            subqueries: Slot::Missing,
        },
        Some(GoQuery::BoolQuery { subqueries, boost }) => WireElement {
            query_modifier: modifier,
            query_type: Slot::Given(0),
            query_is_object: true,
            field_index: None,
            text_index: None,
            boost: Some(*boost),
            subqueries: Slot::Given(encode_list(subqueries)),
        },
        Some(GoQuery::AllQuery { boost }) => WireElement {
            query_modifier: modifier,
            query_type: Slot::Given(7),
            query_is_object: true,
            field_index: None,
            text_index: None,
            boost: Some(*boost),
            subqueries: Slot::Missing,
        },
        Some(q) => {
            let (t, fi, ti, b): (u64, usize, usize, Boost) = match q {
                GoQuery::PhraseQuery { field_index, text_index, boost } => (
                    1,
                    *field_index,
                    *text_index,
                    *boost,
                ),
                GoQuery::PhrasePrefixQuery { field_index, text_index, boost } => (
                    2,
                    *field_index,
                    *text_index,
                    *boost,
                ),
                GoQuery::TermPrefixQuery { field_index, text_index, boost } => (
                    3,
                    *field_index,
                    *text_index,
                    *boost,
                ),
                GoQuery::TermQuery { field_index, text_index, boost } => (
                    4,
                    *field_index,
                    *text_index,
                    *boost,
                ),
                GoQuery::EveryTermQuery { field_index, text_index, boost } => (
                    5,
                    *field_index,
                    *text_index,
                    *boost,
                ),
                GoQuery::OneOfTermQuery { field_index, text_index, boost } => (
                    6,
                    *field_index,
                    *text_index,
                    *boost,
                ),
                _ => (6, 0, 0, Boost::one()),
            };
            proof {
                lemma_index_round_trip(fi);
                lemma_index_round_trip(ti);
            }
            WireElement {
                query_modifier: modifier,
                query_type: Slot::Given(t),
                query_is_object: true,
                field_index: Some(fi as u64),
                text_index: Some(ti as u64),
                boost: Some(b),
                subqueries: Slot::Missing,
            }
        },
    }
}

/// Encodes the clauses of a list, in order.
pub fn encode_list(es: &Vec<QueryElement>) -> (r: Vec<WireElement>)
    ensures
        list_encodes_to(es@, r@),
    decreases es,
{
    let mut out: Vec<WireElement> = Vec::new();
    let mut i: usize = 0;
    while i < es.len()
        invariant
            i <= es@.len(),
            list_encodes_to(es@.take(i as int), out@),
        decreases es@.len() - i,
    {
        assert(es@.take(i + 1).drop_last() =~= es@.take(i as int));
        let w = encode_element(&es[i]);
        proof {
            assert(out@.push(w).drop_last() =~= out@);
        }
        out.push(w);
        i += 1;
    }
    assert(es@.take(es@.len() as int) =~= es@);
    out
}

proof fn lemma_encode_decodes(e: QueryElement, w: WireElement)
    requires
        well_formed(e),
        encodes_to(e, w),
    ensures
        decodes_to(w, e),
    decreases e,
{
    match e.query {
        Some(GoQuery::BoolQuery { subqueries, .. }) => {
            let ws = w.subqueries->Given_0;
            lemma_list_encode_decodes(subqueries@, ws@);
        },
        Some(GoQuery::AllQuery { .. }) => {},
        Some(q) => {
            let fi = w.field_index.unwrap();
            let ti = w.text_index.unwrap();
            assert(index_or_zero(w.field_index) == fi as usize);
            assert(index_or_zero(w.text_index) == ti as usize);
        },
        None => {},
    }
}

proof fn lemma_list_encode_decodes(es: Seq<QueryElement>, ws: Seq<WireElement>)
    requires
        list_well_formed(es),
        list_encodes_to(es, ws),
    ensures
        list_decodes_to(ws, es),
        list_fault(ws) is None,
    decreases es,
{
    if es.len() > 0 {
        lemma_list_encode_decodes(es.drop_last(), ws.drop_last());
        lemma_encode_decodes(es.last(), ws.last());
    }
}

proof fn lemma_decode_encode_refs(w: WireElement, e: QueryElement, w2: WireElement)
    requires
        decodes_to(w, e),
        encodes_to(e, w2),
    ensures
        same_refs(w, w2),
    decreases w,
{
    match e.query {
        Some(GoQuery::BoolQuery { subqueries, .. }) => {
            lemma_list_decode_encode_refs(
                w.subqueries->Given_0@,
                subqueries@,
                w2.subqueries->Given_0@,
            );
        },
        Some(GoQuery::AllQuery { .. }) => {},
        Some(q) => {
            let t1 = w.query_type->Given_0;
            let t2 = w2.query_type->Given_0;
            let f2 = w2.field_index.unwrap();
            let x2 = w2.text_index.unwrap();
            lemma_leaf_query_injective(
                t1,
                index_or_zero(w.field_index),
                index_or_zero(w.text_index),
                boost_or_one(w.boost),
                t2,
                f2 as usize,
                x2 as usize,
                w2.boost.unwrap(),
            );
        },
        None => {},
    }
}

proof fn lemma_leaf_query_injective(
    t1: u64,
    f1: usize,
    x1: usize,
    b1: Boost,
    t2: u64,
    f2: usize,
    x2: usize,
    b2: Boost,
)
    requires
        1 <= t1 <= 6,
        1 <= t2 <= 6,
        leaf_query(t1, f1, x1, b1) == leaf_query(t2, f2, x2, b2),
    ensures
        t1 == t2,
        f1 == f2,
        x1 == x2,
{
}

proof fn lemma_list_decode_encode_refs(
    ws: Seq<WireElement>,
    es: Seq<QueryElement>,
    ws2: Seq<WireElement>,
)
    requires
        list_decodes_to(ws, es),
        list_encodes_to(es, ws2),
    ensures
        list_same_refs(ws, ws2),
    decreases ws,
{
    if ws.len() > 0 {
        lemma_list_decode_encode_refs(ws.drop_last(), es.drop_last(), ws2.drop_last());
        lemma_decode_encode_refs(ws.last(), es.last(), ws2.last());
    }
}

/// Decoding a wire clause and encoding the result again keeps every
/// modifier, kind and table reference where it was (no renumbering), and the
/// new wire form decodes to the same clause.
pub proof fn law_wire_round_trip(w: WireElement, e: QueryElement, w2: WireElement)
    requires
        decodes_to(w, e),
        encodes_to(e, w2),
    ensures
        same_refs(w, w2),
        decodes_to(w2, e),
{
    lemma_decode_encode_refs(w, e, w2);
    lemma_decoded_well_formed(w, e);
    lemma_encode_decodes(e, w2);
}

proof fn lemma_decoded_well_formed(w: WireElement, e: QueryElement)
    requires
        decodes_to(w, e),
    ensures
        well_formed(e),
    decreases w,
{
    match e.query {
        Some(GoQuery::BoolQuery { subqueries, .. }) => {
            lemma_list_decoded_well_formed(w.subqueries->Given_0@, subqueries@);
        },
        _ => {},
    }
}

proof fn lemma_list_decoded_well_formed(ws: Seq<WireElement>, es: Seq<QueryElement>)
    requires
        list_decodes_to(ws, es),
    ensures
        list_well_formed(es),
    decreases ws,
{
    if ws.len() > 0 {
        lemma_list_decoded_well_formed(ws.drop_last(), es.drop_last());
        lemma_decoded_well_formed(ws.last(), es.last());
    }
}

/// A request with payloads throughout decodes from its own wire form.
pub proof fn law_encode_then_decode(e: QueryElement, w: WireElement)
    requires
        well_formed(e),
        encodes_to(e, w),
    ensures
        decodes_to(w, e),
{
    lemma_encode_decodes(e, w);
}

proof fn lemma_element_fault_not_syntax(w: WireElement)
    ensures
        !(element_fault(w) matches Some(DecodeError::Syntax { .. })),
    decreases w,
{
    if let Slot::Given(subs) = w.subqueries {
        lemma_list_fault_not_syntax(subs@);
    }
}

proof fn lemma_list_fault_not_syntax(s: Seq<WireElement>)
    ensures
        !(list_fault(s) matches Some(DecodeError::Syntax { .. })),
    decreases s,
{
    if s.len() > 0 {
        lemma_list_fault_not_syntax(s.drop_last());
        lemma_element_fault_not_syntax(s.last());
    }
}

/// Decoding a wire request never reports a syntax fault: those belong to the
/// JSON text alone.
pub proof fn law_query_fault_not_syntax(w: WireQuery)
    ensures
        !(query_fault(w) matches Some(DecodeError::Syntax { .. })),
{
    if let Slot::Given(subs) = w.subqueries {
        lemma_list_fault_not_syntax(subs@);
    }
}

} // verus!
