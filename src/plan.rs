//! Compiled query plans and their mathematical form.
use vstd::prelude::*;

use crate::models::Boost;

verus! {

broadcast use vstd::std_specs::vec::group_vec_axioms, vstd::seq::group_seq_axioms;

/// The role of a compiled clause in its boolean group.
#[derive(Clone, Copy, Debug, PartialEq, Eq, Structural)]
pub enum Occur {
    Must,
    Should,
    MustNot,
}

/// The multiplier of a boost node.
#[derive(Clone, Copy, Debug, PartialEq, Eq, Structural)]
pub enum Weight {
    /// A boost given by the request.
    Given(Boost),
    /// The weight `1 - rank / (2 * count)` of the `rank`-th (from one) of
    /// `count` alternatives.
    Decay { rank: usize, count: usize },
}

/// An executable query plan over concrete fields (by schema id) and terms.
#[derive(Debug, PartialEq)]
pub enum QueryNode {
    /// One exact term; `positions` asks the index for positions as well.
    Term { field: u32, text: String, positions: bool },
    /// Terms at the given positions, in order.
    Phrase { field: u32, terms: Vec<(usize, String)> },
    /// Like `Phrase`, with the last term matched as a prefix.
    PhrasePrefix { field: u32, terms: Vec<(usize, String)> },
    /// A boolean group of clauses.
    Boolean { clauses: Vec<(Occur, QueryNode)> },
    /// A node whose score is multiplied by `weight`.
    Boosted { node: Box<QueryNode>, weight: Weight },
    /// Matches every document.
    All,
    /// Matches no document.
    Nothing,
}

/// The mathematical form of a [`QueryNode`].
pub enum NodeSpec {
    Term { field: u32, text: Seq<char>, positions: bool },
    Phrase { field: u32, terms: Seq<(usize, Seq<char>)> },
    PhrasePrefix { field: u32, terms: Seq<(usize, Seq<char>)> },
    Boolean { clauses: Seq<(Occur, NodeSpec)> },
    Boosted { node: Box<NodeSpec>, weight: Weight },
    All,
    Nothing,
}

pub open spec fn terms_view(s: Seq<(usize, String)>) -> Seq<(usize, Seq<char>)> {
    s.map_values(|t: (usize, String)| (t.0, t.1@))
}

pub open spec fn node_view(n: QueryNode) -> NodeSpec
    decreases n,
{
    match n {
        QueryNode::Term { field, text, positions } => NodeSpec::Term {
            field,
            text: text@,
            positions,
        },
        QueryNode::Phrase { field, terms } => NodeSpec::Phrase { field, terms: terms_view(terms@) },
        QueryNode::PhrasePrefix { field, terms } => NodeSpec::PhrasePrefix {
            field,
            terms: terms_view(terms@),
        },
        QueryNode::Boolean { clauses } => NodeSpec::Boolean { clauses: clauses_view(clauses@) },
        QueryNode::Boosted { node, weight } => NodeSpec::Boosted {
            node: Box::new(node_view(*node)),
            weight,
        },
        QueryNode::All => NodeSpec::All,
        QueryNode::Nothing => NodeSpec::Nothing,
    }
}

pub open spec fn clauses_view(s: Seq<(Occur, QueryNode)>) -> Seq<(Occur, NodeSpec)>
    decreases s,
{
    if s.len() == 0 {
        Seq::empty()
    } else {
        clauses_view(s.drop_last()).push((s.last().0, node_view(s.last().1)))
    }
}

impl View for QueryNode {
    type V = NodeSpec;

    open spec fn view(&self) -> NodeSpec {
        node_view(*self)
    }
}

/// The shape the search engine needs: a phrase has at least two terms and a
/// phrase prefix at least one, throughout the tree.
pub open spec fn node_well_formed(n: NodeSpec) -> bool
    decreases n,
{
    match n {
        NodeSpec::Phrase { terms, .. } => terms.len() >= 2,
        NodeSpec::PhrasePrefix { terms, .. } => terms.len() >= 1,
        NodeSpec::Boolean { clauses } => clauses_well_formed(clauses),
        NodeSpec::Boosted { node, .. } => node_well_formed(*node),
        _ => true,
    }
}

pub open spec fn clauses_well_formed(s: Seq<(Occur, NodeSpec)>) -> bool
    decreases s,
{
    s.len() > 0 ==> clauses_well_formed(s.drop_last()) && node_well_formed(s.last().1)
}

pub proof fn lemma_clauses_well_formed(s: Seq<(Occur, NodeSpec)>)
    requires
        forall|i: int| 0 <= i < s.len() ==> node_well_formed(#[trigger] s[i].1),
    ensures
        clauses_well_formed(s),
    decreases s.len(),
{
    if s.len() > 0 {
        let p = s.drop_last();
        assert forall|i: int| 0 <= i < p.len() implies node_well_formed(#[trigger] p[i].1) by {
            assert(p[i] == s[i]);
        }
        lemma_clauses_well_formed(p);
    }
}

} // verus!
