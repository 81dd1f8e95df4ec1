//! The request model: clause kinds, modifiers, payloads and the request root.
use vstd::prelude::*;

verus! {

/// Bit pattern of the single-precision number one.
pub const ONE_BITS: u32 = 0x3f80_0000;

/// A clause's multiplicative scoring weight, kept as the bit pattern of an
/// IEEE-754 single-precision number. The compiler never computes with it; it
/// only needs to know whether the weight is exactly one.
#[derive(Clone, Copy, Debug, PartialEq, Eq, Structural)]
pub struct Boost {
    pub bits: u32,
}

impl Boost {
    pub open spec fn is_identity(self) -> bool {
        self.bits == ONE_BITS
    }

    /// The identity weight.
    pub fn one() -> (r: Boost)
        ensures
            r.is_identity(),
    {
        Boost { bits: ONE_BITS }
    }

    pub fn from_bits(bits: u32) -> (r: Boost)
        ensures
            r.bits == bits,
    {
        Boost { bits }
    }

    pub fn is_one(&self) -> (r: bool)
        ensures
            r == self.is_identity(),
    {
        self.bits == ONE_BITS
    }
}

/// The wire codes of clause kinds.
#[derive(Clone, Copy, Debug, PartialEq, Eq, Structural)]
pub enum QueryType {
    BoolQuery,
    PhraseQuery,
    PhrasePrefixQuery,
    TermPrefixQuery,
    TermQuery,
    EveryTermQuery,
    OneOfTermQuery,
    AllQuery,
}

impl QueryType {
    pub open spec fn spec_code(self) -> u64 {
        match self {
            QueryType::BoolQuery => 0,
            QueryType::PhraseQuery => 1,
            QueryType::PhrasePrefixQuery => 2,
            QueryType::TermPrefixQuery => 3,
            QueryType::TermQuery => 4,
            QueryType::EveryTermQuery => 5,
            QueryType::OneOfTermQuery => 6,
            QueryType::AllQuery => 7,
        }
    }

    /// The kind with wire code `value`; codes above 7 name no kind.
    pub fn from_u64(value: u64) -> (r: Option<QueryType>)
        ensures
            r matches Some(t) ==> t.spec_code() == value,
            r is None <==> value > 7,
    {
        match value {
            0 => Some(QueryType::BoolQuery),
            1 => Some(QueryType::PhraseQuery),
            2 => Some(QueryType::PhrasePrefixQuery),
            3 => Some(QueryType::TermPrefixQuery),
            4 => Some(QueryType::TermQuery),
            5 => Some(QueryType::EveryTermQuery),
            6 => Some(QueryType::OneOfTermQuery),
            7 => Some(QueryType::AllQuery),
            _ => None,
        }
    }

    pub fn code(&self) -> (r: u64)
        ensures
            r == self.spec_code(),
    {
        match self {
            QueryType::BoolQuery => 0,
            QueryType::PhraseQuery => 1,
            QueryType::PhrasePrefixQuery => 2,
            QueryType::TermPrefixQuery => 3,
            QueryType::TermQuery => 4,
            QueryType::EveryTermQuery => 5,
            QueryType::OneOfTermQuery => 6,
            QueryType::AllQuery => 7,
        }
    }
}

/// The logical role of a clause within its group.
#[derive(Clone, Copy, Debug, PartialEq, Eq, Structural)]
pub enum QueryModifier {
    Must,
    Should,
    MustNot,
}

impl QueryModifier {
    pub open spec fn spec_code(self) -> u64 {
        match self {
            QueryModifier::Must => 0,
            QueryModifier::Should => 1,
            QueryModifier::MustNot => 2,
        }
    }

    /// The modifier with wire code `val`; codes above 2 name none.
    pub fn from_u64(val: u64) -> (r: Option<QueryModifier>)
        ensures
            r matches Some(m) ==> m.spec_code() == val,
            r is None <==> val > 2,
    {
        match val {
            0 => Some(QueryModifier::Must),
            1 => Some(QueryModifier::Should),
            2 => Some(QueryModifier::MustNot),
            _ => None,
        }
    }

    pub fn code(&self) -> (r: u64)
        ensures
            r == self.spec_code(),
    {
        match self {
            QueryModifier::Must => 0,
            QueryModifier::Should => 1,
            QueryModifier::MustNot => 2,
        }
    }
}

/// The typed payload of one clause. Leaf clauses refer to a field name and a
/// query text by their positions in the tables of the enclosing
/// [`FinalQuery`].
#[derive(Debug, PartialEq)]
pub enum GoQuery {
    BoolQuery { subqueries: Vec<QueryElement>, boost: Boost },
    PhraseQuery { field_index: usize, text_index: usize, boost: Boost },
    PhrasePrefixQuery { field_index: usize, text_index: usize, boost: Boost },
    TermPrefixQuery { field_index: usize, text_index: usize, boost: Boost },
    TermQuery { field_index: usize, text_index: usize, boost: Boost },
    EveryTermQuery { field_index: usize, text_index: usize, boost: Boost },
    OneOfTermQuery { field_index: usize, text_index: usize, boost: Boost },
    AllQuery { boost: Boost },
}

/// One clause: its modifier and its payload. A clause without a payload does
/// not compile.
#[derive(Debug, PartialEq)]
pub struct QueryElement {
    pub query: Option<GoQuery>,
    pub modifier: QueryModifier,
}

/// The root clause group.
#[derive(Debug, PartialEq)]
pub struct BoolQuery {
    pub subqueries: Vec<QueryElement>,
}

/// A complete request: the deduplicated query texts, the field names, and the
/// root group whose clauses refer into both tables.
#[derive(Debug, PartialEq)]
pub struct FinalQuery {
    pub texts: Vec<String>,
    pub fields: Vec<String>,
    pub query: BoolQuery,
}

/// A highlighted fragment of a stored field.
#[derive(Clone, Debug)]
pub struct Fragment {
    /// The fragment's text.
    pub t: String,
    /// Byte ranges of the highlighted parts of `t`.
    pub r: Vec<(usize, usize)>,
}

/// The highlights of one field of a hit.
#[derive(Clone, Debug)]
pub struct Highlight {
    pub field_name: String,
    pub fragment: Fragment,
}

} // verus!
