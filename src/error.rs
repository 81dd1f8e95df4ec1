//! Errors of the library.
use vstd::prelude::*;
use vstd::string::StringExecFns;

verus! {

/// A human-readable error carried across the library boundary.
#[derive(Debug, Clone)]
pub struct TantivyGoError(pub String);

impl TantivyGoError {
    /// `"<message>: <err>"`.
    pub fn from_err(message: &str, err: &str) -> (r: TantivyGoError)
        ensures
            r.0@ == message@ + ": "@ + err@,
    {
        let mut s = String::from_str(message);
        s.append(": ");
        s.append(err);
        TantivyGoError(s)
    }

    /// The message as given.
    pub fn from_str(value: &str) -> (r: TantivyGoError)
        ensures
            r.0@ == value@,
    {
        TantivyGoError(String::from_str(value))
    }
}

/// Why a query could not be compiled.
#[derive(Debug, Clone, PartialEq, Eq)]
pub enum CompileError {
    /// The field or text table is empty and the tree holds no match-all clause.
    EmptyTables,
    /// A clause carries no payload.
    MissingQuery,
    /// A clause refers past the end of the field table.
    InvalidFieldIndex,
    /// A clause refers past the end of the text table.
    InvalidTextIndex,
    /// A referenced field name is not in the index's schema.
    UnknownField,
    /// A referenced field has no usable analyzer.
    AnalyzerUnavailable { reason: String },
    /// Every top-level clause was dropped.
    NoUsableClauses,
}

} // verus!
