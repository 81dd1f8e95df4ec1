//! Term extraction: running a field's analyzer over a query text.
use tantivy::tokenizer::{Token, TokenStream};
use tantivy::Index;
use vstd::prelude::*;

verus! {

#[verifier::external_type_specification]
#[verifier::external_body]
pub struct ExIndex(Index);

/// Why a query text yielded no terms for a field.
#[derive(Debug, Clone, PartialEq, Eq)]
pub enum ExtractError {
    /// The analyzer ran and produced no token: nothing to match, not a fault.
    Empty,
    /// The schema has no field of that name.
    UnknownField,
    /// The field has no usable analyzer.
    AnalyzerUnavailable { reason: String },
}

/// The field's schema id and the `(position, token text)` pairs of a query
/// text, in token order.
pub type Extraction = Result<(u32, Vec<(usize, String)>), ExtractError>;

/// A settled extraction: a success always carries at least one term.
pub open spec fn settled(x: Extraction) -> bool {
    x matches Ok((_, terms)) ==> terms@.len() > 0
}

/// Relies on tantivy's `Schema::get_field`, `Index::tokenizer_for_field` and
/// `TextAnalyzer::token_stream`: resolves the field by name in the index's
/// schema and runs its configured analyzer over `text`, keeping each token's
/// position and text in stream order.
#[verifier::external_body]
fn run_field_analyzer(index: &Index, field_name: &str, text: &str) -> (r: Extraction)
    ensures
        !(r matches Err(ExtractError::Empty)),
{
    let field = match index.schema().get_field(field_name) {
        Ok(field) => field,
        Err(_) => return Err(ExtractError::UnknownField),
    };
    let mut analyzer = match index.tokenizer_for_field(field) {
        Ok(analyzer) => analyzer,
        Err(e) => return Err(ExtractError::AnalyzerUnavailable { reason: e.to_string() }),
    };
    let mut terms = Vec::new();
    analyzer.token_stream(text).process(&mut |t: &Token| terms.push((t.position, t.text.clone())));
    Ok((field.field_id(), terms))
}

/// Turns an analyzer run that produced no token into [`ExtractError::Empty`],
/// keeping every other outcome as it is.
pub fn settle(raw: Extraction) -> (r: Extraction)
    ensures
        settled(r),
        (raw matches Ok((_, terms)) && terms@.len() == 0) ==> r == Err::<
            (u32, Vec<(usize, String)>),
            ExtractError,
        >(ExtractError::Empty),
        !(raw matches Ok((_, terms)) && terms@.len() == 0) ==> r == raw,
{
    match raw {
        Ok((field, terms)) => {
            if terms.len() == 0 {
                Err(ExtractError::Empty)
            } else {
                Ok((field, terms))
            }
        },
        Err(e) => Err(e),
    }
}

/// Runs the analyzer configured for the field named `field_name` over `text`.
/// What comes back depends on the index's configuration; whatever it is, a success carries at least one term, and
/// "no tokens" is reported as [`ExtractError::Empty`], apart from the
/// configuration faults.
pub fn extract_terms(index: &Index, field_name: &str, text: &str) -> (r: Extraction)
    ensures
        settled(r),
{
    settle(run_field_analyzer(index, field_name, text))
}

} // verus!
