//! The handler-facing side of the parse: the result type every handler
//! returns, and the per-namespace extension handlers.

use vstd::prelude::*;

pub mod arxiv;

verus! {

/// Error carried through from lower layers of the parse (the XML reader
/// underneath). The extension handlers never originate one for malformed
/// extension data: data-shape problems degrade to unset fields instead.
#[derive(Debug, PartialEq, Eq, Clone)]
pub enum ParseFeedError {
    /// A defect in the underlying document, reported from below.
    Xml(String),
}

/// The result type every handler returns.
pub type ParseFeedResult<T> = Result<T, ParseFeedError>;

} // verus!
