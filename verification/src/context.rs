//! What parsing needs from elsewhere in a document.
use vstd::prelude::*;

use crate::media_info::FileRegistry;
use crate::note_doc::StringRegistry;

verus! {

/// The registries of a document, which objects refer to by id.
#[derive(Clone, Copy)]
pub struct DocumentContext<'fr, 'sr> {
    pub file_registry: &'fr FileRegistry,
    pub string_registry: &'sr StringRegistry,
}

/// Parsing of a value from a reader, given a context `C`.
pub trait TryParseWithContext<R, C>: Sized {
    type ParseError;

    fn try_parse_with_ctx(reader: &mut R, ctx: &C) -> Result<Self, Self::ParseError>;
}

} // verus!
