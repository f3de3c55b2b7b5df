//! Parsers of the three read-only memory routes.

use crate::request::{ParsedRequest, RequestAction, RequestError, VmmAction};
use vstd::prelude::*;

verus! {

/// Parse a request for the resident and empty-page bitmaps.
pub fn parse_get_memory_mappings() -> (r: Result<ParsedRequest, RequestError>)
    ensures
        r matches Ok(p) ==> p.spec_action() == RequestAction::Sync(
            VmmAction::GetMemoryMappings,
        ),
        r is Ok,
{
    Ok(ParsedRequest::new_sync(VmmAction::GetMemoryMappings))
}

/// Parse a request for the guest memory overview.
pub fn parse_get_memory() -> (r: Result<ParsedRequest, RequestError>)
    ensures
        r matches Ok(p) ==> p.spec_action() == RequestAction::Sync(VmmAction::GetMemory),
        r is Ok,
{
    Ok(ParsedRequest::new_sync(VmmAction::GetMemory))
}

/// Parse a request for the dirty-page bitmap.
pub fn parse_get_memory_dirty() -> (r: Result<ParsedRequest, RequestError>)
    ensures
        r matches Ok(p) ==> p.spec_action() == RequestAction::Sync(
            VmmAction::GetMemoryDirty,
        ),
        r is Ok,
{
    Ok(ParsedRequest::new_sync(VmmAction::GetMemoryDirty))
}

} // verus!
