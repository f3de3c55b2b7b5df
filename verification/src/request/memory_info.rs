//! Parser of the memory-information route, which dispatches on the next
//! path token.

use crate::request::{ParsedRequest, RequestError, Method, RequestAction, StatusCode, VmmAction};
use vstd::prelude::*;
use vstd::string::StringExecFns;
use vstd::string::StrSliceExecFns;

verus! {

/// Parse the memory-information route from the path token that follows
/// `/memory`: `mappings` asks for the guest memory mappings; any other
/// token is an unknown path; a missing token is a malformed request.
pub fn parse_get_memory(path_token: Option<String>) -> (r: Result<ParsedRequest, RequestError>)
    ensures
        path_token matches Some(t) ==> (t@ == "mappings"@ ==> (r matches Ok(p)
            && p.spec_action() == RequestAction::Sync(VmmAction::GetMemoryMappings))),
        path_token matches Some(t) ==> (t@ != "mappings"@ ==> (r matches
            Err(RequestError::InvalidPathMethod(path, m)) && path@ == "/memory/"@ + t@
            && m == Method::Get)),
        path_token is None ==> (r matches Err(RequestError::Generic(sc, msg))
            && sc == StatusCode::BadRequest && msg@ == "Missing memory info type."@),
{
    match path_token {
        Some(token) => {
            let mappings: String = String::from_str("mappings");
            if token == mappings {
                Ok(ParsedRequest::new_sync(VmmAction::GetMemoryMappings))
            } else {
                let path = String::from_str("/memory/").concat(token.as_str());
                Err(RequestError::InvalidPathMethod(path, Method::Get))
            }
        },
        None => Err(
            RequestError::Generic(
                StatusCode::BadRequest,
                String::from_str("Missing memory info type."),
            ),
        ),
    }
}

} // verus!
