//! The memory routes of the monitor's API surface that the core backs.
//!
//! Only the parsing of the three read-only memory routes lives here; the
//! HTTP server itself is an external collaborator.  The parsers turn a
//! route into the action the monitor should run, and reject unknown
//! sub-paths.

pub mod memory;
pub mod memory_info;

use vstd::prelude::*;

verus! {

/// HTTP method of a request, as far as the memory routes care.
#[derive(Debug, Clone, Copy, PartialEq, Eq, Structural)]
pub enum Method {
    Get,
    Put,
    Patch,
}

/// HTTP status code attached to a generic routing error.
#[derive(Debug, Clone, Copy, PartialEq, Eq, Structural)]
pub enum StatusCode {
    BadRequest,
    NotFound,
}

/// Errors of the route parsers.
#[derive(Debug, Clone, PartialEq, Eq)]
pub enum RequestError {
    /// The path and method do not name a known route.
    InvalidPathMethod(String, Method),
    /// The route was recognised but the request is malformed.
    Generic(StatusCode, String),
}

/// The monitor actions the memory routes can request.
#[derive(Debug, Clone, Copy, PartialEq, Eq, Structural)]
pub enum VmmAction {
    GetMemory,
    GetMemoryMappings,
    GetMemoryDirty,
}

/// How a parsed request is to be run: the memory routes are all
/// synchronous.
#[derive(Debug, Clone, Copy, PartialEq, Eq, Structural)]
pub enum RequestAction {
    Sync(VmmAction),
}

/// A successfully parsed request: the action to run and an optional body.
#[derive(Debug, Clone, PartialEq, Eq)]
pub struct ParsedRequest {
    action: RequestAction,
    body: Option<Vec<u8>>,
}

impl ParsedRequest {
    /// The action of the parsed request.
    pub closed spec fn spec_action(self) -> RequestAction {
        self.action
    }

    /// The body of the parsed request.
    pub closed spec fn spec_body(self) -> Option<Vec<u8>> {
        self.body
    }

    /// Wrap a synchronous action with no body.
    pub fn new_sync(action: VmmAction) -> (r: ParsedRequest)
        ensures
            r.spec_action() == RequestAction::Sync(action),
            r.spec_body() is None,
    {
        ParsedRequest { action: RequestAction::Sync(action), body: None }
    }

    /// Split the parsed request into its action and its body.
    pub fn into_parts(self) -> (r: (RequestAction, Option<Vec<u8>>))
        ensures
            r.0 == self.spec_action(),
            r.1 == self.spec_body(),
    {
        (self.action, self.body)
    }
}

} // verus!
