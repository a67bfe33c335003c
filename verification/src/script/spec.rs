//! Request specs as a script defines them.
//!
//! The script's functions (`extract` callbacks and dynamic specs) and JSON
//! bodies belong to the scripting runtime; the spec types are generic over
//! them (`F` for a function handle, `J` for a JSON value) and carry them
//! through unchanged.
use vstd::prelude::*;
use crate::script::method::HttpMethod;

verus! {

/// A fully parsed, static HTTP request spec.
#[derive(Debug, Clone)]
pub struct HTTPStaticRequestSpec<F, J> {
    /// The HTTP method.
    pub method: HttpMethod,
    /// The logical service name, resolved against the service registry.
    pub service: String,
    /// The URL path.
    pub path: String,
    /// Header name-value pairs.
    pub headers: Vec<(String, String)>,
    /// Query parameter name-value pairs.
    pub query: Vec<(String, String)>,
    /// A JSON body, or `None` for no body.
    pub body: Option<J>,
    /// A function that extracts data from the response.
    pub extract: Option<F>,
}

/// A protocol-specific request spec.
#[derive(Debug, Clone)]
pub enum RequestSpec<F, J> {
    Http(HTTPStaticRequestSpec<F, J>),
}

/// Whether a spec was parsed when the script was loaded or is computed by a
/// function per request.
#[derive(Debug, Clone)]
pub enum SpecType<F, J> {
    Static(RequestSpec<F, J>),
    Dynamic(F),
}

/// A request spec of a script, with the name that jumps may target.
#[derive(Debug, Clone)]
pub struct LuaRequestSpec<F, J> {
    pub name: Option<String>,
    pub spec: SpecType<F, J>,
}

} // verus!
