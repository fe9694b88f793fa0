//! The request value: method, path and the optional parsed body. A request
//! is built once per dispatch cycle, after the body has been parsed by the
//! caller, and is handed to the handler read-only.

use crate::methods::Method;
use vstd::prelude::*;

verus! {

/// An immutable request value. The body is whatever structured value the
/// dispatch cycle parsed, or JSON `null` when the request carried none.
pub struct TachyonRequest {
    pub method: Method,
    pub path: String,
    pub body: serde_json::Value,
}

impl TachyonRequest {
    /// Builds a request; no parsing happens here.
    pub fn new(method: Method, path: String, body: serde_json::Value) -> (r: TachyonRequest)
        ensures
            r.method == method,
            r.path == path,
            r.body == body,
    {
        TachyonRequest { method, path, body }
    }
}

} // verus!
