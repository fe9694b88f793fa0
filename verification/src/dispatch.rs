//! The dispatch engine's decisions: route resolution, the malformed-body
//! policy, and the final render. The engine itself never touches a socket:
//! the caller hands in the method name, path, declared content type and raw
//! body bytes, and gets back either an early terminal outcome or the route
//! and request to invoke a handler with; after the handler ran (or the wait
//! timed out), [`render`] turns the response state into status, content
//! type and body.

use crate::json;
use crate::matching::spec_starts_with;
use crate::matching::str_starts_with;
use crate::methods::spec_parse_method;
use crate::methods::Method;
use crate::request::TachyonRequest;
use crate::router::no_route_for;
use crate::router::resolves_to;
use crate::router::spec_route_key;
use crate::router::Tachyon;
use crate::router::TachyonRouter;
use vstd::prelude::*;
use vstd::string::StringExecFns;

verus! {

/// What the engine decided for one inbound request.
pub enum DispatchOutcome {
    /// The verb is not one of the five the router supports.
    InvalidMethod,
    /// No registered route matches: rendered as 404 with the fixed body.
    NotFound,
    /// A declared-JSON body yielded nothing on a body-bearing verb:
    /// rendered as 400, and no handler runs.
    BadRequest,
    /// A route matched and the body passed the policy: invoke this route's
    /// handler with this request and a fresh shared response.
    Invoke { router: TachyonRouter, request: TachyonRequest },
}

/// Whether the declared content type announces structured JSON content.
pub open spec fn spec_declares_json(ct: Option<&str>) -> bool {
    match ct {
        Some(s) => spec_starts_with(s@, "application/json"@),
        None => false,
    }
}

/// Whether the declared content type announces structured JSON content.
pub fn declares_json(ct: &Option<&str>) -> (r: bool)
    ensures
        r == spec_declares_json(*ct),
{
    match ct {
        Some(s) => str_starts_with(s, "application/json"),
        None => false,
    }
}

/// The malformed-body policy: a structured-content declaration that yields
/// no value is a client error exactly on the body-bearing verbs POST, PUT
/// and PATCH; for the other verbs it degrades to "no body".
pub open spec fn spec_body_rejected(method: Method, json_declared: bool, body_null: bool) -> bool {
    json_declared && body_null && method.spec_requires_body()
}

/// The malformed-body policy, decided on the parse outcome the caller saw.
pub fn body_rejected(method: Method, json_declared: bool, body_null: bool) -> (r: bool)
    ensures
        r == spec_body_rejected(method, json_declared, body_null),
{
    json_declared && body_null && method.requires_body()
}

/// One dispatch decision: derive the method, resolve the route, parse a
/// declared-JSON body, and apply the body policy. The outcome is terminal
/// (invalid method, 404, 400) or the invocation to make. Whether a parsed
/// body was JSON `null` is the one thing the contract cannot pin down, as
/// the parsed value itself is opaque; everything around it is exact.
pub fn dispatch(
    table: &Tachyon,
    method_name: &str,
    path: &str,
    content_type: Option<&str>,
    raw_body: &[u8],
) -> (r: DispatchOutcome)
    ensures
        r is InvalidMethod <==> spec_parse_method(method_name@) is None,
        spec_parse_method(method_name@) matches Some(m) ==> ((r is NotFound) <==> no_route_for(
            table@,
            spec_route_key(m, path@),
        )),
        r matches DispatchOutcome::Invoke { router, request } ==> ({
            &&& spec_parse_method(method_name@) matches Some(m)
            &&& resolves_to(table@, spec_route_key(m, path@), router)
            &&& Some(request.method) == spec_parse_method(method_name@)
            &&& request.path@ == path@
        }),
        spec_parse_method(method_name@) matches Some(m) ==> table@.contains_key(
            spec_route_key(m, path@),
        ) ==> (r is BadRequest || (r matches DispatchOutcome::Invoke { router, request }
            && router == table@[spec_route_key(m, path@)])),
        r is BadRequest ==> ({
            &&& spec_parse_method(method_name@) matches Some(m)
            &&& m.spec_requires_body()
            &&& spec_declares_json(content_type)
            &&& !no_route_for(table@, spec_route_key(m, path@))
        }),
        spec_parse_method(method_name@) matches Some(m) ==> (m.spec_requires_body()
            && spec_declares_json(content_type) && !json::json_parses(raw_body@)
            && !no_route_for(table@, spec_route_key(m, path@))) ==> r is BadRequest,
{
    let method = match Method::from_name(method_name) {
        Ok(m) => m,
        Err(_) => {
            return DispatchOutcome::InvalidMethod;
        },
    };
    let router = match table.resolve(method, path) {
        Some(router) => router,
        None => {
            return DispatchOutcome::NotFound;
        },
    };
    let json_declared = declares_json(&content_type);
    let parsed: Option<serde_json::Value> = if json_declared {
        json::parse_value(raw_body)
    } else {
        None
    };
    let (body, body_null): (serde_json::Value, bool) = match parsed {
        Some(v) => {
            let null = v.is_null();
            (v, null)
        },
        None => (json::null_value(), true),
    };
    if body_rejected(method, json_declared, body_null) {
        return DispatchOutcome::BadRequest;
    }
    let request = TachyonRequest::new(method, String::from_str(path), body);
    DispatchOutcome::Invoke { router, request }
}

/// JSON whitespace: the four characters a JSON document may carry before
/// its first token.
pub open spec fn is_json_ws(c: char) -> bool {
    c == ' ' || c == '\t' || c == '\n' || c == '\r'
}

/// The index of the first character that is not JSON whitespace, or
/// `s.len()` when there is none.
pub open spec fn first_payload_index(s: Seq<char>) -> int
    decreases s.len(),
{
    if s.len() == 0 {
        0
    } else if !is_json_ws(s[0]) {
        0
    } else {
        1 + first_payload_index(s.skip(1))
    }
}

/// `first_payload_index` lands on the first non-whitespace character:
/// everything before it is whitespace, and what it points at is not.
pub proof fn lemma_first_payload_index(s: Seq<char>)
    ensures
        0 <= first_payload_index(s) <= s.len(),
        first_payload_index(s) < s.len() ==> !is_json_ws(s[first_payload_index(s)]),
        forall|j: int| 0 <= j < first_payload_index(s) ==> is_json_ws(s[j]),
    decreases s.len(),
{
    if s.len() == 0 {
    } else if !is_json_ws(s[0]) {
    } else {
        lemma_first_payload_index(s.skip(1));
        assert forall|j: int| 0 <= j < first_payload_index(s) implies is_json_ws(s[j]) by {
            if j >= 1 {
                assert(is_json_ws(s.skip(1)[j - 1]));
                assert(s[j] == s.skip(1)[j - 1]);
            }
        }
    }
}

/// Whether a body's leading character, after whitespace, opens a JSON
/// object or array — the content-type inference the render step applies.
pub open spec fn spec_looks_like_json(s: Seq<char>) -> bool {
    let i = first_payload_index(s);
    i < s.len() && (s[i] == '{' || s[i] == '[')
}

/// Whether the body text looks like a JSON document.
pub fn looks_like_json(s: &str) -> (r: bool)
    ensures
        r == spec_looks_like_json(s@),
{
    let chars = crate::matching::to_chars(s);
    let n = chars.len();
    let mut i: usize = 0;
    proof {
        lemma_first_payload_index(s@);
    }
    while i < n
        invariant
            i <= n,
            n == s@.len(),
            chars@ == s@,
            forall|j: int| 0 <= j < i ==> is_json_ws(s@[j]),
        decreases n - i,
    {
        let c = chars[i];
        let ws = c == ' ' || c == '\t' || c == '\n' || c == '\r';
        if !ws {
            proof {
                lemma_first_payload_index(s@);
            }
            return c == '{' || c == '[';
        }
        i = i + 1;
    }
    false
}

/// A response as the listener transmits it: a status the HTTP layer
/// accepts, whether the body announced itself as JSON (and so gets the
/// structured content type), and the body, if any.
pub struct RenderedResponse {
    pub status: u16,
    pub json: bool,
    pub body: Option<String>,
}

/// The status the render step emits: the stored code when the HTTP layer
/// can carry it, 500 otherwise.
pub open spec fn spec_render_status(code: u16) -> u16 {
    if 100 <= code <= 999 {
        code
    } else {
        500
    }
}

/// Renders the final state of a response: a stored status that no HTTP
/// status can carry becomes 500, a body whose first meaningful character
/// opens an object or array is marked structured, an absent body stays
/// absent. A handler that never wrote anything renders as an empty success,
/// not as an error.
pub fn render(status: u16, data: Option<String>) -> (r: RenderedResponse)
    ensures
        r.status == spec_render_status(status),
        100 <= r.status <= 999,
        r.body == data,
        r.json <==> (data matches Some(s) && spec_looks_like_json(s@)),
{
    let st: u16 = if 100 <= status && status <= 999 {
        status
    } else {
        500
    };
    let json = match &data {
        Some(s) => looks_like_json(s.as_str()),
        None => false,
    };
    RenderedResponse { status: st, json, body: data }
}

/// The fixed 404 rendering: status 404, plain content, the fixed body.
pub fn render_not_found() -> (r: RenderedResponse)
    ensures
        r.status == 404,
        r.json == false,
        r.body matches Some(b) && b@ == "Not Found"@,
{
    proof {
        reveal_strlit("Not Found");
    }
    let body = String::from_str("Not Found");
    let rendered = render(404, Some(body));
    rendered
}

/// The fixed 400 rendering: status 400, plain content, the fixed body.
pub fn render_bad_request() -> (r: RenderedResponse)
    ensures
        r.status == 400,
        r.json == false,
        r.body matches Some(b) && b@ == "Invalid JSON"@,
{
    proof {
        reveal_strlit("Invalid JSON");
    }
    let body = String::from_str("Invalid JSON");
    let rendered = render(400, Some(body));
    rendered
}

} // verus!
