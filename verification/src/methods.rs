//! The method codec: the five supported HTTP verbs and their dense integer
//! codes. Route keys store the code, so comparing the method part of a key
//! costs one integer comparison.

use vstd::prelude::*;

verus! {

/// One of the five supported HTTP methods.
#[derive(Clone, Copy, PartialEq, Eq, Structural, Debug)]
pub enum Method {
    Get,
    Post,
    Put,
    Delete,
    Patch,
}

/// Failures raised while building router inputs.
#[derive(Clone, Copy, PartialEq, Eq, Structural, Debug)]
pub enum TachyonError {
    /// The verb is not one of the five the router supports.
    InvalidMethod,
}

/// The upper-case name of each method, as the listener hands it in.
pub open spec fn spec_method_name(m: Method) -> Seq<char> {
    match m {
        Method::Get => "GET"@,
        Method::Post => "POST"@,
        Method::Put => "PUT"@,
        Method::Delete => "DELETE"@,
        Method::Patch => "PATCH"@,
    }
}

/// The method named by `s`, if `s` is one of the five supported names.
pub open spec fn spec_parse_method(s: Seq<char>) -> Option<Method> {
    if s == "GET"@ {
        Some(Method::Get)
    } else if s == "POST"@ {
        Some(Method::Post)
    } else if s == "PUT"@ {
        Some(Method::Put)
    } else if s == "DELETE"@ {
        Some(Method::Delete)
    } else if s == "PATCH"@ {
        Some(Method::Patch)
    } else {
        None
    }
}

/// The method with integer code `id`, if `id` is a valid code.
pub open spec fn spec_method_of_id(id: u8) -> Option<Method> {
    if id == 0 {
        Some(Method::Get)
    } else if id == 1 {
        Some(Method::Post)
    } else if id == 2 {
        Some(Method::Put)
    } else if id == 3 {
        Some(Method::Delete)
    } else if id == 4 {
        Some(Method::Patch)
    } else {
        None
    }
}

impl Method {
    /// The stable integer code of this method.
    pub open spec fn spec_id(self) -> u8 {
        match self {
            Method::Get => 0,
            Method::Post => 1,
            Method::Put => 2,
            Method::Delete => 3,
            Method::Patch => 4,
        }
    }

    /// Decodes an integer code. Codes outside the five valid ones are a
    /// construction-time failure, never coerced to a default verb.
    pub fn new(id: u8) -> (r: Result<Method, TachyonError>)
        ensures
            r == match spec_method_of_id(id) {
                Some(m) => Ok::<Method, TachyonError>(m),
                None => Err::<Method, TachyonError>(TachyonError::InvalidMethod),
            },
    {
        match id {
            0 => Ok(Method::Get),
            1 => Ok(Method::Post),
            2 => Ok(Method::Put),
            3 => Ok(Method::Delete),
            4 => Ok(Method::Patch),
            _ => Err(TachyonError::InvalidMethod),
        }
    }

    /// The integer code of this method.
    pub fn id(&self) -> (r: u8)
        ensures
            r == self.spec_id(),
    {
        match self {
            Method::Get => 0,
            Method::Post => 1,
            Method::Put => 2,
            Method::Delete => 3,
            Method::Patch => 4,
        }
    }

    /// The upper-case name of this method.
    pub fn name(&self) -> (r: &'static str)
        ensures
            r@ == spec_method_name(*self),
    {
        match self {
            Method::Get => "GET",
            Method::Post => "POST",
            Method::Put => "PUT",
            Method::Delete => "DELETE",
            Method::Patch => "PATCH",
        }
    }

    /// Encodes a method name handed in by the listener. Anything outside
    /// the five supported verbs fails; no default verb is substituted.
    pub fn from_name(name: &str) -> (r: Result<Method, TachyonError>)
        ensures
            r == match spec_parse_method(name@) {
                Some(m) => Ok::<Method, TachyonError>(m),
                None => Err::<Method, TachyonError>(TachyonError::InvalidMethod),
            },
    {
        if crate::matching::str_eq(name, "GET") {
            Ok(Method::Get)
        } else if crate::matching::str_eq(name, "POST") {
            Ok(Method::Post)
        } else if crate::matching::str_eq(name, "PUT") {
            Ok(Method::Put)
        } else if crate::matching::str_eq(name, "DELETE") {
            Ok(Method::Delete)
        } else if crate::matching::str_eq(name, "PATCH") {
            Ok(Method::Patch)
        } else {
            Err(TachyonError::InvalidMethod)
        }
    }

    /// True when handlers for this method are expected to carry a request
    /// body: POST, PUT and PATCH.
    pub open spec fn spec_requires_body(self) -> bool {
        self == Method::Post || self == Method::Put || self == Method::Patch
    }

    /// True for the body-bearing verbs POST, PUT and PATCH.
    pub fn requires_body(&self) -> (r: bool)
        ensures
            r == self.spec_requires_body(),
    {
        match self {
            Method::Post | Method::Put | Method::Patch => true,
            _ => false,
        }
    }
}

/// Round trip between codes and methods: decoding a method's own code gives
/// the method back, and every valid code decodes to a method with that code.
pub proof fn lemma_method_id_round_trip(m: Method, id: u8)
    ensures
        spec_method_of_id(m.spec_id()) == Some(m),
        spec_method_of_id(id) matches Some(d) ==> d.spec_id() == id,
        id > 4 ==> spec_method_of_id(id) is None,
{
}

} // verus!
