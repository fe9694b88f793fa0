//! An embeddable HTTP request router and dispatch core.
//!
//! The crate models the five supported HTTP methods as small integer codes,
//! keeps a route table keyed by `"<methodCode>:<pathPattern>"` strings,
//! matches inbound paths against literal and `:param` patterns, and plans a
//! bounded wait for a handler that may finish on another execution context.
//! Socket handling, HTTP framing and handler execution belong to the caller.

pub mod bridge;
pub mod dispatch;
pub mod json;
pub mod matching;
pub mod methods;
pub mod request;
pub mod response;
pub mod router;

pub use methods::Method;
pub use methods::TachyonError;
pub use request::TachyonRequest;
pub use response::ResponseState;
pub use response::TachyonResponse;
pub use router::tachyon;
pub use router::Tachyon;
pub use router::TachyonRouter;
