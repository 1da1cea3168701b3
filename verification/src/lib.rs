//! An "ask a human" tool: it turns a caller's question into a popup request,
//! labels it with the identity of the calling work session, and turns what the
//! human answered, or the popup's failure, into a tool-call result.

pub mod decimal;
pub mod protocol;
pub mod request;
pub mod response;
pub mod session;
pub mod tool;
