//! Generates, from annotated declarations, a typed client module and the
//! host's dispatch table for string-keyed remote calls, keeping the two in
//! step: both are rendered from one set of declarations and one call-key
//! function.

pub mod analyzer;
pub mod client;
pub mod dispatch;
pub mod endpoint;
pub mod inject;
pub mod namespace;
pub mod pipeline;
pub mod scan;
pub mod source;
pub mod text;
