//! A typed command registry and dispatch engine.
//!
//! Commands are declared with a name, a description and an ordered list of
//! typed, possibly optional parameters. Declaration validates every piece
//! and produces an immutable descriptor whose ordered option schema is used
//! both for publication to the remote catalog and for binding incoming
//! invocation payloads — the two uses read the same cached kind, so they
//! can never disagree. The dispatcher looks a command up by name, binds the
//! payload's values positionally and hands the typed arguments to the bound
//! handler reference; the embedding application performs the actual remote
//! publication and the asynchronous handler calls.

pub mod bind;
pub mod command;
pub mod errors;
pub mod framework;
pub mod kind;
pub mod param;
pub mod text;
