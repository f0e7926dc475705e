//! Bridge between a middleware-composable service and an HTTP server runtime.
//!
//! * [`message`]: requests and responses as a head and a body.
//! * [`body`]: the body converter and the stream contract it preserves.
//! * [`adapter`]: the adapter of one worker, its states and its calls.
//! * [`chain`]: the middleware chain that the server binds.

pub mod adapter;
pub mod body;
pub mod chain;
pub mod message;
