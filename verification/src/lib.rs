//! Verified core of the Phthonus HTTP services.
//!
//! The crate holds the decisions and data rules of the services as plain,
//! synchronous functions with machine-checked contracts. Everything that
//! waits on a socket, a clock or a signal lives in the programs built on top.
//!
//! * [`tower_compat`]: the adapter that lets an HTTP server runtime call a
//!   middleware-composable service, with its body converter, its states and
//!   the chain it is served in.
//! * [`routes`], [`web`], [`middlewares`]: the route tables, what the routes
//!   answer, and the middlewares around them.
//! * [`error`]: application errors and what a client is told about them.
//! * [`utils`]: input rules and token claims.
//! * [`server`]: what is decided at startup.

pub mod error;
pub mod middlewares;
pub mod routes;
pub mod server;
pub mod tower_compat;
pub mod utils;
pub mod web;
