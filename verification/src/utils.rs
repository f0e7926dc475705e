//! Helpers shared by the routes.

pub mod jwt;
pub mod validator;
