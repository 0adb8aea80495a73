//! A liveness probe for HTTP: one route, `GET /health`, answered with a fixed
//! HTML page, and the default not-found answer for everything else.
//!
//! The crate holds the decisions of such a service as plain functions from a
//! request line to a response; sockets and the serve loop belong to the program
//! that embeds it.

pub mod listener;
pub mod request;
pub mod response;
pub mod router;
pub mod text;
