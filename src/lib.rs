//! A bridge between a front-end and one long-lived worker process that
//! speaks a newline-delimited protocol over its standard streams.
//!
//! Requests are written to the worker as single lines; every line that the
//! worker writes back and that carries a string `id` member is routed as a
//! notification whose label is derived from that identifier.

pub mod protocol;
pub mod json;
pub mod reader;
pub mod bridge;
