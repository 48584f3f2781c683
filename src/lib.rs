//! A minimal HTTP/1.1 responder core: request-line parsing, response
//! framing, and the per-connection exchange as a verified state machine.

pub mod model;
pub mod request_line;
pub mod response;
pub mod routes;
pub mod connection;
