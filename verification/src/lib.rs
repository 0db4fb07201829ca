//! A verified core for a small HTTP gateway in front of a document-search
//! backend: the response-envelope extraction, the decoding of matched rows
//! into their fixed record shape, and the mapping of failures to HTTP
//! status codes.

pub mod datetime;
pub mod gateway;
pub mod json;
pub mod rows;
