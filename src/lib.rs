//! A minimal request/response responder: it isolates the body of a raw
//! request, maps the message to a reply, wraps both in a JSON envelope and
//! frames the whole as an HTTP response.
pub mod body;
pub mod reply;
pub mod envelope;
pub mod http;
pub mod handler;
