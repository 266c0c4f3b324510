//! A library for describing, assembling and reporting a single HTTP request.
//!
//! A request starts life as a partially filled [`request_message::RequestMessageBuilder`],
//! typically one per configuration source.  Builders are merged with
//! override-with-fallback precedence, validated into a complete
//! [`request_message::RequestMessage`], and the captured
//! [`response_message::ResponseMessage`] is rendered for a terminal.
//! Output is gated by a [`logger::Logger`] with three verbosity levels.

pub mod http_client;
pub mod logger;
pub mod request_error;
pub mod request_message;
pub mod response_message;
pub mod text;
