//! Sanitization layer for desktop notification requests that come from an
//! untrusted context: an image-descriptor validator, a marker type for text
//! that may be forwarded verbatim, and a builder for the request handed to
//! the notification service.
pub mod error;
pub mod image;
pub mod laws;
pub mod request;
pub mod trusted;
pub mod wire;
