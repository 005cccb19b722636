//! A small client layer for a hosted language-model service: request
//! builders for the two request shapes, the retry rules of the transport,
//! and the extraction of text from a decoded answer, together with the
//! naming rules for direct uploads into object storage.
pub mod error;
pub mod text;
pub mod content;
pub mod request;
pub mod transport;
pub mod responses;
pub mod chat;
pub mod decode;
pub mod upload;
