//! A provider-agnostic model of conversational requests and responses, and
//! the normalization of three backends' streaming protocols into one
//! canonical event sequence, verified with Verus.
//!
//! - `json`: the library's JSON document, with serde_json reading and writing text.
//! - `messages`: content, turns, responses and canonical events, and their wire forms.
//! - `request`: the request, its validating builder, and its wire forms.
//! - `decode`: reading a backend's answer into a message or an error.
//! - `passthrough`: the adapter for streams already in canonical form.
//! - `reconstruct`: the adapter that rebuilds a canonical stream from a
//!   gateway's native events, and the laws that stream obeys.
//! - `anthropic`, `vertexai`, `vertex_ai`, `bedrock`: what each backend needs
//!   beyond the shared model (paths, headers, body shapes, typed blocks).
//! - `error`: every way a request or a stream can fail.

pub mod anthropic;
pub mod bedrock;
pub mod decode;
pub mod error;
pub mod json;
pub mod messages;
pub mod passthrough;
pub mod reconstruct;
pub mod request;
pub mod vertex_ai;
pub mod vertexai;
