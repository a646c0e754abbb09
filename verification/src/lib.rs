//! Helpers around an HTTP client: timestamps, response classification,
//! call-timing headers, JSON array decoding and a defaulting map accessor.

pub mod classifier;
pub mod decimal;
pub mod dictionary;
pub mod exception;
pub mod headers;
pub mod json;
pub mod response;
pub mod status;
pub mod timestamps;
pub mod timing;
pub mod transport;
