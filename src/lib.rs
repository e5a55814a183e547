//! A fetch-style view over one completed HTTP exchange: normalized
//! metadata and a body that can be read once, in one of several shapes.

pub mod body;
pub mod error;
pub mod headers;
pub mod laws;
pub mod method;
pub mod response;
pub mod status;
