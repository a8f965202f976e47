//! A verified request-resolution engine for a TLS-terminating static file
//! server: policy lookup by file extension, precompressed-variant selection,
//! checksum-based entity tags, HTTP conditional-request evaluation, and
//! sentinel-file redirects.
pub mod bytes;
pub mod etag;
pub mod handler;
pub mod http;
pub mod laws;
pub mod path;
pub mod types;
