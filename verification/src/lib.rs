//! A response-to-domain-model mapping layer for two JSON HTTP APIs: a
//! news-article search endpoint and a stock-symbol lookup endpoint.
//!
//! The library consumes an already-decoded JSON tree ([`json::JsonValue`])
//! and turns it into strongly-typed records ([`news::News`],
//! [`symbol::SymbolMatch`]), validating required fields, tolerating
//! partial per-record data, and normalizing RFC 3339 timestamps to Unix
//! epoch seconds. Transport and decoding from raw bytes are left to the
//! caller.

pub mod article;
pub mod error;
pub mod json;
pub mod laws;
pub mod news;
pub mod status;
mod strutil;
pub mod symbol;
pub mod timestamp;

pub use article::Article;
pub use error::FieldName;
pub use error::MappingError;
pub use error::TimestampParseError;
pub use json::JsonValue;
pub use news::News;
pub use news::map_news;
pub use status::Status;
pub use symbol::SymbolMatch;
pub use symbol::map_symbols;
pub use timestamp::normalize_timestamp;
