//! A storage location URI (such as `s3://bucket1/path/to/object`) as a value
//! type, together with the JSON object form it takes on the wire.
pub mod json;
pub mod storage_uri;

pub use json::{JsonObject, JsonValue};
pub use storage_uri::{DeserializationError, StorageUri};
