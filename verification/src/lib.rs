//! Verified core of a sealing proxy: identity hashes, result binding,
//! signed seals, their verification, and the start-up decisions of the runtime.
pub mod hex_text;
pub mod primitives;
pub mod json_text;
pub mod verify;
pub mod seal;
pub mod runtime;
pub mod deps;
pub mod image;

pub use deps::detect_dependencies;
