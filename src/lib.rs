//! Safe bindings to a native audio-metadata library.
//!
//! The native library is reached through raw handles, nullable results,
//! integers used as booleans and sentinel values for absent fields. This
//! crate holds the verified side of that boundary: it decides which names
//! may be handed to the native library, turns every null handle into a
//! typed error, and turns every sentinel into an explicit `Option`, once.

pub mod error;
pub mod fields;
pub mod file;
pub mod file_type;

pub use error::FileError;
pub use fields::{c_str_to_str, c_string, native_bool, property_value, u32_to_option};
pub use file::{file_name, open_with, opened, properties_view, tag_view};
pub use file_type::FileType;
