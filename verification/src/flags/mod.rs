//! Flag lookup for languages.
pub mod lang_mapping;
