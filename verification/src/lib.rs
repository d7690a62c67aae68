//! A schema compiler for entity/enum data models: a recursive field-type
//! algebra, whole-schema validation, and projection of validated types into
//! storage and application type systems.

pub mod builder;
pub mod config;
pub mod errors;
pub mod field_type;
pub mod ident;
pub mod laws;
pub mod networks;
pub mod parse;
pub mod project;
pub mod rescript;
pub mod schema;
pub mod validate;
pub mod words;

pub use ident::is_valid_folder_name;
