//! Generation of Rust bindings for a blueprint component described by its ABI.
//!
//! `native` renders the Rust type that stands for an ABI type, with the
//! declarations of the structs and enums it names; `import` renders the
//! struct and `impl` block that call a component's methods. Both produce
//! source text, which the caller hands to the token parser.

pub mod abi;
pub mod ident;
pub mod import;
pub mod native;
pub mod text;

pub use abi::{Component, Fields, Method, Mutability, Type, Variant};
pub use ident::{
    field_ident_ok, ident_ok, is_field_ident, is_ident, is_plain_ident, plain_ident_ok,
};
pub use import::{
    check_component_names, check_component_supported, generate_import, handle_import,
    ImportError,
};
pub use native::{check_names, check_supported, get_native_type};
pub use text::{decimal_string, join_strings, string_literal};
