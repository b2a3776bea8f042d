//! Rewrites Rust declarations into `wasm_bindgen` JavaScript imports.
//!
//! A declaration (a data type, a function, a module or an inherent impl) is
//! turned into the items of a foreign import block for `wasm` targets, and
//! the native copy of the declaration, kept for every other target, loses its
//! `#[wasm_bindgen]` attributes.
//!
//! - `decl`: the declaration, type-expression, attribute and import model.
//! - `naming`: snake-style to camel-style identifiers.
//! - `options`: the configuration entries and the rename of an identifier.
//! - `self_ty`: replacing `Self` with the implementing type.
//! - `filter`: marker attributes and the native copy.
//! - `rewrite`: declarations to imports, with their diagnostics.
//! - `switch`: the two directives.
//! - `laws`: properties that tie the rewrite's parts together.

pub mod decl;
pub mod filter;
pub mod laws;
pub mod naming;
pub mod options;
pub mod rewrite;
pub mod self_ty;
pub mod switch;

pub use switch::{wasm_bindgen_switch, wasm_bindgen_switch_test};
