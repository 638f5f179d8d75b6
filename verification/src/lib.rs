//! Generates Luau declaration files for Rust APIs exposed to an embedded Lua
//! runtime: maps Rust type expressions onto a small closed grammar of Lua
//! types, resolves annotated modules with `include` relationships into one
//! rooted tree, and serializes that tree as declaration text.

pub mod attrs;
pub mod bindgen;
pub mod enums;
pub mod error;
pub mod expand;
pub mod funcs;
pub mod impls;
pub mod laws;
pub mod lua_type;
pub mod mods;
pub mod ty_expr;
pub mod types;
pub mod utils;
