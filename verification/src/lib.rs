//! Compiles a module written in an annotated subset of Rust into the source
//! of a WGSL compute shader, and keeps what the host needs to feed the
//! shader in step with it: the binding slot of every buffer, and the
//! builders through which the buffers are filled and read.
//!
//! The way through the crate:
//!
//! - [`lexer`] turns a text into token trees ([`token`]), and [`syntax`]
//!   reads it as a module with its items;
//! - [`module_parser`] finds the attributes and the name of each item, and
//!   [`declarations`] the declared types with their roles
//!   ([`custom_type`]) and names ([`custom_type_idents`]);
//! - [`rewrite`] applies rewriting rules to token trees; the rules are in
//!   [`helper_methods`] and [`to_wgsl`], and [`transpile`] says which rules
//!   an item goes through;
//! - [`bindings`] hands out the binding slots;
//! - [`printer`] lays the rewritten tokens out as text;
//! - [`shader_module`] puts all of this together into the record of a
//!   module ([`record`]), which [`assembler`] writes out as shader text or
//!   as sized sections ([`components`]);
//! - [`max_output_lengths_builder`] and [`buffer_builders`] generate the
//!   sources of the host-side builders, which keep their values in the
//!   mappings of [`type_erased`];
//! - [`bind_group`] and [`memory`] are the two checks that run before a
//!   task is dispatched.

pub mod assembler;
pub mod bind_group;
pub mod bindings;
pub mod buffer_builders;
pub mod components;
pub mod custom_type;
pub mod custom_type_idents;
pub mod declarations;
pub mod error;
pub mod helper_methods;
pub mod lexer;
pub mod max_output_lengths_builder;
pub mod memory;
pub mod module_parser;
pub mod printer;
pub mod record;
pub mod rewrite;
pub mod shader_module;
pub mod syntax;
pub mod text;
pub mod to_wgsl;
pub mod token;
pub mod transpile;
pub mod type_erased;
