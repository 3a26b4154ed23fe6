//! Verified core of the ModuForge `#[derive(Node)]` / `#[derive(Mark)]` macros.
//!
//! The crate holds the logic of the derive macros over a plain model of the
//! macro input (`syntax`): attribute parsing, default-value parsing, field
//! analysis, configuration validation, type converters and code generation.
//! Turning compiler tokens into that model, and generated text back into
//! tokens, happens at the edge, outside this crate.

pub mod text;
pub mod syntax;
pub mod common;
pub mod parser;
pub mod converter;
pub mod generator;
pub mod node;
pub mod expression;
pub mod loader;
pub mod command;
pub mod di;
