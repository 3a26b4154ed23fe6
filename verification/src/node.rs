//! The `#[derive(Node)]` pipeline, and the `#[derive(PState)]` expansion.

pub mod derive_impl;
pub mod plugin_state;
