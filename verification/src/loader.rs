//! Loaders of decision content.

pub mod memory;
