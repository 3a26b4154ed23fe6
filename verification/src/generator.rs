//! Code generation for the derive macros. Generated code is produced as
//! token text (tokens separated by single spaces, as the token printer
//! writes them), which the caller turns back into tokens.

pub mod doc_attributes;
pub mod mark_generator;
pub mod node_generator;
pub mod tokens;

use vstd::prelude::*;
use crate::common::error::{MacroErrorV, MacroResult};
use crate::parser::attribute_parser::{MarkConfig, NodeConfig, string_result_view};
use crate::syntax::SynDeriveInput;

verus! {

/// A generator of the code that a derive macro emits.
pub trait CodeGenerator {
    /// The code generated, or why there is none.
    spec fn spec_generate(&self) -> Result<Seq<char>, MacroErrorV>;

    /// The generator's name.
    spec fn spec_name(&self) -> Seq<char>;

    /// Generates the code.
    fn generate(&self) -> (r: MacroResult<String>)
        ensures
            string_result_view(r) == self.spec_generate(),
    ;

    /// The generator's name.
    fn name(&self) -> (r: &'static str)
        ensures
            r@ == self.spec_name(),
    ;
}

/// Creates generators.
pub struct GeneratorFactory;

impl GeneratorFactory {
    /// The generator of a Node's conversion methods.
    pub fn create_node_generator<'a>(
        input: &'a SynDeriveInput,
        config: &'a NodeConfig,
    ) -> (r: node_generator::NodeGenerator<'a>)
        ensures
            r.input() == input,
            r.config() == config,
    {
        node_generator::NodeGenerator::new(input, config)
    }

    /// The generator of a Mark's conversion methods.
    pub fn create_mark_generator<'a>(
        input: &'a SynDeriveInput,
        config: &'a MarkConfig,
    ) -> (r: mark_generator::MarkGenerator<'a>)
        ensures
            r.input() == input,
            r.config() == config,
    {
        mark_generator::MarkGenerator::new(input, config)
    }
}

} // verus!
