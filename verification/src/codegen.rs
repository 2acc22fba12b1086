//! The entry to the generators.

use crate::csharp::generate_csharp;
use crate::nodes::{Block, BlockView};
use crate::options::{CodeGenOptions, CodeGenOptionsView, TargetLanguage};
use crate::rust::generate_rust;
use vstd::prelude::*;

verus! {

/// Whether the generator of the chosen language can follow the options.
pub open spec fn options_supported(opts: CodeGenOptionsView) -> bool {
    opts.target_language == TargetLanguage::Rust ==> crate::rust::options_supported(opts)
}

/// The source that a schema becomes in the chosen language.
pub open spec fn generated_text(opts: CodeGenOptionsView, root: BlockView) -> Seq<char> {
    match opts.target_language {
        TargetLanguage::Rust => crate::rust::source_text(opts, root),
        TargetLanguage::Csharp => crate::csharp::source_text(opts, root),
    }
}

/// Whether the generator of the chosen language can follow the options.
pub fn supports(opts: &CodeGenOptions) -> (supported: bool)
    ensures
        supported == options_supported(opts@),
{
    match opts.target_language {
        TargetLanguage::Rust => crate::rust::supports(opts),
        TargetLanguage::Csharp => true,
    }
}

/// Generates the source for a schema in the chosen language.
pub fn generate_code(opts: &CodeGenOptions, root_block: &Block) -> (source: String)
    requires
        options_supported(opts@),
        root_block@.can_be_indented(),
    ensures
        source@ == generated_text(opts@, root_block@),
{
    match opts.target_language {
        TargetLanguage::Rust => generate_rust(opts, root_block),
        TargetLanguage::Csharp => generate_csharp(opts, root_block),
    }
}

} // verus!
