//! A whole compilation: from the text of a schema to the source in the
//! chosen language.

use crate::analysis::{analyze_block, lemma_analysis_keeps_depth};
use crate::codegen::{generate_code, generated_text, options_supported};
use crate::error::{LocalizedParseError, LocalizedParseErrorView};
use crate::grammar;
use crate::theorems::analysis_leaves_the_text;
use crate::lexer::{end_cursor, lemma_tokens_count, tokens_from, Cursor};
use crate::location::SourceLocationView;
use crate::options::{CodeGenOptions, CodeGenOptionsView};
use crate::parser::parse_block;
use crate::source_file::SourceFile;
use vstd::prelude::*;

verus! {

/// Why a compilation failed.
#[derive(Debug)]
pub enum CompileError {
    /// The text is no schema.
    Parse(LocalizedParseError),
}

/// The mathematical value of a [`CompileError`].
pub enum CompileErrorView {
    Parse(LocalizedParseErrorView),
}

impl CompileErrorView {
    /// The line that reports the error to the user.
    pub open spec fn message(self) -> Seq<char> {
        match self {
            CompileErrorView::Parse(error) => "Parse error: "@ + error.message(),
        }
    }
}

impl View for CompileError {
    type V = CompileErrorView;

    open spec fn view(&self) -> CompileErrorView {
        match self {
            CompileError::Parse(error) => CompileErrorView::Parse(error@),
        }
    }
}

impl CompileError {
    /// The line that reports the error to the user.
    pub fn to_string(&self) -> (message: String)
        ensures
            message@ == self@.message(),
    {
        match self {
            CompileError::Parse(parse_error) => {
                let mut message = "Parse error: ".to_string();
                message.append(parse_error.to_string().as_str());
                message
            },
        }
    }
}

/// Where the tokenizer stands before it has read anything.
pub open spec fn beginning() -> Cursor {
    Cursor { offset: 0, line: 1, column: 1 }
}

/// What a schema text compiles to: the source that the generator of the
/// chosen language makes of its declarations, or the first error of the
/// text.
pub open spec fn compiled(
    path: Seq<char>,
    contents: Seq<char>,
    opts: CodeGenOptionsView,
) -> Result<Seq<char>, CompileErrorView> {
    let end = end_cursor(contents, path, beginning());
    let parsed = grammar::block(
        tokens_from(contents, path, beginning()),
        SourceLocationView { file_path: path, line: end.line, column: end.column },
        Seq::empty(),
    );
    match parsed.result {
        Ok(root) => Ok(generated_text(opts, root)),
        Err(error) => Err(CompileErrorView::Parse(error)),
    }
}

/// The value of what a compilation returned.
pub open spec fn compilation_view(result: Result<String, CompileError>) -> Result<
    Seq<char>,
    CompileErrorView,
> {
    match result {
        Ok(source) => Ok(source@),
        Err(error) => Err(error@),
    }
}

/// One schema file that is to be compiled.
pub struct CompilationUnit<'a> {
    root_source_file: &'a SourceFile,
}

impl<'a> CompilationUnit<'a> {
    /// The file that is compiled.
    pub closed spec fn source(&self) -> &SourceFile {
        self.root_source_file
    }

    /// A compilation of the given file.
    pub fn new(root_source_file: &'a SourceFile) -> (unit: Self)
        ensures
            unit.source() == root_source_file,
    {
        Self { root_source_file }
    }

    /// Parses the file, analyzes its declarations and generates the source.
    pub fn compile(self, codegen_opts: &CodeGenOptions) -> (result: Result<String, CompileError>)
        requires
            self.source().within_limits(),
            options_supported(codegen_opts@),
        ensures
            compilation_view(result) == compiled(
                self.source().path@,
                self.source().contents@,
                codegen_opts@,
            ),
    {
        let mut tokens = self.root_source_file.tokens();
        let ghost all = tokens.remaining();
        let ghost end = tokens.end_location();
        proof {
            lemma_tokens_count(tokens.text(), tokens.file(), tokens.cursor());
            grammar::lemma_block_depth(all, end, Seq::empty());
        }
        match parse_block(&mut tokens) {
            Ok(mut root_block) => {
                proof {
                    lemma_analysis_keeps_depth(root_block@.nodes, root_block@.nodes.len());
                    analysis_leaves_the_text(codegen_opts@, root_block@);
                }
                analyze_block(&mut root_block);
                Ok(generate_code(codegen_opts, &root_block))
            },
            Err(error) => Err(CompileError::Parse(error)),
        }
    }
}

} // verus!
