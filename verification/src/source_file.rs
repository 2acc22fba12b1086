//! A schema text and the name of the file it came from.

use crate::tokens::Tokens;
use vstd::prelude::*;

verus! {

/// A schema text with the path under which errors report it.
pub struct SourceFile {
    pub path: String,
    pub contents: String,
}

impl SourceFile {
    /// Whether the text is short enough for lines, columns and indentation to
    /// be counted in a `usize`: a character moves the column by at most four,
    /// and the generators indent at most four levels beyond the nesting that
    /// the text can hold.
    pub open spec fn within_limits(&self) -> bool {
        4 * (self.contents@.len() + 4) <= usize::MAX
    }

    /// Whether the text is short enough to be compiled.
    pub fn fits(&self) -> (fits: bool)
        ensures
            fits == self.within_limits(),
    {
        self.contents.as_str().unicode_len() <= usize::MAX / 4 - 4
    }

    /// A source file made of a text that is already in memory.
    pub fn new_from_source(path: &str, contents: &str) -> (file: Self)
        ensures
            file.path@ == path@,
            file.contents@ == contents@,
    {
        SourceFile { path: path.to_string(), contents: contents.to_string() }
    }

    /// A tokenizer that stands at the beginning of the text.
    pub fn tokens(&self) -> (tokens: Tokens)
        requires
            self.within_limits(),
        ensures
            tokens.wf(),
            tokens.begins(self),
    {
        Tokens::new(self)
    }
}

} // verus!
