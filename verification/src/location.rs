//! Positions in a source text.

use vstd::prelude::*;

verus! {

/// Where a token begins: the file it came from, and its line and column,
/// both counted from one.
#[derive(Debug)]
pub struct SourceLocation {
    pub file_path: String,
    pub line: usize,
    pub column: usize,
}

/// The mathematical value of a [`SourceLocation`].
pub struct SourceLocationView {
    pub file_path: Seq<char>,
    pub line: nat,
    pub column: nat,
}

impl View for SourceLocation {
    type V = SourceLocationView;

    open spec fn view(&self) -> SourceLocationView {
        SourceLocationView {
            file_path: self.file_path@,
            line: self.line as nat,
            column: self.column as nat,
        }
    }
}

impl Clone for SourceLocation {
    fn clone(&self) -> (copy: Self)
        ensures
            copy@ == self@,
    {
        SourceLocation { file_path: self.file_path.clone(), line: self.line, column: self.column }
    }
}

} // verus!
