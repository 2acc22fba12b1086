//! What can be wrong with a schema, and where.

use crate::location::{SourceLocation, SourceLocationView};
use crate::text::{decimal, decimal_text};
use crate::token::{Token, TokenView};
use vstd::prelude::*;

verus! {

/// The ways in which a text fails to be a schema.
#[derive(Debug)]
pub enum ParseError {
    /// A token stands where the grammar allows none of its kind.
    UnexpectedToken(Token),
    /// A declaration begins with an identifier that is no keyword.
    UnknownIdentifier(String),
    /// An identifier was needed and another token found.
    ExpectedIdentifier,
    /// The given token was needed and another found.
    ExpectedTokenOfKind(Token),
    /// The text ends inside a declaration.
    UnexpectedEndOfFile,
    /// A literal was needed and another token found.
    ExpectedLiteral,
}

/// The mathematical value of a [`ParseError`].
pub enum ParseErrorView {
    UnexpectedToken(TokenView),
    UnknownIdentifier(Seq<char>),
    ExpectedIdentifier,
    ExpectedTokenOfKind(TokenView),
    UnexpectedEndOfFile,
    ExpectedLiteral,
}

impl ParseErrorView {
    /// The sentence that reports the error.
    pub open spec fn message(self) -> Seq<char> {
        match self {
            ParseErrorView::UnexpectedToken(token) => "Unexpected token '"@ + token.text() + "'"@,
            ParseErrorView::UnknownIdentifier(name) => "Unknown identifier '"@ + name + "'"@,
            ParseErrorView::ExpectedIdentifier => "Expected an identifier"@,
            ParseErrorView::ExpectedTokenOfKind(kind) => "Expected '"@ + kind.text() + "'"@,
            ParseErrorView::UnexpectedEndOfFile => "Unexpected end of file"@,
            ParseErrorView::ExpectedLiteral => "Expected a literal"@,
        }
    }
}

impl View for ParseError {
    type V = ParseErrorView;

    open spec fn view(&self) -> ParseErrorView {
        match self {
            ParseError::UnexpectedToken(token) => ParseErrorView::UnexpectedToken(token@),
            ParseError::UnknownIdentifier(name) => ParseErrorView::UnknownIdentifier(name@),
            ParseError::ExpectedIdentifier => ParseErrorView::ExpectedIdentifier,
            ParseError::ExpectedTokenOfKind(kind) => ParseErrorView::ExpectedTokenOfKind(kind@),
            ParseError::UnexpectedEndOfFile => ParseErrorView::UnexpectedEndOfFile,
            ParseError::ExpectedLiteral => ParseErrorView::ExpectedLiteral,
        }
    }
}

impl ParseError {
    /// The sentence that reports the error.
    pub fn to_string(&self) -> (message: String)
        ensures
            message@ == self@.message(),
    {
        match self {
            ParseError::UnexpectedToken(token) => {
                let mut message = "Unexpected token '".to_string();
                message.append(token.value().as_str());
                message.append("'");
                message
            },
            ParseError::UnknownIdentifier(name) => {
                let mut message = "Unknown identifier '".to_string();
                message.append(name.as_str());
                message.append("'");
                message
            },
            ParseError::ExpectedIdentifier => "Expected an identifier".to_string(),
            ParseError::ExpectedTokenOfKind(kind) => {
                let mut message = "Expected '".to_string();
                message.append(kind.value().as_str());
                message.append("'");
                message
            },
            ParseError::UnexpectedEndOfFile => "Unexpected end of file".to_string(),
            ParseError::ExpectedLiteral => "Expected a literal".to_string(),
        }
    }
}

/// An error and the place in the text where it was found.
#[derive(Debug)]
pub struct LocalizedParseError {
    pub error: ParseError,
    pub location: SourceLocation,
}

/// The mathematical value of a [`LocalizedParseError`].
pub struct LocalizedParseErrorView {
    pub error: ParseErrorView,
    pub location: SourceLocationView,
}

impl LocalizedParseErrorView {
    /// The line that reports the error to the user: the sentence, the file,
    /// then line and column.
    pub open spec fn message(self) -> Seq<char> {
        self.error.message() + " in file '"@ + self.location.file_path + "' at line "@
            + decimal_text(self.location.line) + ":"@ + decimal_text(self.location.column)
    }
}

impl View for LocalizedParseError {
    type V = LocalizedParseErrorView;

    open spec fn view(&self) -> LocalizedParseErrorView {
        LocalizedParseErrorView { error: self.error@, location: self.location@ }
    }
}

impl LocalizedParseError {
    /// The line that reports the error to the user.
    pub fn to_string(&self) -> (message: String)
        ensures
            message@ == self@.message(),
    {
        let mut message = self.error.to_string();
        message.append(" in file '");
        message.append(self.location.file_path.as_str());
        message.append("' at line ");
        message.append(decimal(self.location.line).as_str());
        message.append(":");
        message.append(decimal(self.location.column).as_str());
        message
    }
}

} // verus!
