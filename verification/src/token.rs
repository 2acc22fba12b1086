//! Tokens of the schema language.

use crate::location::{SourceLocation, SourceLocationView};
use vstd::prelude::*;
use vstd::utf8::encode_utf8;

verus! {

/// One lexical unit of a schema.
#[derive(Debug)]
pub enum Token {
    Identifier(String),
    Digit(String),
    String(String),
    ParenOpen,
    ParenClose,
    BraceOpen,
    BraceClose,
    SquareOpen,
    SquareClose,
    Colon,
    Semicolon,
    Equal,
    At,
    Comma,
    Unknown(char),
}

/// The mathematical value of a [`Token`].
pub enum TokenView {
    Identifier(Seq<char>),
    Digit(Seq<char>),
    String(Seq<char>),
    ParenOpen,
    ParenClose,
    BraceOpen,
    BraceClose,
    SquareOpen,
    SquareClose,
    Colon,
    Semicolon,
    Equal,
    At,
    Comma,
    Unknown(char),
}

impl TokenView {
    /// The text a token stands for: what an identifier, a digit run or a
    /// string holds, else the single character of the mark.
    pub open spec fn text(self) -> Seq<char> {
        match self {
            TokenView::Identifier(value) | TokenView::Digit(value) | TokenView::String(value) => value,
            TokenView::ParenOpen => seq!['('],
            TokenView::ParenClose => seq![')'],
            TokenView::BraceOpen => seq!['{'],
            TokenView::BraceClose => seq!['}'],
            TokenView::SquareOpen => seq!['['],
            TokenView::SquareClose => seq![']'],
            TokenView::Colon => seq![':'],
            TokenView::Semicolon => seq![';'],
            TokenView::Equal => seq!['='],
            TokenView::At => seq!['@'],
            TokenView::Comma => seq![','],
            TokenView::Unknown(character) => seq![character],
        }
    }

    /// By how much a token moves the column: the number of bytes of its text
    /// in UTF-8 for an identifier, a digit run or a string, else one.
    pub open spec fn width(self) -> nat {
        match self {
            TokenView::Identifier(value) | TokenView::Digit(value) | TokenView::String(value) => {
                encode_utf8(value).len()
            },
            _ => 1,
        }
    }
}

impl View for Token {
    type V = TokenView;

    open spec fn view(&self) -> TokenView {
        match self {
            Token::Identifier(value) => TokenView::Identifier(value@),
            Token::Digit(value) => TokenView::Digit(value@),
            Token::String(value) => TokenView::String(value@),
            Token::ParenOpen => TokenView::ParenOpen,
            Token::ParenClose => TokenView::ParenClose,
            Token::BraceOpen => TokenView::BraceOpen,
            Token::BraceClose => TokenView::BraceClose,
            Token::SquareOpen => TokenView::SquareOpen,
            Token::SquareClose => TokenView::SquareClose,
            Token::Colon => TokenView::Colon,
            Token::Semicolon => TokenView::Semicolon,
            Token::Equal => TokenView::Equal,
            Token::At => TokenView::At,
            Token::Comma => TokenView::Comma,
            Token::Unknown(character) => TokenView::Unknown(*character),
        }
    }
}

impl Token {
    /// The token's text.
    pub fn value(&self) -> (text: String)
        ensures
            text@ == self@.text(),
    {
        proof {
            reveal_strlit("(");
            reveal_strlit(")");
            reveal_strlit("{");
            reveal_strlit("}");
            reveal_strlit("[");
            reveal_strlit("]");
            reveal_strlit(":");
            reveal_strlit(";");
            reveal_strlit("=");
            reveal_strlit("@");
            reveal_strlit(",");
        }
        let text = match self {
            Token::Identifier(value) | Token::Digit(value) | Token::String(value) => value.clone(),
            Token::ParenOpen => "(".to_string(),
            Token::ParenClose => ")".to_string(),
            Token::BraceOpen => "{".to_string(),
            Token::BraceClose => "}".to_string(),
            Token::SquareOpen => "[".to_string(),
            Token::SquareClose => "]".to_string(),
            Token::Colon => ":".to_string(),
            Token::Semicolon => ";".to_string(),
            Token::Equal => "=".to_string(),
            Token::At => "@".to_string(),
            Token::Comma => ",".to_string(),
            Token::Unknown(character) => {
                let mut text = String::new();
                text.push(*character);
                text
            },
        };
        assert(text@ =~= self@.text());
        text
    }

    /// By how much the token moves the column.
    pub fn len(&self) -> (width: usize)
        ensures
            width == self@.width() as usize,
    {
        match self {
            Token::Identifier(value) | Token::Digit(value) | Token::String(value) => {
                value.as_str().len()
            },
            _ => 1,
        }
    }
}

impl PartialEq for Token {
    fn eq(&self, other: &Self) -> (equal: bool) {
        match (self, other) {
            (Token::Identifier(a), Token::Identifier(b)) => *a == *b,
            (Token::Digit(a), Token::Digit(b)) => *a == *b,
            (Token::String(a), Token::String(b)) => *a == *b,
            (Token::ParenOpen, Token::ParenOpen) => true,
            (Token::ParenClose, Token::ParenClose) => true,
            (Token::BraceOpen, Token::BraceOpen) => true,
            (Token::BraceClose, Token::BraceClose) => true,
            (Token::SquareOpen, Token::SquareOpen) => true,
            (Token::SquareClose, Token::SquareClose) => true,
            (Token::Colon, Token::Colon) => true,
            (Token::Semicolon, Token::Semicolon) => true,
            (Token::Equal, Token::Equal) => true,
            (Token::At, Token::At) => true,
            (Token::Comma, Token::Comma) => true,
            (Token::Unknown(a), Token::Unknown(b)) => *a == *b,
            _ => false,
        }
    }
}

impl vstd::std_specs::cmp::PartialEqSpecImpl for Token {
    open spec fn obeys_eq_spec() -> bool {
        true
    }

    /// Two tokens are equal when they are of one kind and hold the same text.
    open spec fn eq_spec(&self, other: &Self) -> bool {
        self@ == other@
    }
}

impl Eq for Token {

}

/// A token and the place where it begins.
#[derive(Debug)]
pub struct LocalizedToken {
    pub token: Token,
    pub location: SourceLocation,
}

/// The mathematical value of a [`LocalizedToken`].
pub struct LocalizedTokenView {
    pub token: TokenView,
    pub location: SourceLocationView,
}

impl View for LocalizedToken {
    type V = LocalizedTokenView;

    open spec fn view(&self) -> LocalizedTokenView {
        LocalizedTokenView { token: self.token@, location: self.location@ }
    }
}

impl LocalizedToken {
    /// The token's text.
    pub fn value(&self) -> (text: String)
        ensures
            text@ == self@.token.text(),
    {
        self.token.value()
    }

    /// By how much the token moves the column.
    pub fn len(&self) -> (width: usize)
        ensures
            width == self@.token.width() as usize,
    {
        self.token.len()
    }
}

} // verus!
