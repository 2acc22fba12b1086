//! The tokenizer: a cursor over a text that hands out one token at a time.

use crate::error::{LocalizedParseError, LocalizedParseErrorView, ParseError, ParseErrorView};
use crate::lexer::{
    digits_end, end_cursor, identifier_end, is_decimal_digit, lemma_identifier_end,
    lemma_quote_at, lemma_skip_blank, lemma_token_at, lemma_tokens_step, mark, next_token,
    quote_at, skip_blank, starts_identifier, token_at, tokens_from, Cursor,
};
use crate::location::{SourceLocation, SourceLocationView};
use crate::source_file::SourceFile;
use crate::text::{char_is_alphabetic, char_is_alphanumeric, char_is_whitespace, characters};
use crate::token::{LocalizedToken, LocalizedTokenView, Token, TokenView};
use vstd::prelude::*;

verus! {

/// What the parser gets from the tokenizer when it asks for one token of a
/// certain kind: the token, or the reason why there is none.
pub type ParseResult<T> = Result<T, LocalizedParseError>;

/// The value of what a request for one token returned.
pub open spec fn token_result_view(result: ParseResult<LocalizedToken>) -> Result<
    LocalizedTokenView,
    LocalizedParseErrorView,
> {
    match result {
        Ok(token) => Ok(token@),
        Err(error) => Err(error@),
    }
}

/// The error of a text that ends where a token is needed.
pub open spec fn end_of_file(end: SourceLocationView) -> LocalizedParseErrorView {
    LocalizedParseErrorView { error: ParseErrorView::UnexpectedEndOfFile, location: end }
}

/// The first token of a stream, whatever it is; an error where the stream is
/// empty.
pub open spec fn expect_token(tokens: Seq<LocalizedTokenView>, end: SourceLocationView) -> Result<
    LocalizedTokenView,
    LocalizedParseErrorView,
> {
    if tokens.len() == 0 {
        Err(end_of_file(end))
    } else {
        Ok(tokens[0])
    }
}

/// The first token of a stream if it is an identifier; an error at that
/// token where it is not, and at the end of the text where the stream is
/// empty.
pub open spec fn expect_identifier(
    tokens: Seq<LocalizedTokenView>,
    end: SourceLocationView,
) -> Result<LocalizedTokenView, LocalizedParseErrorView> {
    if tokens.len() == 0 {
        Err(end_of_file(end))
    } else if tokens[0].token is Identifier {
        Ok(tokens[0])
    } else {
        Err(
            LocalizedParseErrorView {
                error: ParseErrorView::ExpectedIdentifier,
                location: tokens[0].location,
            },
        )
    }
}

/// The first token of a stream if it equals `kind`; an error at that token
/// where it does not, and at the end of the text where the stream is empty.
pub open spec fn expect_kind(
    tokens: Seq<LocalizedTokenView>,
    end: SourceLocationView,
    kind: TokenView,
) -> Result<LocalizedTokenView, LocalizedParseErrorView> {
    if tokens.len() == 0 {
        Err(end_of_file(end))
    } else if tokens[0].token == kind {
        Ok(tokens[0])
    } else {
        Err(
            LocalizedParseErrorView {
                error: ParseErrorView::ExpectedTokenOfKind(kind),
                location: tokens[0].location,
            },
        )
    }
}

/// The first token of a stream if it is a digit run; an error at that token
/// where it is not, and at the end of the text where the stream is empty.
pub open spec fn expect_literal(tokens: Seq<LocalizedTokenView>, end: SourceLocationView) -> Result<
    LocalizedTokenView,
    LocalizedParseErrorView,
> {
    if tokens.len() == 0 {
        Err(end_of_file(end))
    } else if tokens[0].token is Digit {
        Ok(tokens[0])
    } else {
        Err(
            LocalizedParseErrorView {
                error: ParseErrorView::ExpectedLiteral,
                location: tokens[0].location,
            },
        )
    }
}

/// The place right behind a token: in its line, as many columns further as
/// the token is wide.
pub open spec fn behind(token: LocalizedTokenView) -> SourceLocationView {
    SourceLocationView {
        file_path: token.location.file_path,
        line: token.location.line,
        column: token.location.column + token.token.width(),
    }
}

/// Whether a request for tokens failed because the text had ended.
pub open spec fn found_end<T>(result: Result<T, LocalizedParseErrorView>) -> bool {
    result matches Err(error) && error.error is UnexpectedEndOfFile
}

/// A stream without its first token; the empty stream stays empty.
pub open spec fn skip_one(tokens: Seq<LocalizedTokenView>) -> Seq<LocalizedTokenView> {
    if tokens.len() == 0 {
        tokens
    } else {
        tokens.drop_first()
    }
}

/// A cursor over the characters of a source file.
///
/// The characters are read from the text once and kept by their index, so
/// that looking one character ahead is reading the next index.
pub struct Tokens {
    chars: Vec<char>,
    offset: usize,
    location: SourceLocation,
}

impl Tokens {
    /// The text that is being read.
    pub closed spec fn text(&self) -> Seq<char> {
        self.chars@
    }

    /// How many characters have been read.
    pub closed spec fn offset(&self) -> nat {
        self.offset as nat
    }

    /// The place at which the tokenizer stands.
    pub closed spec fn position(&self) -> SourceLocationView {
        self.location@
    }

    /// The path of the file that is being read.
    pub open spec fn file(&self) -> Seq<char> {
        self.position().file_path
    }

    /// Offset, line and column together.
    pub open spec fn cursor(&self) -> Cursor {
        Cursor {
            offset: self.offset(),
            line: self.position().line,
            column: self.position().column,
        }
    }

    /// The tokenizer's invariant: it stands inside the text, columns start
    /// at one, and neither the line nor the column can leave the range of
    /// `usize` before the text ends.
    pub open spec fn wf(&self) -> bool {
        &&& self.offset() <= self.text().len()
        &&& 1 <= self.position().column
        &&& self.position().line + (self.text().len() - self.offset()) <= usize::MAX
        &&& self.position().column + 4 * (self.text().len() - self.offset()) <= usize::MAX
    }

    /// The tokens that are still to come.
    pub open spec fn remaining(&self) -> Seq<LocalizedTokenView> {
        tokens_from(self.text(), self.file(), self.cursor())
    }

    /// The place at which the tokenizer will stand when it finds that no
    /// token is left.
    pub open spec fn end_location(&self) -> SourceLocationView {
        let end = end_cursor(self.text(), self.file(), self.cursor());
        SourceLocationView { file_path: self.file(), line: end.line, column: end.column }
    }

    /// Whether the tokenizer stands at the beginning of `source_file`, at
    /// line one and column one.
    pub open spec fn begins(&self, source_file: &SourceFile) -> bool {
        &&& self.text() == source_file.contents@
        &&& self.offset() == 0
        &&& self.position() == SourceLocationView {
            file_path: source_file.path@,
            line: 1,
            column: 1,
        }
    }

    /// Whether `self` is what `before` becomes by taking one token, or by
    /// finding that none is left: the same text, read up to behind the
    /// first of the tokens that were to come.
    pub open spec fn follows(&self, before: &Tokens) -> bool {
        &&& self.wf()
        &&& self.text() == before.text()
        &&& self.file() == before.file()
        &&& self.remaining() == skip_one(before.remaining())
        &&& self.end_location() == before.end_location()
        &&& self.cursor() == match next_token(before.text(), before.file(), before.cursor()) {
            Some((token, after)) => after,
            None => skip_blank(before.text(), before.cursor()),
        }
        &&& before.remaining().len() == 0 ==> self.position() == before.end_location()
    }

    /// Whether `self` is what `before` becomes by reading on in the same
    /// text until the tokens `rest` are left.
    pub open spec fn reads_on(&self, before: &Tokens, rest: Seq<LocalizedTokenView>) -> bool {
        &&& self.wf()
        &&& self.text() == before.text()
        &&& self.file() == before.file()
        &&& self.end_location() == before.end_location()
        &&& self.remaining() == rest
        &&& rest.len() <= before.remaining().len()
    }

    /// Whether `self` stands where `before` comes to by taking tokens, and
    /// by finding the end of the text where `to_the_end` holds.
    ///
    /// The tokens that are left are the last of those that were to come.
    /// The tokenizer stands at the end of the text where it has found it,
    /// and else right behind the last token that it took.
    #[verifier::opaque]
    pub open spec fn stands_behind(&self, before: &Tokens, to_the_end: bool) -> bool {
        let taken = before.remaining().len() - self.remaining().len();
        &&& self.remaining().len() <= before.remaining().len()
        &&& self.remaining() == before.remaining().skip(taken)
        &&& self.position() == if to_the_end {
            before.end_location()
        } else if taken > 0 {
            behind(before.remaining()[taken - 1])
        } else {
            before.position()
        }
    }

    /// A tokenizer stands where it is.
    pub broadcast proof fn lemma_stands_still(&self)
        ensures
            #[trigger] self.stands_behind(self, false),
    {
        reveal(Tokens::stands_behind);
        assert(self.remaining().skip(0) =~= self.remaining());
    }

    /// Taking one token, or finding that none is left, moves a tokenizer
    /// behind that token, or to the end of the text.
    pub broadcast proof fn lemma_stands_behind_one(&self, before: &Tokens)
        requires
            #[trigger] self.follows(before),
        ensures
            self.stands_behind(before, before.remaining().len() == 0),
    {
        reveal(Tokens::stands_behind);
        assert(before.remaining().skip(0) =~= before.remaining());
        if before.remaining().len() > 0 {
            assert(before.remaining().skip(1) =~= before.remaining().drop_first());
        }
    }

    /// Reading on from where reading has come to is reading on from the
    /// beginning.
    pub broadcast proof fn lemma_stands_behind_both(
        &self,
        between: &Tokens,
        before: &Tokens,
        to_the_end: bool,
    )
        requires
            #[trigger] between.stands_behind(before, false),
            #[trigger] self.stands_behind(between, to_the_end),
            between.end_location() == before.end_location(),
        ensures
            self.stands_behind(before, to_the_end),
    {
        reveal(Tokens::stands_behind);
        let first = before.remaining().len() - between.remaining().len();
        let second = between.remaining().len() - self.remaining().len();
        assert(before.remaining().skip(first).skip(second) =~= before.remaining().skip(
            first + second,
        ));
    }

    /// A tokenizer that stands at the beginning of a source file.
    pub fn new(source_file: &SourceFile) -> (tokens: Self)
        requires
            source_file.within_limits(),
        ensures
            tokens.wf(),
            tokens.begins(source_file),
    {
        Tokens {
            chars: characters(source_file.contents.as_str()),
            offset: 0,
            location: SourceLocation { file_path: source_file.path.clone(), line: 1, column: 1 },
        }
    }

    /// The place at which the tokenizer stands: behind the last token it
    /// handed out, or at the end of the text once it found no token left.
    pub fn location(&self) -> (location: &SourceLocation)
        ensures
            location@ == self.position(),
    {
        &self.location
    }

    /// Reads an identifier whose first character `c` has just been taken.
    fn read_identifier(&mut self, c: char) -> (token: Option<Token>)
        requires
            1 <= old(self).offset <= old(self).chars.len(),
            c == old(self).chars[old(self).offset - 1],
        ensures
            final(self).chars == old(self).chars,
            final(self).location == old(self).location,
            starts_identifier(c) ==> {
                &&& final(self).offset == identifier_end(old(self).chars@, old(self).offset as nat)
                &&& token matches Some(t)
                &&& t@ == TokenView::Identifier(
                    old(self).chars@.subrange(old(self).offset - 1, final(self).offset as int),
                )
            },
            !starts_identifier(c) ==> token is None && final(self).offset == old(self).offset,
    {
        if !char_is_alphabetic(c) && c != '_' {
            return None;
        }
        let ghost start = self.offset;
        let mut value = String::new();
        value.push(c);
        proof {
            lemma_identifier_end(self.chars@, start as nat);
        }
        while self.offset < self.chars.len()
            invariant
                self.chars == old(self).chars,
                self.location == old(self).location,
                1 <= start <= self.offset <= self.chars.len(),
                start == old(self).offset,
                value@ == self.chars@.subrange(start - 1, self.offset as int),
                identifier_end(self.chars@, start as nat) == identifier_end(
                    self.chars@,
                    self.offset as nat,
                ),
            ensures
                self.offset == identifier_end(self.chars@, start as nat),
            decreases self.chars.len() - self.offset,
        {
            let next = self.chars[self.offset];
            if !char_is_alphanumeric(next) && next != '_' {
                break;
            }
            value.push(next);
            self.offset += 1;
            assert(value@ =~= self.chars@.subrange(start - 1, self.offset as int));
        }
        Some(Token::Identifier(value))
    }

    /// Reads a digit run whose first character `c` has just been taken.
    fn read_digit(&mut self, c: char) -> (token: Option<Token>)
        requires
            1 <= old(self).offset <= old(self).chars.len(),
            c == old(self).chars[old(self).offset - 1],
        ensures
            final(self).chars == old(self).chars,
            final(self).location == old(self).location,
            is_decimal_digit(c) ==> {
                &&& final(self).offset == digits_end(old(self).chars@, old(self).offset as nat)
                &&& token matches Some(t)
                &&& t@ == TokenView::Digit(
                    old(self).chars@.subrange(old(self).offset - 1, final(self).offset as int),
                )
            },
            !is_decimal_digit(c) ==> token is None && final(self).offset == old(self).offset,
    {
        if !(c >= '0' && c <= '9') {
            return None;
        }
        let ghost start = self.offset;
        let mut value = String::new();
        value.push(c);
        while self.offset < self.chars.len()
            invariant
                self.chars == old(self).chars,
                self.location == old(self).location,
                1 <= start <= self.offset <= self.chars.len(),
                start == old(self).offset,
                value@ == self.chars@.subrange(start - 1, self.offset as int),
                digits_end(self.chars@, start as nat) == digits_end(
                    self.chars@,
                    self.offset as nat,
                ),
            ensures
                self.offset == digits_end(self.chars@, start as nat),
            decreases self.chars.len() - self.offset,
        {
            let next = self.chars[self.offset];
            if !(next >= '0' && next <= '9') {
                break;
            }
            value.push(next);
            self.offset += 1;
            assert(value@ =~= self.chars@.subrange(start - 1, self.offset as int));
        }
        Some(Token::Digit(value))
    }

    /// Reads a string whose opening quote `c` has just been taken.
    fn read_string(&mut self, c: char) -> (token: Option<Token>)
        requires
            1 <= old(self).offset <= old(self).chars.len(),
            c == old(self).chars[old(self).offset - 1],
        ensures
            final(self).chars == old(self).chars,
            final(self).location == old(self).location,
            c == '"' ==> {
                let quote = quote_at(old(self).chars@, old(self).offset as nat);
                &&& final(self).offset == if quote < old(self).chars.len() {
                    quote + 1
                } else {
                    quote
                }
                &&& token matches Some(t)
                &&& t@ == TokenView::String(
                    old(self).chars@.subrange(old(self).offset as int, quote as int),
                )
            },
            c != '"' ==> token is None && final(self).offset == old(self).offset,
    {
        if c != '"' {
            return None;
        }
        let ghost start = self.offset;
        let mut value = String::new();
        proof {
            lemma_quote_at(self.chars@, start as nat);
        }
        while self.offset < self.chars.len()
            invariant_except_break
                value@ == self.chars@.subrange(start as int, self.offset as int),
                quote_at(self.chars@, start as nat) == quote_at(self.chars@, self.offset as nat),
            invariant
                self.chars == old(self).chars,
                self.location == old(self).location,
                start <= self.offset <= self.chars.len(),
                start == old(self).offset,
                start <= quote_at(self.chars@, start as nat) <= self.chars.len(),
            ensures
                start <= self.offset <= self.chars.len(),
                self.offset == if quote_at(self.chars@, start as nat) < self.chars.len() {
                    quote_at(self.chars@, start as nat) + 1
                } else {
                    quote_at(self.chars@, start as nat)
                },
                value@ == self.chars@.subrange(
                    start as int,
                    quote_at(self.chars@, start as nat) as int,
                ),
            decreases self.chars.len() - self.offset,
        {
            let next = self.chars[self.offset];
            self.offset += 1;
            if next == '"' {
                break;
            }
            value.push(next);
            assert(value@ =~= self.chars@.subrange(start as int, self.offset as int));
        }
        Some(Token::String(value))
    }

    /// Takes the next token, if one is left.
    ///
    /// White space before the token is skipped: a line feed begins a new
    /// line at column one, any other white space is one column wide. The
    /// token is reported at the place of its first character, and the column
    /// then moves on by the token's width.
    pub fn next(&mut self) -> (next: Option<LocalizedToken>)
        requires
            old(self).wf(),
        ensures
            final(self).follows(old(self)),
            match next {
                Some(token) => old(self).remaining().len() > 0 && token@ == old(
                    self,
                ).remaining()[0],
                None => old(self).remaining().len() == 0,
            },
    {
        let ghost text = self.chars@;
        let ghost file = self.location.file_path@;
        let ghost entry = self.cursor();
        proof {
            lemma_tokens_step(text, file, entry);
            lemma_skip_blank(text, entry);
        }
        loop
            invariant
                self.chars@ == text,
                self.location.file_path@ == file,
                self.wf(),
                skip_blank(text, self.cursor()) == skip_blank(text, entry),
            ensures
                self.cursor() == skip_blank(text, entry),
            decreases self.chars.len() - self.offset,
        {
            if self.offset >= self.chars.len() {
                break;
            }
            let c = self.chars[self.offset];
            if c == '\n' {
                self.location.line += 1;
                self.location.column = 1;
                self.offset += 1;
            } else if char_is_whitespace(c) {
                self.location.column += 1;
                self.offset += 1;
            } else {
                break;
            }
        }
        if self.offset >= self.chars.len() {
            proof {
                lemma_tokens_step(text, file, self.cursor());
            }
            return None;
        }
        let ghost start = self.cursor();
        let c = self.chars[self.offset];
        self.offset += 1;
        let found = match self.read_identifier(c) {
            Some(token) => Some(token),
            None => match self.read_digit(c) {
                Some(token) => Some(token),
                None => match self.read_string(c) {
                    Some(token) => Some(token),
                    None => self.read_special_character(c),
                },
            },
        };
        match found {
            Some(token) => {
                proof {
                    lemma_token_at(text, start.offset);
                    assert(token@ == token_at(text, start.offset).0);
                    assert(self.offset == token_at(text, start.offset).1);
                }
                let start_location = self.location.clone();
                self.location.column += token.len();
                proof {
                    let after = Cursor {
                        offset: self.offset as nat,
                        line: start.line,
                        column: start.column + token@.width(),
                    };
                    assert(self.cursor() == after);
                    assert(next_token(text, file, entry) matches Some((t, a)) && a == after);
                }
                Some(LocalizedToken { token, location: start_location })
            },
            None => None,
        }
    }

    /// Takes the next token, whatever it is. Where the text has ended,
    /// that is an error at the place where it ended.
    pub fn next_or_err(&mut self) -> (result: ParseResult<LocalizedToken>)
        requires
            old(self).wf(),
        ensures
            final(self).follows(old(self)),
            token_result_view(result) == expect_token(
                old(self).remaining(),
                old(self).end_location(),
            ),
    {
        match self.next() {
            Some(token) => Ok(token),
            None => Err(
                LocalizedParseError {
                    error: ParseError::UnexpectedEndOfFile,
                    location: self.location.clone(),
                },
            ),
        }
    }

    /// Takes the next token, which has to be an identifier. Another token is
    /// an error at that token, and the end of the text an error at the place
    /// where it ended.
    pub fn next_identifier(&mut self) -> (result: ParseResult<LocalizedToken>)
        requires
            old(self).wf(),
        ensures
            final(self).follows(old(self)),
            token_result_view(result) == expect_identifier(
                old(self).remaining(),
                old(self).end_location(),
            ),
    {
        let token = self.next_or_err()?;
        match &token.token {
            Token::Identifier(_) => Ok(token),
            _ => Err(
                LocalizedParseError {
                    error: ParseError::ExpectedIdentifier,
                    location: token.location,
                },
            ),
        }
    }

    /// Takes the next token, which has to equal `kind`. Another token is an
    /// error at that token, and the end of the text an error at the place
    /// where it ended.
    pub fn next_kind(&mut self, kind: Token) -> (result: ParseResult<LocalizedToken>)
        requires
            old(self).wf(),
        ensures
            final(self).follows(old(self)),
            token_result_view(result) == expect_kind(
                old(self).remaining(),
                old(self).end_location(),
                kind@,
            ),
    {
        let token = self.next_or_err()?;
        if token.token == kind {
            return Ok(token);
        }
        Err(
            LocalizedParseError {
                error: ParseError::ExpectedTokenOfKind(kind),
                location: token.location,
            },
        )
    }

    /// Takes the next token, which has to be a digit run. Another token is
    /// an error at that token, and the end of the text an error at the place
    /// where it ended.
    pub fn next_literal(&mut self) -> (result: ParseResult<LocalizedToken>)
        requires
            old(self).wf(),
        ensures
            final(self).follows(old(self)),
            token_result_view(result) == expect_literal(
                old(self).remaining(),
                old(self).end_location(),
            ),
    {
        let token = self.next_or_err()?;
        match &token.token {
            Token::Digit(_) => Ok(token),
            _ => Err(
                LocalizedParseError { error: ParseError::ExpectedLiteral, location: token.location },
            ),
        }
    }

    /// The token that the single character `c` makes.
    fn read_special_character(&mut self, c: char) -> (token: Option<Token>)
        ensures
            *final(self) == *old(self),
            token matches Some(t) && t@ == mark(c),
    {
        match c {
            '(' => Some(Token::ParenOpen),
            ')' => Some(Token::ParenClose),
            '{' => Some(Token::BraceOpen),
            '}' => Some(Token::BraceClose),
            '[' => Some(Token::SquareOpen),
            ']' => Some(Token::SquareClose),
            ':' => Some(Token::Colon),
            ';' => Some(Token::Semicolon),
            '=' => Some(Token::Equal),
            '@' => Some(Token::At),
            ',' => Some(Token::Comma),
            _ => Some(Token::Unknown(c)),
        }
    }
}

/// How the places at which a tokenizer stands follow from one another.
pub broadcast group group_reading {
    Tokens::lemma_stands_still,
    Tokens::lemma_stands_behind_one,
    Tokens::lemma_stands_behind_both,
}

} // verus!
