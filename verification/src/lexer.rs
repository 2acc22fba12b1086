//! The lexical grammar, as functions of the source text.
//!
//! A cursor is an offset into the text together with the line and column of
//! that offset. Everything the tokenizer computes is stated here as a
//! function of the text and a cursor.

use crate::location::SourceLocationView;
use crate::text::{is_alphabetic, is_alphanumeric, is_whitespace};
use crate::token::{LocalizedTokenView, TokenView};
use vstd::prelude::*;
use vstd::utf8::{encode_scalar, encode_utf8};

verus! {

/// A place in a text: how many characters lie before it, and its line and
/// column.
pub struct Cursor {
    pub offset: nat,
    pub line: nat,
    pub column: nat,
}

/// An identifier begins with an alphabetic character or an underscore.
pub open spec fn starts_identifier(c: char) -> bool {
    is_alphabetic(c) || c == '_'
}

/// An identifier goes on with alphanumeric characters and underscores.
pub open spec fn continues_identifier(c: char) -> bool {
    is_alphanumeric(c) || c == '_'
}

/// The ten decimal digits.
pub open spec fn is_decimal_digit(c: char) -> bool {
    '0' <= c <= '9'
}

/// The first offset at or after `from` that holds no identifier character.
pub open spec fn identifier_end(text: Seq<char>, from: nat) -> nat
    decreases text.len() - from,
{
    if from < text.len() && continues_identifier(text[from as int]) {
        identifier_end(text, from + 1)
    } else {
        from
    }
}

/// The first offset at or after `from` that holds no decimal digit.
pub open spec fn digits_end(text: Seq<char>, from: nat) -> nat
    decreases text.len() - from,
{
    if from < text.len() && is_decimal_digit(text[from as int]) {
        digits_end(text, from + 1)
    } else {
        from
    }
}

/// The first offset at or after `from` that holds a double quote, or the
/// end of the text if there is none.
pub open spec fn quote_at(text: Seq<char>, from: nat) -> nat
    decreases text.len() - from,
{
    if from < text.len() && text[from as int] != '"' {
        quote_at(text, from + 1)
    } else {
        from
    }
}

/// The token that a single character makes when it begins neither an
/// identifier, nor a digit run, nor a string.
pub open spec fn mark(c: char) -> TokenView {
    if c == '(' {
        TokenView::ParenOpen
    } else if c == ')' {
        TokenView::ParenClose
    } else if c == '{' {
        TokenView::BraceOpen
    } else if c == '}' {
        TokenView::BraceClose
    } else if c == '[' {
        TokenView::SquareOpen
    } else if c == ']' {
        TokenView::SquareClose
    } else if c == ':' {
        TokenView::Colon
    } else if c == ';' {
        TokenView::Semicolon
    } else if c == '=' {
        TokenView::Equal
    } else if c == '@' {
        TokenView::At
    } else if c == ',' {
        TokenView::Comma
    } else {
        TokenView::Unknown(c)
    }
}

/// The cursor after the white space that begins at `cursor`. A line feed
/// starts a new line at column one; any other white space is one column wide.
pub open spec fn skip_blank(text: Seq<char>, cursor: Cursor) -> Cursor
    decreases text.len() - cursor.offset,
{
    if cursor.offset < text.len() {
        let c = text[cursor.offset as int];
        if c == '\n' {
            skip_blank(text, Cursor { offset: cursor.offset + 1, line: cursor.line + 1, column: 1 })
        } else if is_whitespace(c) {
            skip_blank(
                text,
                Cursor {
                    offset: cursor.offset + 1,
                    line: cursor.line,
                    column: cursor.column + 1,
                },
            )
        } else {
            cursor
        }
    } else {
        cursor
    }
}

/// The token that begins at offset `at`, which holds no white space, and the
/// offset just behind the token.
///
/// A string runs to the next double quote, which belongs to the token but
/// not to its text, or to the end of the text where no quote follows.
pub open spec fn token_at(text: Seq<char>, at: nat) -> (TokenView, nat) {
    let c = text[at as int];
    if starts_identifier(c) {
        let end = identifier_end(text, at + 1);
        (TokenView::Identifier(text.subrange(at as int, end as int)), end)
    } else if is_decimal_digit(c) {
        let end = digits_end(text, at + 1);
        (TokenView::Digit(text.subrange(at as int, end as int)), end)
    } else if c == '"' {
        let quote = quote_at(text, at + 1);
        (
            TokenView::String(text.subrange(at as int + 1, quote as int)),
            if quote < text.len() {
                quote + 1
            } else {
                quote
            },
        )
    } else {
        (mark(c), at + 1)
    }
}

/// The next token at or after `cursor`, with the place where it begins, and
/// the cursor behind it; `None` when only white space is left.
///
/// Behind a token the column has advanced by the token's width.
pub open spec fn next_token(text: Seq<char>, file: Seq<char>, cursor: Cursor) -> Option<
    (LocalizedTokenView, Cursor),
> {
    let start = skip_blank(text, cursor);
    if start.offset < text.len() {
        let (token, end) = token_at(text, start.offset);
        Some(
            (
                LocalizedTokenView {
                    token,
                    location: SourceLocationView {
                        file_path: file,
                        line: start.line,
                        column: start.column,
                    },
                },
                Cursor { offset: end, line: start.line, column: start.column + token.width() },
            ),
        )
    } else {
        None
    }
}

/// All the tokens from `cursor` to the end of the text.
pub open spec fn tokens_from(text: Seq<char>, file: Seq<char>, cursor: Cursor) -> Seq<
    LocalizedTokenView,
>
    decreases text.len() - cursor.offset,
{
    match next_token(text, file, cursor) {
        Some((token, after)) => {
            if cursor.offset < after.offset <= text.len() {
                seq![token] + tokens_from(text, file, after)
            } else {
                seq![token]
            }
        },
        None => Seq::empty(),
    }
}

/// The cursor at which the tokenizer stands once it has found that no token
/// is left: behind the last token and the white space that follows it.
pub open spec fn end_cursor(text: Seq<char>, file: Seq<char>, cursor: Cursor) -> Cursor
    decreases text.len() - cursor.offset,
{
    match next_token(text, file, cursor) {
        Some((token, after)) => {
            if cursor.offset < after.offset <= text.len() {
                end_cursor(text, file, after)
            } else {
                after
            }
        },
        None => skip_blank(text, cursor),
    }
}

/// A run of identifier characters ends inside the text, at or after its
/// start, and holds identifier characters only.
pub proof fn lemma_identifier_end(text: Seq<char>, from: nat)
    requires
        from <= text.len(),
    ensures
        from <= identifier_end(text, from) <= text.len(),
        forall|i: int|
            from <= i < identifier_end(text, from) ==> continues_identifier(#[trigger] text[i]),
        identifier_end(text, from) < text.len() ==> !continues_identifier(
            text[identifier_end(text, from) as int],
        ),
    decreases text.len() - from,
{
    if from < text.len() && continues_identifier(text[from as int]) {
        lemma_identifier_end(text, from + 1);
    }
}

/// A run of digits ends inside the text, at or after its start, and holds
/// digits only.
pub proof fn lemma_digits_end(text: Seq<char>, from: nat)
    requires
        from <= text.len(),
    ensures
        from <= digits_end(text, from) <= text.len(),
        forall|i: int| from <= i < digits_end(text, from) ==> is_decimal_digit(#[trigger] text[i]),
        digits_end(text, from) < text.len() ==> !is_decimal_digit(
            text[digits_end(text, from) as int],
        ),
    decreases text.len() - from,
{
    if from < text.len() && is_decimal_digit(text[from as int]) {
        lemma_digits_end(text, from + 1);
    }
}

/// The closing quote of a string lies inside the text or at its end, with no
/// quote before it.
pub proof fn lemma_quote_at(text: Seq<char>, from: nat)
    requires
        from <= text.len(),
    ensures
        from <= quote_at(text, from) <= text.len(),
        forall|i: int| from <= i < quote_at(text, from) ==> #[trigger] text[i] != '"',
        quote_at(text, from) < text.len() ==> text[quote_at(text, from) as int] == '"',
    decreases text.len() - from,
{
    if from < text.len() && text[from as int] != '"' {
        lemma_quote_at(text, from + 1);
    }
}

/// White space is skipped forwards, never past the end of the text, and ends
/// at a character that is no white space. Each skipped character adds at most
/// one to the line and to the column.
pub proof fn lemma_skip_blank(text: Seq<char>, cursor: Cursor)
    requires
        cursor.offset <= text.len(),
        1 <= cursor.column,
    ensures
        cursor.offset <= skip_blank(text, cursor).offset <= text.len(),
        cursor.line <= skip_blank(text, cursor).line <= cursor.line + (skip_blank(
            text,
            cursor,
        ).offset - cursor.offset),
        1 <= skip_blank(text, cursor).column <= cursor.column + (skip_blank(text, cursor).offset
            - cursor.offset),
        skip_blank(text, cursor).offset < text.len() ==> {
            let c = text[skip_blank(text, cursor).offset as int];
            c != '\n' && !is_whitespace(c)
        },
        skip_blank(text, skip_blank(text, cursor)) == skip_blank(text, cursor),
    decreases text.len() - cursor.offset,
{
    if cursor.offset < text.len() {
        let c = text[cursor.offset as int];
        if c == '\n' {
            lemma_skip_blank(
                text,
                Cursor { offset: cursor.offset + 1, line: cursor.line + 1, column: 1 },
            );
        } else if is_whitespace(c) {
            lemma_skip_blank(
                text,
                Cursor {
                    offset: cursor.offset + 1,
                    line: cursor.line,
                    column: cursor.column + 1,
                },
            );
        }
    }
}

/// No character takes more than four bytes in UTF-8.
pub proof fn lemma_width_bound(text: Seq<char>)
    ensures
        encode_utf8(text).len() <= 4 * text.len(),
    decreases text.len(),
{
    if text.len() > 0 {
        lemma_width_bound(text.drop_first());
        assert(encode_scalar(text[0] as u32).len() <= 4);
    }
}

/// A token ends inside the text, behind its first character, and is at most
/// four columns wide for each character it takes.
pub proof fn lemma_token_at(text: Seq<char>, at: nat)
    requires
        at < text.len(),
    ensures
        at < token_at(text, at).1 <= text.len(),
        token_at(text, at).0.width() <= 4 * (token_at(text, at).1 - at),
{
    let c = text[at as int];
    lemma_identifier_end(text, at + 1);
    lemma_digits_end(text, at + 1);
    lemma_quote_at(text, at + 1);
    if starts_identifier(c) {
        lemma_width_bound(text.subrange(at as int, identifier_end(text, at + 1) as int));
    } else if is_decimal_digit(c) {
        lemma_width_bound(text.subrange(at as int, digits_end(text, at + 1) as int));
    } else if c == '"' {
        lemma_width_bound(text.subrange(at as int + 1, quote_at(text, at + 1) as int));
    }
}

/// Where a token is left, the tokens from a cursor are that token and then
/// the tokens from behind it, and the end of the text is the same from both
/// places. Where none is left, there are no tokens, now or later.
pub proof fn lemma_tokens_step(text: Seq<char>, file: Seq<char>, cursor: Cursor)
    requires
        cursor.offset <= text.len(),
        1 <= cursor.column,
    ensures
        match next_token(text, file, cursor) {
            Some((token, after)) => {
                &&& cursor.offset < after.offset <= text.len()
                &&& 1 <= after.column
                &&& tokens_from(text, file, cursor).len() > 0
                &&& tokens_from(text, file, cursor)[0] == token
                &&& tokens_from(text, file, cursor).drop_first() == tokens_from(text, file, after)
                &&& end_cursor(text, file, cursor) == end_cursor(text, file, after)
            },
            None => {
                let end = skip_blank(text, cursor);
                &&& tokens_from(text, file, cursor).len() == 0
                &&& end_cursor(text, file, cursor) == end
                &&& next_token(text, file, end) is None
                &&& tokens_from(text, file, end).len() == 0
                &&& end_cursor(text, file, end) == end
            },
        },
{
    lemma_skip_blank(text, cursor);
    let start = skip_blank(text, cursor);
    if start.offset < text.len() {
        lemma_token_at(text, start.offset);
        let (token, end) = token_at(text, start.offset);
        let after = Cursor { offset: end, line: start.line, column: start.column + token.width() };
        assert(tokens_from(text, file, cursor).drop_first() =~= tokens_from(text, file, after));
    }
}

/// There are no more tokens than characters left.
pub proof fn lemma_tokens_count(text: Seq<char>, file: Seq<char>, cursor: Cursor)
    requires
        cursor.offset <= text.len(),
        1 <= cursor.column,
    ensures
        tokens_from(text, file, cursor).len() <= text.len() - cursor.offset,
    decreases text.len() - cursor.offset,
{
    lemma_tokens_step(text, file, cursor);
    match next_token(text, file, cursor) {
        Some((token, after)) => {
            lemma_tokens_count(text, file, after);
        },
        None => {},
    }
}

} // verus!
