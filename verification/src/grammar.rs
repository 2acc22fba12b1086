//! The grammar of the schema language, as functions of the token stream.
//!
//! Each rule takes the tokens that are still to come and the place where the
//! text ends, and gives what the rule makes of them together with the tokens
//! that it leaves. A rule that fails has taken the token it failed at.
//!
//! A rule that repeats goes on with the tokens that one round has left. It
//! asks that these be fewer than before, which is what shows that it comes
//! to an end; the lemmas at the end of this file show that they always are.

use crate::error::{LocalizedParseErrorView, ParseErrorView};
use crate::location::SourceLocationView;
use crate::nodes::{
    lemma_nodes_depth_push, node_depth, nodes_depth, AliasView, BlockNodeView, BlockView,
    EnumItemView, EnumView, StructureFieldView, StructureView,
};
use crate::token::{LocalizedTokenView, TokenView};
use crate::tokens::{
    end_of_file, expect_identifier, expect_kind, expect_literal, expect_token, skip_one,
};
use crate::types::TypeNameView;
use vstd::prelude::*;

verus! {

/// What a rule makes of a token stream: a value or an error, and the tokens
/// that are left.
pub struct Parsed<T> {
    pub result: Result<T, LocalizedParseErrorView>,
    pub rest: Seq<LocalizedTokenView>,
}

/// A rule that succeeded.
pub open spec fn done<T>(value: T, rest: Seq<LocalizedTokenView>) -> Parsed<T> {
    Parsed { result: Ok(value), rest }
}

/// A rule that failed.
pub open spec fn failed<T>(error: LocalizedParseErrorView, rest: Seq<LocalizedTokenView>) -> Parsed<
    T,
> {
    Parsed { result: Err(error), rest }
}

/// The error of a token that the grammar does not allow where it stands.
pub open spec fn unexpected(token: LocalizedTokenView) -> LocalizedParseErrorView {
    LocalizedParseErrorView {
        error: ParseErrorView::UnexpectedToken(token.token),
        location: token.location,
    }
}

/// The error of a declaration that begins with an identifier that is no
/// keyword.
pub open spec fn unknown_identifier(token: LocalizedTokenView) -> LocalizedParseErrorView {
    LocalizedParseErrorView {
        error: ParseErrorView::UnknownIdentifier(token.token.text()),
        location: token.location,
    }
}

/// `alias := IDENT "=" IDENT ";"`
pub open spec fn alias(tokens: Seq<LocalizedTokenView>, end: SourceLocationView) -> Parsed<
    AliasView,
> {
    let t1 = skip_one(tokens);
    let t2 = skip_one(t1);
    let t3 = skip_one(t2);
    let t4 = skip_one(t3);
    match expect_identifier(tokens, end) {
        Err(error) => failed(error, t1),
        Ok(name) => match expect_kind(t1, end, TokenView::Equal) {
            Err(error) => failed(error, t2),
            Ok(_) => match expect_identifier(t2, end) {
                Err(error) => failed(error, t3),
                Ok(target) => match expect_kind(t3, end, TokenView::Semicolon) {
                    Err(error) => failed(error, t4),
                    Ok(_) => done(
                        AliasView {
                            alias_name: name.token.text(),
                            aliased_type_name: target.token.text(),
                        },
                        t4,
                    ),
                },
            },
        },
    }
}

/// A field of the given name and type, scalar or array.
pub open spec fn make_field(
    name: Seq<char>,
    type_token: LocalizedTokenView,
    is_array: bool,
    array_size: Option<LocalizedTokenView>,
) -> StructureFieldView {
    StructureFieldView {
        name,
        field_type: TypeNameView { token: type_token, is_array, array_size, resolved: None },
    }
}

/// `":" IDENT [ "[" [ DIGIT ] "]" ] ";"`: what follows the name of a field.
pub open spec fn field(
    tokens: Seq<LocalizedTokenView>,
    end: SourceLocationView,
    name: Seq<char>,
) -> Parsed<StructureFieldView> {
    let t1 = skip_one(tokens);
    let t2 = skip_one(t1);
    let t3 = skip_one(t2);
    let t4 = skip_one(t3);
    let t5 = skip_one(t4);
    let t6 = skip_one(t5);
    match expect_kind(tokens, end, TokenView::Colon) {
        Err(error) => failed(error, t1),
        Ok(_) => match expect_identifier(t1, end) {
            Err(error) => failed(error, t2),
            Ok(type_token) => match expect_token(t2, end) {
                Err(error) => failed(error, t3),
                Ok(next) => match next.token {
                    TokenView::SquareOpen => match expect_token(t3, end) {
                        Err(error) => failed(error, t4),
                        Ok(inner) => match inner.token {
                            TokenView::Digit(_) => match expect_kind(
                                t4,
                                end,
                                TokenView::SquareClose,
                            ) {
                                Err(error) => failed(error, t5),
                                Ok(_) => match expect_kind(t5, end, TokenView::Semicolon) {
                                    Err(error) => failed(error, t6),
                                    Ok(_) => done(
                                        make_field(name, type_token, true, Some(inner)),
                                        t6,
                                    ),
                                },
                            },
                            TokenView::SquareClose => match expect_kind(
                                t4,
                                end,
                                TokenView::Semicolon,
                            ) {
                                Err(error) => failed(error, t5),
                                Ok(_) => done(make_field(name, type_token, true, None), t5),
                            },
                            _ => failed(unexpected(inner), t4),
                        },
                    },
                    TokenView::Semicolon => done(make_field(name, type_token, false, None), t3),
                    _ => failed(unexpected(next), t3),
                },
            },
        },
    }
}

/// `{ field } "}"`: the fields of a structure up to its closing brace,
/// behind the fields `fields` that were read before.
pub open spec fn fields(
    tokens: Seq<LocalizedTokenView>,
    end: SourceLocationView,
    before: Seq<StructureFieldView>,
) -> Parsed<Seq<StructureFieldView>>
    decreases tokens.len(),
{
    if tokens.len() == 0 {
        failed(end_of_file(end), tokens)
    } else {
        match tokens[0].token {
            TokenView::Identifier(name) => {
                let one = field(tokens.drop_first(), end, name);
                match one.result {
                    Ok(value) => if one.rest.len() < tokens.len() {
                        fields(one.rest, end, before.push(value))
                    } else {
                        failed(end_of_file(end), one.rest)
                    },
                    Err(error) => failed(error, one.rest),
                }
            },
            TokenView::BraceClose => done(before, tokens.drop_first()),
            _ => failed(unexpected(tokens[0]), tokens.drop_first()),
        }
    }
}

/// `structure := IDENT "{" { field } "}"`
pub open spec fn structure(tokens: Seq<LocalizedTokenView>, end: SourceLocationView) -> Parsed<
    StructureView,
> {
    let t1 = skip_one(tokens);
    let t2 = skip_one(t1);
    match expect_identifier(tokens, end) {
        Err(error) => failed(error, t1),
        Ok(name) => match expect_kind(t1, end, TokenView::BraceOpen) {
            Err(error) => failed(error, t2),
            Ok(_) => {
                let body = fields(t2, end, Seq::empty());
                match body.result {
                    Ok(list) => done(
                        StructureView { name: name.token.text(), fields: list },
                        body.rest,
                    ),
                    Err(error) => failed(error, body.rest),
                }
            },
        },
    }
}

/// A list of items in which the last one has the explicit value `literal`.
pub open spec fn with_value(items: Seq<EnumItemView>, literal: LocalizedTokenView) -> Seq<
    EnumItemView,
> {
    let last = items.last();
    items.drop_last().push(EnumItemView { value_token: Some(literal), ..last })
}

/// A list of items in which the last one carries the fields `list`, as a
/// structure of the item's own name.
pub open spec fn with_fields(items: Seq<EnumItemView>, list: Seq<StructureFieldView>) -> Seq<
    EnumItemView,
> {
    let last = items.last();
    items.drop_last().push(
        EnumItemView {
            structure: Some(StructureView { name: last.name, fields: list }),
            ..last
        },
    )
}

/// The items of an enumeration up to its closing brace, behind the items
/// `before` that were read before.
///
/// `first` says that no item was read yet, `comma` that a comma was read
/// since the last item began, and `named` that the token just read was the
/// name of the last item. An identifier begins a new item, and may stand
/// only first or behind a comma. Right behind the name of an item, and
/// nowhere else, `=` and a literal give the item an explicit value, or `{`
/// and fields up to `}` give it a body: so an item has a value or a body or
/// neither, and never two of them.
pub open spec fn items(
    tokens: Seq<LocalizedTokenView>,
    end: SourceLocationView,
    before: Seq<EnumItemView>,
    first: bool,
    comma: bool,
    named: bool,
) -> Parsed<Seq<EnumItemView>>
    decreases tokens.len(),
{
    if tokens.len() == 0 {
        failed(end_of_file(end), tokens)
    } else {
        let rest = tokens.drop_first();
        match tokens[0].token {
            TokenView::Identifier(name) => if !first && !comma {
                failed(unexpected(tokens[0]), rest)
            } else {
                items(
                    rest,
                    end,
                    before.push(EnumItemView { name, value_token: None, structure: None }),
                    false,
                    false,
                    true,
                )
            },
            TokenView::Equal => if !named || before.len() == 0 {
                failed(unexpected(tokens[0]), rest)
            } else {
                match expect_literal(rest, end) {
                    Ok(literal) => items(
                        skip_one(rest),
                        end,
                        with_value(before, literal),
                        first,
                        comma,
                        false,
                    ),
                    Err(error) => failed(error, skip_one(rest)),
                }
            },
            TokenView::BraceOpen => if !named || before.len() == 0 {
                failed(unexpected(tokens[0]), rest)
            } else {
                let body = fields(rest, end, Seq::empty());
                match body.result {
                    Ok(list) => if body.rest.len() < tokens.len() {
                        items(body.rest, end, with_fields(before, list), first, comma, false)
                    } else {
                        failed(end_of_file(end), body.rest)
                    },
                    Err(error) => failed(error, body.rest),
                }
            },
            TokenView::Comma => items(rest, end, before, first, true, false),
            TokenView::BraceClose => done(before, rest),
            _ => failed(unexpected(tokens[0]), rest),
        }
    }
}

/// `enum := IDENT "{" [ item { "," item } [","] ] "}"`, where
/// `item := IDENT [ "=" DIGIT | "{" { field } "}" ]`
pub open spec fn enumeration(tokens: Seq<LocalizedTokenView>, end: SourceLocationView) -> Parsed<
    EnumView,
> {
    let t1 = skip_one(tokens);
    let t2 = skip_one(t1);
    match expect_identifier(tokens, end) {
        Err(error) => failed(error, t1),
        Ok(name) => match expect_kind(t1, end, TokenView::BraceOpen) {
            Err(error) => failed(error, t2),
            Ok(_) => {
                let body = items(t2, end, Seq::empty(), true, false, false);
                match body.result {
                    Ok(list) => done(EnumView { name: name.token.text(), items: list }, body.rest),
                    Err(error) => failed(error, body.rest),
                }
            },
        },
    }
}

/// The declaration that begins with the token `first`, which has been taken
/// already: `"struct" structure | "alias" alias | "enum" enum | "{" block "}"`.
pub open spec fn node(
    tokens: Seq<LocalizedTokenView>,
    end: SourceLocationView,
    first: LocalizedTokenView,
) -> Parsed<BlockNodeView>
    decreases tokens.len(), 1nat,
{
    match first.token {
        TokenView::Identifier(word) => if word == "struct"@ {
            let parsed = structure(tokens, end);
            match parsed.result {
                Ok(value) => done(BlockNodeView::Structure(value), parsed.rest),
                Err(error) => failed(error, parsed.rest),
            }
        } else if word == "alias"@ {
            let parsed = alias(tokens, end);
            match parsed.result {
                Ok(value) => done(BlockNodeView::Alias(value), parsed.rest),
                Err(error) => failed(error, parsed.rest),
            }
        } else if word == "enum"@ {
            let parsed = enumeration(tokens, end);
            match parsed.result {
                Ok(value) => done(BlockNodeView::Enum(value), parsed.rest),
                Err(error) => failed(error, parsed.rest),
            }
        } else {
            failed(unknown_identifier(first), tokens)
        },
        TokenView::BraceOpen => {
            let parsed = nested_block(tokens, end, Seq::empty());
            match parsed.result {
                Ok(value) => done(BlockNodeView::Block(value), parsed.rest),
                Err(error) => failed(error, parsed.rest),
            }
        },
        _ => failed(unexpected(first), tokens),
    }
}

/// `{ block_node } "}"`: the declarations of a group in braces up to its
/// closing brace, behind the declarations `before` that were read before.
pub open spec fn nested_block(
    tokens: Seq<LocalizedTokenView>,
    end: SourceLocationView,
    before: Seq<BlockNodeView>,
) -> Parsed<BlockView>
    decreases tokens.len(), 0nat,
{
    if tokens.len() == 0 {
        failed(end_of_file(end), tokens)
    } else if tokens[0].token is BraceClose {
        done(BlockView { nodes: before }, tokens.drop_first())
    } else {
        let one = node(tokens.drop_first(), end, tokens[0]);
        match one.result {
            Ok(value) => if one.rest.len() < tokens.len() {
                nested_block(one.rest, end, before.push(value))
            } else {
                failed(end_of_file(end), one.rest)
            },
            Err(error) => failed(error, one.rest),
        }
    }
}

/// `block := { block_node }`: the declarations of a whole text, behind the
/// declarations `before` that were read before.
pub open spec fn block(
    tokens: Seq<LocalizedTokenView>,
    end: SourceLocationView,
    before: Seq<BlockNodeView>,
) -> Parsed<BlockView>
    decreases tokens.len(),
{
    if tokens.len() == 0 {
        done(BlockView { nodes: before }, tokens)
    } else {
        let one = node(tokens.drop_first(), end, tokens[0]);
        match one.result {
            Ok(value) => if one.rest.len() < tokens.len() {
                block(one.rest, end, before.push(value))
            } else {
                failed(end_of_file(end), one.rest)
            },
            Err(error) => failed(error, one.rest),
        }
    }
}

/// The larger of two numbers.
pub open spec fn larger(a: int, b: int) -> int {
    if a < b {
        b
    } else {
        a
    }
}

/// The rule for an alias leaves no more tokens than it was given.
pub proof fn lemma_alias_rest(tokens: Seq<LocalizedTokenView>, end: SourceLocationView)
    ensures
        alias(tokens, end).rest.len() <= tokens.len(),
{
}

/// The rule for a field leaves no more tokens than it was given.
pub proof fn lemma_field_rest(
    tokens: Seq<LocalizedTokenView>,
    end: SourceLocationView,
    name: Seq<char>,
)
    ensures
        field(tokens, end, name).rest.len() <= tokens.len(),
{
}

/// The rule for the fields of a structure leaves no more tokens than it was
/// given, and fewer where it succeeds.
pub proof fn lemma_fields_rest(
    tokens: Seq<LocalizedTokenView>,
    end: SourceLocationView,
    before: Seq<StructureFieldView>,
)
    ensures
        fields(tokens, end, before).rest.len() <= tokens.len(),
        fields(tokens, end, before).result is Ok ==> fields(tokens, end, before).rest.len()
            < tokens.len(),
    decreases tokens.len(),
{
    if tokens.len() > 0 {
        match tokens[0].token {
            TokenView::Identifier(name) => {
                let one = field(tokens.drop_first(), end, name);
                lemma_field_rest(tokens.drop_first(), end, name);
                match one.result {
                    Ok(value) => {
                        lemma_fields_rest(one.rest, end, before.push(value));
                    },
                    Err(_) => {},
                }
            },
            _ => {},
        }
    }
}

/// The rule for a structure leaves no more tokens than it was given.
pub proof fn lemma_structure_rest(tokens: Seq<LocalizedTokenView>, end: SourceLocationView)
    ensures
        structure(tokens, end).rest.len() <= tokens.len(),
{
    lemma_fields_rest(skip_one(skip_one(tokens)), end, Seq::empty());
}

/// The rule for the items of an enumeration leaves no more tokens than it
/// was given.
pub proof fn lemma_items_rest(
    tokens: Seq<LocalizedTokenView>,
    end: SourceLocationView,
    before: Seq<EnumItemView>,
    first: bool,
    comma: bool,
    named: bool,
)
    ensures
        items(tokens, end, before, first, comma, named).rest.len() <= tokens.len(),
    decreases tokens.len(),
{
    if tokens.len() > 0 {
        let rest = tokens.drop_first();
        match tokens[0].token {
            TokenView::Identifier(name) => {
                if first || comma {
                    lemma_items_rest(
                        rest,
                        end,
                        before.push(EnumItemView { name, value_token: None, structure: None }),
                        false,
                        false,
                        true,
                    );
                }
            },
            TokenView::Equal => {
                if named && before.len() > 0 {
                    match expect_literal(rest, end) {
                        Ok(literal) => {
                            lemma_items_rest(
                                skip_one(rest),
                                end,
                                with_value(before, literal),
                                first,
                                comma,
                                false,
                            );
                        },
                        Err(_) => {},
                    }
                }
            },
            TokenView::BraceOpen => {
                if named && before.len() > 0 {
                    let body = fields(rest, end, Seq::empty());
                    lemma_fields_rest(rest, end, Seq::empty());
                    match body.result {
                        Ok(list) => {
                            lemma_items_rest(
                                body.rest,
                                end,
                                with_fields(before, list),
                                first,
                                comma,
                                false,
                            );
                        },
                        Err(_) => {},
                    }
                }
            },
            TokenView::Comma => {
                lemma_items_rest(rest, end, before, first, true, false);
            },
            _ => {},
        }
    }
}

/// The rule for an enumeration leaves no more tokens than it was given.
pub proof fn lemma_enumeration_rest(tokens: Seq<LocalizedTokenView>, end: SourceLocationView)
    ensures
        enumeration(tokens, end).rest.len() <= tokens.len(),
{
    lemma_items_rest(skip_one(skip_one(tokens)), end, Seq::empty(), true, false, false);
}

/// The rule for a declaration leaves no more tokens than it was given, and
/// blocks are nested in the declaration no deeper than the number of tokens
/// that the rule took.
pub proof fn lemma_node_depth(
    tokens: Seq<LocalizedTokenView>,
    end: SourceLocationView,
    first: LocalizedTokenView,
)
    ensures
        node(tokens, end, first).rest.len() <= tokens.len(),
        node(tokens, end, first).result matches Ok(value) ==> node_depth(value) <= tokens.len()
            - node(tokens, end, first).rest.len(),
    decreases tokens.len(), 1nat,
{
    lemma_structure_rest(tokens, end);
    lemma_alias_rest(tokens, end);
    lemma_enumeration_rest(tokens, end);
    match first.token {
        TokenView::BraceOpen => {
            lemma_nested_block_depth(tokens, end, Seq::empty());
        },
        _ => {},
    }
}

/// The rule for a nested block leaves fewer tokens than it was given where
/// it succeeds, and blocks are nested in what it read no deeper than the
/// number of tokens that it took before the closing brace.
pub proof fn lemma_nested_block_depth(
    tokens: Seq<LocalizedTokenView>,
    end: SourceLocationView,
    before: Seq<BlockNodeView>,
)
    ensures
        nested_block(tokens, end, before).rest.len() <= tokens.len(),
        nested_block(tokens, end, before).result matches Ok(value) ==> {
            &&& nested_block(tokens, end, before).rest.len() < tokens.len()
            &&& value.depth() <= larger(
                nodes_depth(before, before.len()) as int,
                tokens.len() - nested_block(tokens, end, before).rest.len() - 1,
            )
        },
    decreases tokens.len(), 0nat,
{
    if tokens.len() > 0 && !(tokens[0].token is BraceClose) {
        let one = node(tokens.drop_first(), end, tokens[0]);
        lemma_node_depth(tokens.drop_first(), end, tokens[0]);
        match one.result {
            Ok(value) => {
                lemma_nodes_depth_push(before, value);
                lemma_nested_block_depth(one.rest, end, before.push(value));
            },
            Err(_) => {},
        }
    }
}

/// The rule for a whole text leaves no more tokens than it was given, and
/// blocks are nested in what it read no deeper than the number of tokens
/// that it took.
pub proof fn lemma_block_depth(
    tokens: Seq<LocalizedTokenView>,
    end: SourceLocationView,
    before: Seq<BlockNodeView>,
)
    ensures
        block(tokens, end, before).rest.len() <= tokens.len(),
        block(tokens, end, before).result matches Ok(value) ==> value.depth() <= larger(
            nodes_depth(before, before.len()) as int,
            tokens.len() - block(tokens, end, before).rest.len(),
        ),
    decreases tokens.len(),
{
    if tokens.len() > 0 {
        let one = node(tokens.drop_first(), end, tokens[0]);
        lemma_node_depth(tokens.drop_first(), end, tokens[0]);
        match one.result {
            Ok(value) => {
                lemma_nodes_depth_push(before, value);
                lemma_block_depth(one.rest, end, before.push(value));
            },
            Err(_) => {},
        }
    }
}

} // verus!
