//! The recursive-descent parser: one function for each rule of the grammar.
//!
//! Every function reads from the tokenizer what its rule takes and stops at
//! the first error.

use crate::error::{LocalizedParseError, LocalizedParseErrorView, ParseError};
use crate::grammar;
use crate::nodes::{
    fields_view, items_view, nodes_view, Alias, Block, BlockNode, Enum, EnumItem, EnumView,
    Structure, StructureField, StructureFieldView,
};
use crate::token::{LocalizedToken, Token};
use crate::tokens::{found_end, group_reading, ParseResult, Tokens};
use crate::types::TypeName;
use vstd::prelude::*;

verus! {

broadcast use group_reading;

/// The value of what a rule returned.
pub open spec fn result_view<T: View>(result: ParseResult<T>) -> Result<
    T::V,
    LocalizedParseErrorView,
> {
    match result {
        Ok(value) => Ok(value@),
        Err(error) => Err(error@),
    }
}

/// Whether a parsing function has done what a rule of the grammar says: it
/// returned what the rule makes of the tokens that were to come, and left
/// the tokenizer in front of the tokens that the rule leaves, at the end of
/// the text where the rule failed for want of tokens, and else right behind
/// the last token that the rule took.
pub open spec fn follows_rule<T: View>(
    result: ParseResult<T>,
    before: &Tokens,
    after: &Tokens,
    rule: grammar::Parsed<T::V>,
) -> bool {
    &&& after.reads_on(before, rule.rest)
    &&& after.stands_behind(before, found_end(rule.result))
    &&& result_view(result) == rule.result
}

/// The value of what the rule for the fields of a structure returned.
pub open spec fn fields_result_view(result: ParseResult<Vec<StructureField>>) -> Result<
    Seq<StructureFieldView>,
    LocalizedParseErrorView,
> {
    match result {
        Ok(list) => Ok(fields_view(list@)),
        Err(error) => Err(error@),
    }
}

/// Reads an alias behind its keyword: a name, `=`, the name of the aliased
/// type, and `;`.
pub fn parse_alias(tokens: &mut Tokens) -> (result: ParseResult<Alias>)
    requires
        old(tokens).wf(),
    ensures
        follows_rule(
            result,
            old(tokens),
            final(tokens),
            grammar::alias(old(tokens).remaining(), old(tokens).end_location()),
        ),
{
    let alias_name_token = tokens.next_identifier()?;
    tokens.next_kind(Token::Equal)?;
    let aliased_type_name_token = tokens.next_identifier()?;
    tokens.next_kind(Token::Semicolon)?;
    Ok(
        Alias {
            alias_name: alias_name_token.value(),
            aliased_type_name: aliased_type_name_token.value(),
        },
    )
}

/// Reads what follows the name of a field: `:`, the name of the type, an
/// array suffix if there is one, and `;`.
///
/// The suffix `[]` makes the field an array without a fixed size, and
/// `[` digits `]` one of that size.
pub fn parse_structure_field(tokens: &mut Tokens, name: String) -> (result: ParseResult<
    StructureField,
>)
    requires
        old(tokens).wf(),
    ensures
        follows_rule(
            result,
            old(tokens),
            final(tokens),
            grammar::field(old(tokens).remaining(), old(tokens).end_location(), name@),
        ),
{
    tokens.next_kind(Token::Colon)?;
    let type_name_token = tokens.next_identifier()?;
    let mut is_array = false;
    let mut array_size = None;
    let next_token = tokens.next_or_err()?;
    match next_token.token {
        Token::SquareOpen => {
            is_array = true;
            let next_next_token = tokens.next_or_err()?;
            match next_next_token.token {
                Token::Digit(_) => {
                    array_size = Some(next_next_token);
                    tokens.next_kind(Token::SquareClose)?;
                    tokens.next_kind(Token::Semicolon)?;
                },
                Token::SquareClose => {
                    tokens.next_kind(Token::Semicolon)?;
                },
                _ => {
                    return Err(
                        LocalizedParseError {
                            error: ParseError::UnexpectedToken(next_next_token.token),
                            location: next_next_token.location,
                        },
                    );
                },
            }
        },
        Token::Semicolon => {},
        _ => {
            return Err(
                LocalizedParseError {
                    error: ParseError::UnexpectedToken(next_token.token),
                    location: next_token.location,
                },
            );
        },
    }
    Ok(
        StructureField {
            name,
            field_type: TypeName { token: type_name_token, is_array, array_size, resolved: None },
        },
    )
}

/// Reads the fields of a structure behind its opening brace, up to the
/// closing brace.
pub fn parse_structure_body(tokens: &mut Tokens) -> (result: ParseResult<Vec<StructureField>>)
    requires
        old(tokens).wf(),
    ensures
        final(tokens).reads_on(
            old(tokens),
            grammar::fields(
                old(tokens).remaining(),
                old(tokens).end_location(),
                Seq::empty(),
            ).rest,
        ),
        final(tokens).stands_behind(old(tokens), found_end(fields_result_view(result))),
        fields_result_view(result) == grammar::fields(
            old(tokens).remaining(),
            old(tokens).end_location(),
            Seq::empty(),
        ).result,
{
    let mut fields: Vec<StructureField> = Vec::new();
    let ghost end = tokens.end_location();
    let ghost all = grammar::fields(tokens.remaining(), end, Seq::empty());
    assert(fields_view(fields@) =~= Seq::empty());
    loop
        invariant
            tokens.reads_on(old(tokens), tokens.remaining()),
            tokens.stands_behind(old(tokens), false),
            end == old(tokens).end_location(),
            all == grammar::fields(old(tokens).remaining(), end, Seq::empty()),
            all == grammar::fields(tokens.remaining(), end, fields_view(fields@)),
        decreases tokens.remaining().len(),
    {
        let ghost before = fields_view(fields@);
        match tokens.next() {
            Some(token) => match token.token {
                Token::Identifier(value) => {
                    let field = parse_structure_field(tokens, value)?;
                    fields.push(field);
                    assert(fields_view(fields@) =~= before.push(field@));
                },
                Token::BraceClose => {
                    return Ok(fields);
                },
                _ => {
                    return Err(
                        LocalizedParseError {
                            error: ParseError::UnexpectedToken(token.token),
                            location: token.location,
                        },
                    );
                },
            },
            None => {
                return Err(
                    LocalizedParseError {
                        error: ParseError::UnexpectedEndOfFile,
                        location: tokens.location().clone(),
                    },
                );
            },
        }
    }
}

/// Reads a structure behind its keyword: a name, `{`, fields, and `}`.
pub fn parse_structure(tokens: &mut Tokens) -> (result: ParseResult<Structure>)
    requires
        old(tokens).wf(),
    ensures
        follows_rule(
            result,
            old(tokens),
            final(tokens),
            grammar::structure(old(tokens).remaining(), old(tokens).end_location()),
        ),
{
    let name_token = tokens.next_identifier()?;
    tokens.next_kind(Token::BraceOpen)?;
    let fields = parse_structure_body(tokens)?;
    Ok(Structure { name: name_token.value(), fields })
}

/// Reads an enumeration behind its keyword: a name, `{`, items separated by
/// commas, and `}`.
///
/// An item is a name, which `=` and a literal or a body of fields in braces
/// may follow at once, one of the two at most. A comma may stand behind the
/// last item.
pub fn parse_enum(tokens: &mut Tokens) -> (result: ParseResult<Enum>)
    requires
        old(tokens).wf(),
    ensures
        follows_rule(
            result,
            old(tokens),
            final(tokens),
            grammar::enumeration(old(tokens).remaining(), old(tokens).end_location()),
        ),
{
    let name_token = tokens.next_identifier()?;
    let mut items: Vec<EnumItem> = Vec::new();
    tokens.next_kind(Token::BraceOpen)?;
    let mut is_first_identifier = true;
    let mut was_previous_token_comma = false;
    let mut was_previous_token_name = false;
    let ghost end = tokens.end_location();
    let ghost all = grammar::items(tokens.remaining(), end, Seq::empty(), true, false, false);
    let ghost whole = grammar::enumeration(old(tokens).remaining(), end);
    assert(items_view(items@) =~= Seq::empty());
    loop
        invariant_except_break
            all == grammar::items(
                tokens.remaining(),
                end,
                items_view(items@),
                is_first_identifier,
                was_previous_token_comma,
                was_previous_token_name,
            ),
        invariant
            tokens.reads_on(old(tokens), tokens.remaining()),
            tokens.stands_behind(old(tokens), false),
            end == old(tokens).end_location(),
            whole == grammar::enumeration(old(tokens).remaining(), end),
            whole.rest == all.rest,
            whole.result == match all.result {
                Ok(list) => Ok(EnumView { name: name_token@.token.text(), items: list }),
                Err(error) => Err(error),
            },
        ensures
            tokens.reads_on(old(tokens), all.rest),
            all.result == Ok::<_, LocalizedParseErrorView>(items_view(items@)),
        decreases tokens.remaining().len(),
    {
        let ghost before = items_view(items@);
        match tokens.next() {
            Some(token) => match token.token {
                Token::Identifier(value) => {
                    if !is_first_identifier && !was_previous_token_comma {
                        return Err(
                            LocalizedParseError {
                                error: ParseError::UnexpectedToken(Token::Identifier(value)),
                                location: token.location,
                            },
                        );
                    }
                    let item = EnumItem { name: value, structure: None, value_token: None };
                    items.push(item);
                    assert(items_view(items@) =~= before.push(item@));
                    is_first_identifier = false;
                    was_previous_token_comma = false;
                    was_previous_token_name = true;
                },
                Token::Equal => {
                    if !was_previous_token_name {
                        return Err(
                            LocalizedParseError {
                                error: ParseError::UnexpectedToken(token.token),
                                location: token.location,
                            },
                        );
                    }
                    match items.pop() {
                        Some(last_item) => {
                            let literal = tokens.next_literal()?;
                            let item = EnumItem {
                                name: last_item.name,
                                value_token: Some(literal),
                                structure: last_item.structure,
                            };
                            items.push(item);
                            assert(items_view(items@) =~= grammar::with_value(before, literal@));
                            was_previous_token_name = false;
                        },
                        None => {
                            return Err(
                                LocalizedParseError {
                                    error: ParseError::UnexpectedToken(token.token),
                                    location: token.location,
                                },
                            );
                        },
                    }
                },
                Token::BraceOpen => {
                    if !was_previous_token_name {
                        return Err(
                            LocalizedParseError {
                                error: ParseError::UnexpectedToken(token.token),
                                location: token.location,
                            },
                        );
                    }
                    match items.pop() {
                        Some(last_item) => {
                            let fields = parse_structure_body(tokens)?;
                            let item = EnumItem {
                                name: last_item.name.clone(),
                                value_token: last_item.value_token,
                                structure: Some(Structure { name: last_item.name, fields }),
                            };
                            items.push(item);
                            assert(items_view(items@) =~= grammar::with_fields(
                                before,
                                fields_view(fields@),
                            ));
                            was_previous_token_name = false;
                        },
                        None => {
                            return Err(
                                LocalizedParseError {
                                    error: ParseError::UnexpectedToken(token.token),
                                    location: token.location,
                                },
                            );
                        },
                    }
                },
                Token::Comma => {
                    was_previous_token_comma = true;
                    was_previous_token_name = false;
                },
                Token::BraceClose => {
                    break;
                },
                _ => {
                    return Err(
                        LocalizedParseError {
                            error: ParseError::UnexpectedToken(token.token),
                            location: token.location,
                        },
                    );
                },
            },
            None => {
                return Err(
                    LocalizedParseError {
                        error: ParseError::UnexpectedEndOfFile,
                        location: tokens.location().clone(),
                    },
                );
            },
        }
    }
    Ok(Enum { name: name_token.value(), items })
}

/// Reads the declaration that begins with `token`, which has been taken
/// from the tokenizer already.
///
/// The keywords `struct`, `alias` and `enum` begin a declaration of that
/// kind, and `{` a nested block. Another identifier is unknown, and another
/// token unexpected.
pub fn parse_block_node(tokens: &mut Tokens, token: LocalizedToken) -> (result: ParseResult<
    BlockNode,
>)
    requires
        old(tokens).wf(),
    ensures
        follows_rule(
            result,
            old(tokens),
            final(tokens),
            grammar::node(old(tokens).remaining(), old(tokens).end_location(), token@),
        ),
    decreases old(tokens).remaining().len(), 1nat,
{
    match token.token {
        Token::Identifier(value) => {
            if *value.as_str() == *"struct" {
                match parse_structure(tokens) {
                    Ok(structure) => Ok(BlockNode::Structure(structure)),
                    Err(error) => Err(error),
                }
            } else if *value.as_str() == *"alias" {
                match parse_alias(tokens) {
                    Ok(alias) => Ok(BlockNode::Alias(alias)),
                    Err(error) => Err(error),
                }
            } else if *value.as_str() == *"enum" {
                match parse_enum(tokens) {
                    Ok(e) => Ok(BlockNode::Enum(e)),
                    Err(error) => Err(error),
                }
            } else {
                Err(
                    LocalizedParseError {
                        error: ParseError::UnknownIdentifier(value),
                        location: token.location,
                    },
                )
            }
        },
        Token::BraceOpen => {
            match parse_nested_block(tokens) {
                Ok(block) => Ok(BlockNode::Block(block)),
                Err(error) => Err(error),
            }
        },
        _ => Err(
            LocalizedParseError {
                error: ParseError::UnexpectedToken(token.token),
                location: token.location,
            },
        ),
    }
}

/// Reads the declarations of a group in braces behind its opening brace, up
/// to the closing brace.
fn parse_nested_block(tokens: &mut Tokens) -> (result: ParseResult<Block>)
    requires
        old(tokens).wf(),
    ensures
        final(tokens).reads_on(
            old(tokens),
            grammar::nested_block(
                old(tokens).remaining(),
                old(tokens).end_location(),
                Seq::empty(),
            ).rest,
        ),
        final(tokens).stands_behind(old(tokens), found_end(result_view(result))),
        result_view(result) == grammar::nested_block(
            old(tokens).remaining(),
            old(tokens).end_location(),
            Seq::empty(),
        ).result,
    decreases old(tokens).remaining().len(), 0nat,
{
    let mut nodes: Vec<BlockNode> = Vec::new();
    let ghost end = tokens.end_location();
    let ghost all = grammar::nested_block(tokens.remaining(), end, Seq::empty());
    assert(nodes_view(nodes@) =~= Seq::empty());
    loop
        invariant
            tokens.reads_on(old(tokens), tokens.remaining()),
            tokens.stands_behind(old(tokens), false),
            end == old(tokens).end_location(),
            all == grammar::nested_block(old(tokens).remaining(), end, Seq::empty()),
            all == grammar::nested_block(tokens.remaining(), end, nodes_view(nodes@)),
        decreases tokens.remaining().len(),
    {
        let ghost before = nodes_view(nodes@);
        match tokens.next() {
            Some(token) => {
                if token.token == Token::BraceClose {
                    return Ok(Block { nodes });
                }
                let node = parse_block_node(tokens, token)?;
                nodes.push(node);
                assert(nodes_view(nodes@) =~= before.push(node@));
            },
            None => {
                return Err(
                    LocalizedParseError {
                        error: ParseError::UnexpectedEndOfFile,
                        location: tokens.location().clone(),
                    },
                );
            },
        }
    }
}

/// Reads a whole text: declarations up to the end of the text, where the
/// tokenizer then stands.
pub fn parse_block(tokens: &mut Tokens) -> (result: Result<Block, LocalizedParseError>)
    requires
        old(tokens).wf(),
    ensures
        final(tokens).reads_on(
            old(tokens),
            grammar::block(old(tokens).remaining(), old(tokens).end_location(), Seq::empty()).rest,
        ),
        final(tokens).stands_behind(
            old(tokens),
            result is Ok || found_end(result_view(result)),
        ),
        result_view(result) == grammar::block(
            old(tokens).remaining(),
            old(tokens).end_location(),
            Seq::empty(),
        ).result,
{
    let mut nodes: Vec<BlockNode> = Vec::new();
    let ghost end = tokens.end_location();
    let ghost all = grammar::block(tokens.remaining(), end, Seq::empty());
    assert(nodes_view(nodes@) =~= Seq::empty());
    loop
        invariant
            tokens.reads_on(old(tokens), tokens.remaining()),
            tokens.stands_behind(old(tokens), false),
            end == old(tokens).end_location(),
            all == grammar::block(old(tokens).remaining(), end, Seq::empty()),
            all == grammar::block(tokens.remaining(), end, nodes_view(nodes@)),
        decreases tokens.remaining().len(),
    {
        let ghost before = nodes_view(nodes@);
        match tokens.next() {
            Some(token) => {
                let node = parse_block_node(tokens, token)?;
                nodes.push(node);
                assert(nodes_view(nodes@) =~= before.push(node@));
            },
            None => {
                return Ok(Block { nodes });
            },
        }
    }
}

} // verus!
