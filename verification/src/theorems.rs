//! What holds of the parser and the generators together.

use crate::analysis::{analyzed, analyzed_node, analyzed_nodes, analyzed_structure};
use crate::casing::name_in_case;
use crate::codegen::generated_text;
use crate::grammar;
use crate::location::SourceLocationView;
use crate::nodes::{
    any_item_has_fields, Block, BlockNodeView, BlockView, EnumItemView, EnumView,
    StructureFieldView, StructureView,
};
use crate::options::{CodeGenOptions, CodeGenOptionsView};
use crate::token::{LocalizedTokenView, TokenView};
use crate::tokens::{expect_literal, skip_one};
use crate::writer::{indentation, indented, line, line_feed};
use vstd::prelude::*;

verus! {

/// A token at a place.
pub open spec fn located(token: TokenView, at: SourceLocationView) -> LocalizedTokenView {
    LocalizedTokenView { token, location: at }
}

/// Whether a field is one that the grammar can spell: its type is named by
/// an identifier and is not resolved, a size is a digit run, and only an
/// array has one.
pub open spec fn spellable_field(field: StructureFieldView) -> bool {
    &&& field.field_type.token.token is Identifier
    &&& field.field_type.resolved is None
    &&& match field.field_type.array_size {
        Some(size) => field.field_type.is_array && size.token is Digit,
        None => true,
    }
}

/// Whether all the fields of a list are ones that the grammar can spell.
pub open spec fn spellable_fields(fields: Seq<StructureFieldView>) -> bool {
    forall|i: int| 0 <= i < fields.len() ==> spellable_field(#[trigger] fields[i])
}

/// The tokens that spell a field: its name, `:`, the token of its type, the
/// array suffix if it is an array, and `;`. The tokens that the field does
/// not keep stand at the place `at`.
pub open spec fn field_tokens(field: StructureFieldView, at: SourceLocationView) -> Seq<
    LocalizedTokenView,
> {
    let name = located(TokenView::Identifier(field.name), at);
    let colon = located(TokenView::Colon, at);
    let semicolon = located(TokenView::Semicolon, at);
    let open = located(TokenView::SquareOpen, at);
    let close = located(TokenView::SquareClose, at);
    if !field.field_type.is_array {
        seq![name, colon, field.field_type.token, semicolon]
    } else {
        match field.field_type.array_size {
            Some(size) => seq![name, colon, field.field_type.token, open, size, close, semicolon],
            None => seq![name, colon, field.field_type.token, open, close, semicolon],
        }
    }
}

/// The tokens that spell the fields of a list, one field after the other.
pub open spec fn fields_tokens(fields: Seq<StructureFieldView>, at: SourceLocationView) -> Seq<
    LocalizedTokenView,
>
    decreases fields.len(),
{
    if fields.len() == 0 {
        Seq::empty()
    } else {
        field_tokens(fields[0], at) + fields_tokens(fields.drop_first(), at)
    }
}

/// The tokens that spell a structure behind its keyword: its name, and its
/// fields in braces.
pub open spec fn structure_tokens(structure: StructureView, at: SourceLocationView) -> Seq<
    LocalizedTokenView,
> {
    seq![located(TokenView::Identifier(structure.name), at), located(TokenView::BraceOpen, at)]
        + fields_tokens(structure.fields, at) + seq![located(TokenView::BraceClose, at)]
}

/// Behind the name of a field, the rule for a field reads the tokens that
/// spell the field as that very field, and leaves what follows them.
#[verifier::rlimit(40)]
pub proof fn lemma_field_is_read_back(
    field: StructureFieldView,
    at: SourceLocationView,
    end: SourceLocationView,
    rest: Seq<LocalizedTokenView>,
)
    requires
        spellable_field(field),
    ensures
        grammar::field(field_tokens(field, at).drop_first() + rest, end, field.name)
            == grammar::done(field, rest),
{
    let colon = located(TokenView::Colon, at);
    let semicolon = located(TokenView::Semicolon, at);
    let open = located(TokenView::SquareOpen, at);
    let close = located(TokenView::SquareClose, at);
    let type_token = field.field_type.token;
    let tokens = field_tokens(field, at).drop_first() + rest;
    let t1 = skip_one(tokens);
    let t2 = skip_one(t1);
    let t3 = skip_one(t2);
    let t4 = skip_one(t3);
    let t5 = skip_one(t4);
    let t6 = skip_one(t5);
    if !field.field_type.is_array {
        assert(tokens =~= seq![colon, type_token, semicolon] + rest);
        assert(t1 =~= seq![type_token, semicolon] + rest);
        assert(t2 =~= seq![semicolon] + rest);
        assert(t3 =~= rest);
        assert(field == grammar::make_field(field.name, type_token, false, None));
    } else {
        match field.field_type.array_size {
            Some(size) => {
                assert(tokens =~= seq![colon, type_token, open, size, close, semicolon] + rest);
                assert(t1 =~= seq![type_token, open, size, close, semicolon] + rest);
                assert(t2 =~= seq![open, size, close, semicolon] + rest);
                assert(t3 =~= seq![size, close, semicolon] + rest);
                assert(t4 =~= seq![close, semicolon] + rest);
                assert(t5 =~= seq![semicolon] + rest);
                assert(t6 =~= rest);
                assert(field == grammar::make_field(field.name, type_token, true, Some(size)));
            },
            None => {
                assert(tokens =~= seq![colon, type_token, open, close, semicolon] + rest);
                assert(t1 =~= seq![type_token, open, close, semicolon] + rest);
                assert(t2 =~= seq![open, close, semicolon] + rest);
                assert(t3 =~= seq![close, semicolon] + rest);
                assert(t4 =~= seq![semicolon] + rest);
                assert(t5 =~= rest);
                assert(field == grammar::make_field(field.name, type_token, true, None));
            },
        }
    }
}

/// The tokens that spell a list of fields begin with the name of the first
/// field; behind the name come the other tokens of that field, and then the
/// tokens of the other fields.
proof fn lemma_fields_tokens_begin(
    fields: Seq<StructureFieldView>,
    at: SourceLocationView,
    tail: Seq<LocalizedTokenView>,
)
    requires
        fields.len() > 0,
    ensures
        (fields_tokens(fields, at) + tail).len() > (fields_tokens(fields.drop_first(), at)
            + tail).len(),
        (fields_tokens(fields, at) + tail)[0] == located(
            TokenView::Identifier(fields[0].name),
            at,
        ),
        (fields_tokens(fields, at) + tail).drop_first() == field_tokens(
            fields[0],
            at,
        ).drop_first() + (fields_tokens(fields.drop_first(), at) + tail),
{
    let first = field_tokens(fields[0], at);
    let others = fields_tokens(fields.drop_first(), at);
    assert(first.len() >= 4);
    assert(fields_tokens(fields, at) == first + others);
    assert((first + others + tail).drop_first() =~= first.drop_first() + (others + tail));
}

/// The rule for the fields of a structure reads the tokens that spell a
/// list of fields, and the closing brace, as those very fields in their
/// order, behind the fields that were read before.
#[verifier::rlimit(40)]
pub proof fn lemma_fields_are_read_back(
    fields: Seq<StructureFieldView>,
    at: SourceLocationView,
    end: SourceLocationView,
    rest: Seq<LocalizedTokenView>,
    before: Seq<StructureFieldView>,
)
    requires
        spellable_fields(fields),
    ensures
        grammar::fields(
            fields_tokens(fields, at) + (seq![located(TokenView::BraceClose, at)] + rest),
            end,
            before,
        ) == grammar::done(before + fields, rest),
    decreases fields.len(),
{
    let close = located(TokenView::BraceClose, at);
    let tail = seq![close] + rest;
    let tokens = fields_tokens(fields, at) + tail;
    if fields.len() == 0 {
        assert(tokens =~= tail);
        assert(tokens[0] == close);
        assert(tokens.drop_first() =~= rest);
        assert(before + fields =~= before);
    } else {
        let first = fields[0];
        let others = fields.drop_first();
        let behind = fields_tokens(others, at) + tail;
        assert(spellable_field(first));
        assert(spellable_fields(others)) by {
            assert forall|i: int| 0 <= i < others.len() implies spellable_field(
                #[trigger] others[i],
            ) by {
                assert(others[i] == fields[i + 1]);
            }
        }
        lemma_fields_tokens_begin(fields, at, tail);
        lemma_field_is_read_back(first, at, end, behind);
        lemma_fields_are_read_back(others, at, end, rest, before.push(first));
        assert(before.push(first) + others =~= before + fields);
        assert(grammar::field(tokens.drop_first(), end, first.name) == grammar::done(
            first,
            behind,
        ));
    }
}

/// Parsing the tokens that spell a structure gives that very structure:
/// the same name, and the same fields with the same names and types in the
/// same order.
#[verifier::rlimit(40)]
pub proof fn lemma_structure_is_read_back(
    structure: StructureView,
    at: SourceLocationView,
    end: SourceLocationView,
    rest: Seq<LocalizedTokenView>,
)
    requires
        spellable_fields(structure.fields),
    ensures
        grammar::structure(structure_tokens(structure, at) + rest, end) == grammar::done(
            structure,
            rest,
        ),
{
    let name = located(TokenView::Identifier(structure.name), at);
    let open = located(TokenView::BraceOpen, at);
    let close = located(TokenView::BraceClose, at);
    let tokens = structure_tokens(structure, at) + rest;
    let body = fields_tokens(structure.fields, at) + (seq![close] + rest);
    assert(tokens =~= seq![name, open] + body);
    assert(tokens[0] == name);
    assert(skip_one(tokens) =~= seq![open] + body);
    assert(skip_one(tokens)[0] == open);
    assert(skip_one(skip_one(tokens)) =~= body);
    lemma_fields_are_read_back(structure.fields, at, end, rest, Seq::empty());
    assert(Seq::<StructureFieldView>::empty() + structure.fields =~= structure.fields);
}

/// Parsing a structure and generating from what was parsed keeps the fields
/// in their order, with their names and the names of their types.
///
/// The tokens that spell a structure are parsed as that very structure, so
/// the text generated from what was parsed is the text generated from the
/// structure. In both languages that text names the type in the case of
/// type names and holds the fields one after the other in the order of the
/// structure, none left out and none twice, each with its name in the case
/// of field names and with its type translated.
pub proof fn structures_keep_their_fields(
    opts: CodeGenOptionsView,
    structure: StructureView,
    at: SourceLocationView,
    end: SourceLocationView,
    rest: Seq<LocalizedTokenView>,
    level: nat,
    with_access_modifiers: bool,
)
    requires
        spellable_fields(structure.fields),
    ensures
        grammar::structure(structure_tokens(structure, at) + rest, end).result == Ok::<
            StructureView,
            crate::error::LocalizedParseErrorView,
        >(structure),
        grammar::structure(structure_tokens(structure, at) + rest, end).rest == rest,
        crate::rust::structure_text(opts, structure, level)
            == crate::rust::structure_attributes_text(opts, level) + indentation(level)
            + "pub struct "@ + name_in_case(structure.name, opts.type_name_case)
            + ((" {"@ + line_feed()) + crate::rust::fields_text(
            opts,
            structure.fields,
            structure.fields.len(),
            level + 1,
            true,
        ) + indented(level, "}"@)),
        crate::csharp::structure_text(opts, structure, level) == line(
            level,
            "public class "@ + name_in_case(structure.name, opts.type_name_case),
        ) + line(level, "{"@) + crate::csharp::fields_text(
            opts,
            structure.fields,
            structure.fields.len(),
            level + 1,
            true,
        ) + line(level, "}"@),
        crate::rust::fields_text(opts, structure.fields, 0, level, with_access_modifiers) == Seq::<
            char,
        >::empty(),
        crate::csharp::fields_text(opts, structure.fields, 0, level, with_access_modifiers)
            == Seq::<char>::empty(),
        forall|i: int|
            0 <= i < structure.fields.len() ==> #[trigger] crate::rust::field_text(
                opts,
                structure.fields[i],
                level,
                with_access_modifiers,
            ) == indentation(level) + (if with_access_modifiers {
                "pub "@
            } else {
                ""@
            }) + name_in_case(structure.fields[i].name, opts.field_name_case) + ": "@
                + crate::rust::full_type_text(opts, structure.fields[i].field_type) + ","@
                + line_feed(),
        forall|i: int|
            0 <= i < structure.fields.len() ==> #[trigger] crate::csharp::field_text(
                opts,
                structure.fields[i],
                level,
                with_access_modifiers,
            ) == line(level, crate::csharp::REQUIRED@) + indentation(level)
                + (if with_access_modifiers {
                "public required "@
            } else {
                ""@
            }) + crate::csharp::full_type_text(opts, structure.fields[i].field_type) + " "@
                + name_in_case(structure.fields[i].name, opts.field_name_case)
                + " { get; set; }"@ + line_feed(),
        forall|i: int|
            0 <= i < structure.fields.len() ==> #[trigger] crate::rust::fields_text(
                opts,
                structure.fields,
                (i + 1) as nat,
                level,
                with_access_modifiers,
            ) == crate::rust::fields_text(
                opts,
                structure.fields,
                i as nat,
                level,
                with_access_modifiers,
            ) + crate::rust::field_text(opts, structure.fields[i], level, with_access_modifiers),
        forall|i: int|
            0 <= i < structure.fields.len() ==> #[trigger] crate::csharp::fields_text(
                opts,
                structure.fields,
                (i + 1) as nat,
                level,
                with_access_modifiers,
            ) == crate::csharp::fields_text(
                opts,
                structure.fields,
                i as nat,
                level,
                with_access_modifiers,
            ) + crate::csharp::field_text(opts, structure.fields[i], level, with_access_modifiers),
{
    lemma_structure_is_read_back(structure, at, end, rest);
}

/// An enumeration of which one item carries fields is generated as a tagged
/// union for every item.
///
/// In both languages the text is that of a tagged union, and it holds one
/// variant for each item in the order of the enumeration, none left out and
/// none twice; the variant of an item without a body has no fields.
pub proof fn tagged_unions_cover_every_item(opts: CodeGenOptionsView, e: EnumView, level: nat)
    requires
        any_item_has_fields(e.items),
    ensures
        crate::rust::enum_text(opts, e, level) == crate::rust::tagged_union_text(opts, e, level),
        crate::csharp::enum_text(opts, e, level) == crate::csharp::tagged_union_text(
            opts,
            e,
            level,
        ),
        crate::rust::items_text(opts, e.items, 0, level + 1, true) == Seq::<char>::empty(),
        forall|part: crate::csharp::Part|
            #[trigger] crate::csharp::parts_text(opts, e, 0, level + 1, part) == Seq::<
                char,
            >::empty(),
        forall|i: int|
            0 <= i < e.items.len() ==> #[trigger] crate::rust::items_text(
                opts,
                e.items,
                (i + 1) as nat,
                level + 1,
                true,
            ) == crate::rust::items_text(opts, e.items, i as nat, level + 1, true)
                + crate::rust::union_item_text(opts, e.items[i], level + 1),
        forall|i: int, part: crate::csharp::Part|
            0 <= i < e.items.len() ==> #[trigger] crate::csharp::parts_text(
                opts,
                e,
                (i + 1) as nat,
                level + 1,
                part,
            ) == crate::csharp::parts_text(opts, e, i as nat, level + 1, part)
                + crate::csharp::part_text(opts, e, e.items[i], level + 1, part),
        forall|i: int|
            0 <= i < e.items.len() && (#[trigger] e.items[i]).structure is None ==> {
                &&& crate::rust::payload_text(opts, e.items[i], level + 1) == Seq::<char>::empty()
                &&& crate::csharp::payload_text(opts, e.items[i], level + 2) == Seq::<
                    char,
                >::empty()
            },
{
}

/// Generating twice from one tree under the same options gives the same
/// text, character for character.
pub proof fn generation_is_repeatable(
    first_opts: CodeGenOptions,
    second_opts: CodeGenOptions,
    first_root: Block,
    second_root: Block,
    first_source: String,
    second_source: String,
)
    requires
        first_opts@ == second_opts@,
        first_root@ == second_root@,
        first_source@ == generated_text(first_opts@, first_root@),
        second_source@ == generated_text(second_opts@, second_root@),
    ensures
        first_source@ == second_source@,
{
}

/// The fields of a list are written in the same way whether or not their
/// types are marked as unresolved.
proof fn lemma_fields_text_ignores_analysis(
    opts: CodeGenOptionsView,
    fields: Seq<StructureFieldView>,
    count: nat,
    level: nat,
    with_access_modifiers: bool,
)
    requires
        count <= fields.len(),
    ensures
        crate::rust::fields_text(
            opts,
            analyzed_structure(StructureView { name: Seq::empty(), fields }).fields,
            count,
            level,
            with_access_modifiers,
        ) == crate::rust::fields_text(opts, fields, count, level, with_access_modifiers),
        crate::csharp::fields_text(
            opts,
            analyzed_structure(StructureView { name: Seq::empty(), fields }).fields,
            count,
            level,
            with_access_modifiers,
        ) == crate::csharp::fields_text(opts, fields, count, level, with_access_modifiers),
    decreases count,
{
    if count > 0 {
        lemma_fields_text_ignores_analysis(
            opts,
            fields,
            (count - 1) as nat,
            level,
            with_access_modifiers,
        );
    }
}

/// The declarations of a list are written in the same way before the
/// analysis and after it.
proof fn lemma_nodes_text_ignores_analysis(
    opts: CodeGenOptionsView,
    nodes: Seq<BlockNodeView>,
    count: nat,
    level: nat,
)
    requires
        count <= nodes.len(),
    ensures
        crate::rust::nodes_text(opts, analyzed_nodes(nodes), count, level)
            == crate::rust::nodes_text(opts, nodes, count, level),
        crate::csharp::nodes_text(opts, analyzed_nodes(nodes), count, level)
            == crate::csharp::nodes_text(opts, nodes, count, level),
    decreases nodes, count,
{
    if count > 0 {
        lemma_nodes_text_ignores_analysis(opts, nodes, (count - 1) as nat, level);
        let node = nodes[count - 1];
        assert(analyzed_nodes(nodes)[count - 1] == analyzed_node(node));
        match node {
            BlockNodeView::Block(block) => {
                assert(analyzed_nodes(block.nodes).len() == block.nodes.len());
                lemma_nodes_text_ignores_analysis(opts, block.nodes, block.nodes.len(), level + 1);
            },
            BlockNodeView::Structure(structure) => {
                let fields = structure.fields;
                assert(analyzed_structure(structure).fields == analyzed_structure(
                    StructureView { name: Seq::empty(), fields },
                ).fields);
                lemma_fields_text_ignores_analysis(opts, fields, fields.len(), level + 1, true);
            },
            _ => {},
        }
        assert(crate::rust::node_text(opts, analyzed_node(node), level) == crate::rust::node_text(
            opts,
            node,
            level,
        ));
        assert(crate::csharp::node_text(opts, analyzed_node(node), level)
            == crate::csharp::node_text(opts, node, level));
    }
}

/// The analysis has no effect on the generated text: the generators read
/// the names of types as the schema writes them, and not what they were
/// resolved to.
pub proof fn analysis_leaves_the_text(opts: CodeGenOptionsView, root: BlockView)
    ensures
        generated_text(opts, analyzed(root)) == generated_text(opts, root),
{
    assert(analyzed_nodes(root.nodes).len() == root.nodes.len());
    lemma_nodes_text_ignores_analysis(opts, root.nodes, root.nodes.len(), 0);
}

/// Whether an item has a value or a body or neither, and not both.
pub open spec fn value_or_body(item: EnumItemView) -> bool {
    item.value_token is None || item.structure is None
}

/// The rule for the items of an enumeration gives no item both a value and
/// a body, where the items read before have none such and the item whose
/// name was just read has neither yet.
proof fn lemma_items_have_a_value_or_a_body(
    tokens: Seq<LocalizedTokenView>,
    end: SourceLocationView,
    before: Seq<EnumItemView>,
    first: bool,
    comma: bool,
    named: bool,
)
    requires
        forall|i: int| 0 <= i < before.len() ==> value_or_body(#[trigger] before[i]),
        named ==> before.len() > 0 && before.last().value_token is None
            && before.last().structure is None,
    ensures
        grammar::items(tokens, end, before, first, comma, named).result matches Ok(list)
            ==> forall|i: int| 0 <= i < list.len() ==> value_or_body(#[trigger] list[i]),
    decreases tokens.len(),
{
    if tokens.len() > 0 {
        let rest = tokens.drop_first();
        match tokens[0].token {
            TokenView::Identifier(name) => {
                if first || comma {
                    lemma_items_have_a_value_or_a_body(
                        rest,
                        end,
                        before.push(EnumItemView { name, value_token: None, structure: None }),
                        false,
                        false,
                        true,
                    );
                }
            },
            TokenView::Equal => {
                if named && before.len() > 0 {
                    match expect_literal(rest, end) {
                        Ok(literal) => {
                            lemma_items_have_a_value_or_a_body(
                                skip_one(rest),
                                end,
                                grammar::with_value(before, literal),
                                first,
                                comma,
                                false,
                            );
                        },
                        Err(_) => {},
                    }
                }
            },
            TokenView::BraceOpen => {
                if named && before.len() > 0 {
                    let body = grammar::fields(rest, end, Seq::empty());
                    match body.result {
                        Ok(list) => {
                            if body.rest.len() < tokens.len() {
                                lemma_items_have_a_value_or_a_body(
                                    body.rest,
                                    end,
                                    grammar::with_fields(before, list),
                                    first,
                                    comma,
                                    false,
                                );
                            }
                        },
                        Err(_) => {},
                    }
                }
            },
            TokenView::Comma => {
                lemma_items_have_a_value_or_a_body(rest, end, before, first, true, false);
            },
            _ => {},
        }
    }
}

/// No item of a parsed enumeration has both an explicit value and a body:
/// whatever the tokens, an item has one of the two or neither.
pub proof fn parsed_items_have_a_value_or_a_body(
    tokens: Seq<LocalizedTokenView>,
    end: SourceLocationView,
)
    ensures
        grammar::enumeration(tokens, end).result matches Ok(e) ==> forall|i: int|
            0 <= i < e.items.len() ==> value_or_body(#[trigger] e.items[i]),
{
    lemma_items_have_a_value_or_a_body(
        skip_one(skip_one(tokens)),
        end,
        Seq::empty(),
        true,
        false,
        false,
    );
}

/// A value or a body that does not stand right behind the name of an item
/// is refused: behind a comma, a value or a body, `=` and `{` are unexpected
/// tokens.
pub proof fn values_and_bodies_follow_names(
    tokens: Seq<LocalizedTokenView>,
    end: SourceLocationView,
    before: Seq<EnumItemView>,
    first: bool,
    comma: bool,
)
    requires
        tokens.len() > 0,
        tokens[0].token is Equal || tokens[0].token is BraceOpen,
    ensures
        grammar::items(tokens, end, before, first, comma, false) == grammar::failed::<
            Seq<EnumItemView>,
        >(grammar::unexpected(tokens[0]), tokens.drop_first()),
{
}

/// The type of an array of fixed size carries the size as the schema writes
/// it, in both languages, whatever the size and the type of the elements.
pub proof fn sized_arrays_carry_their_size(
    opts: CodeGenOptionsView,
    field_type: crate::types::TypeNameView,
    size: LocalizedTokenView,
)
    requires
        field_type.is_array,
        field_type.array_size == Some(size),
    ensures
        crate::rust::full_type_text(opts, field_type) == "["@ + crate::rust::type_text(
            opts,
            field_type.token.token.text(),
        ) + "; "@ + size.token.text() + "]"@,
        crate::csharp::full_type_text(opts, field_type) == crate::csharp::type_text(
            opts,
            field_type.token.token.text(),
        ) + "[/* "@ + size.token.text() + " */]"@,
{
}

} // verus!
