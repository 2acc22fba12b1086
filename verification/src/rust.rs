//! The Rust generator.
//!
//! The text that each declaration becomes is given by a function of the
//! declaration, the options and the level of indentation; the writing
//! functions append exactly that text.

use crate::casing::{name_in_case, Case, NameCase, NameCasing};
use crate::nodes::{
    lemma_nodes_depth, node_depth, Alias, AliasView, Block, BlockNode, BlockNodeView,
    BlockView, Enum, EnumItem, EnumItemView, EnumView, Structure, StructureField, StructureFieldView,
    StructureView,
};
use crate::options::{CodeGenOptions, CodeGenOptionsView};
use crate::types::{BuiltinTypeName, TypeName, TypeNameView};
use crate::writer::{
    indentation, indented, lemma_appended, lemma_nothing_appended, line, line_feed, IndentedWriter,
};
use vstd::prelude::*;

verus! {

/// The name under which serialization knows a case, for the cases that it
/// knows.
pub open spec fn serde_case_name(case: Case) -> Option<Seq<char>> {
    match case {
        Case::Lower => Some("lowercase"@),
        Case::Upper => Some("UPPERCASE"@),
        Case::Pascal => Some("PascalCase"@),
        Case::Camel => Some("camelCase"@),
        Case::Snake => Some("snake_case"@),
        Case::UpperSnake => Some("SCREAMING_SNAKE_CASE"@),
        Case::Kebab => Some("kebab-case"@),
        Case::UpperKebab => Some("SCREAMING-KEBAB-CASE"@),
        _ => None,
    }
}

/// Whether the Rust generator can follow the options: where serialization
/// is asked for in a case, serialization has to know the case.
pub open spec fn options_supported(opts: CodeGenOptionsView) -> bool {
    opts.rust.with_serde ==> match opts.rust.serde_struct_field_name_case {
        NameCase::Other(case) => serde_case_name(case) is Some,
        NameCase::Unchanged => true,
    }
}

/// How Rust spells a primitive type.
pub open spec fn builtin_text(builtin: BuiltinTypeName) -> Seq<char> {
    match builtin {
        BuiltinTypeName::Uint8 => "u8"@,
        BuiltinTypeName::Uint16 => "u16"@,
        BuiltinTypeName::Uint32 => "u32"@,
        BuiltinTypeName::Uint64 => "u64"@,
        BuiltinTypeName::Uint128 => "u128"@,
        BuiltinTypeName::Int8 => "i8"@,
        BuiltinTypeName::Int16 => "i16"@,
        BuiltinTypeName::Int32 => "i32"@,
        BuiltinTypeName::Int64 => "i64"@,
        BuiltinTypeName::Int128 => "i128"@,
        BuiltinTypeName::Float32 => "f32"@,
        BuiltinTypeName::Float64 => "f64"@,
        BuiltinTypeName::Bool => "bool"@,
        BuiltinTypeName::String => "String"@,
    }
}

/// The Rust name of a type of the schema: the spelling of a primitive type,
/// and any other name in the case of type names.
pub open spec fn type_text(opts: CodeGenOptionsView, name: Seq<char>) -> Seq<char> {
    match BuiltinTypeName::from_name(name) {
        Some(builtin) => builtin_text(builtin),
        None => name_in_case(name, opts.type_name_case),
    }
}

/// The Rust type of a field: the element type, a fixed array of it whose
/// size is written as the schema has it, or a `Vec` of it.
pub open spec fn full_type_text(opts: CodeGenOptionsView, field_type: TypeNameView) -> Seq<char> {
    let name = type_text(opts, field_type.token.token.text());
    if field_type.is_array {
        match field_type.array_size {
            Some(size) => "["@ + name + "; "@ + size.token.text() + "]"@,
            None => "Vec<"@ + name + ">"@,
        }
    } else {
        name
    }
}

/// The attribute that renames fields and variants for serialization; empty
/// where names stay as they are.
pub open spec fn rename_all_text(opts: CodeGenOptionsView, level: nat) -> Seq<char> {
    match opts.rust.serde_struct_field_name_case {
        NameCase::Other(case) => line(
            level,
            "#[serde(rename_all = \""@ + serde_case_name(case).unwrap() + "\")]"@,
        ),
        NameCase::Unchanged => Seq::empty(),
    }
}

/// The attribute that derives `Debug`, where the options ask for it.
pub open spec fn debug_attribute_text(opts: CodeGenOptionsView, level: nat) -> Seq<char> {
    if opts.rust.with_debug {
        line(level, "#[derive(Debug)]"@)
    } else {
        Seq::empty()
    }
}

/// The attributes that make a structure serializable, where the options ask
/// for them.
pub open spec fn serde_attributes_text(opts: CodeGenOptionsView, level: nat) -> Seq<char> {
    if opts.rust.with_serde {
        line(level, "#[derive(Serialize, Deserialize)]"@) + rename_all_text(opts, level)
    } else {
        Seq::empty()
    }
}

/// The attributes above a structure.
pub open spec fn structure_attributes_text(opts: CodeGenOptionsView, level: nat) -> Seq<char> {
    debug_attribute_text(opts, level) + serde_attributes_text(opts, level)
}

/// The line of one field, at the level of the fields.
pub open spec fn field_text(
    opts: CodeGenOptionsView,
    field: StructureFieldView,
    level: nat,
    with_access_modifiers: bool,
) -> Seq<char> {
    indentation(level) + (if with_access_modifiers {
        "pub "@
    } else {
        ""@
    }) + name_in_case(field.name, opts.field_name_case) + ": "@ + full_type_text(
        opts,
        field.field_type,
    ) + ","@ + line_feed()
}

/// The lines of the first `count` fields of a list, in the list's order.
pub open spec fn fields_text(
    opts: CodeGenOptionsView,
    fields: Seq<StructureFieldView>,
    count: nat,
    level: nat,
    with_access_modifiers: bool,
) -> Seq<char>
    decreases count,
{
    if count == 0 || count > fields.len() {
        Seq::empty()
    } else {
        fields_text(opts, fields, (count - 1) as nat, level, with_access_modifiers) + field_text(
            opts,
            fields[count - 1],
            level,
            with_access_modifiers,
        )
    }
}

/// The body of a structure behind its name: the fields in braces, one level
/// deeper than the structure.
pub open spec fn structure_body_text(
    opts: CodeGenOptionsView,
    fields: Seq<StructureFieldView>,
    level: nat,
    with_access_modifiers: bool,
) -> Seq<char> {
    (" {"@ + line_feed()) + fields_text(
        opts,
        fields,
        fields.len(),
        level + 1,
        with_access_modifiers,
    ) + indented(level, "}"@)
}

/// A structure: its attributes, its name in the case of type names, and its
/// fields in the order of the schema.
pub open spec fn structure_text(opts: CodeGenOptionsView, structure: StructureView, level: nat) -> Seq<
    char,
> {
    structure_attributes_text(opts, level) + indentation(level) + "pub struct "@ + name_in_case(
        structure.name,
        opts.type_name_case,
    ) + structure_body_text(opts, structure.fields, level, true)
}

/// An alias: a second name for the aliased type, which stays the same type.
pub open spec fn alias_text(opts: CodeGenOptionsView, alias: AliasView, level: nat) -> Seq<char> {
    line(
        level,
        "pub type "@ + name_in_case(alias.alias_name, opts.type_name_case) + " = "@ + type_text(
            opts,
            alias.aliased_type_name,
        ) + ";"@,
    )
}

/// The explicit value of a member, as the schema writes it; empty where it
/// has none.
pub open spec fn item_value_text(item: EnumItemView) -> Seq<char> {
    match item.value_token {
        Some(value) => " = "@ + value.token.text(),
        None => Seq::empty(),
    }
}

/// The line of one member of a plain enumeration: its name in the case of
/// enumeration items, and its explicit value where the schema gives one. A
/// member without one gets the value that Rust gives it: zero for the first,
/// and one more than the member before for the others.
pub open spec fn enum_item_text(opts: CodeGenOptionsView, item: EnumItemView, level: nat) -> Seq<
    char,
> {
    indentation(level) + name_in_case(item.name, opts.enum_item_name_case) + item_value_text(item)
        + ","@ + line_feed()
}

/// The attribute that renames the fields of a variant for serialization,
/// where the options ask for serialization.
pub open spec fn variant_attribute_text(opts: CodeGenOptionsView, level: nat) -> Seq<char> {
    if opts.rust.with_serde {
        rename_all_text(opts, level)
    } else {
        Seq::empty()
    }
}

/// The fields of a variant in braces; empty for a variant without a body.
pub open spec fn payload_text(opts: CodeGenOptionsView, item: EnumItemView, level: nat) -> Seq<
    char,
> {
    match item.structure {
        Some(structure) => structure_body_text(opts, structure.fields, level, false),
        None => Seq::empty(),
    }
}

/// One variant of a tagged union: its name in the case of enumeration items,
/// and its fields in braces where it has a body.
pub open spec fn union_item_text(opts: CodeGenOptionsView, item: EnumItemView, level: nat) -> Seq<
    char,
> {
    variant_attribute_text(opts, level) + indentation(level) + name_in_case(
        item.name,
        opts.enum_item_name_case,
    ) + payload_text(opts, item, level) + ","@ + line_feed()
}

/// One member of an enumeration, as a member of a plain enumeration or as a
/// variant of a tagged union.
pub open spec fn item_text(
    opts: CodeGenOptionsView,
    item: EnumItemView,
    level: nat,
    tagged: bool,
) -> Seq<char> {
    if tagged {
        union_item_text(opts, item, level)
    } else {
        enum_item_text(opts, item, level)
    }
}

/// The first `count` members of an enumeration, in the order of the schema.
pub open spec fn items_text(
    opts: CodeGenOptionsView,
    items: Seq<EnumItemView>,
    count: nat,
    level: nat,
    tagged: bool,
) -> Seq<char>
    decreases count,
{
    if count == 0 || count > items.len() {
        Seq::empty()
    } else {
        items_text(opts, items, (count - 1) as nat, level, tagged) + item_text(
            opts,
            items[count - 1],
            level,
            tagged,
        )
    }
}

/// The attributes that say how a plain enumeration is serialized: as a
/// number of the given type, or by the names of its members.
pub open spec fn enum_derive_text(opts: CodeGenOptionsView, level: nat) -> Seq<char> {
    match opts.rust.serde_enum_repr {
        Some(repr) => line(level, "#[derive(Serialize_repr, Deserialize_repr)]"@) + line(
            level,
            "#[repr("@ + repr + ")]"@,
        ),
        None => line(level, "#[derive(Serialize, Deserialize)]"@),
    }
}

/// The attributes that make a plain enumeration serializable, where the
/// options ask for them.
pub open spec fn enum_serde_text(opts: CodeGenOptionsView, level: nat) -> Seq<char> {
    if opts.rust.with_serde {
        enum_derive_text(opts, level) + rename_all_text(opts, level)
    } else {
        Seq::empty()
    }
}

/// The attributes that make a tagged union serializable, where the options
/// ask for them: the tag is stored under `kind`, the fields under `value`.
pub open spec fn union_serde_text(opts: CodeGenOptionsView, level: nat) -> Seq<char> {
    if opts.rust.with_serde {
        line(level, "#[derive(Serialize, Deserialize)]"@) + line(
            level,
            "#[serde(tag = \"kind\", content = \"value\")]"@,
        ) + rename_all_text(opts, level)
    } else {
        Seq::empty()
    }
}

/// The line that opens an enumeration.
pub open spec fn enum_header_text(opts: CodeGenOptionsView, name: Seq<char>, level: nat) -> Seq<
    char,
> {
    indentation(level) + "pub enum "@ + name_in_case(name, opts.type_name_case) + " {"@
        + line_feed()
}

/// A plain enumeration: one member for each item, in the order of the
/// schema.
pub open spec fn plain_enum_text(opts: CodeGenOptionsView, e: EnumView, level: nat) -> Seq<char> {
    line(level, "#[derive(Clone, Copy, PartialEq, Eq)]"@) + debug_attribute_text(opts, level)
        + enum_serde_text(opts, level) + enum_header_text(opts, e.name, level) + items_text(
        opts,
        e.items,
        e.items.len(),
        level + 1,
        false,
    ) + line(level, "}"@)
}

/// A tagged union: one variant for each item, in the order of the schema,
/// with the fields of the item where it has a body.
pub open spec fn tagged_union_text(opts: CodeGenOptionsView, e: EnumView, level: nat) -> Seq<char> {
    debug_attribute_text(opts, level) + union_serde_text(opts, level) + enum_header_text(
        opts,
        e.name,
        level,
    ) + items_text(opts, e.items, e.items.len(), level + 1, true) + line(level, "}"@)
}

/// An enumeration: a tagged union where an item carries fields, and a plain
/// enumeration otherwise.
pub open spec fn enum_text(opts: CodeGenOptionsView, e: EnumView, level: nat) -> Seq<char> {
    if e.is_tagged_union() {
        tagged_union_text(opts, e, level)
    } else {
        plain_enum_text(opts, e, level)
    }
}

/// A declaration, at a level of indentation. A nested block stands in
/// braces, with its declarations one level deeper.
pub open spec fn node_text(opts: CodeGenOptionsView, node: BlockNodeView, level: nat) -> Seq<char>
    decreases node, 0nat,
{
    match node {
        BlockNodeView::Block(block) => line(level, "{"@) + nodes_text(
            opts,
            block.nodes,
            block.nodes.len(),
            level + 1,
        ) + line(level, "}"@),
        BlockNodeView::Structure(structure) => structure_text(opts, structure, level),
        BlockNodeView::Alias(alias) => alias_text(opts, alias, level),
        BlockNodeView::Enum(e) => enum_text(opts, e, level),
    }
}

/// The first `count` declarations of a list, in the list's order.
pub open spec fn nodes_text(
    opts: CodeGenOptionsView,
    nodes: Seq<BlockNodeView>,
    count: nat,
    level: nat,
) -> Seq<char>
    decreases nodes, count,
{
    if count == 0 || count > nodes.len() {
        Seq::empty()
    } else {
        nodes_text(opts, nodes, (count - 1) as nat, level) + node_text(
            opts,
            nodes[count - 1],
            level,
        )
    }
}

/// A block: its declarations in their order, in braces and one level deeper
/// where the block is nested.
pub open spec fn block_text(
    opts: CodeGenOptionsView,
    block: BlockView,
    level: nat,
    with_brackets: bool,
) -> Seq<char> {
    if with_brackets {
        node_text(opts, BlockNodeView::Block(block), level)
    } else {
        nodes_text(opts, block.nodes, block.nodes.len(), level)
    }
}

/// The Rust source for a schema.
pub open spec fn source_text(opts: CodeGenOptionsView, root: BlockView) -> Seq<char> {
    block_text(opts, root, 0, false)
}

/// The serialization name of a case, for the cases that serialization knows.
pub fn map_case_to_serde(case: Case) -> (name: Option<&'static str>)
    ensures
        match name {
            Some(text) => serde_case_name(case) == Some(text@),
            None => serde_case_name(case) is None,
        },
{
    match case {
        Case::Lower => Some("lowercase"),
        Case::Upper => Some("UPPERCASE"),
        Case::Pascal => Some("PascalCase"),
        Case::Camel => Some("camelCase"),
        Case::Snake => Some("snake_case"),
        Case::UpperSnake => Some("SCREAMING_SNAKE_CASE"),
        Case::Kebab => Some("kebab-case"),
        Case::UpperKebab => Some("SCREAMING-KEBAB-CASE"),
        _ => None,
    }
}

/// Whether the Rust generator can follow the options.
pub fn supports(opts: &CodeGenOptions) -> (supported: bool)
    ensures
        supported == options_supported(opts@),
{
    if opts.rust.with_serde {
        match opts.rust.serde_struct_field_name_case {
            NameCase::Other(case) => map_case_to_serde(case).is_some(),
            NameCase::Unchanged => true,
        }
    } else {
        true
    }
}

/// How Rust spells a primitive type.
pub fn translate_builtin_type_name(builtin: BuiltinTypeName) -> (text: &'static str)
    ensures
        text@ == builtin_text(builtin),
{
    match builtin {
        BuiltinTypeName::Uint8 => "u8",
        BuiltinTypeName::Uint16 => "u16",
        BuiltinTypeName::Uint32 => "u32",
        BuiltinTypeName::Uint64 => "u64",
        BuiltinTypeName::Uint128 => "u128",
        BuiltinTypeName::Int8 => "i8",
        BuiltinTypeName::Int16 => "i16",
        BuiltinTypeName::Int32 => "i32",
        BuiltinTypeName::Int64 => "i64",
        BuiltinTypeName::Int128 => "i128",
        BuiltinTypeName::Float32 => "f32",
        BuiltinTypeName::Float64 => "f64",
        BuiltinTypeName::Bool => "bool",
        BuiltinTypeName::String => "String",
    }
}

/// The Rust name of a type of the schema.
pub fn translate_type_name(opts: &CodeGenOptions, name: &String) -> (text: String)
    ensures
        text@ == type_text(opts@, name@),
{
    match BuiltinTypeName::parse(name.as_str()) {
        Some(builtin) => translate_builtin_type_name(builtin).to_string(),
        None => name.to_name_case(opts.type_name_case),
    }
}

/// The Rust type of a field.
pub fn get_full_type_name(opts: &CodeGenOptions, field_type: &TypeName) -> (text: String)
    ensures
        text@ == full_type_text(opts@, field_type@),
{
    let name = translate_type_name(opts, &field_type.token.value());
    if field_type.is_array {
        match &field_type.array_size {
            Some(size) => {
                let mut text = "[".to_string();
                text.append(name.as_str());
                text.append("; ");
                text.append(size.value().as_str());
                text.append("]");
                return text;
            },
            None => {
                let mut text = "Vec<".to_string();
                text.append(name.as_str());
                text.append(">");
                return text;
            },
        }
    }
    name
}

/// Writes the attribute that renames fields and variants to the case that
/// serialization knows as `name`.
fn write_rename_all(writer: &mut IndentedWriter, name: &str)
    requires
        4 * old(writer).level() <= usize::MAX,
    ensures
        final(writer).level() == old(writer).level(),
        final(writer).text() == old(writer).text() + line(
            old(writer).level(),
            "#[serde(rename_all = \""@ + name@ + "\")]"@,
        ),
{
    broadcast use lemma_appended;

    writer.write_indent();
    writer.write("#[serde(rename_all = \"");
    writer.write(name);
    writer.write("\")]");
    writer.next_line();
}

/// Writes the attribute that renames fields and variants for serialization.
pub fn write_serde_rename_all_attr(opts: &CodeGenOptions, writer: &mut IndentedWriter)
    requires
        4 * old(writer).level() <= usize::MAX,
        opts@.rust.serde_struct_field_name_case matches NameCase::Other(case)
            ==> serde_case_name(case) is Some,
    ensures
        final(writer).level() == old(writer).level(),
        final(writer).text() == old(writer).text() + rename_all_text(
            opts@,
            old(writer).level(),
        ),
{
    match opts.rust.serde_struct_field_name_case {
        NameCase::Other(case) => {
            if let Some(name) = map_case_to_serde(case) {
                write_rename_all(writer, name);
            }
        },
        NameCase::Unchanged => {
            proof {
                lemma_nothing_appended(writer.text());
            }
        },
    }
}

/// Writes the attribute that derives `Debug`, where the options ask for it.
fn write_debug_attribute(opts: &CodeGenOptions, writer: &mut IndentedWriter)
    requires
        4 * old(writer).level() <= usize::MAX,
    ensures
        final(writer).level() == old(writer).level(),
        final(writer).text() == old(writer).text() + debug_attribute_text(
            opts@,
            old(writer).level(),
        ),
{
    if opts.rust.with_debug {
        writer.write_indented_line("#[derive(Debug)]");
    } else {
        proof {
            lemma_nothing_appended(writer.text());
        }
    }
}

/// Writes the attributes that make a structure serializable, where the
/// options ask for them.
fn write_serde_attributes(opts: &CodeGenOptions, writer: &mut IndentedWriter)
    requires
        4 * old(writer).level() <= usize::MAX,
        options_supported(opts@),
    ensures
        final(writer).level() == old(writer).level(),
        final(writer).text() == old(writer).text() + serde_attributes_text(
            opts@,
            old(writer).level(),
        ),
{
    if opts.rust.with_serde {
        writer.write_indented_line("#[derive(Serialize, Deserialize)]");
        write_serde_rename_all_attr(opts, writer);
        proof {
            lemma_appended(
                old(writer).text(),
                line(old(writer).level(), "#[derive(Serialize, Deserialize)]"@),
                rename_all_text(opts@, old(writer).level()),
            );
        }
    } else {
        proof {
            lemma_nothing_appended(writer.text());
        }
    }
}

/// Writes the attributes above a structure.
pub fn write_structure_attributes(
    opts: &CodeGenOptions,
    writer: &mut IndentedWriter,
    _structure: &Structure,
)
    requires
        4 * old(writer).level() <= usize::MAX,
        options_supported(opts@),
    ensures
        final(writer).level() == old(writer).level(),
        final(writer).text() == old(writer).text() + structure_attributes_text(
            opts@,
            old(writer).level(),
        ),
{
    write_debug_attribute(opts, writer);
    write_serde_attributes(opts, writer);
    proof {
        lemma_appended(
            old(writer).text(),
            debug_attribute_text(opts@, old(writer).level()),
            serde_attributes_text(opts@, old(writer).level()),
        );
    }
}

/// Writes the line of one field.
fn write_field(
    opts: &CodeGenOptions,
    writer: &mut IndentedWriter,
    field: &StructureField,
    with_access_modifiers: bool,
)
    requires
        4 * old(writer).level() <= usize::MAX,
    ensures
        final(writer).level() == old(writer).level(),
        final(writer).text() == old(writer).text() + field_text(
            opts@,
            field@,
            old(writer).level(),
            with_access_modifiers,
        ),
{
    broadcast use lemma_appended;

    writer.write_indent();
    writer.write(
        if with_access_modifiers {
            "pub "
        } else {
            ""
        },
    );
    writer.write(field.name.to_name_case(opts.field_name_case).as_str());
    writer.write(": ");
    writer.write(get_full_type_name(opts, &field.field_type).as_str());
    writer.write(",");
    writer.next_line();
}

/// Writes the body of a structure behind its name.
pub fn write_structure_body(
    opts: &CodeGenOptions,
    writer: &mut IndentedWriter,
    structure: &Structure,
    with_access_modifiers: bool,
)
    requires
        4 * (old(writer).level() + 1) <= usize::MAX,
    ensures
        final(writer).level() == old(writer).level(),
        final(writer).text() == old(writer).text() + structure_body_text(
            opts@,
            structure@.fields,
            old(writer).level(),
            with_access_modifiers,
        ),
{
    let ghost level = writer.level();
    let ghost fields = structure@.fields;
    let ghost opening = " {"@ + line_feed();
    writer.write_line(" {");
    writer.push_indent();
    let ghost start = writer.text();
    proof {
        lemma_nothing_appended(start);
    }
    let mut i: usize = 0;
    while i < structure.fields.len()
        invariant
            i <= structure.fields.len(),
            fields == structure@.fields,
            fields.len() == structure.fields.len(),
            writer.level() == level + 1,
            4 * (level + 1) <= usize::MAX,
            writer.text() == start + fields_text(
                opts@,
                fields,
                i as nat,
                level + 1,
                with_access_modifiers,
            ),
        decreases structure.fields.len() - i,
    {
        let field = &structure.fields[i];
        assert(fields[i as int] == field@);
        write_field(opts, writer, field, with_access_modifiers);
        proof {
            lemma_appended(
                start,
                fields_text(opts@, fields, i as nat, level + 1, with_access_modifiers),
                field_text(opts@, field@, level + 1, with_access_modifiers),
            );
        }
        i += 1;
    }
    writer.pop_indent();
    writer.write_indented("}");
    proof {
        let list = fields_text(opts@, fields, fields.len(), level + 1, with_access_modifiers);
        lemma_appended(old(writer).text(), opening, list);
        lemma_appended(old(writer).text(), opening + list, indented(level, "}"@));
    }
}

/// Writes a structure.
pub fn write_structure(opts: &CodeGenOptions, writer: &mut IndentedWriter, structure: &Structure)
    requires
        4 * (old(writer).level() + 1) <= usize::MAX,
        options_supported(opts@),
    ensures
        final(writer).level() == old(writer).level(),
        final(writer).text() == old(writer).text() + structure_text(
            opts@,
            structure@,
            old(writer).level(),
        ),
{
    broadcast use lemma_appended;

    write_structure_attributes(opts, writer, structure);
    writer.write_indent();
    writer.write("pub struct ");
    writer.write(structure.name.to_name_case(opts.type_name_case).as_str());
    write_structure_body(opts, writer, structure, true);
}

/// Writes an alias.
pub fn write_alias(opts: &CodeGenOptions, writer: &mut IndentedWriter, alias: &Alias)
    requires
        4 * old(writer).level() <= usize::MAX,
    ensures
        final(writer).level() == old(writer).level(),
        final(writer).text() == old(writer).text() + alias_text(
            opts@,
            alias@,
            old(writer).level(),
        ),
{
    broadcast use lemma_appended;

    writer.write_indent();
    writer.write("pub type ");
    writer.write(alias.alias_name.to_name_case(opts.type_name_case).as_str());
    writer.write(" = ");
    writer.write(translate_type_name(opts, &alias.aliased_type_name).as_str());
    writer.write(";");
    writer.next_line();
}

/// Writes the explicit value of a member, where it has one.
fn write_item_value(writer: &mut IndentedWriter, item: &EnumItem)
    ensures
        final(writer).level() == old(writer).level(),
        final(writer).text() == old(writer).text() + item_value_text(item@),
{
    match &item.value_token {
        Some(value_token) => {
            let value = value_token.token.value();
            writer.write(" = ");
            writer.write(value.as_str());
            proof {
                lemma_appended(old(writer).text(), " = "@, value@);
            }
        },
        None => {
            proof {
                lemma_nothing_appended(writer.text());
            }
        },
    }
}

/// Writes the line of one member of a plain enumeration.
fn write_enum_item(opts: &CodeGenOptions, writer: &mut IndentedWriter, item: &EnumItem)
    requires
        4 * old(writer).level() <= usize::MAX,
    ensures
        final(writer).level() == old(writer).level(),
        final(writer).text() == old(writer).text() + enum_item_text(
            opts@,
            item@,
            old(writer).level(),
        ),
{
    broadcast use lemma_appended;

    writer.write_indent();
    writer.write(item.name.to_name_case(opts.enum_item_name_case).as_str());
    write_item_value(writer, item);
    writer.write(",");
    writer.next_line();
}

/// Writes the attribute that renames the fields of a variant, where the
/// options ask for serialization.
fn write_variant_attribute(opts: &CodeGenOptions, writer: &mut IndentedWriter)
    requires
        4 * old(writer).level() <= usize::MAX,
        options_supported(opts@),
    ensures
        final(writer).level() == old(writer).level(),
        final(writer).text() == old(writer).text() + variant_attribute_text(
            opts@,
            old(writer).level(),
        ),
{
    if opts.rust.with_serde {
        write_serde_rename_all_attr(opts, writer);
    } else {
        proof {
            lemma_nothing_appended(writer.text());
        }
    }
}

/// Writes the fields of a variant in braces, where it has a body.
fn write_payload(opts: &CodeGenOptions, writer: &mut IndentedWriter, item: &EnumItem)
    requires
        4 * (old(writer).level() + 1) <= usize::MAX,
    ensures
        final(writer).level() == old(writer).level(),
        final(writer).text() == old(writer).text() + payload_text(
            opts@,
            item@,
            old(writer).level(),
        ),
{
    match &item.structure {
        Some(structure) => {
            write_structure_body(opts, writer, structure, false);
        },
        None => {
            proof {
                lemma_nothing_appended(writer.text());
            }
        },
    }
}

/// Writes one variant of a tagged union.
fn write_union_item(opts: &CodeGenOptions, writer: &mut IndentedWriter, item: &EnumItem)
    requires
        4 * (old(writer).level() + 1) <= usize::MAX,
        options_supported(opts@),
    ensures
        final(writer).level() == old(writer).level(),
        final(writer).text() == old(writer).text() + union_item_text(
            opts@,
            item@,
            old(writer).level(),
        ),
{
    broadcast use lemma_appended;

    write_variant_attribute(opts, writer);
    writer.write_indent();
    writer.write(item.name.to_name_case(opts.enum_item_name_case).as_str());
    write_payload(opts, writer, item);
    writer.write(",");
    writer.next_line();
}

/// Writes the members of an enumeration, one level deeper than the
/// enumeration itself.
fn write_items(opts: &CodeGenOptions, writer: &mut IndentedWriter, e: &Enum, tagged: bool)
    requires
        4 * (old(writer).level() + 2) <= usize::MAX,
        options_supported(opts@),
    ensures
        final(writer).level() == old(writer).level(),
        final(writer).text() == old(writer).text() + items_text(
            opts@,
            e@.items,
            e@.items.len(),
            old(writer).level() + 1,
            tagged,
        ),
{
    let ghost level = writer.level();
    let ghost items = e@.items;
    let ghost start = writer.text();
    writer.push_indent();
    proof {
        lemma_nothing_appended(start);
    }
    let mut i: usize = 0;
    while i < e.items.len()
        invariant
            i <= e.items.len(),
            items == e@.items,
            items.len() == e.items.len(),
            writer.level() == level + 1,
            4 * (level + 2) <= usize::MAX,
            options_supported(opts@),
            writer.text() == start + items_text(opts@, items, i as nat, level + 1, tagged),
        decreases e.items.len() - i,
    {
        let item = &e.items[i];
        assert(items[i as int] == item@);
        if tagged {
            write_union_item(opts, writer, item);
        } else {
            write_enum_item(opts, writer, item);
        }
        proof {
            lemma_appended(
                start,
                items_text(opts@, items, i as nat, level + 1, tagged),
                item_text(opts@, item@, level + 1, tagged),
            );
        }
        i += 1;
    }
    writer.pop_indent();
}

/// Writes the attribute that fixes the integer type of an enumeration.
fn write_repr(writer: &mut IndentedWriter, repr: &str)
    requires
        4 * old(writer).level() <= usize::MAX,
    ensures
        final(writer).level() == old(writer).level(),
        final(writer).text() == old(writer).text() + line(
            old(writer).level(),
            "#[repr("@ + repr@ + ")]"@,
        ),
{
    broadcast use lemma_appended;

    writer.write_indent();
    writer.write("#[repr(");
    writer.write(repr);
    writer.write(")]");
    writer.next_line();
}

/// Writes the attributes that say how a plain enumeration is serialized.
fn write_enum_derive(opts: &CodeGenOptions, writer: &mut IndentedWriter)
    requires
        4 * old(writer).level() <= usize::MAX,
    ensures
        final(writer).level() == old(writer).level(),
        final(writer).text() == old(writer).text() + enum_derive_text(
            opts@,
            old(writer).level(),
        ),
{
    match &opts.rust.serde_enum_repr {
        Some(repr) => {
            writer.write_indented_line("#[derive(Serialize_repr, Deserialize_repr)]");
            write_repr(writer, repr.as_str());
            proof {
                lemma_appended(
                    old(writer).text(),
                    line(old(writer).level(), "#[derive(Serialize_repr, Deserialize_repr)]"@),
                    line(old(writer).level(), "#[repr("@ + repr@ + ")]"@),
                );
            }
        },
        None => {
            writer.write_indented_line("#[derive(Serialize, Deserialize)]");
        },
    }
}

/// Writes the attributes that make a plain enumeration serializable, where
/// the options ask for them.
fn write_enum_serde(opts: &CodeGenOptions, writer: &mut IndentedWriter)
    requires
        4 * old(writer).level() <= usize::MAX,
        options_supported(opts@),
    ensures
        final(writer).level() == old(writer).level(),
        final(writer).text() == old(writer).text() + enum_serde_text(
            opts@,
            old(writer).level(),
        ),
{
    if opts.rust.with_serde {
        write_enum_derive(opts, writer);
        write_serde_rename_all_attr(opts, writer);
        proof {
            lemma_appended(
                old(writer).text(),
                enum_derive_text(opts@, old(writer).level()),
                rename_all_text(opts@, old(writer).level()),
            );
        }
    } else {
        proof {
            lemma_nothing_appended(writer.text());
        }
    }
}

/// Writes the attributes that make a tagged union serializable, where the
/// options ask for them.
fn write_union_serde(opts: &CodeGenOptions, writer: &mut IndentedWriter)
    requires
        4 * old(writer).level() <= usize::MAX,
        options_supported(opts@),
    ensures
        final(writer).level() == old(writer).level(),
        final(writer).text() == old(writer).text() + union_serde_text(
            opts@,
            old(writer).level(),
        ),
{
    if opts.rust.with_serde {
        let ghost derive = line(old(writer).level(), "#[derive(Serialize, Deserialize)]"@);
        let ghost tag = line(
            old(writer).level(),
            "#[serde(tag = \"kind\", content = \"value\")]"@,
        );
        writer.write_indented_line("#[derive(Serialize, Deserialize)]");
        writer.write_indented_line("#[serde(tag = \"kind\", content = \"value\")]");
        write_serde_rename_all_attr(opts, writer);
        proof {
            lemma_appended(old(writer).text(), derive, tag);
            lemma_appended(
                old(writer).text(),
                derive + tag,
                rename_all_text(opts@, old(writer).level()),
            );
        }
    } else {
        proof {
            lemma_nothing_appended(writer.text());
        }
    }
}

/// Writes the line that opens an enumeration.
fn write_enum_header(opts: &CodeGenOptions, writer: &mut IndentedWriter, e: &Enum)
    requires
        4 * old(writer).level() <= usize::MAX,
    ensures
        final(writer).level() == old(writer).level(),
        final(writer).text() == old(writer).text() + enum_header_text(
            opts@,
            e@.name,
            old(writer).level(),
        ),
{
    broadcast use lemma_appended;

    writer.write_indent();
    writer.write("pub enum ");
    writer.write(e.name.to_name_case(opts.type_name_case).as_str());
    writer.write(" {");
    writer.next_line();
}

/// Writes a tagged union.
pub fn write_tagged_union(opts: &CodeGenOptions, writer: &mut IndentedWriter, e: &Enum)
    requires
        4 * (old(writer).level() + 2) <= usize::MAX,
        options_supported(opts@),
    ensures
        final(writer).level() == old(writer).level(),
        final(writer).text() == old(writer).text() + tagged_union_text(
            opts@,
            e@,
            old(writer).level(),
        ),
{
    broadcast use lemma_appended;

    write_debug_attribute(opts, writer);
    write_union_serde(opts, writer);
    write_enum_header(opts, writer, e);
    write_items(opts, writer, e, true);
    writer.write_indented_line("}");
}

/// Writes an enumeration: a tagged union where an item carries fields, and
/// a plain enumeration otherwise.
pub fn write_enum(opts: &CodeGenOptions, writer: &mut IndentedWriter, e: &Enum)
    requires
        4 * (old(writer).level() + 2) <= usize::MAX,
        options_supported(opts@),
    ensures
        final(writer).level() == old(writer).level(),
        final(writer).text() == old(writer).text() + enum_text(opts@, e@, old(writer).level()),
{
    broadcast use lemma_appended;

    if e.is_tagged_union() {
        write_tagged_union(opts, writer, e);
        return;
    }
    writer.write_indented_line("#[derive(Clone, Copy, PartialEq, Eq)]");
    write_debug_attribute(opts, writer);
    write_enum_serde(opts, writer);
    write_enum_header(opts, writer, e);
    write_items(opts, writer, e, false);
    writer.write_indented_line("}");
}

/// Writes one declaration.
fn write_node(opts: &CodeGenOptions, writer: &mut IndentedWriter, node: &BlockNode)
    requires
        options_supported(opts@),
        4 * (old(writer).level() + node_depth(node@) + 3) <= usize::MAX,
    ensures
        final(writer).level() == old(writer).level(),
        final(writer).text() == old(writer).text() + node_text(opts@, node@, old(writer).level()),
    decreases node, 0nat,
{
    match node {
        BlockNode::Block(block) => write_block(opts, writer, block, true),
        BlockNode::Structure(structure) => write_structure(opts, writer, structure),
        BlockNode::Alias(alias) => write_alias(opts, writer, alias),
        BlockNode::Enum(e) => write_enum(opts, writer, e),
    }
}

/// Writes a block: its declarations in their order, in braces and one level
/// deeper where the block is nested.
pub fn write_block(
    opts: &CodeGenOptions,
    writer: &mut IndentedWriter,
    block: &Block,
    with_brackets: bool,
)
    requires
        options_supported(opts@),
        4 * (old(writer).level() + (if with_brackets {
            1nat
        } else {
            0nat
        }) + block@.depth() + 3) <= usize::MAX,
    ensures
        final(writer).level() == old(writer).level(),
        final(writer).text() == old(writer).text() + block_text(
            opts@,
            block@,
            old(writer).level(),
            with_brackets,
        ),
    decreases block, 1nat,
{
    let ghost level = writer.level();
    let ghost nodes = block@.nodes;
    if with_brackets {
        writer.write_indented_line("{");
        writer.push_indent();
    }
    let ghost start = writer.text();
    let ghost inner = writer.level();
    proof {
        lemma_nothing_appended(start);
    }
    let mut i: usize = 0;
    while i < block.nodes.len()
        invariant
            i <= block.nodes.len(),
            nodes == block@.nodes,
            nodes.len() == block.nodes.len(),
            writer.level() == inner,
            options_supported(opts@),
            4 * (inner + block@.depth() + 3) <= usize::MAX,
            writer.text() == start + nodes_text(opts@, nodes, i as nat, inner),
        decreases block.nodes.len() - i,
    {
        let node = &block.nodes[i];
        proof {
            assert(nodes[i as int] == node@);
            lemma_nodes_depth(nodes, nodes.len(), i as int);
        }
        write_node(opts, writer, node);
        proof {
            lemma_appended(
                start,
                nodes_text(opts@, nodes, i as nat, inner),
                node_text(opts@, node@, inner),
            );
        }
        i += 1;
    }
    if with_brackets {
        writer.pop_indent();
        writer.write_indented_line("}");
        proof {
            let list = nodes_text(opts@, nodes, nodes.len(), inner);
            lemma_appended(old(writer).text(), line(level, "{"@), list);
            lemma_appended(old(writer).text(), line(level, "{"@) + list, line(level, "}"@));
        }
    }
}

/// The Rust source for a schema: its declarations in their order, with
/// names in the cases that the options choose.
pub fn generate_rust(opts: &CodeGenOptions, root_block: &Block) -> (source: String)
    requires
        options_supported(opts@),
        root_block@.can_be_indented(),
    ensures
        source@ == source_text(opts@, root_block@),
{
    let mut writer = IndentedWriter::default();
    write_block(opts, &mut writer, root_block, false);
    proof {
        assert(Seq::<char>::empty() + source_text(opts@, root_block@) =~= source_text(
            opts@,
            root_block@,
        ));
    }
    writer.to_string()
}

} // verus!
