//! The C# generator.
//!
//! The text that each declaration becomes is given by a function of the
//! declaration, the options and the level of indentation; the writing
//! functions append exactly that text.

use crate::casing::{convert, converted, name_in_case, Case, NameCase, NameCasing};
use crate::nodes::{
    lemma_nodes_depth, node_depth, Alias, AliasView, Block, BlockNode, BlockNodeView, BlockView,
    Enum, EnumItem, EnumItemView, EnumView, Structure, StructureField, StructureFieldView,
    StructureView,
};
use crate::options::{CodeGenOptions, CodeGenOptionsView};
use crate::types::{BuiltinTypeName, TypeName, TypeNameView};
use crate::writer::{
    indentation, indented, lemma_appended, lemma_nothing_appended, line, line_feed, IndentedWriter,
};
use vstd::prelude::*;

verus! {

/// The attribute that marks a property as required.
pub const REQUIRED: &'static str = "[global::System.ComponentModel.DataAnnotations.Required]";

/// The attribute that names the JSON converter of a type, up to the name of
/// the type.
pub const CONVERTER_ATTRIBUTE: &'static str =
    "[global::System.Text.Json.Serialization.JsonConverter(typeof(";

/// What follows the name of the type in the attribute that names its JSON
/// converter.
pub const CONVERTER_ATTRIBUTE_END: &'static str = "JsonConverter))]";

/// The wrapper of an alias, in four parts between the names.
pub const RECORD_HEAD: &'static str = "public record struct ";

pub const RECORD_TO_UNDERLYING: &'static str = " Value)\n{\n    public override string ToString() => Value.ToString();\n\n    public static implicit operator ";

pub const RECORD_FROM_UNDERLYING: &'static str = " alias) => alias.Value;\n    public static implicit operator ";

pub const RECORD_END: &'static str = " alias) => new(alias);\n}";

/// The JSON converter of a type, up to the name of the type.
pub const CONVERTER_HEAD: &'static str = "public class ";

/// The JSON converter of a type, between the names.
pub const CONVERTER_BASE: &'static str = "JsonConverter : global::System.Text.Json.Serialization.JsonConverter<";

pub const CONVERTER_WRITE: &'static str = ">\n{\n    public override void Write(\n        global::System.Text.Json.Utf8JsonWriter writer,\n        ";

/// The writing half of the converter of an alias.
pub const ALIAS_WRITE_BODY: &'static str = " aliasType,\n        global::System.Text.Json.JsonSerializerOptions options)\n    {\n        writer.WriteValue(aliasType.Value);\n    }\n\n    public override ";

/// The reading half of the converter of an alias, up to the underlying type.
pub const ALIAS_READ_BODY: &'static str = " Read(\n        ref global::System.Text.Json.Utf8JsonReader reader,\n        global::System.Type typeToConvert,\n        global::System.Text.Json.JsonSerializerOptions options)\n    {\n        reader.Get(out ";

pub const ALIAS_CONVERTER_END: &'static str = " value);\n        return value;\n    }\n}";

/// The writing half of the converter of the tags of a tagged union.
pub const TAG_WRITE_BODY: &'static str = " messageType,\n        global::System.Text.Json.JsonSerializerOptions options)\n    {\n        writer.WriteStringValue(messageType.Value);\n    }\n\n    public override ";

/// The reading half of the converter of the tags of a tagged union, up to
/// the arms of its `switch`.
pub const TAG_READ_BODY: &'static str = " Read(\n        ref global::System.Text.Json.Utf8JsonReader reader,\n        global::System.Type typeToConvert,\n        global::System.Text.Json.JsonSerializerOptions options)\n    {\n        if (reader.TokenType != global::System.Text.Json.JsonTokenType.String)\n            throw new global::System.Text.Json.JsonException($\"Expected string token, but got {reader.TokenType}\");\n\n        var value = reader.GetString();\n        return value switch\n        {";

/// What follows the arms: the arm for an unknown tag, and the end of the
/// reading method.
pub const TAG_READ_END: &'static str = "\n            _ => throw new global::System.Text.Json.JsonException($\"Unknown type: {value}\")\n        };\n    }";

/// How C# spells a primitive type.
pub open spec fn builtin_text(builtin: BuiltinTypeName) -> Seq<char> {
    match builtin {
        BuiltinTypeName::Uint8 => "byte"@,
        BuiltinTypeName::Uint16 => "ushort"@,
        BuiltinTypeName::Uint32 => "uint"@,
        BuiltinTypeName::Uint64 => "ulong"@,
        BuiltinTypeName::Uint128 => "global::System.UInt128"@,
        BuiltinTypeName::Int8 => "sbyte"@,
        BuiltinTypeName::Int16 => "short"@,
        BuiltinTypeName::Int32 => "int"@,
        BuiltinTypeName::Int64 => "long"@,
        BuiltinTypeName::Int128 => "global::System.Int128"@,
        BuiltinTypeName::Float32 => "float"@,
        BuiltinTypeName::Float64 => "double"@,
        BuiltinTypeName::Bool => "bool"@,
        BuiltinTypeName::String => "string"@,
    }
}

/// The C# name of a type of the schema: the spelling of a primitive type,
/// and any other name in the case of type names.
pub open spec fn type_text(opts: CodeGenOptionsView, name: Seq<char>) -> Seq<char> {
    match BuiltinTypeName::from_name(name) {
        Some(builtin) => builtin_text(builtin),
        None => name_in_case(name, opts.type_name_case),
    }
}

/// The C# type of a field: the element type, an array of it where the schema
/// fixes a size, or a list of it.
///
/// An array is the type of fixed length in C#. Its type cannot hold the
/// length, so the size stands between the brackets as a comment, written as
/// the schema has it.
pub open spec fn full_type_text(opts: CodeGenOptionsView, field_type: TypeNameView) -> Seq<char> {
    let name = type_text(opts, field_type.token.token.text());
    if field_type.is_array {
        match field_type.array_size {
            Some(size) => name + "[/* "@ + size.token.text() + " */]"@,
            None => "global::System.Collections.Generic.List<"@ + name + ">"@,
        }
    } else {
        name
    }
}

/// The property of one field, at the level of the properties.
pub open spec fn field_text(
    opts: CodeGenOptionsView,
    field: StructureFieldView,
    level: nat,
    with_access_modifiers: bool,
) -> Seq<char> {
    line(level, REQUIRED@) + indentation(level) + (if with_access_modifiers {
        "public required "@
    } else {
        ""@
    }) + full_type_text(opts, field.field_type) + " "@ + name_in_case(
        field.name,
        opts.field_name_case,
    ) + " { get; set; }"@ + line_feed()
}

/// The properties of the first `count` fields of a list, in the list's
/// order.
pub open spec fn fields_text(
    opts: CodeGenOptionsView,
    fields: Seq<StructureFieldView>,
    count: nat,
    level: nat,
    with_access_modifiers: bool,
) -> Seq<char>
    decreases count,
{
    if count == 0 || count > fields.len() {
        Seq::empty()
    } else {
        fields_text(opts, fields, (count - 1) as nat, level, with_access_modifiers) + field_text(
            opts,
            fields[count - 1],
            level,
            with_access_modifiers,
        )
    }
}

/// A structure: a class of its name in the case of type names, with one
/// property for each field, in the order of the schema.
pub open spec fn structure_text(opts: CodeGenOptionsView, structure: StructureView, level: nat) -> Seq<
    char,
> {
    line(level, "public class "@ + name_in_case(structure.name, opts.type_name_case)) + line(
        level,
        "{"@,
    ) + fields_text(opts, structure.fields, structure.fields.len(), level + 1, true) + line(
        level,
        "}"@,
    )
}

/// The wrapper type of an alias: a record of one value of the underlying
/// type, which converts to and from that type without a cast.
pub open spec fn record_text(name: Seq<char>, underlying: Seq<char>) -> Seq<char> {
    RECORD_HEAD@ + name + "("@ + underlying + RECORD_TO_UNDERLYING@ + underlying + "("@ + name
        + RECORD_FROM_UNDERLYING@ + name + "("@ + underlying + RECORD_END@
}

/// The JSON converter of an alias, which writes and reads the underlying
/// value in place of the wrapper.
pub open spec fn alias_converter_text(name: Seq<char>, underlying: Seq<char>) -> Seq<char> {
    CONVERTER_HEAD@ + name + CONVERTER_BASE@ + name + CONVERTER_WRITE@ + name + ALIAS_WRITE_BODY@
        + name + ALIAS_READ_BODY@ + underlying + ALIAS_CONVERTER_END@
}

/// The line that names the JSON converter of a type.
pub open spec fn converter_attribute_text(name: Seq<char>, level: nat) -> Seq<char> {
    line(level, CONVERTER_ATTRIBUTE@ + name + CONVERTER_ATTRIBUTE_END@)
}

/// An alias: a type of its own that wraps the aliased type, and the
/// converter that serializes it as the underlying value.
pub open spec fn alias_text(opts: CodeGenOptionsView, alias: AliasView, level: nat) -> Seq<char> {
    let name = name_in_case(alias.alias_name, opts.type_name_case);
    let underlying = type_text(opts, alias.aliased_type_name);
    converter_attribute_text(name, level) + (record_text(name, underlying) + line_feed())
        + indented(level, alias_converter_text(name, underlying)) + line_feed()
}

/// The explicit value of a member, as the schema writes it; empty where it
/// has none.
pub open spec fn item_value_text(item: EnumItemView) -> Seq<char> {
    match item.value_token {
        Some(value) => " = "@ + value.token.text(),
        None => Seq::empty(),
    }
}

/// The line of one member of a plain enumeration: its name in the case of
/// enumeration items, and its explicit value where the schema gives one. A
/// member without one gets the value that C# gives it: zero for the first,
/// and one more than the member before for the others.
pub open spec fn enum_item_text(opts: CodeGenOptionsView, item: EnumItemView, level: nat) -> Seq<
    char,
> {
    indentation(level) + name_in_case(item.name, opts.enum_item_name_case) + item_value_text(item)
        + ","@ + line_feed()
}

/// The lines of the first `count` members of a plain enumeration.
pub open spec fn enum_items_text(
    opts: CodeGenOptionsView,
    items: Seq<EnumItemView>,
    count: nat,
    level: nat,
) -> Seq<char>
    decreases count,
{
    if count == 0 || count > items.len() {
        Seq::empty()
    } else {
        enum_items_text(opts, items, (count - 1) as nat, level) + enum_item_text(
            opts,
            items[count - 1],
            level,
        )
    }
}

/// A plain enumeration: one member for each item, in the order of the
/// schema.
pub open spec fn plain_enum_text(opts: CodeGenOptionsView, e: EnumView, level: nat) -> Seq<char> {
    line(level, "public enum "@ + name_in_case(e.name, opts.type_name_case) + " {"@)
        + enum_items_text(opts, e.items, e.items.len(), level + 1) + line(level, "}"@)
}

/// The case in which the tags of a tagged union are written: that of
/// enumeration items, and camel case where the options leave item names as
/// they are.
pub open spec fn tag_case(opts: CodeGenOptionsView) -> Case {
    match opts.enum_item_name_case {
        NameCase::Other(case) => case,
        NameCase::Unchanged => Case::Camel,
    }
}

/// The tag of a variant: the constant that stands for it, and the text that
/// serialized data holds for it.
pub open spec fn tag_text(opts: CodeGenOptionsView, item: EnumItemView) -> Seq<char> {
    converted(item.name, tag_case(opts))
}

/// The name of the type of the tags of a tagged union.
pub open spec fn tag_type_text(opts: CodeGenOptionsView, e: EnumView) -> Seq<char> {
    name_in_case(e.name, opts.type_name_case) + "Type"@
}

/// The properties of a variant; empty for a variant without a body.
pub open spec fn payload_text(opts: CodeGenOptionsView, item: EnumItemView, level: nat) -> Seq<
    char,
> {
    match item.structure {
        Some(structure) => fields_text(opts, structure.fields, structure.fields.len(), level, true),
        None => Seq::empty(),
    }
}

/// The class of one variant: it derives from the class of the union, knows
/// its tag, and holds the fields of the variant, if any.
pub open spec fn case_text(
    opts: CodeGenOptionsView,
    e: EnumView,
    item: EnumItemView,
    level: nat,
) -> Seq<char> {
    line(
        level,
        "public class "@ + name_in_case(item.name, opts.enum_item_name_case) + " : "@
            + name_in_case(e.name, opts.type_name_case) + ", global::NeatProto.ITaggedUnionCase<"@
            + tag_type_text(opts, e) + ">"@,
    ) + line(level, "{"@) + line(
        level + 1,
        "public static "@ + tag_type_text(opts, e) + " Kind => "@ + tag_type_text(opts, e) + "."@
            + tag_text(opts, item) + ";"@,
    ) + payload_text(opts, item, level + 1) + line(level, "}"@)
}

/// The constant that stands for the tag of one variant.
pub open spec fn tag_constant_text(
    opts: CodeGenOptionsView,
    e: EnumView,
    item: EnumItemView,
    level: nat,
) -> Seq<char> {
    line(
        level,
        "public static readonly "@ + tag_type_text(opts, e) + " "@ + tag_text(opts, item)
            + " = new(\""@ + tag_text(opts, item) + "\");"@,
    )
}

/// The arm that reads the tag of one variant.
pub open spec fn tag_arm_text(
    opts: CodeGenOptionsView,
    e: EnumView,
    item: EnumItemView,
    level: nat,
) -> Seq<char> {
    line(
        level,
        "nameof("@ + tag_type_text(opts, e) + "."@ + tag_text(opts, item) + ") => "@
            + tag_type_text(opts, e) + "."@ + tag_text(opts, item) + ","@,
    )
}

/// The three texts that a tagged union holds once for each variant.
#[derive(Debug, Clone, Copy, PartialEq, Eq, Structural)]
pub enum Part {
    Case,
    Constant,
    Arm,
}

/// One part for one variant.
pub open spec fn part_text(
    opts: CodeGenOptionsView,
    e: EnumView,
    item: EnumItemView,
    level: nat,
    part: Part,
) -> Seq<char> {
    match part {
        Part::Case => case_text(opts, e, item, level),
        Part::Constant => tag_constant_text(opts, e, item, level),
        Part::Arm => tag_arm_text(opts, e, item, level),
    }
}

/// One part for each of the first `count` variants, in the order of the
/// schema.
pub open spec fn parts_text(
    opts: CodeGenOptionsView,
    e: EnumView,
    count: nat,
    level: nat,
    part: Part,
) -> Seq<char>
    decreases count,
{
    if count == 0 || count > e.items.len() {
        Seq::empty()
    } else {
        parts_text(opts, e, (count - 1) as nat, level, part) + part_text(
            opts,
            e,
            e.items[count - 1],
            level,
            part,
        )
    }
}

/// The abstract class of a tagged union, which holds one class for each
/// variant.
pub open spec fn union_class_text(opts: CodeGenOptionsView, e: EnumView, level: nat) -> Seq<char> {
    line(level, "public abstract class "@ + name_in_case(e.name, opts.type_name_case)) + line(
        level,
        "{"@,
    ) + parts_text(opts, e, e.items.len(), level + 1, Part::Case) + line_feed() + line(
        level,
        "}"@,
    )
}

/// The type of the tags of a tagged union: a record of one string, with a
/// constant for each variant. Two tags are equal when their strings are.
pub open spec fn tag_type_declaration_text(opts: CodeGenOptionsView, e: EnumView, level: nat) -> Seq<
    char,
> {
    line(level, "public readonly record struct "@ + tag_type_text(opts, e) + "(string Value)"@)
        + line(level, "{"@) + parts_text(opts, e, e.items.len(), level + 1, Part::Constant) + line(
        level,
        "}"@,
    )
}

/// The beginning of the JSON converter of the tags of a tagged union.
pub open spec fn tag_converter_head_text(tag_type: Seq<char>) -> Seq<char> {
    CONVERTER_HEAD@ + tag_type + CONVERTER_BASE@ + tag_type + CONVERTER_WRITE@ + tag_type
        + TAG_WRITE_BODY@ + tag_type + TAG_READ_BODY@
}

/// The JSON converter of the tags of a tagged union: it writes a tag as its
/// string, and reads a string as the tag of that name, or fails where no
/// variant has it.
pub open spec fn tag_converter_text(opts: CodeGenOptionsView, e: EnumView, level: nat) -> Seq<
    char,
> {
    indented(level, tag_converter_head_text(tag_type_text(opts, e))) + line_feed() + parts_text(
        opts,
        e,
        e.items.len(),
        level + 3,
        Part::Arm,
    ) + indented(level, TAG_READ_END@) + line_feed() + line(level, "}"@)
}

/// The attribute that names the converter of the tags, where the options
/// ask for the converter.
pub open spec fn tag_attribute_text(opts: CodeGenOptionsView, e: EnumView, level: nat) -> Seq<
    char,
> {
    if opts.csharp.with_json_convert_for_union_tags {
        converter_attribute_text(tag_type_text(opts, e), level)
    } else {
        Seq::empty()
    }
}

/// The converter of the tags, where the options ask for it.
pub open spec fn optional_tag_converter_text(
    opts: CodeGenOptionsView,
    e: EnumView,
    level: nat,
) -> Seq<char> {
    if opts.csharp.with_json_convert_for_union_tags {
        tag_converter_text(opts, e, level)
    } else {
        Seq::empty()
    }
}

/// A tagged union: a class for each variant, with the fields of that
/// variant alone, and a type of tags with a constant for each variant.
pub open spec fn tagged_union_text(opts: CodeGenOptionsView, e: EnumView, level: nat) -> Seq<char> {
    union_class_text(opts, e, level) + tag_attribute_text(opts, e, level)
        + tag_type_declaration_text(opts, e, level) + optional_tag_converter_text(opts, e, level)
}

/// An enumeration: a tagged union where an item carries fields, and a plain
/// enumeration otherwise.
pub open spec fn enum_text(opts: CodeGenOptionsView, e: EnumView, level: nat) -> Seq<char> {
    if e.is_tagged_union() {
        tagged_union_text(opts, e, level)
    } else {
        plain_enum_text(opts, e, level)
    }
}

/// A declaration, at a level of indentation. A nested block stands in
/// braces, with its declarations one level deeper.
pub open spec fn node_text(opts: CodeGenOptionsView, node: BlockNodeView, level: nat) -> Seq<char>
    decreases node, 0nat,
{
    match node {
        BlockNodeView::Block(block) => line(level, "{"@) + nodes_text(
            opts,
            block.nodes,
            block.nodes.len(),
            level + 1,
        ) + line(level, "}"@),
        BlockNodeView::Structure(structure) => structure_text(opts, structure, level),
        BlockNodeView::Alias(alias) => alias_text(opts, alias, level),
        BlockNodeView::Enum(e) => enum_text(opts, e, level),
    }
}

/// The first `count` declarations of a list, in the list's order.
pub open spec fn nodes_text(
    opts: CodeGenOptionsView,
    nodes: Seq<BlockNodeView>,
    count: nat,
    level: nat,
) -> Seq<char>
    decreases nodes, count,
{
    if count == 0 || count > nodes.len() {
        Seq::empty()
    } else {
        nodes_text(opts, nodes, (count - 1) as nat, level) + node_text(
            opts,
            nodes[count - 1],
            level,
        )
    }
}

/// A block: its declarations in their order, in braces and one level deeper
/// where the block is nested.
pub open spec fn block_text(
    opts: CodeGenOptionsView,
    block: BlockView,
    level: nat,
    with_brackets: bool,
) -> Seq<char> {
    if with_brackets {
        node_text(opts, BlockNodeView::Block(block), level)
    } else {
        nodes_text(opts, block.nodes, block.nodes.len(), level)
    }
}

/// What every generated file begins with: the import of the support
/// library, and the namespace of the generated types.
pub open spec fn preamble_text(opts: CodeGenOptionsView) -> Seq<char> {
    ("using NeatProto;"@ + line_feed()) + line_feed() + "namespace "@ + opts.csharp.namespace
        + ";"@ + line_feed() + line_feed()
}

/// The C# source for a schema.
pub open spec fn source_text(opts: CodeGenOptionsView, root: BlockView) -> Seq<char> {
    preamble_text(opts) + block_text(opts, root, 0, false)
}

/// How C# spells a primitive type.
pub fn translate_builtin_type_name(builtin: BuiltinTypeName) -> (text: &'static str)
    ensures
        text@ == builtin_text(builtin),
{
    match builtin {
        BuiltinTypeName::Uint8 => "byte",
        BuiltinTypeName::Uint16 => "ushort",
        BuiltinTypeName::Uint32 => "uint",
        BuiltinTypeName::Uint64 => "ulong",
        BuiltinTypeName::Uint128 => "global::System.UInt128",
        BuiltinTypeName::Int8 => "sbyte",
        BuiltinTypeName::Int16 => "short",
        BuiltinTypeName::Int32 => "int",
        BuiltinTypeName::Int64 => "long",
        BuiltinTypeName::Int128 => "global::System.Int128",
        BuiltinTypeName::Float32 => "float",
        BuiltinTypeName::Float64 => "double",
        BuiltinTypeName::Bool => "bool",
        BuiltinTypeName::String => "string",
    }
}

/// The C# name of a type of the schema.
pub fn translate_type_name(opts: &CodeGenOptions, name: &String) -> (text: String)
    ensures
        text@ == type_text(opts@, name@),
{
    match BuiltinTypeName::parse(name.as_str()) {
        Some(builtin) => translate_builtin_type_name(builtin).to_string(),
        None => name.to_name_case(opts.type_name_case),
    }
}

/// The C# type of a field.
pub fn get_full_type_name(opts: &CodeGenOptions, field_type: &TypeName) -> (text: String)
    ensures
        text@ == full_type_text(opts@, field_type@),
{
    let name = translate_type_name(opts, &field_type.token.value());
    if field_type.is_array {
        match &field_type.array_size {
            Some(size) => {
                let mut text = name;
                text.append("[/* ");
                text.append(size.value().as_str());
                text.append(" */]");
                return text;
            },
            None => {
                let mut text = "global::System.Collections.Generic.List<".to_string();
                text.append(name.as_str());
                text.append(">");
                return text;
            },
        }
    }
    name
}

/// Writes the property of one field.
fn write_field(
    opts: &CodeGenOptions,
    writer: &mut IndentedWriter,
    field: &StructureField,
    with_access_modifiers: bool,
)
    requires
        4 * old(writer).level() <= usize::MAX,
    ensures
        final(writer).level() == old(writer).level(),
        final(writer).text() == old(writer).text() + field_text(
            opts@,
            field@,
            old(writer).level(),
            with_access_modifiers,
        ),
{
    broadcast use lemma_appended;

    writer.write_indented_line(REQUIRED);
    writer.write_indent();
    writer.write(
        if with_access_modifiers {
            "public required "
        } else {
            ""
        },
    );
    let field_full_type_name = get_full_type_name(opts, &field.field_type);
    let field_name = field.name.to_name_case(opts.field_name_case);
    writer.write(field_full_type_name.as_str());
    writer.write(" ");
    writer.write(field_name.as_str());
    writer.write(" { get; set; }");
    writer.next_line();
}

/// Writes the properties of a structure, at the current level.
pub fn write_structure_body(
    opts: &CodeGenOptions,
    writer: &mut IndentedWriter,
    structure: &Structure,
    with_access_modifiers: bool,
)
    requires
        4 * old(writer).level() <= usize::MAX,
    ensures
        final(writer).level() == old(writer).level(),
        final(writer).text() == old(writer).text() + fields_text(
            opts@,
            structure@.fields,
            structure@.fields.len(),
            old(writer).level(),
            with_access_modifiers,
        ),
{
    let ghost level = writer.level();
    let ghost fields = structure@.fields;
    let ghost start = writer.text();
    proof {
        lemma_nothing_appended(start);
    }
    let mut i: usize = 0;
    while i < structure.fields.len()
        invariant
            i <= structure.fields.len(),
            fields == structure@.fields,
            fields.len() == structure.fields.len(),
            writer.level() == level,
            4 * level <= usize::MAX,
            writer.text() == start + fields_text(
                opts@,
                fields,
                i as nat,
                level,
                with_access_modifiers,
            ),
        decreases structure.fields.len() - i,
    {
        let field = &structure.fields[i];
        assert(fields[i as int] == field@);
        write_field(opts, writer, field, with_access_modifiers);
        proof {
            lemma_appended(
                start,
                fields_text(opts@, fields, i as nat, level, with_access_modifiers),
                field_text(opts@, field@, level, with_access_modifiers),
            );
        }
        i += 1;
    }
}

/// Writes a structure.
pub fn write_structure(opts: &CodeGenOptions, writer: &mut IndentedWriter, structure: &Structure)
    requires
        4 * (old(writer).level() + 1) <= usize::MAX,
    ensures
        final(writer).level() == old(writer).level(),
        final(writer).text() == old(writer).text() + structure_text(
            opts@,
            structure@,
            old(writer).level(),
        ),
{
    broadcast use lemma_appended;

    writer.write_indent();
    writer.write("public class ");
    writer.write(structure.name.to_name_case(opts.type_name_case).as_str());
    writer.next_line();
    writer.write_indented_line("{");
    writer.push_indent();
    write_structure_body(opts, writer, structure, true);
    writer.pop_indent();
    writer.write_indented("}");
    writer.next_line();
}

/// Writes the line that names the JSON converter of a type.
fn write_converter_attribute(writer: &mut IndentedWriter, name: &str)
    requires
        4 * old(writer).level() <= usize::MAX,
    ensures
        final(writer).level() == old(writer).level(),
        final(writer).text() == old(writer).text() + converter_attribute_text(
            name@,
            old(writer).level(),
        ),
{
    broadcast use lemma_appended;

    writer.write_indent();
    writer.write(CONVERTER_ATTRIBUTE);
    writer.write(name);
    writer.write(CONVERTER_ATTRIBUTE_END);
    writer.next_line();
}

/// Writes the wrapper type of an alias.
fn write_record(writer: &mut IndentedWriter, name: &str, underlying: &str)
    ensures
        final(writer).level() == old(writer).level(),
        final(writer).text() == old(writer).text() + (record_text(name@, underlying@)
            + line_feed()),
{
    broadcast use lemma_appended;

    writer.write(RECORD_HEAD);
    writer.write(name);
    writer.write("(");
    writer.write(underlying);
    writer.write(RECORD_TO_UNDERLYING);
    writer.write(underlying);
    writer.write("(");
    writer.write(name);
    writer.write(RECORD_FROM_UNDERLYING);
    writer.write(name);
    writer.write("(");
    writer.write(underlying);
    writer.write(RECORD_END);
    writer.next_line();
}

/// Writes the JSON converter of an alias.
fn write_alias_converter(writer: &mut IndentedWriter, name: &str, underlying: &str)
    requires
        4 * old(writer).level() <= usize::MAX,
    ensures
        final(writer).level() == old(writer).level(),
        final(writer).text() == old(writer).text() + indented(
            old(writer).level(),
            alias_converter_text(name@, underlying@),
        ),
{
    broadcast use lemma_appended;

    writer.write_indent();
    writer.write(CONVERTER_HEAD);
    writer.write(name);
    writer.write(CONVERTER_BASE);
    writer.write(name);
    writer.write(CONVERTER_WRITE);
    writer.write(name);
    writer.write(ALIAS_WRITE_BODY);
    writer.write(name);
    writer.write(ALIAS_READ_BODY);
    writer.write(underlying);
    writer.write(ALIAS_CONVERTER_END);
}

/// Writes an alias.
pub fn write_alias(opts: &CodeGenOptions, writer: &mut IndentedWriter, alias: &Alias)
    requires
        4 * old(writer).level() <= usize::MAX,
    ensures
        final(writer).level() == old(writer).level(),
        final(writer).text() == old(writer).text() + alias_text(
            opts@,
            alias@,
            old(writer).level(),
        ),
{
    broadcast use lemma_appended;

    let alias_name = alias.alias_name.to_name_case(opts.type_name_case);
    let aliased_type_name = translate_type_name(opts, &alias.aliased_type_name);
    write_converter_attribute(writer, alias_name.as_str());
    write_record(writer, alias_name.as_str(), aliased_type_name.as_str());
    write_alias_converter(writer, alias_name.as_str(), aliased_type_name.as_str());
    writer.next_line();
}

/// Writes the explicit value of a member, where it has one.
fn write_item_value(writer: &mut IndentedWriter, item: &EnumItem)
    ensures
        final(writer).level() == old(writer).level(),
        final(writer).text() == old(writer).text() + item_value_text(item@),
{
    match &item.value_token {
        Some(value_token) => {
            let value = value_token.token.value();
            writer.write(" = ");
            writer.write(value.as_str());
            proof {
                lemma_appended(old(writer).text(), " = "@, value@);
            }
        },
        None => {
            proof {
                lemma_nothing_appended(writer.text());
            }
        },
    }
}

/// Writes the line of one member of a plain enumeration.
fn write_enum_item(opts: &CodeGenOptions, writer: &mut IndentedWriter, item: &EnumItem)
    requires
        4 * old(writer).level() <= usize::MAX,
    ensures
        final(writer).level() == old(writer).level(),
        final(writer).text() == old(writer).text() + enum_item_text(
            opts@,
            item@,
            old(writer).level(),
        ),
{
    broadcast use lemma_appended;

    writer.write_indent();
    writer.write(item.name.to_name_case(opts.enum_item_name_case).as_str());
    write_item_value(writer, item);
    writer.write(",");
    writer.next_line();
}

/// Writes the members of a plain enumeration, one level deeper than the
/// enumeration itself.
fn write_enum_items(opts: &CodeGenOptions, writer: &mut IndentedWriter, e: &Enum)
    requires
        4 * (old(writer).level() + 1) <= usize::MAX,
    ensures
        final(writer).level() == old(writer).level(),
        final(writer).text() == old(writer).text() + enum_items_text(
            opts@,
            e@.items,
            e@.items.len(),
            old(writer).level() + 1,
        ),
{
    let ghost level = writer.level();
    let ghost items = e@.items;
    let ghost start = writer.text();
    writer.push_indent();
    proof {
        lemma_nothing_appended(start);
    }
    let mut i: usize = 0;
    while i < e.items.len()
        invariant
            i <= e.items.len(),
            items == e@.items,
            items.len() == e.items.len(),
            writer.level() == level + 1,
            4 * (level + 1) <= usize::MAX,
            writer.text() == start + enum_items_text(opts@, items, i as nat, level + 1),
        decreases e.items.len() - i,
    {
        let item = &e.items[i];
        assert(items[i as int] == item@);
        write_enum_item(opts, writer, item);
        proof {
            lemma_appended(
                start,
                enum_items_text(opts@, items, i as nat, level + 1),
                enum_item_text(opts@, item@, level + 1),
            );
        }
        i += 1;
    }
    writer.pop_indent();
}

/// Writes a plain enumeration.
fn write_plain_enum(opts: &CodeGenOptions, writer: &mut IndentedWriter, e: &Enum)
    requires
        4 * (old(writer).level() + 1) <= usize::MAX,
    ensures
        final(writer).level() == old(writer).level(),
        final(writer).text() == old(writer).text() + plain_enum_text(
            opts@,
            e@,
            old(writer).level(),
        ),
{
    broadcast use lemma_appended;

    writer.write_indent();
    writer.write("public enum ");
    writer.write(e.name.to_name_case(opts.type_name_case).as_str());
    writer.write(" {");
    writer.next_line();
    write_enum_items(opts, writer, e);
    writer.write_indented_line("}");
}

/// The case in which the tags of a tagged union are written.
fn tag_case_of(opts: &CodeGenOptions) -> (case: Case)
    ensures
        case == tag_case(opts@),
{
    match opts.enum_item_name_case {
        NameCase::Other(case) => case,
        NameCase::Unchanged => Case::Camel,
    }
}

/// Whether the texts are the name of the class of a tagged union and the
/// name of the type of its tags.
pub open spec fn names_of(
    opts: CodeGenOptionsView,
    e: EnumView,
    class_name: Seq<char>,
    tag_type: Seq<char>,
) -> bool {
    &&& class_name == name_in_case(e.name, opts.type_name_case)
    &&& tag_type == tag_type_text(opts, e)
}

/// Writes the line that opens the class of one variant.
fn write_case_header(
    opts: &CodeGenOptions,
    writer: &mut IndentedWriter,
    class_name: &str,
    tag_type: &str,
    item: &EnumItem,
)
    requires
        4 * old(writer).level() <= usize::MAX,
    ensures
        final(writer).level() == old(writer).level(),
        final(writer).text() == old(writer).text() + line(
            old(writer).level(),
            "public class "@ + name_in_case(item@.name, opts@.enum_item_name_case) + " : "@
                + class_name@ + ", global::NeatProto.ITaggedUnionCase<"@ + tag_type@ + ">"@,
        ),
{
    broadcast use lemma_appended;

    writer.write_indent();
    writer.write("public class ");
    writer.write(item.name.to_name_case(opts.enum_item_name_case).as_str());
    writer.write(" : ");
    writer.write(class_name);
    writer.write(", global::NeatProto.ITaggedUnionCase<");
    writer.write(tag_type);
    writer.write(">");
    writer.next_line();
}

/// Writes the property that tells the tag of a variant.
fn write_kind(writer: &mut IndentedWriter, tag_type: &str, tag: &str)
    requires
        4 * old(writer).level() <= usize::MAX,
    ensures
        final(writer).level() == old(writer).level(),
        final(writer).text() == old(writer).text() + line(
            old(writer).level(),
            "public static "@ + tag_type@ + " Kind => "@ + tag_type@ + "."@ + tag@ + ";"@,
        ),
{
    broadcast use lemma_appended;

    writer.write_indent();
    writer.write("public static ");
    writer.write(tag_type);
    writer.write(" Kind => ");
    writer.write(tag_type);
    writer.write(".");
    writer.write(tag);
    writer.write(";");
    writer.next_line();
}

/// Writes the properties of a variant, where it has a body.
fn write_payload(opts: &CodeGenOptions, writer: &mut IndentedWriter, item: &EnumItem)
    requires
        4 * old(writer).level() <= usize::MAX,
    ensures
        final(writer).level() == old(writer).level(),
        final(writer).text() == old(writer).text() + payload_text(
            opts@,
            item@,
            old(writer).level(),
        ),
{
    match &item.structure {
        Some(structure) => {
            write_structure_body(opts, writer, structure, true);
        },
        None => {
            proof {
                lemma_nothing_appended(writer.text());
            }
        },
    }
}

/// Writes the class of one variant.
fn write_case(
    opts: &CodeGenOptions,
    writer: &mut IndentedWriter,
    e: &Enum,
    class_name: &str,
    tag_type: &str,
    item: &EnumItem,
)
    requires
        4 * (old(writer).level() + 1) <= usize::MAX,
        names_of(opts@, e@, class_name@, tag_type@),
    ensures
        final(writer).level() == old(writer).level(),
        final(writer).text() == old(writer).text() + case_text(
            opts@,
            e@,
            item@,
            old(writer).level(),
        ),
{
    broadcast use lemma_appended;

    write_case_header(opts, writer, class_name, tag_type, item);
    writer.write_indented_line("{");
    writer.push_indent();
    let tag = convert(item.name.as_str(), tag_case_of(opts));
    write_kind(writer, tag_type, tag.as_str());
    write_payload(opts, writer, item);
    writer.pop_indent();
    writer.write_indented_line("}");
}

/// Writes the constant that stands for the tag of one variant.
fn write_tag_constant(
    opts: &CodeGenOptions,
    writer: &mut IndentedWriter,
    e: &Enum,
    tag_type: &str,
    item: &EnumItem,
)
    requires
        4 * old(writer).level() <= usize::MAX,
        tag_type@ == tag_type_text(opts@, e@),
    ensures
        final(writer).level() == old(writer).level(),
        final(writer).text() == old(writer).text() + tag_constant_text(
            opts@,
            e@,
            item@,
            old(writer).level(),
        ),
{
    broadcast use lemma_appended;

    let tag = convert(item.name.as_str(), tag_case_of(opts));
    writer.write_indent();
    writer.write("public static readonly ");
    writer.write(tag_type);
    writer.write(" ");
    writer.write(tag.as_str());
    writer.write(" = new(\"");
    writer.write(tag.as_str());
    writer.write("\");");
    writer.next_line();
}

/// Writes the arm that reads the tag of one variant.
fn write_tag_arm(
    opts: &CodeGenOptions,
    writer: &mut IndentedWriter,
    e: &Enum,
    tag_type: &str,
    item: &EnumItem,
)
    requires
        4 * old(writer).level() <= usize::MAX,
        tag_type@ == tag_type_text(opts@, e@),
    ensures
        final(writer).level() == old(writer).level(),
        final(writer).text() == old(writer).text() + tag_arm_text(
            opts@,
            e@,
            item@,
            old(writer).level(),
        ),
{
    broadcast use lemma_appended;

    let tag = convert(item.name.as_str(), tag_case_of(opts));
    writer.write_indent();
    writer.write("nameof(");
    writer.write(tag_type);
    writer.write(".");
    writer.write(tag.as_str());
    writer.write(") => ");
    writer.write(tag_type);
    writer.write(".");
    writer.write(tag.as_str());
    writer.write(",");
    writer.next_line();
}

/// Writes one part for each variant, in the order of the schema, at the
/// current level.
fn write_parts(
    opts: &CodeGenOptions,
    writer: &mut IndentedWriter,
    e: &Enum,
    class_name: &str,
    tag_type: &str,
    part: Part,
)
    requires
        4 * (old(writer).level() + 1) <= usize::MAX,
        names_of(opts@, e@, class_name@, tag_type@),
    ensures
        final(writer).level() == old(writer).level(),
        final(writer).text() == old(writer).text() + parts_text(
            opts@,
            e@,
            e@.items.len(),
            old(writer).level(),
            part,
        ),
{
    let ghost level = writer.level();
    let ghost start = writer.text();
    proof {
        lemma_nothing_appended(start);
    }
    let mut i: usize = 0;
    while i < e.items.len()
        invariant
            i <= e.items.len(),
            e@.items.len() == e.items.len(),
            writer.level() == level,
            4 * (level + 1) <= usize::MAX,
            names_of(opts@, e@, class_name@, tag_type@),
            writer.text() == start + parts_text(opts@, e@, i as nat, level, part),
        decreases e.items.len() - i,
    {
        let item = &e.items[i];
        assert(e@.items[i as int] == item@);
        match part {
            Part::Case => write_case(opts, writer, e, class_name, tag_type, item),
            Part::Constant => write_tag_constant(opts, writer, e, tag_type, item),
            Part::Arm => write_tag_arm(opts, writer, e, tag_type, item),
        }
        proof {
            lemma_appended(
                start,
                parts_text(opts@, e@, i as nat, level, part),
                part_text(opts@, e@, item@, level, part),
            );
        }
        i += 1;
    }
}

/// Writes the abstract class of a tagged union, with the classes of its
/// variants.
fn write_union_class(
    opts: &CodeGenOptions,
    writer: &mut IndentedWriter,
    e: &Enum,
    class_name: &str,
    tag_type: &str,
)
    requires
        4 * (old(writer).level() + 2) <= usize::MAX,
        names_of(opts@, e@, class_name@, tag_type@),
    ensures
        final(writer).level() == old(writer).level(),
        final(writer).text() == old(writer).text() + union_class_text(
            opts@,
            e@,
            old(writer).level(),
        ),
{
    broadcast use lemma_appended;

    writer.write_indent();
    writer.write("public abstract class ");
    writer.write(class_name);
    writer.next_line();
    writer.write_indented_line("{");
    writer.push_indent();
    write_parts(opts, writer, e, class_name, tag_type, Part::Case);
    writer.next_line();
    writer.pop_indent();
    writer.write_indented_line("}");
}

/// Writes the attribute that names the converter of the tags, where the
/// options ask for the converter.
fn write_tag_attribute(
    opts: &CodeGenOptions,
    writer: &mut IndentedWriter,
    e: &Enum,
    tag_type: &str,
)
    requires
        4 * old(writer).level() <= usize::MAX,
        tag_type@ == tag_type_text(opts@, e@),
    ensures
        final(writer).level() == old(writer).level(),
        final(writer).text() == old(writer).text() + tag_attribute_text(
            opts@,
            e@,
            old(writer).level(),
        ),
{
    if opts.csharp.with_json_convert_for_union_tags {
        write_converter_attribute(writer, tag_type);
    } else {
        proof {
            lemma_nothing_appended(writer.text());
        }
    }
}

/// Writes the type of the tags of a tagged union.
fn write_tag_type(
    opts: &CodeGenOptions,
    writer: &mut IndentedWriter,
    e: &Enum,
    class_name: &str,
    tag_type: &str,
)
    requires
        4 * (old(writer).level() + 2) <= usize::MAX,
        names_of(opts@, e@, class_name@, tag_type@),
    ensures
        final(writer).level() == old(writer).level(),
        final(writer).text() == old(writer).text() + tag_type_declaration_text(
            opts@,
            e@,
            old(writer).level(),
        ),
{
    broadcast use lemma_appended;

    writer.write_indent();
    writer.write("public readonly record struct ");
    writer.write(tag_type);
    writer.write("(string Value)");
    writer.next_line();
    writer.write_indented_line("{");
    writer.push_indent();
    write_parts(opts, writer, e, class_name, tag_type, Part::Constant);
    writer.pop_indent();
    writer.write_indented_line("}");
}

/// Writes the beginning of the JSON converter of the tags.
fn write_tag_converter_head(writer: &mut IndentedWriter, tag_type: &str)
    requires
        4 * old(writer).level() <= usize::MAX,
    ensures
        final(writer).level() == old(writer).level(),
        final(writer).text() == old(writer).text() + indented(
            old(writer).level(),
            tag_converter_head_text(tag_type@),
        ),
{
    broadcast use lemma_appended;

    writer.write_indent();
    writer.write(CONVERTER_HEAD);
    writer.write(tag_type);
    writer.write(CONVERTER_BASE);
    writer.write(tag_type);
    writer.write(CONVERTER_WRITE);
    writer.write(tag_type);
    writer.write(TAG_WRITE_BODY);
    writer.write(tag_type);
    writer.write(TAG_READ_BODY);
}

/// Writes the JSON converter of the tags of a tagged union.
fn write_tag_converter(
    opts: &CodeGenOptions,
    writer: &mut IndentedWriter,
    e: &Enum,
    class_name: &str,
    tag_type: &str,
)
    requires
        4 * (old(writer).level() + 4) <= usize::MAX,
        names_of(opts@, e@, class_name@, tag_type@),
    ensures
        final(writer).level() == old(writer).level(),
        final(writer).text() == old(writer).text() + tag_converter_text(
            opts@,
            e@,
            old(writer).level(),
        ),
{
    broadcast use lemma_appended;

    write_tag_converter_head(writer, tag_type);
    writer.next_line();
    writer.push_indent();
    writer.push_indent();
    writer.push_indent();
    write_parts(opts, writer, e, class_name, tag_type, Part::Arm);
    writer.pop_indent();
    writer.pop_indent();
    writer.pop_indent();
    writer.write_indented(TAG_READ_END);
    writer.next_line();
    writer.write_indented_line("}");
}

/// Writes the converter of the tags, where the options ask for it.
fn write_optional_tag_converter(
    opts: &CodeGenOptions,
    writer: &mut IndentedWriter,
    e: &Enum,
    class_name: &str,
    tag_type: &str,
)
    requires
        4 * (old(writer).level() + 4) <= usize::MAX,
        names_of(opts@, e@, class_name@, tag_type@),
    ensures
        final(writer).level() == old(writer).level(),
        final(writer).text() == old(writer).text() + optional_tag_converter_text(
            opts@,
            e@,
            old(writer).level(),
        ),
{
    if opts.csharp.with_json_convert_for_union_tags {
        write_tag_converter(opts, writer, e, class_name, tag_type);
    } else {
        proof {
            lemma_nothing_appended(writer.text());
        }
    }
}

/// Writes a tagged union.
pub fn write_tagged_union(opts: &CodeGenOptions, writer: &mut IndentedWriter, e: &Enum)
    requires
        4 * (old(writer).level() + 4) <= usize::MAX,
    ensures
        final(writer).level() == old(writer).level(),
        final(writer).text() == old(writer).text() + tagged_union_text(
            opts@,
            e@,
            old(writer).level(),
        ),
{
    broadcast use lemma_appended;

    let enum_class_name = e.name.to_name_case(opts.type_name_case);
    let mut discriminator_class_name = enum_class_name.clone();
    discriminator_class_name.append("Type");
    write_union_class(
        opts,
        writer,
        e,
        enum_class_name.as_str(),
        discriminator_class_name.as_str(),
    );
    write_tag_attribute(opts, writer, e, discriminator_class_name.as_str());
    write_tag_type(opts, writer, e, enum_class_name.as_str(), discriminator_class_name.as_str());
    write_optional_tag_converter(
        opts,
        writer,
        e,
        enum_class_name.as_str(),
        discriminator_class_name.as_str(),
    );
}

/// Writes an enumeration: a tagged union where an item carries fields, and
/// a plain enumeration otherwise.
pub fn write_enum(opts: &CodeGenOptions, writer: &mut IndentedWriter, e: &Enum)
    requires
        4 * (old(writer).level() + 4) <= usize::MAX,
    ensures
        final(writer).level() == old(writer).level(),
        final(writer).text() == old(writer).text() + enum_text(opts@, e@, old(writer).level()),
{
    if e.is_tagged_union() {
        write_tagged_union(opts, writer, e);
    } else {
        write_plain_enum(opts, writer, e);
    }
}

/// Writes one declaration.
fn write_node(opts: &CodeGenOptions, writer: &mut IndentedWriter, node: &BlockNode)
    requires
        4 * (old(writer).level() + node_depth(node@) + 4) <= usize::MAX,
    ensures
        final(writer).level() == old(writer).level(),
        final(writer).text() == old(writer).text() + node_text(opts@, node@, old(writer).level()),
    decreases node, 0nat,
{
    match node {
        BlockNode::Block(block) => write_block(opts, writer, block, true),
        BlockNode::Structure(structure) => write_structure(opts, writer, structure),
        BlockNode::Alias(alias) => write_alias(opts, writer, alias),
        BlockNode::Enum(e) => write_enum(opts, writer, e),
    }
}

/// Writes a block: its declarations in their order, in braces and one level
/// deeper where the block is nested.
pub fn write_block(
    opts: &CodeGenOptions,
    writer: &mut IndentedWriter,
    block: &Block,
    with_brackets: bool,
)
    requires
        4 * (old(writer).level() + (if with_brackets {
            1nat
        } else {
            0nat
        }) + block@.depth() + 4) <= usize::MAX,
    ensures
        final(writer).level() == old(writer).level(),
        final(writer).text() == old(writer).text() + block_text(
            opts@,
            block@,
            old(writer).level(),
            with_brackets,
        ),
    decreases block, 1nat,
{
    let ghost level = writer.level();
    let ghost nodes = block@.nodes;
    if with_brackets {
        writer.write_indented_line("{");
        writer.push_indent();
    }
    let ghost start = writer.text();
    let ghost inner = writer.level();
    proof {
        lemma_nothing_appended(start);
    }
    let mut i: usize = 0;
    while i < block.nodes.len()
        invariant
            i <= block.nodes.len(),
            nodes == block@.nodes,
            nodes.len() == block.nodes.len(),
            writer.level() == inner,
            4 * (inner + block@.depth() + 4) <= usize::MAX,
            writer.text() == start + nodes_text(opts@, nodes, i as nat, inner),
        decreases block.nodes.len() - i,
    {
        let node = &block.nodes[i];
        proof {
            assert(nodes[i as int] == node@);
            lemma_nodes_depth(nodes, nodes.len(), i as int);
        }
        write_node(opts, writer, node);
        proof {
            lemma_appended(
                start,
                nodes_text(opts@, nodes, i as nat, inner),
                node_text(opts@, node@, inner),
            );
        }
        i += 1;
    }
    if with_brackets {
        writer.pop_indent();
        writer.write_indented_line("}");
        proof {
            let list = nodes_text(opts@, nodes, nodes.len(), inner);
            lemma_appended(old(writer).text(), line(level, "{"@), list);
            lemma_appended(
                old(writer).text(),
                line(level, "{"@) + list,
                line(level, "}"@),
            );
        }
    }
}

/// Writes what every generated file begins with.
fn write_preamble(opts: &CodeGenOptions, writer: &mut IndentedWriter)
    ensures
        final(writer).level() == old(writer).level(),
        final(writer).text() == old(writer).text() + preamble_text(opts@),
{
    broadcast use lemma_appended;

    writer.write_string_line("using NeatProto;");
    writer.next_line();
    writer.write("namespace ");
    writer.write(opts.csharp.namespace.as_str());
    writer.write_string_line(";");
    writer.next_line();
}

/// The C# source for a schema: the preamble, and then its declarations in
/// their order, with names in the cases that the options choose.
pub fn generate_csharp(opts: &CodeGenOptions, root_block: &Block) -> (source: String)
    requires
        root_block@.can_be_indented(),
    ensures
        source@ == source_text(opts@, root_block@),
{
    let mut writer = IndentedWriter::default();
    write_preamble(opts, &mut writer);
    write_block(opts, &mut writer, root_block, false);
    proof {
        assert(Seq::<char>::empty() + preamble_text(opts@) =~= preamble_text(opts@));
    }
    writer.to_string()
}

} // verus!
