use neatproto::analysis::analyze_block;
use neatproto::casing::{Case, NameCase, NameCasing};
use neatproto::codegen::{generate_code, supports};
use neatproto::compiler::{CompilationUnit, CompileError};
use neatproto::csharp::generate_csharp;
use neatproto::nodes::{Block, BlockNode};
use neatproto::options::{CodeGenOptions, TargetLanguage};
use neatproto::parser::parse_block;
use neatproto::rust::generate_rust;
use neatproto::source_file::SourceFile;
use neatproto::writer::IndentedWriter;

fn concat(lines: &[&str]) -> String {
    lines.iter().map(|line| line.to_string()).collect()
}

fn parse(source: &str) -> Block {
    let source_file = SourceFile::new_from_source("test", source);
    match parse_block(&mut source_file.tokens()) {
        Ok(block) => block,
        Err(error) => panic!("{}", error.to_string()),
    }
}

fn csharp_options() -> CodeGenOptions {
    let mut opts = CodeGenOptions::default();
    opts.target_language = TargetLanguage::Csharp;
    opts
}

const SHAPE: &str = "enum Shape { Circle { radius: float; }, Unit }";

#[test]
fn test_default_options() {
    let opts = CodeGenOptions::default();
    assert!(matches!(opts.target_language, TargetLanguage::Rust));
    assert_eq!(opts.field_name_case, NameCase::Unchanged);
    assert_eq!(opts.type_name_case, NameCase::Unchanged);
    assert_eq!(opts.enum_item_name_case, NameCase::Unchanged);
    assert!(!opts.rust.with_debug);
    assert!(!opts.rust.with_serde);
    assert_eq!(opts.rust.serde_struct_field_name_case, NameCase::Unchanged);
    assert!(opts.rust.serde_enum_repr.is_none());
    assert_eq!(opts.csharp.namespace, "MyNamespace");
    assert!(opts.csharp.with_json_convert_for_union_tags);
    assert_eq!(NameCase::default(), NameCase::Unchanged);
    assert!(matches!(TargetLanguage::default(), TargetLanguage::Rust));
}

#[test]
fn test_every_case() {
    let cases = [
        (Case::Snake, "my_variable_name"),
        (Case::Constant, "MY_VARIABLE_NAME"),
        (Case::UpperSnake, "MY_VARIABLE_NAME"),
        (Case::Ada, "My_Variable_Name"),
        (Case::Kebab, "my-variable-name"),
        (Case::Cobol, "MY-VARIABLE-NAME"),
        (Case::UpperKebab, "MY-VARIABLE-NAME"),
        (Case::Train, "My-Variable-Name"),
        (Case::Flat, "myvariablename"),
        (Case::UpperFlat, "MYVARIABLENAME"),
        (Case::Pascal, "MyVariableName"),
        (Case::UpperCamel, "MyVariableName"),
        (Case::Camel, "myVariableName"),
        (Case::Lower, "my variable name"),
        (Case::Upper, "MY VARIABLE NAME"),
        (Case::Title, "My Variable Name"),
        (Case::Sentence, "My variable name"),
    ];
    for (case, expected) in cases {
        assert_eq!("My variable NAME".to_name_case(NameCase::Other(case)), expected);
    }
    assert_eq!("My variable NAME".to_name_case(NameCase::Unchanged), "My variable NAME");
    assert_eq!("fixedBars".to_string().to_name_case(NameCase::Other(Case::Snake)), "fixed_bars");
    assert_eq!("fixedBars".to_string().to_name_case(NameCase::Unchanged), "fixedBars");
}

#[test]
fn test_writer() {
    let mut writer = IndentedWriter::default();
    writer.write_indented_line("a");
    writer.push_indent();
    writer.write_indent();
    writer.write("b");
    writer.write_line("c");
    writer.push_indent();
    writer.write_indented("d");
    writer.write_string("e");
    writer.write_string_line("f");
    writer.pop_indent();
    writer.pop_indent();
    writer.pop_indent();
    writer.write_indented_line("g");
    writer.next_line();
    assert_eq!(writer.to_string(), "a\n    bc\n        def\ng\n\n");
}

#[test]
fn test_rust_structure() {
    let block = parse(
        "struct Foo { bar: float; baz: uint8; fixedBars: float[4]; dynamicBars: float[]; other: Foo; }",
    );
    assert_eq!(
        generate_rust(&CodeGenOptions::default(), &block),
        concat(&[
            "pub struct Foo {\n",
            "    pub bar: f32,\n",
            "    pub baz: u8,\n",
            "    pub fixedBars: [f32; 4],\n",
            "    pub dynamicBars: Vec<f32>,\n",
            "    pub other: Foo,\n",
            "}",
        ])
    );
}

#[test]
fn test_rust_structure_with_attributes_and_cases() {
    let block = parse("struct foo_bar { fixedBars: other_type[4]; x: string; }");
    let mut opts = CodeGenOptions::default();
    opts.type_name_case = NameCase::Other(Case::Pascal);
    opts.field_name_case = NameCase::Other(Case::Snake);
    opts.rust.with_debug = true;
    opts.rust.with_serde = true;
    opts.rust.serde_struct_field_name_case = NameCase::Other(Case::Camel);
    assert!(supports(&opts));
    assert_eq!(
        generate_rust(&opts, &block),
        concat(&[
            "#[derive(Debug)]\n",
            "#[derive(Serialize, Deserialize)]\n",
            "#[serde(rename_all = \"camelCase\")]\n",
            "pub struct FooBar {\n",
            "    pub fixed_bars: [OtherType; 4],\n",
            "    pub x: String,\n",
            "}",
        ])
    );
}

#[test]
fn test_rust_builtin_types() {
    let block = parse(concat(&[
        "struct T { a: uint8; b: uint16; c: uint32; d: uint64; e: uint128; f: int8; g: int16; ",
        "h: int32; i: int64; j: int128; k: float; l: float64; m: bool; n: string; }",
    ]).as_str());
    assert_eq!(
        generate_rust(&CodeGenOptions::default(), &block),
        concat(&[
            "pub struct T {\n",
            "    pub a: u8,\n    pub b: u16,\n    pub c: u32,\n    pub d: u64,\n    pub e: u128,\n",
            "    pub f: i8,\n    pub g: i16,\n    pub h: i32,\n    pub i: i64,\n    pub j: i128,\n",
            "    pub k: f32,\n    pub l: f64,\n    pub m: bool,\n    pub n: String,\n",
            "}",
        ])
    );
}

#[test]
fn test_rust_alias() {
    let block = parse("alias my_id = uint64; alias other = my_id;");
    let mut opts = CodeGenOptions::default();
    assert_eq!(generate_rust(&opts, &block), "pub type my_id = u64;\npub type other = my_id;\n");
    opts.type_name_case = NameCase::Other(Case::Pascal);
    assert_eq!(generate_rust(&opts, &block), "pub type MyId = u64;\npub type Other = MyId;\n");
}

#[test]
fn test_rust_plain_enum() {
    let block = parse("enum Foo { Bar = 1, baz_qux }");
    let mut opts = CodeGenOptions::default();
    assert_eq!(
        generate_rust(&opts, &block),
        concat(&[
            "#[derive(Clone, Copy, PartialEq, Eq)]\n",
            "pub enum Foo {\n",
            "    Bar = 1,\n",
            "    baz_qux,\n",
            "}\n",
        ])
    );
    opts.enum_item_name_case = NameCase::Other(Case::Pascal);
    opts.rust.with_debug = true;
    opts.rust.with_serde = true;
    assert_eq!(
        generate_rust(&opts, &block),
        concat(&[
            "#[derive(Clone, Copy, PartialEq, Eq)]\n",
            "#[derive(Debug)]\n",
            "#[derive(Serialize, Deserialize)]\n",
            "pub enum Foo {\n",
            "    Bar = 1,\n",
            "    BazQux,\n",
            "}\n",
        ])
    );
    opts.rust.serde_enum_repr = Some("u8".to_string());
    opts.rust.serde_struct_field_name_case = NameCase::Other(Case::UpperSnake);
    assert_eq!(
        generate_rust(&opts, &block),
        concat(&[
            "#[derive(Clone, Copy, PartialEq, Eq)]\n",
            "#[derive(Debug)]\n",
            "#[derive(Serialize_repr, Deserialize_repr)]\n",
            "#[repr(u8)]\n",
            "#[serde(rename_all = \"SCREAMING_SNAKE_CASE\")]\n",
            "pub enum Foo {\n",
            "    Bar = 1,\n",
            "    BazQux,\n",
            "}\n",
        ])
    );
}

#[test]
fn test_rust_tagged_union_has_a_variant_for_every_item() {
    let block = parse(SHAPE);
    let mut opts = CodeGenOptions::default();
    assert_eq!(
        generate_rust(&opts, &block),
        concat(&[
            "pub enum Shape {\n",
            "    Circle {\n",
            "        radius: f32,\n",
            "    },\n",
            "    Unit,\n",
            "}\n",
        ])
    );
    opts.rust.with_debug = true;
    opts.rust.with_serde = true;
    opts.rust.serde_struct_field_name_case = NameCase::Other(Case::Snake);
    assert_eq!(
        generate_rust(&opts, &block),
        concat(&[
            "#[derive(Debug)]\n",
            "#[derive(Serialize, Deserialize)]\n",
            "#[serde(tag = \"kind\", content = \"value\")]\n",
            "#[serde(rename_all = \"snake_case\")]\n",
            "pub enum Shape {\n",
            "    #[serde(rename_all = \"snake_case\")]\n",
            "    Circle {\n",
            "        radius: f32,\n",
            "    },\n",
            "    #[serde(rename_all = \"snake_case\")]\n",
            "    Unit,\n",
            "}\n",
        ])
    );
}

#[test]
fn test_rust_serde_case_names() {
    let cases = [
        (Case::Lower, "lowercase"),
        (Case::Upper, "UPPERCASE"),
        (Case::Pascal, "PascalCase"),
        (Case::Camel, "camelCase"),
        (Case::Snake, "snake_case"),
        (Case::UpperSnake, "SCREAMING_SNAKE_CASE"),
        (Case::Kebab, "kebab-case"),
        (Case::UpperKebab, "SCREAMING-KEBAB-CASE"),
    ];
    let block = parse("struct S { }");
    for (case, name) in cases {
        let mut opts = CodeGenOptions::default();
        opts.rust.with_serde = true;
        opts.rust.serde_struct_field_name_case = NameCase::Other(case);
        assert!(neatproto::rust::supports(&opts));
        assert_eq!(
            generate_rust(&opts, &block),
            format!(
                "#[derive(Serialize, Deserialize)]\n#[serde(rename_all = \"{}\")]\npub struct S {{\n}}",
                name
            )
        );
    }
}

#[test]
fn test_rust_unsupported_serde_case() {
    for case in [
        Case::Constant,
        Case::Ada,
        Case::Cobol,
        Case::Train,
        Case::Flat,
        Case::UpperFlat,
        Case::UpperCamel,
        Case::Title,
        Case::Sentence,
    ] {
        let mut opts = CodeGenOptions::default();
        opts.rust.serde_struct_field_name_case = NameCase::Other(case);
        assert!(supports(&opts));
        opts.rust.with_serde = true;
        assert!(!supports(&opts));
        assert!(!neatproto::rust::supports(&opts));
        opts.target_language = TargetLanguage::Csharp;
        assert!(supports(&opts));
    }
}

#[test]
fn test_rust_nested_blocks() {
    let block = parse("alias A = B; { alias C = D; { enum E { X } } struct S { f: bool; } } alias G = H;");
    assert_eq!(
        generate_rust(&CodeGenOptions::default(), &block),
        concat(&[
            "pub type A = B;\n",
            "{\n",
            "    pub type C = D;\n",
            "    {\n",
            "        #[derive(Clone, Copy, PartialEq, Eq)]\n",
            "        pub enum E {\n",
            "            X,\n",
            "        }\n",
            "    }\n",
            "    pub struct S {\n",
            "        pub f: bool,\n",
            "    }}\n",
            "pub type G = H;\n",
        ])
    );
}

#[test]
fn test_empty_block() {
    let block = parse("");
    assert_eq!(generate_rust(&CodeGenOptions::default(), &block), "");
    assert_eq!(
        generate_csharp(&CodeGenOptions::default(), &block),
        "using NeatProto;\n\nnamespace MyNamespace;\n\n"
    );
}

#[test]
fn test_generate_code_chooses_the_language() {
    let block = parse("alias A = uint8;");
    let mut opts = CodeGenOptions::default();
    assert_eq!(generate_code(&opts, &block), generate_rust(&opts, &block));
    assert_eq!(generate_code(&opts, &block), "pub type A = u8;\n");
    opts.target_language = TargetLanguage::Csharp;
    assert_eq!(generate_code(&opts, &block), generate_csharp(&opts, &block));
    assert!(generate_code(&opts, &block).starts_with("using NeatProto;"));
}

#[test]
fn test_generating_twice_gives_the_same_text() {
    let block = parse(concat(&["struct Foo { a: float[3]; } alias B = Foo; ", SHAPE, " { enum E { X = 2 } }"]).as_str());
    let mut opts = CodeGenOptions::default();
    opts.type_name_case = NameCase::Other(Case::Snake);
    opts.rust.with_serde = true;
    assert_eq!(generate_code(&opts, &block), generate_code(&opts, &block));
    opts.target_language = TargetLanguage::Csharp;
    assert_eq!(generate_code(&opts, &block), generate_code(&opts, &block));
}

#[test]
fn test_fields_keep_their_order_and_names() {
    let block = parse("struct Point { zeta: int32; alpha: Other; mid: float64[]; }");
    let rust = generate_rust(&CodeGenOptions::default(), &block);
    let zeta = rust.find("pub zeta: i32,").unwrap();
    let alpha = rust.find("pub alpha: Other,").unwrap();
    let mid = rust.find("pub mid: Vec<f64>,").unwrap();
    assert!(zeta < alpha && alpha < mid);
    let csharp = generate_csharp(&csharp_options(), &block);
    let zeta = csharp.find("public required int zeta { get; set; }").unwrap();
    let alpha = csharp.find("public required Other alpha { get; set; }").unwrap();
    let mid = csharp
        .find("public required global::System.Collections.Generic.List<double> mid { get; set; }")
        .unwrap();
    assert!(zeta < alpha && alpha < mid);
}

#[test]
fn test_analysis_marks_types_as_unresolved() {
    let mut block = parse("struct S { a: T; } { struct U { b: V; } } enum E { X { c: W; } }");
    let before = generate_rust(&CodeGenOptions::default(), &block);
    match &mut block.nodes[0] {
        BlockNode::Structure(structure) => {
            structure.fields[0].field_type.resolved = Some("T".to_string());
        }
        _ => panic!("not a structure"),
    }
    match &mut block.nodes[1] {
        BlockNode::Block(inner) => match &mut inner.nodes[0] {
            BlockNode::Structure(structure) => {
                structure.fields[0].field_type.resolved = Some("V".to_string());
            }
            _ => panic!("not a structure"),
        },
        _ => panic!("not a block"),
    }
    match &mut block.nodes[2] {
        BlockNode::Enum(e) => {
            e.items[0].structure.as_mut().unwrap().fields[0].field_type.resolved =
                Some("W".to_string());
        }
        _ => panic!("not an enumeration"),
    }
    analyze_block(&mut block);
    match &block.nodes[0] {
        BlockNode::Structure(structure) => {
            assert!(structure.fields[0].field_type.resolved.is_none());
            assert_eq!(structure.fields[0].name, "a");
        }
        _ => panic!("not a structure"),
    }
    match &block.nodes[1] {
        BlockNode::Block(inner) => match &inner.nodes[0] {
            BlockNode::Structure(structure) => {
                assert!(structure.fields[0].field_type.resolved.is_none());
            }
            _ => panic!("not a structure"),
        },
        _ => panic!("not a block"),
    }
    match &block.nodes[2] {
        BlockNode::Enum(e) => {
            let payload = e.items[0].structure.as_ref().unwrap();
            assert_eq!(payload.fields[0].field_type.resolved.as_deref(), Some("W"));
        }
        _ => panic!("not an enumeration"),
    }
    assert_eq!(generate_rust(&CodeGenOptions::default(), &block), before);
}

#[test]
fn test_csharp_structure() {
    let block = parse(
        "struct Foo { bar: float; baz: Other; fixedBars: float[4]; dynamicBars: uint128[]; }",
    );
    assert_eq!(generate_csharp(&csharp_options(), &block), CS_STRUCTURE);
}

#[test]
fn test_csharp_builtin_types() {
    let block = parse(concat(&[
        "struct T { a: uint8; b: uint16; c: uint32; d: uint64; f: int8; g: int16; ",
        "h: int32; i: int64; j: int128; l: float64; m: bool; n: string; }",
    ]).as_str());
    let text = generate_csharp(&csharp_options(), &block);
    for line in [
        "byte a", "ushort b", "uint c", "ulong d", "sbyte f", "short g", "int h", "long i",
        "global::System.Int128 j", "double l", "bool m", "string n",
    ] {
        assert!(text.contains(&format!("    public required {} {{ get; set; }}\n", line)));
    }
}

#[test]
fn test_csharp_alias_is_a_type_of_its_own() {
    let block = parse("alias UserId = uint64;");
    assert_eq!(generate_csharp(&csharp_options(), &block), CS_ALIAS);
}

#[test]
fn test_csharp_plain_enum() {
    let block = parse("enum Foo { Bar = 1, Baz }");
    assert_eq!(generate_csharp(&csharp_options(), &block), CS_PLAIN_ENUM);
}

#[test]
fn test_csharp_tagged_union_has_a_case_for_every_item() {
    let block = parse(SHAPE);
    assert_eq!(generate_csharp(&csharp_options(), &block), CS_UNION);
    let mut opts = csharp_options();
    opts.csharp.with_json_convert_for_union_tags = false;
    assert_eq!(generate_csharp(&opts, &block), CS_UNION_NO_JSON);
}

#[test]
fn test_csharp_tags_follow_the_case_of_items() {
    let block = parse("enum some_union { first_case { a: bool; }, second_case }");
    let mut opts = csharp_options();
    opts.csharp.with_json_convert_for_union_tags = false;
    let text = generate_csharp(&opts, &block);
    assert!(text.contains("public static some_unionType Kind => some_unionType.firstCase;"));
    assert!(text.contains(
        "public static readonly some_unionType secondCase = new(\"secondCase\");"
    ));
    opts.enum_item_name_case = NameCase::Other(Case::Pascal);
    opts.type_name_case = NameCase::Other(Case::Pascal);
    let text = generate_csharp(&opts, &block);
    assert!(text.contains("public class FirstCase : SomeUnion, global::NeatProto.ITaggedUnionCase<SomeUnionType>"));
    assert!(text.contains("public static SomeUnionType Kind => SomeUnionType.FirstCase;"));
    assert!(text.contains("public static readonly SomeUnionType SecondCase = new(\"SecondCase\");"));
}

#[test]
fn test_csharp_nested_blocks() {
    let block = parse(concat(&["{ ", SHAPE, " alias A = B; } struct S { }"]).as_str());
    let mut opts = csharp_options();
    opts.csharp.namespace = "N".to_string();
    assert_eq!(generate_csharp(&opts, &block), CS_NESTED);
}

const CS_STRUCTURE: &str = "using NeatProto;\n\nnamespace MyNamespace;\n\npublic class Foo\n{\n    [global::System.ComponentModel.DataAnnotations.Required]\n    public required float bar { get; set; }\n    [global::System.ComponentModel.DataAnnotations.Required]\n    public required Other baz { get; set; }\n    [global::System.ComponentModel.DataAnnotations.Required]\n    public required float[/* 4 */] fixedBars { get; set; }\n    [global::System.ComponentModel.DataAnnotations.Required]\n    public required global::System.Collections.Generic.List<global::System.UInt128> dynamicBars { get; set; }\n}\n";

const CS_ALIAS: &str = "using NeatProto;\n\nnamespace MyNamespace;\n\n[global::System.Text.Json.Serialization.JsonConverter(typeof(UserIdJsonConverter))]\npublic record struct UserId(ulong Value)\n{\n    public override string ToString() => Value.ToString();\n\n    public static implicit operator ulong(UserId alias) => alias.Value;\n    public static implicit operator UserId(ulong alias) => new(alias);\n}\npublic class UserIdJsonConverter : global::System.Text.Json.Serialization.JsonConverter<UserId>\n{\n    public override void Write(\n        global::System.Text.Json.Utf8JsonWriter writer,\n        UserId aliasType,\n        global::System.Text.Json.JsonSerializerOptions options)\n    {\n        writer.WriteValue(aliasType.Value);\n    }\n\n    public override UserId Read(\n        ref global::System.Text.Json.Utf8JsonReader reader,\n        global::System.Type typeToConvert,\n        global::System.Text.Json.JsonSerializerOptions options)\n    {\n        reader.Get(out ulong value);\n        return value;\n    }\n}\n";

const CS_PLAIN_ENUM: &str = "using NeatProto;\n\nnamespace MyNamespace;\n\npublic enum Foo {\n    Bar = 1,\n    Baz,\n}\n";

const CS_UNION: &str = "using NeatProto;\n\nnamespace MyNamespace;\n\npublic abstract class Shape\n{\n    public class Circle : Shape, global::NeatProto.ITaggedUnionCase<ShapeType>\n    {\n        public static ShapeType Kind => ShapeType.circle;\n        [global::System.ComponentModel.DataAnnotations.Required]\n        public required float radius { get; set; }\n    }\n    public class Unit : Shape, global::NeatProto.ITaggedUnionCase<ShapeType>\n    {\n        public static ShapeType Kind => ShapeType.unit;\n    }\n\n}\n[global::System.Text.Json.Serialization.JsonConverter(typeof(ShapeTypeJsonConverter))]\npublic readonly record struct ShapeType(string Value)\n{\n    public static readonly ShapeType circle = new(\"circle\");\n    public static readonly ShapeType unit = new(\"unit\");\n}\npublic class ShapeTypeJsonConverter : global::System.Text.Json.Serialization.JsonConverter<ShapeType>\n{\n    public override void Write(\n        global::System.Text.Json.Utf8JsonWriter writer,\n        ShapeType messageType,\n        global::System.Text.Json.JsonSerializerOptions options)\n    {\n        writer.WriteStringValue(messageType.Value);\n    }\n\n    public override ShapeType Read(\n        ref global::System.Text.Json.Utf8JsonReader reader,\n        global::System.Type typeToConvert,\n        global::System.Text.Json.JsonSerializerOptions options)\n    {\n        if (reader.TokenType != global::System.Text.Json.JsonTokenType.String)\n            throw new global::System.Text.Json.JsonException($\"Expected string token, but got {reader.TokenType}\");\n\n        var value = reader.GetString();\n        return value switch\n        {\n            nameof(ShapeType.circle) => ShapeType.circle,\n            nameof(ShapeType.unit) => ShapeType.unit,\n\n            _ => throw new global::System.Text.Json.JsonException($\"Unknown type: {value}\")\n        };\n    }\n}\n";

const CS_UNION_NO_JSON: &str = "using NeatProto;\n\nnamespace MyNamespace;\n\npublic abstract class Shape\n{\n    public class Circle : Shape, global::NeatProto.ITaggedUnionCase<ShapeType>\n    {\n        public static ShapeType Kind => ShapeType.circle;\n        [global::System.ComponentModel.DataAnnotations.Required]\n        public required float radius { get; set; }\n    }\n    public class Unit : Shape, global::NeatProto.ITaggedUnionCase<ShapeType>\n    {\n        public static ShapeType Kind => ShapeType.unit;\n    }\n\n}\npublic readonly record struct ShapeType(string Value)\n{\n    public static readonly ShapeType circle = new(\"circle\");\n    public static readonly ShapeType unit = new(\"unit\");\n}\n";

const CS_NESTED: &str = "using NeatProto;\n\nnamespace N;\n\n{\n    public abstract class Shape\n    {\n        public class Circle : Shape, global::NeatProto.ITaggedUnionCase<ShapeType>\n        {\n            public static ShapeType Kind => ShapeType.circle;\n            [global::System.ComponentModel.DataAnnotations.Required]\n            public required float radius { get; set; }\n        }\n        public class Unit : Shape, global::NeatProto.ITaggedUnionCase<ShapeType>\n        {\n            public static ShapeType Kind => ShapeType.unit;\n        }\n\n    }\n    [global::System.Text.Json.Serialization.JsonConverter(typeof(ShapeTypeJsonConverter))]\n    public readonly record struct ShapeType(string Value)\n    {\n        public static readonly ShapeType circle = new(\"circle\");\n        public static readonly ShapeType unit = new(\"unit\");\n    }\n    public class ShapeTypeJsonConverter : global::System.Text.Json.Serialization.JsonConverter<ShapeType>\n{\n    public override void Write(\n        global::System.Text.Json.Utf8JsonWriter writer,\n        ShapeType messageType,\n        global::System.Text.Json.JsonSerializerOptions options)\n    {\n        writer.WriteStringValue(messageType.Value);\n    }\n\n    public override ShapeType Read(\n        ref global::System.Text.Json.Utf8JsonReader reader,\n        global::System.Type typeToConvert,\n        global::System.Text.Json.JsonSerializerOptions options)\n    {\n        if (reader.TokenType != global::System.Text.Json.JsonTokenType.String)\n            throw new global::System.Text.Json.JsonException($\"Expected string token, but got {reader.TokenType}\");\n\n        var value = reader.GetString();\n        return value switch\n        {\n                nameof(ShapeType.circle) => ShapeType.circle,\n                nameof(ShapeType.unit) => ShapeType.unit,\n    \n            _ => throw new global::System.Text.Json.JsonException($\"Unknown type: {value}\")\n        };\n    }\n    }\n    [global::System.Text.Json.Serialization.JsonConverter(typeof(AJsonConverter))]\npublic record struct A(B Value)\n{\n    public override string ToString() => Value.ToString();\n\n    public static implicit operator B(A alias) => alias.Value;\n    public static implicit operator A(B alias) => new(alias);\n}\n    public class AJsonConverter : global::System.Text.Json.Serialization.JsonConverter<A>\n{\n    public override void Write(\n        global::System.Text.Json.Utf8JsonWriter writer,\n        A aliasType,\n        global::System.Text.Json.JsonSerializerOptions options)\n    {\n        writer.WriteValue(aliasType.Value);\n    }\n\n    public override A Read(\n        ref global::System.Text.Json.Utf8JsonReader reader,\n        global::System.Type typeToConvert,\n        global::System.Text.Json.JsonSerializerOptions options)\n    {\n        reader.Get(out B value);\n        return value;\n    }\n}\n}\npublic class S\n{\n}\n";

#[test]
fn test_compile() {
    let source_file = SourceFile::new_from_source("shapes.np", "alias Id = uint32;\nstruct P { id: Id; }");
    let mut opts = CodeGenOptions::default();
    assert_eq!(
        CompilationUnit::new(&source_file).compile(&opts).unwrap(),
        "pub type Id = u32;\npub struct P {\n    pub id: Id,\n}"
    );
    opts.target_language = TargetLanguage::Csharp;
    assert_eq!(
        CompilationUnit::new(&source_file).compile(&opts).unwrap(),
        generate_csharp(&opts, &parse("alias Id = uint32;\nstruct P { id: Id; }"))
    );
    let broken = SourceFile::new_from_source("shapes.np", "alias Id = uint32;\nstruct P { id Id; }");
    let error = CompilationUnit::new(&broken).compile(&opts).unwrap_err();
    assert_eq!(
        error.to_string(),
        "Parse error: Expected ':' in file 'shapes.np' at line 2:15"
    );
    let CompileError::Parse(parse_error) = error;
    assert_eq!(parse_error.location.line, 2);
}

fn type_of_first_field(source: &str) -> neatproto::types::TypeName {
    let mut block = parse(source);
    match block.nodes.remove(0) {
        BlockNode::Structure(mut structure) => structure.fields.remove(0).field_type,
        _ => panic!("not a structure"),
    }
}

#[test]
fn test_csharp_sized_array_carries_its_size() {
    let opts = csharp_options();
    let sized = type_of_first_field("struct S { a: float[4]; }");
    let unsized_array = type_of_first_field("struct S { a: float[]; }");
    let scalar = type_of_first_field("struct S { a: float; }");
    assert_eq!(neatproto::csharp::get_full_type_name(&opts, &sized), "float[/* 4 */]");
    assert_eq!(
        neatproto::csharp::get_full_type_name(&opts, &unsized_array),
        "global::System.Collections.Generic.List<float>"
    );
    assert_eq!(neatproto::csharp::get_full_type_name(&opts, &scalar), "float");
    let long = type_of_first_field("struct S { a: Other[0012]; }");
    assert_eq!(neatproto::csharp::get_full_type_name(&opts, &long), "Other[/* 0012 */]");
}

#[test]
fn test_rust_sized_array_carries_its_size() {
    let opts = CodeGenOptions::default();
    let sized = type_of_first_field("struct S { a: float[4]; }");
    let unsized_array = type_of_first_field("struct S { a: Other[]; }");
    assert_eq!(neatproto::rust::get_full_type_name(&opts, &sized), "[f32; 4]");
    assert_eq!(neatproto::rust::get_full_type_name(&opts, &unsized_array), "Vec<Other>");
}

#[test]
fn test_writing_a_structure_at_a_level() {
    let block = parse("struct pair_of { first_one: int8; second_one: pair_of[]; }");
    let structure = match &block.nodes[0] {
        BlockNode::Structure(structure) => structure,
        _ => panic!("not a structure"),
    };
    let mut opts = CodeGenOptions::default();
    opts.type_name_case = NameCase::Other(Case::Pascal);
    opts.field_name_case = NameCase::Other(Case::Camel);
    let mut writer = IndentedWriter::default();
    writer.write("// before\n");
    writer.push_indent();
    neatproto::rust::write_structure(&opts, &mut writer, structure);
    writer.write("|");
    neatproto::csharp::write_structure(&opts, &mut writer, structure);
    writer.write_indented("|");
    assert_eq!(
        writer.to_string(),
        concat(&[
            "// before\n",
            "    pub struct PairOf {\n",
            "        pub firstOne: i8,\n",
            "        pub secondOne: Vec<PairOf>,\n",
            "    }|",
            "    public class PairOf\n",
            "    {\n",
            "        [global::System.ComponentModel.DataAnnotations.Required]\n",
            "        public required sbyte firstOne { get; set; }\n",
            "        [global::System.ComponentModel.DataAnnotations.Required]\n",
            "        public required global::System.Collections.Generic.List<PairOf> secondOne { get; set; }\n",
            "    }\n",
            "    |",
        ])
    );
}

#[test]
fn test_writing_an_enumeration_keeps_the_level() {
    let block = parse(SHAPE);
    let e = match &block.nodes[0] {
        BlockNode::Enum(e) => e,
        _ => panic!("not an enumeration"),
    };
    let opts = csharp_options();
    let mut writer = IndentedWriter::default();
    writer.push_indent();
    neatproto::csharp::write_enum(&opts, &mut writer, e);
    writer.write_indented("|");
    let text = writer.to_string();
    assert!(text.ends_with("\n    }\n    }\n    |"));

    let mut union_writer = IndentedWriter::default();
    neatproto::csharp::write_tagged_union(&opts, &mut union_writer, e);
    let mut enum_writer = IndentedWriter::default();
    neatproto::csharp::write_enum(&opts, &mut enum_writer, e);
    assert_eq!(enum_writer.to_string(), union_writer.to_string());

    let rust_opts = CodeGenOptions::default();
    let mut union_writer = IndentedWriter::default();
    neatproto::rust::write_tagged_union(&rust_opts, &mut union_writer, e);
    let mut enum_writer = IndentedWriter::default();
    neatproto::rust::write_enum(&rust_opts, &mut enum_writer, e);
    assert_eq!(enum_writer.to_string(), union_writer.to_string());
}
