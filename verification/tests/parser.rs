use neatproto::nodes::{BlockNode, EnumItem};
use neatproto::parser::{
    parse_alias, parse_block, parse_block_node, parse_enum, parse_structure,
    parse_structure_body, parse_structure_field,
};
use neatproto::source_file::SourceFile;
use neatproto::token::Token;
use neatproto::tokens::{ParseResult, Tokens};
use neatproto::error::ParseError;

fn parse_with<T>(source: &str, rule: fn(&mut Tokens) -> ParseResult<T>) -> T {
    let source_file = SourceFile::new_from_source("test", source);
    match rule(&mut source_file.tokens()) {
        Ok(value) => value,
        Err(error) => panic!("{}", error.to_string()),
    }
}

fn error_of<T>(source: &str, rule: fn(&mut Tokens) -> ParseResult<T>) -> String {
    let source_file = SourceFile::new_from_source("test", source);
    match rule(&mut source_file.tokens()) {
        Ok(_) => panic!("the text was accepted"),
        Err(error) => error.to_string(),
    }
}

#[test]
fn test_alias() {
    let alias = parse_with("foo = bar;", parse_alias);
    assert_eq!(&alias.alias_name, "foo");
    assert_eq!(&alias.aliased_type_name, "bar");
}

#[test]
fn test_invalid_alias() {
    assert_eq!(error_of(";", parse_alias), "Expected an identifier in file 'test' at line 1:1");
    assert_eq!(error_of("test;", parse_alias), "Expected '=' in file 'test' at line 1:5");
    assert_eq!(
        error_of("123 = bar;", parse_alias),
        "Expected an identifier in file 'test' at line 1:1"
    );
    assert_eq!(
        error_of("bar = 123;", parse_alias),
        "Expected an identifier in file 'test' at line 1:7"
    );
    assert_eq!(error_of("bar = baz", parse_alias), "Unexpected end of file in file 'test' at line 1:10");
}

#[test]
fn test_empty_source() {
    let root_block = parse_with("", parse_block);
    assert_eq!(root_block.nodes.len(), 0);
}

#[test]
fn test_blank_source() {
    let root_block = parse_with("  \n\t \n", parse_block);
    assert_eq!(root_block.nodes.len(), 0);
}

#[test]
#[should_panic(expected = "Unknown identifier 'foo' in file 'test' at line 1:1")]
fn test_unknown_identifier() {
    parse_with("foo", parse_block);
}

#[test]
fn test_unknown_identifier_is_reported_at_its_place() {
    let source_file = SourceFile::new_from_source("test", "foo");
    let error = parse_block(&mut source_file.tokens()).unwrap_err();
    assert!(matches!(&error.error, ParseError::UnknownIdentifier(name) if name == "foo"));
    assert_eq!(error.location.line, 1);
    assert_eq!(error.location.column, 1);
    assert_eq!(error.location.file_path, "test");
}

#[test]
fn test_structure_in_block() {
    let root_block = parse_with("struct Foo { bar: float; baz: uint8; }", parse_block);
    let first_node = root_block.nodes.first().expect("root block is empty");
    assert!(matches!(first_node, BlockNode::Structure(_)));
    match first_node {
        BlockNode::Structure(structure) => {
            assert_eq!(structure.name, "Foo");
            assert_eq!(structure.fields.len(), 2);
            assert_eq!(structure.fields[0].name, "bar");
            assert_eq!(structure.fields[0].field_type.token.value(), "float");
            assert_eq!(structure.fields[1].name, "baz");
            assert_eq!(structure.fields[1].field_type.token.value(), "uint8");
        }
        _ => unreachable!(),
    }
}

#[test]
#[should_panic(expected = "Unexpected end of file in file 'test' at line 1:7")]
fn test_structure_eof() {
    parse_with("struct", parse_block);
}

#[test]
fn test_alias_in_block() {
    let root_block = parse_with("alias Foo = Bar;", parse_block);
    let first_node = root_block.nodes.first().expect("root block is empty");
    assert!(matches!(first_node, BlockNode::Alias(_)));
}

#[test]
fn test_alias_names_in_block() {
    let root_block = parse_with("alias foo = bar;", parse_block);
    assert_eq!(root_block.nodes.len(), 1);
    match &root_block.nodes[0] {
        BlockNode::Alias(alias) => {
            assert_eq!(alias.alias_name, "foo");
            assert_eq!(alias.aliased_type_name, "bar");
        }
        _ => panic!("not an alias"),
    }
}

#[test]
#[should_panic(expected = "Unexpected end of file in file 'test' at line 1:6")]
fn test_alias_eof() {
    parse_with("alias", parse_block);
}

#[test]
fn test_enum_in_block() {
    let root_block = parse_with("enum Foo { Bar, Baz }", parse_block);
    let first_node = root_block.nodes.first().expect("root block is empty");
    assert!(matches!(first_node, BlockNode::Enum(_)));
}

#[test]
#[should_panic(expected = "Unexpected end of file in file 'test' at line 1:5")]
fn test_enum_eof() {
    parse_with("enum", parse_block);
}

#[test]
fn test_enum() {
    let e = parse_with("Foo { Bar = 1, Baz }", parse_enum);
    assert_eq!(&e.name, "Foo");

    let item_bar = e.items.get(0).expect("item #0 was not found");
    assert_eq!(&item_bar.name, "Bar");
    assert_eq!(
        item_bar
            .value_token
            .as_ref()
            .expect("item #0 should have a value")
            .token,
        Token::Digit("1".to_string())
    );

    let item_baz = e.items.get(1).expect("item #1 was not found");
    assert_eq!(&item_baz.name, "Baz");
    assert!(item_baz.value_token.is_none());
    assert!(item_bar.structure.is_none());
    assert!(item_baz.structure.is_none());
    assert!(!e.is_tagged_union());
    assert_eq!(e.items.len(), 2);
}

#[test]
fn test_enum_with_dangling_comma() {
    let e = parse_with("Foo { Bar, Baz, }", parse_enum);
    assert_eq!(e.items.len(), 2);
    assert_eq!(e.items[0].name, "Bar");
    assert_eq!(e.items[1].name, "Baz");
}

#[test]
fn test_empty_enum() {
    let e = parse_with("Foo {}", parse_enum);
    assert_eq!(e.name, "Foo");
    assert_eq!(e.items.len(), 0);
}

#[test]
fn test_enum_without_comma() {
    let source_file = SourceFile::new_from_source("test", "enum Foo { Bar Baz }");
    let error = parse_block(&mut source_file.tokens()).unwrap_err();
    assert!(
        matches!(&error.error, ParseError::UnexpectedToken(Token::Identifier(name)) if name == "Baz")
    );
    assert_eq!(error.to_string(), "Unexpected token 'Baz' in file 'test' at line 1:16");
}

#[test]
fn test_enum_with_string_value() {
    let source_file = SourceFile::new_from_source("test", "enum Foo { Bar = \"x\" }");
    let error = parse_block(&mut source_file.tokens()).unwrap_err();
    assert!(matches!(error.error, ParseError::ExpectedLiteral));
    assert_eq!(error.location.line, 1);
    assert_eq!(error.location.column, 18);
}

#[test]
fn test_tagged_union() {
    fn test_tagged_union_item(
        item: &EnumItem,
        item_name: &str,
        field_a_name: &str,
        field_a_type_name: &str,
        field_b_name: &str,
        field_b_type_name: &str,
    ) {
        assert_eq!(&item.name, item_name);
        assert!(item.value_token.is_none());

        let fields = &item.structure.as_ref().unwrap().fields;
        assert_eq!(fields.len(), 2);

        let field_a = fields.get(0).unwrap();
        assert_eq!(field_a.name, field_a_name);
        assert_eq!(
            field_a.field_type.token.token,
            Token::Identifier(field_a_type_name.into())
        );

        let field_b = fields.get(1).unwrap();
        assert_eq!(field_b.name, field_b_name);
        assert_eq!(
            field_b.field_type.token.token,
            Token::Identifier(field_b_type_name.into())
        );
    }

    let e = parse_with(
        r#"
            Foo {
                Bar {
                    a: float;
                    b: uint32;
                },
                Baz {
                    a: uint32;
                    b: float;
                },
                Unit,
            }"#,
        parse_enum,
    );
    assert_eq!(&e.name, "Foo");

    test_tagged_union_item(e.items.get(0).unwrap(), "Bar", "a", "float", "b", "uint32");
    test_tagged_union_item(e.items.get(1).unwrap(), "Baz", "a", "uint32", "b", "float");
    assert_eq!(e.items.len(), 3);
    assert_eq!(e.items[2].name, "Unit");
    assert!(e.items[2].structure.is_none());
    assert_eq!(e.items[0].structure.as_ref().unwrap().name, "Bar");
    assert!(e.is_tagged_union());
}

#[test]
fn test_invalid_enum() {
    assert_eq!(error_of(";", parse_enum), "Expected an identifier in file 'test' at line 1:1");
    assert_eq!(error_of("Foo;", parse_enum), "Expected '{' in file 'test' at line 1:4");
    assert_eq!(error_of("Foo {", parse_enum), "Unexpected end of file in file 'test' at line 1:6");
    assert_eq!(
        error_of("Foo { Bar = \"strings-not-allowed\" }", parse_enum),
        "Expected a literal in file 'test' at line 1:13"
    );
    assert_eq!(error_of("Foo { = 1 }", parse_enum), "Unexpected token '=' in file 'test' at line 1:7");
    assert_eq!(error_of("Foo { { } }", parse_enum), "Unexpected token '{' in file 'test' at line 1:7");
    assert_eq!(error_of("Foo { Bar; }", parse_enum), "Unexpected token ';' in file 'test' at line 1:10");
    assert_eq!(error_of("Foo { Bar =", parse_enum), "Unexpected end of file in file 'test' at line 1:12");
}

#[test]
fn test_structure() {
    let structure = parse_with(
        "Foo { bar: float; baz: uint8; fixedBars: float[4]; dynamicBars: float[]; }",
        parse_structure,
    );
    assert_eq!(&structure.name, "Foo");

    let field_bar = structure.fields.get(0).expect("field #0 was not found");
    assert_eq!(&field_bar.name, "bar");
    assert_eq!(&field_bar.field_type.token.value(), "float");

    let field_baz = structure.fields.get(1).expect("field #1 was not found");
    assert_eq!(&field_baz.name, "baz");
    assert_eq!(&field_baz.field_type.token.value(), "uint8");

    let field_fixed_bars = structure.fields.get(2).expect("field #2 was not found");
    assert_eq!(&field_fixed_bars.name, "fixedBars");
    assert_eq!(&field_fixed_bars.field_type.token.value(), "float");
    assert_eq!(field_fixed_bars.field_type.is_array, true);
    assert_eq!(
        field_fixed_bars
            .field_type
            .array_size
            .as_ref()
            .unwrap()
            .token,
        Token::Digit("4".into())
    );

    let field_dynamic_bars = structure.fields.get(3).expect("field #3 was not found");
    assert_eq!(&field_dynamic_bars.name, "dynamicBars");
    assert_eq!(&field_dynamic_bars.field_type.token.value(), "float");
    assert_eq!(field_dynamic_bars.field_type.is_array, true);
    assert!(field_dynamic_bars.field_type.array_size.is_none());

    assert_eq!(field_bar.field_type.is_array, false);
    assert!(field_bar.field_type.array_size.is_none());
    assert!(field_bar.field_type.resolved.is_none());
    assert_eq!(structure.fields.len(), 4);
}

#[test]
fn test_invalid_structure() {
    assert_eq!(error_of(";", parse_structure), "Expected an identifier in file 'test' at line 1:1");
    assert_eq!(error_of("Foo;", parse_structure), "Expected '{' in file 'test' at line 1:4");
    assert_eq!(
        error_of("Foo {", parse_structure),
        "Unexpected end of file in file 'test' at line 1:6"
    );
    assert_eq!(
        error_of("Foo { ; }", parse_structure),
        "Unexpected token ';' in file 'test' at line 1:7"
    );
}

#[test]
fn test_invalid_structure_field() {
    assert_eq!(error_of("Foo { bar; }", parse_structure), "Expected ':' in file 'test' at line 1:10");
    assert_eq!(
        error_of("Foo { bar:; }", parse_structure),
        "Expected an identifier in file 'test' at line 1:11"
    );
    assert_eq!(
        error_of("Foo { bar:type }", parse_structure),
        "Unexpected token '}' in file 'test' at line 1:16"
    );
    assert_eq!(
        error_of("Foo { bar: float[x]; }", parse_structure),
        "Unexpected token 'x' in file 'test' at line 1:18"
    );
    assert_eq!(
        error_of("Foo { bar: float[4; }", parse_structure),
        "Expected ']' in file 'test' at line 1:19"
    );
    assert_eq!(
        error_of("Foo { bar: float[] }", parse_structure),
        "Expected ';' in file 'test' at line 1:20"
    );
    assert_eq!(
        error_of("Foo { bar: float[", parse_structure),
        "Unexpected end of file in file 'test' at line 1:18"
    );
}

#[test]
fn test_structure_field_after_its_name() {
    let source_file = SourceFile::new_from_source("test", ": uint16[12];");
    let field = parse_structure_field(&mut source_file.tokens(), "count".to_string()).unwrap();
    assert_eq!(field.name, "count");
    assert_eq!(field.field_type.token.token, Token::Identifier("uint16".into()));
    assert_eq!(field.field_type.token.location.column, 3);
    assert!(field.field_type.is_array);
    assert_eq!(field.field_type.array_size.unwrap().token, Token::Digit("12".into()));
}

#[test]
fn test_structure_body_stops_at_the_closing_brace() {
    let source_file = SourceFile::new_from_source("test", "a: bool; } alias");
    let mut tokens = source_file.tokens();
    let fields = parse_structure_body(&mut tokens).unwrap();
    assert_eq!(fields.len(), 1);
    assert_eq!(tokens.next().unwrap().token, Token::Identifier("alias".into()));
}

#[test]
fn test_nested_blocks() {
    let root_block = parse_with("{ alias A = B; { struct S { } } } enum E { }", parse_block);
    assert_eq!(root_block.nodes.len(), 2);
    match &root_block.nodes[0] {
        BlockNode::Block(outer) => {
            assert_eq!(outer.nodes.len(), 2);
            assert!(matches!(outer.nodes[0], BlockNode::Alias(_)));
            match &outer.nodes[1] {
                BlockNode::Block(inner) => {
                    assert_eq!(inner.nodes.len(), 1);
                    assert!(matches!(inner.nodes[0], BlockNode::Structure(_)));
                }
                _ => panic!("not a block"),
            }
        }
        _ => panic!("not a block"),
    }
    assert!(matches!(root_block.nodes[1], BlockNode::Enum(_)));
}

#[test]
fn test_invalid_blocks() {
    assert_eq!(error_of("}", parse_block), "Unexpected token '}' in file 'test' at line 1:1");
    assert_eq!(error_of("{ alias A = B;", parse_block), "Unexpected end of file in file 'test' at line 1:15");
    assert_eq!(error_of("{ foo }", parse_block), "Unknown identifier 'foo' in file 'test' at line 1:3");
    assert_eq!(error_of("alias A = B;\n  ;", parse_block), "Unexpected token ';' in file 'test' at line 2:3");
    assert_eq!(error_of("struct\n\n", parse_block), "Unexpected end of file in file 'test' at line 3:1");
}

#[test]
fn test_block_node_after_its_first_token() {
    let source_file = SourceFile::new_from_source("test", "alias Foo = Bar;");
    let mut tokens = source_file.tokens();
    let first = tokens.next().unwrap();
    let node = parse_block_node(&mut tokens, first).unwrap();
    assert!(matches!(node, BlockNode::Alias(_)));
    assert!(tokens.next().is_none());
}

#[test]
fn test_arrays_in_block() {
    let root_block =
        parse_with("struct Foo { fixedBars: float[4]; dynamicBars: float[]; }", parse_block);
    match &root_block.nodes[0] {
        BlockNode::Structure(structure) => {
            assert_eq!(structure.fields.len(), 2);
            assert!(structure.fields[0].field_type.is_array);
            assert_eq!(
                structure.fields[0].field_type.array_size.as_ref().unwrap().token,
                Token::Digit("4".into())
            );
            assert!(structure.fields[1].field_type.is_array);
            assert!(structure.fields[1].field_type.array_size.is_none());
        }
        _ => panic!("not a structure"),
    }
}

#[test]
fn test_plain_enum_in_block() {
    let root_block = parse_with("enum Foo { Bar = 1, Baz }", parse_block);
    match &root_block.nodes[0] {
        BlockNode::Enum(e) => {
            assert!(!e.is_tagged_union());
            assert_eq!(e.items.len(), 2);
            assert_eq!(e.items[0].name, "Bar");
            assert_eq!(e.items[0].value_token.as_ref().unwrap().token, Token::Digit("1".into()));
            assert_eq!(e.items[1].name, "Baz");
            assert!(e.items[1].value_token.is_none());
        }
        _ => panic!("not an enumeration"),
    }
}

#[test]
fn test_enum_with_dangling_comma_in_block() {
    let root_block = parse_with("enum Foo { Bar, Baz, }", parse_block);
    match &root_block.nodes[0] {
        BlockNode::Enum(e) => assert_eq!(e.items.len(), 2),
        _ => panic!("not an enumeration"),
    }
}

#[test]
fn test_enum_value_needs_the_name_before_it() {
    assert_eq!(
        error_of("Foo { Bar, = 1 }", parse_enum),
        "Unexpected token '=' in file 'test' at line 1:12"
    );
    assert_eq!(
        error_of("Foo { Bar = 1 = 2 }", parse_enum),
        "Unexpected token '=' in file 'test' at line 1:15"
    );
    assert_eq!(
        error_of("Foo { Bar { a: bool; } = 2 }", parse_enum),
        "Unexpected token '=' in file 'test' at line 1:24"
    );
    let source_file = SourceFile::new_from_source("test", "Foo { Bar, = 1 }");
    let error = parse_enum(&mut source_file.tokens()).unwrap_err();
    assert!(matches!(error.error, ParseError::UnexpectedToken(Token::Equal)));
}

#[test]
fn test_enum_body_needs_the_name_before_it() {
    assert_eq!(
        error_of("Foo { Bar, { a: bool; } }", parse_enum),
        "Unexpected token '{' in file 'test' at line 1:12"
    );
    assert_eq!(
        error_of("Foo { Bar = 1 { } }", parse_enum),
        "Unexpected token '{' in file 'test' at line 1:15"
    );
    assert_eq!(
        error_of("Foo { Bar { } { } }", parse_enum),
        "Unexpected token '{' in file 'test' at line 1:15"
    );
    let source_file = SourceFile::new_from_source("test", "Foo { Bar = 1 { } }");
    let error = parse_enum(&mut source_file.tokens()).unwrap_err();
    assert!(matches!(error.error, ParseError::UnexpectedToken(Token::BraceOpen)));
}

#[test]
fn test_enum_items_have_a_value_or_a_body_or_neither() {
    let e = parse_with("Foo { A = 7, B { x: bool; }, C, D = 0 }", parse_enum);
    assert_eq!(e.items.len(), 4);
    assert!(e.items[0].value_token.is_some() && e.items[0].structure.is_none());
    assert!(e.items[1].value_token.is_none() && e.items[1].structure.is_some());
    assert!(e.items[2].value_token.is_none() && e.items[2].structure.is_none());
    assert_eq!(e.items[3].value_token.as_ref().unwrap().token, Token::Digit("0".into()));
}
