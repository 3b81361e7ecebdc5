use definition_parser::ast::{SyntaxIdentifier, SyntaxTypeId};
use definition_parser::encode::{collect_int_encoded_info, to_hex, u128_to_dec, i128_to_dec};
use definition_parser::error::{ErrorKind, IntegerCause, Span};
use definition_parser::node::{Node, Rule};
use definition_parser::parse_definitions;
use definition_parser::samples::{
    compact_encoded_info, parse_command, string_encoded_info, RunCommand,
};

#[test]
fn named_field_order_is_preserved() {
    let ns = parse_definitions("struct S { a: X, b: Y, c: Z }").unwrap();
    assert_eq!(ns.types.len(), 1);
    match &ns.types[0] {
        definition_parser::ast::SyntaxType::Struct(s) => match &s.content {
            definition_parser::ast::EitherStructOrTupleValues::Struct(sv) => {
                let names: Vec<&str> =
                    sv.0.iter().map(|f| f.name.0.as_str()).collect();
                assert_eq!(names, vec!["a", "b", "c"]);
            }
            _ => panic!("expected named fields"),
        },
        _ => panic!("expected a struct"),
    }
}

#[test]
fn malformed_text_gives_a_syntax_error() {
    let err = parse_definitions("struct 123").expect_err("digits cannot open a type id");
    assert!(matches!(err.kind, ErrorKind::Syntax { .. }));
}

#[test]
fn oversized_array_len_gives_invalid_integer() {
    let err = parse_definitions("type A = [u8; 4294967296];").expect_err("must not fit in u32");
    assert!(matches!(
        err.kind,
        ErrorKind::InvalidInteger { cause: IntegerCause::Overflow, .. }
    ));
}

#[test]
fn duplicate_discriminant_reports_the_value() {
    let err = parse_definitions("enum E { A /* #_DISC = 1 */, B /* #_DISC = 1 */ }")
        .expect_err("shared discriminants must fail");
    assert_eq!(err.kind, ErrorKind::DuplicateDiscriminant { value: 1 });
}

#[test]
fn explicit_discriminant_may_collide_with_implicit() {
    let err = parse_definitions("enum E { Zero, One, OneToo /* #_DISC = 1 */ }")
        .expect_err("implicit 1 collides with explicit 1");
    assert_eq!(err.kind, ErrorKind::DuplicateDiscriminant { value: 1 });
}

#[test]
fn describe_renders_cause_then_contexts() {
    let err = parse_definitions("enum E { A /* #_DISC = 1 */, B /* #_DISC = 1 */ }")
        .expect_err("shared discriminants must fail");
    assert_eq!(
        err.describe(),
        "duplicate discriminant found: 1; failed to parse enum; \
         failed to parse type definition; failed to parse types; failed to map parsed data"
    );

    let err = parse_definitions("struct 123").expect_err("digits cannot open a type id");
    assert_eq!(err.describe(), "syntax error at character 7; failed to parse input");
}

#[test]
fn missing_child_gives_item_expected() {
    let node = Node {
        rule: Rule::TypeId,
        span: Span { start: 3, end: 9 },
        text: String::new(),
        children: Vec::new(),
    };
    let err = SyntaxTypeId::try_from(&node).expect_err("a type id needs an identifier child");
    assert_eq!(err.kind, ErrorKind::ItemExpected { location: 9 });
}

#[test]
fn wrong_rule_gives_unexpected_rule() {
    let node = Node {
        rule: Rule::TupleValues,
        span: Span { start: 0, end: 4 },
        text: String::new(),
        children: Vec::new(),
    };
    let err = SyntaxIdentifier::try_from(&node).expect_err("not an identifier node");
    assert!(matches!(
        err.kind,
        ErrorKind::UnexpectedRule { actual: Rule::TupleValues, .. }
    ));
}

#[test]
fn non_decimal_literal_gives_invalid_integer() {
    fn leaf(rule: Rule, text: &str) -> Node {
        Node {
            rule,
            span: Span { start: 0, end: text.len() },
            text: text.to_string(),
            children: Vec::new(),
        }
    }
    fn interior(rule: Rule, children: Vec<Node>) -> Node {
        Node { rule, span: Span { start: 0, end: 0 }, text: String::new(), children }
    }
    let element = interior(
        Rule::ValueType,
        vec![interior(Rule::TypeId, vec![leaf(Rule::Identifier, "u8")])],
    );
    let node = interior(
        Rule::ValueType,
        vec![interior(Rule::Array, vec![element, leaf(Rule::NonZeroInteger, "12x")])],
    );
    let err = definition_parser::ast::SyntaxValueType::try_from(&node)
        .expect_err("the length literal is not decimal");
    assert!(matches!(
        err.kind,
        ErrorKind::InvalidInteger { cause: IntegerCause::NotDecimal, .. }
    ));
}

#[test]
fn enum_id_may_carry_generics() {
    let ns = parse_definitions("enum Wrapper<T> { Empty, Full(T) }").unwrap();
    match &ns.types[0] {
        definition_parser::ast::SyntaxType::Enum(e) => {
            assert_eq!(e.id.id.0, "Wrapper");
            assert_eq!(e.id.generics.len(), 1);
            assert_eq!(e.variants.len(), 2);
            assert_eq!(e.variants[1].discriminant, 1);
        }
        _ => panic!("expected an enum"),
    }
}

#[test]
fn hex_of_bytes_pads_and_separates() {
    assert_eq!(to_hex(&vec![]), "");
    assert_eq!(to_hex(&vec![0x12, 0xab, 0x05]), "12 ab 05");
    assert_eq!(to_hex(&vec![0x00]), "00");
}

#[test]
fn decimal_renderings() {
    assert_eq!(u128_to_dec(0), "0");
    assert_eq!(u128_to_dec(305419896), "305419896");
    assert_eq!(u128_to_dec(u128::MAX), "340282366920938463463374607431768211455");
    assert_eq!(i128_to_dec(-1), "-1");
    assert_eq!(i128_to_dec(i128::MIN), "-170141183460469231731687303715884105728");
}

#[test]
fn int_encoded_info_unsigned() {
    let info = collect_int_encoded_info(0x12345678u32);
    assert_eq!(info.decimal, "305419896");
    assert_eq!(info.bits, 32);
    assert!(!info.signed);
    assert_eq!(info.le, "78 56 34 12");
    assert_eq!(info.be, "12 34 56 78");
}

#[test]
fn int_encoded_info_signed() {
    let info = collect_int_encoded_info(-1i8);
    assert_eq!(info.decimal, "-1");
    assert_eq!(info.bits, 8);
    assert!(info.signed);
    assert_eq!(info.le, "ff");
    assert_eq!(info.be, "ff");

    let info = collect_int_encoded_info(i32::MIN);
    assert_eq!(info.decimal, "-2147483648");
    assert_eq!(info.le, "00 00 00 80");
    assert_eq!(info.be, "80 00 00 00");
}

#[test]
fn compact_encodings_cover_all_modes() {
    assert_eq!(compact_encoded_info(0).hex, "00");
    assert_eq!(compact_encoded_info(0).num, "0");
    assert_eq!(compact_encoded_info(63).hex, "fc");
    assert_eq!(compact_encoded_info(64).hex, "01 01");
    assert_eq!(compact_encoded_info(16383).hex, "fd ff");
    assert_eq!(compact_encoded_info(16384).hex, "02 00 01 00");
    assert_eq!(compact_encoded_info(1073741823).hex, "fe ff ff ff");
    assert_eq!(compact_encoded_info(1073741824).hex, "03 00 00 00 40");
    assert_eq!(
        compact_encoded_info(u128::MAX).hex,
        "33 ff ff ff ff ff ff ff ff ff ff ff ff ff ff ff ff"
    );
}

#[test]
fn string_encoding_prefixes_compact_length() {
    let info = string_encoded_info("Hello, world!").unwrap();
    assert_eq!(info.src, "Hello, world!");
    assert_eq!(info.hex_pure, "48 65 6c 6c 6f 2c 20 77 6f 72 6c 64 21");
    assert_eq!(info.hex_scale, "34 48 65 6c 6c 6f 2c 20 77 6f 72 6c 64 21");

    let unicode = string_encoded_info("мир").unwrap();
    assert_eq!(unicode.hex_pure, "d0 bc d0 b8 d1 80");
    assert_eq!(unicode.hex_scale, "18 d0 bc d0 b8 d1 80");
}

#[test]
fn fail_fast_reports_the_first_failure() {
    let err = parse_definitions(
        "
        enum A { X /* #_DISC = 1 */, Y /* #_DISC = 1 */ }
        enum B { P /* #_DISC = 2 */, Q /* #_DISC = 2 */ }
        ",
    )
    .expect_err("both enums are bad; the first aborts the parse");
    assert_eq!(err.kind, ErrorKind::DuplicateDiscriminant { value: 1 });
}

#[test]
fn command_words_map_to_run_commands() {
    assert_eq!(parse_command("ints"), Some(RunCommand::Int));
    assert_eq!(parse_command("compacts"), Some(RunCommand::Compact));
    assert_eq!(parse_command("strings"), Some(RunCommand::Str));
    assert_eq!(parse_command("other"), None);
    assert_eq!(parse_command(""), None);
}
