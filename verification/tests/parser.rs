use definition_parser::ast::{
    EitherStructOrTupleValues, EnumVariantWithResolvedDiscriminant, NamedField,
    NamespaceDefinition, StructValues, SyntaxEnum, SyntaxIdentifier, SyntaxStruct, SyntaxType,
    SyntaxTypeId, SyntaxValueType, TupleValues,
};
use definition_parser::parse_definitions;

fn ident(name: &str) -> SyntaxIdentifier {
    SyntaxIdentifier(name.to_string())
}

fn tid(name: &str) -> SyntaxTypeId {
    SyntaxTypeId { id: ident(name), generics: Vec::new() }
}

fn and(mut t: SyntaxTypeId, generic: SyntaxTypeId) -> SyntaxTypeId {
    t.generics.push(generic);
    t
}

fn reference(t: SyntaxTypeId) -> SyntaxValueType {
    SyntaxValueType::Reference(t)
}

fn assert_parsing(input: &str, expected: NamespaceDefinition) {
    let actual = parse_definitions(input).expect("failed to parse input");
    assert_eq!(actual, expected);
}

fn assert_mapping_fails(input: &str) {
    assert!(parse_definitions(input).is_err());
}

#[test]
fn struct_with_simple_refs() {
    assert_parsing(
        r#"
            struct Person {
                name: String,
                age: u8
            }
            "#,
        NamespaceDefinition {
            types: vec![SyntaxType::Struct(SyntaxStruct {
                id: tid("Person"),
                content: EitherStructOrTupleValues::Struct(StructValues(vec![
                    NamedField { name: ident("name"), value: reference(tid("String")) },
                    NamedField { name: ident("age"), value: reference(tid("u8")) },
                ])),
            })],
        },
    );
}

#[test]
fn struct_with_generics() {
    assert_parsing(
        r#"
            struct Message<T, U> {
                content: T,
                user: Option<U>,
                parents: HashMap<Str, Str>
            }
            "#,
        NamespaceDefinition {
            types: vec![SyntaxType::Struct(SyntaxStruct {
                id: and(and(tid("Message"), tid("T")), tid("U")),
                content: EitherStructOrTupleValues::Struct(StructValues(vec![
                    NamedField { name: ident("content"), value: reference(tid("T")) },
                    NamedField {
                        name: ident("user"),
                        value: reference(and(tid("Option"), tid("U"))),
                    },
                    NamedField {
                        name: ident("parents"),
                        value: reference(and(and(tid("HashMap"), tid("Str")), tid("Str"))),
                    },
                ])),
            })],
        },
    );
}

#[test]
fn tuple_struct() {
    assert_parsing(
        r#"
            struct BizarreTuple(u8, Str, Option<T>, [Option<T>; 45]);
            "#,
        NamespaceDefinition {
            types: vec![SyntaxType::Struct(SyntaxStruct {
                id: tid("BizarreTuple"),
                content: EitherStructOrTupleValues::Tuple(TupleValues(vec![
                    reference(tid("u8")),
                    reference(tid("Str")),
                    reference(and(tid("Option"), tid("T"))),
                    SyntaxValueType::Array {
                        inner: Box::new(reference(and(tid("Option"), tid("T")))),
                        len: 45,
                    },
                ])),
            })],
        },
    );
}

#[test]
fn tuple_struct_with_generics() {
    assert_parsing(
        r#"
            struct NewType<T>(T);
            "#,
        NamespaceDefinition {
            types: vec![SyntaxType::Struct(SyntaxStruct {
                id: and(tid("NewType"), tid("T")),
                content: EitherStructOrTupleValues::Tuple(TupleValues(vec![reference(tid("T"))])),
            })],
        },
    );
}

#[test]
fn alias_simple() {
    assert_parsing(
        r#"
            type A = B;
            "#,
        NamespaceDefinition {
            types: vec![SyntaxType::Alias { id: tid("A"), to: reference(tid("B")) }],
        },
    );
}

#[test]
fn alias_complex() {
    assert_parsing(
        r#"
            type A<T, U> = [Result<T, U>; 25];
            "#,
        NamespaceDefinition {
            types: vec![SyntaxType::Alias {
                id: and(and(tid("A"), tid("T")), tid("U")),
                to: SyntaxValueType::Array {
                    inner: Box::new(reference(and(and(tid("Result"), tid("T")), tid("U")))),
                    len: 25,
                },
            }],
        },
    );
}

#[test]
fn multiple_types() {
    assert_parsing(
        r#"
            type A<T, U> = Map<T, U>;
            type B = A;
            struct A(B, C);
            "#,
        NamespaceDefinition {
            types: vec![
                SyntaxType::Alias {
                    id: and(and(tid("A"), tid("T")), tid("U")),
                    to: reference(and(and(tid("Map"), tid("T")), tid("U"))),
                },
                SyntaxType::Alias { id: tid("B"), to: reference(tid("A")) },
                SyntaxType::Struct(SyntaxStruct {
                    id: tid("A"),
                    content: EitherStructOrTupleValues::Tuple(TupleValues(vec![
                        reference(tid("B")),
                        reference(tid("C")),
                    ])),
                }),
            ],
        },
    );
}

#[test]
fn generics_with_inner_generics() {
    assert_parsing(
        "type A = Option<Map<Option<Option<u8>>, Str>>;",
        NamespaceDefinition {
            types: vec![SyntaxType::Alias {
                id: tid("A"),
                to: reference(and(
                    tid("Option"),
                    and(
                        and(tid("Map"), and(tid("Option"), and(tid("Option"), tid("u8")))),
                        tid("Str"),
                    ),
                )),
            }],
        },
    );
}

#[test]
fn enum_with_different_variants() {
    assert_parsing(
        "enum Test { First, Second(u8, u9), Third { whatever: FooBar<T> } }",
        NamespaceDefinition {
            types: vec![SyntaxType::Enum(SyntaxEnum {
                id: tid("Test"),
                variants: vec![
                    EnumVariantWithResolvedDiscriminant {
                        name: ident("First"),
                        discriminant: 0,
                        content: None,
                    },
                    EnumVariantWithResolvedDiscriminant {
                        name: ident("Second"),
                        discriminant: 1,
                        content: Some(EitherStructOrTupleValues::Tuple(TupleValues(vec![
                            reference(tid("u8")),
                            reference(tid("u9")),
                        ]))),
                    },
                    EnumVariantWithResolvedDiscriminant {
                        name: ident("Third"),
                        discriminant: 2,
                        content: Some(EitherStructOrTupleValues::Struct(StructValues(vec![
                            NamedField {
                                name: ident("whatever"),
                                value: reference(and(tid("FooBar"), tid("T"))),
                            },
                        ]))),
                    },
                ],
            })],
        },
    );
}

#[test]
fn enum_custom_discriminant() {
    assert_parsing(
        "enum Test { First, Second /* #_DISC = 5 */, Third }",
        NamespaceDefinition {
            types: vec![SyntaxType::Enum(SyntaxEnum {
                id: tid("Test"),
                variants: vec![
                    EnumVariantWithResolvedDiscriminant {
                        name: ident("First"),
                        discriminant: 0,
                        content: None,
                    },
                    EnumVariantWithResolvedDiscriminant {
                        name: ident("Second"),
                        discriminant: 5,
                        content: None,
                    },
                    EnumVariantWithResolvedDiscriminant {
                        name: ident("Third"),
                        discriminant: 6,
                        content: None,
                    },
                ],
            })],
        },
    );
}

#[test]
fn enum_custom_discriminant_collision() {
    assert_mapping_fails(
        "
            enum SharedDiscriminantError {
                SharedA /* #_DISC = 1 */,
                SharedB /* #_DISC = 1 */
            }
            ",
    );
}

#[test]
fn enum_custom_discriminant_collision_2() {
    assert_mapping_fails(
        "
            enum SharedDiscriminantError2 {
                Zero,
                One,
                OneToo /* #_DISC = 1 */
            }
            ",
    );
}

#[test]
fn array_with_wrong_len() {
    let err = parse_definitions("type A = [u8; 0];").expect_err("a zero length must be rejected");
    assert!(matches!(
        err.kind,
        definition_parser::error::ErrorKind::InvalidInteger {
            cause: definition_parser::error::IntegerCause::Zero,
            ..
        }
    ));
}
