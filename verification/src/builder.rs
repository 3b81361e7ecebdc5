use vstd::prelude::*;
use vstd::string::StrSliceExecFns;

use crate::all_digits;
use crate::ast::{
    EitherStructOrTupleValues, EnumVariantWithResolvedDiscriminant, NamedField, NamespaceDefinition,
    StructValues, SyntaxEnum, SyntaxEnumVariant, SyntaxIdentifier, SyntaxStruct, SyntaxType,
    SyntaxTypeId, SyntaxValueType, TupleValues,
};
use crate::resolve::{discs_of, has_dup, is_dup_value, resolve_at};
use crate::char_is_digit;
use crate::dec_val;
use crate::error::{ErrorKind, Expectation, IntegerCause, ParseError, Span};
use crate::lemma_dec_val_prefix_le;
use crate::lemma_dec_val_step;
use crate::node::{Cursor, Node, Rule};

verus! {

/// A usable integer literal: a nonempty run of decimal digits whose value
/// fits in 32 unsigned bits.
pub open spec fn wf_int_literal(text: Seq<char>) -> bool {
    &&& all_digits(text)
    &&& text.len() > 0
    &&& dec_val(text) <= u32::MAX
}

/// Read a node's literal text as an unsigned 32-bit integer, classifying
/// the failure as `InvalidInteger` at the literal's span.
pub fn parse_u32_digits(text: &str, span: Span) -> (r: Result<u32, ParseError>)
    ensures
        r is Ok <==> wf_int_literal(text@),
        r matches Ok(v) ==> v as nat == dec_val(text@),
        r matches Err(e) ==> e.kind == (ErrorKind::InvalidInteger {
            span,
            cause: if all_digits(text@) && text@.len() > 0 {
                IntegerCause::Overflow
            } else {
                IntegerCause::NotDecimal
            },
        }),
{
    let len = text.unicode_len();
    if len == 0 {
        return Err(
            ParseError::new(ErrorKind::InvalidInteger { span, cause: IntegerCause::NotDecimal }),
        );
    }
    let mut i: usize = 0;
    while i < len
        invariant
            len == text@.len(),
            i <= len,
            forall|j: int| 0 <= j < i ==> crate::is_digit_char(#[trigger] text@[j]),
        decreases len - i,
    {
        let c = text.get_char(i);
        if !char_is_digit(c) {
            return Err(
                ParseError::new(
                    ErrorKind::InvalidInteger { span, cause: IntegerCause::NotDecimal },
                ),
            );
        }
        i = i + 1;
    }
    let mut acc: u64 = 0;
    let mut k: usize = 0;
    while k < len
        invariant
            len == text@.len(),
            k <= len,
            all_digits(text@),
            acc as nat == dec_val(text@.take(k as int)),
            acc <= u32::MAX,
        decreases len - k,
    {
        let c = text.get_char(k);
        let d = (c as u32) - 48;
        proof {
            lemma_dec_val_step(text@, k as int);
        }
        acc = acc * 10 + d as u64;
        if acc > 0xFFFF_FFFF {
            proof {
                lemma_dec_val_prefix_le(text@, k + 1);
            }
            return Err(
                ParseError::new(ErrorKind::InvalidInteger { span, cause: IntegerCause::Overflow }),
            );
        }
        k = k + 1;
    }
    proof {
        assert(text@.take(len as int) =~= text@);
    }
    Ok(acc as u32)
}

/// Well-formed identifier node: it carries the identifier rule.
pub open spec fn wf_identifier(n: Node) -> bool {
    n.rule == Rule::Identifier
}

/// The identifier holds the node's literal text verbatim.
pub open spec fn rel_identifier(id: SyntaxIdentifier, n: Node) -> bool {
    id.0@ == n.text@
}

impl SyntaxIdentifier {
    /// Map an identifier node, copying its literal text verbatim.
    pub fn try_from(n: &Node) -> (r: Result<SyntaxIdentifier, ParseError>)
        ensures
            r is Ok <==> wf_identifier(*n),
            r matches Ok(id) ==> rel_identifier(id, *n),
            r matches Err(e) ==> e.kind == (ErrorKind::UnexpectedRule {
                expected: Expectation::Exact(Rule::Identifier),
                actual: n.rule,
                span: n.span,
            }),
    {
        if n.rule == Rule::Identifier {
            Ok(SyntaxIdentifier(n.text.clone()))
        } else {
            Err(
                ParseError::new(
                    ErrorKind::UnexpectedRule {
                        expected: Expectation::Exact(Rule::Identifier),
                        actual: n.rule,
                        span: n.span,
                    },
                ),
            )
        }
    }
}

/// Well-formed type-id node: an identifier child, then optionally a
/// generics list whose entries are themselves well-formed type ids.
/// Children past the second are not read.
pub open spec fn wf_type_id(n: Node) -> bool
    decreases n,
{
    &&& n.rule == Rule::TypeId
    &&& n.children@.len() >= 1
    &&& n.children@[0].rule == Rule::Identifier
    &&& n.children@.len() >= 2 ==> {
        &&& n.children@[1].rule == Rule::GenericsList
        &&& forall|i: int|
            0 <= i < n.children@[1].children@.len() ==> wf_type_id(
                #[trigger] n.children@[1].children@[i],
            )
    }
}

/// The type id carries the identifier child's text and one generic per
/// generics-list entry, recursively, in order.
pub open spec fn rel_type_id(t: SyntaxTypeId, n: Node) -> bool
    decreases n,
{
    &&& rel_identifier(t.id, n.children@[0])
    &&& if n.children@.len() >= 2 {
        &&& t.generics@.len() == n.children@[1].children@.len()
        &&& forall|i: int|
            0 <= i < t.generics@.len() ==> rel_type_id(
                #[trigger] t.generics@[i],
                n.children@[1].children@[i],
            )
    } else {
        t.generics@.len() == 0
    }
}

impl SyntaxTypeId {
    /// Map a type-id node: the first child is the name, the optional
    /// second child is the generics list, mapped recursively.
    pub fn try_from(n: &Node) -> (r: Result<SyntaxTypeId, ParseError>)
        ensures
            r is Ok <==> wf_type_id(*n),
            r matches Ok(t) ==> rel_type_id(t, *n),
            n.rule != Rule::TypeId ==> (r matches Err(e) && e.kind == (ErrorKind::UnexpectedRule {
                expected: Expectation::Exact(Rule::TypeId),
                actual: n.rule,
                span: n.span,
            })),
            n.rule == Rule::TypeId && n.children@.len() == 0 ==> (r matches Err(e) && e.kind == (
            ErrorKind::ItemExpected { location: n.span.end })),
            n.rule == Rule::TypeId && n.children@.len() >= 1 && n.children@[0].rule
                != Rule::Identifier ==> (r matches Err(e) && e.kind == (ErrorKind::UnexpectedRule {
                expected: Expectation::Exact(Rule::Identifier),
                actual: n.children@[0].rule,
                span: n.children@[0].span,
            })),
            n.rule == Rule::TypeId && n.children@.len() >= 2 && n.children@[0].rule
                == Rule::Identifier && n.children@[1].rule != Rule::GenericsList ==> (r matches Err(
                e,
            ) && e.kind == (ErrorKind::UnexpectedRule {
                expected: Expectation::Exact(Rule::GenericsList),
                actual: n.children@[1].rule,
                span: n.children@[1].span,
            })),
            n.rule == Rule::TypeId && n.children@.len() >= 2 && n.children@[0].rule
                == Rule::Identifier && n.children@[1].rule == Rule::GenericsList && !wf_type_id(*n)
                ==> (r matches Err(e) && e.context@.len() >= 1 && e.context@.last()@
                == "failed to parse generics"@),
        decreases *n,
    {
        if n.rule != Rule::TypeId {
            return Err(
                ParseError::new(
                    ErrorKind::UnexpectedRule {
                        expected: Expectation::Exact(Rule::TypeId),
                        actual: n.rule,
                        span: n.span,
                    },
                ),
            );
        }
        let mut cursor = Cursor::new(n);
        let id_node = match cursor.take_next() {
            Ok(c) => c,
            Err(e) => {
                return Err(e);
            },
        };
        let id = match SyntaxIdentifier::try_from(id_node) {
            Ok(x) => x,
            Err(e) => {
                return Err(e);
            },
        };
        let generics: Vec<SyntaxTypeId> = match cursor.take_optional() {
            None => Vec::new(),
            Some(item) => {
                if item.rule == Rule::GenericsList {
                    let mut generics: Vec<SyntaxTypeId> = Vec::new();
                    let len = item.children.len();
                    let mut i: usize = 0;
                    while i < len
                        invariant
                            len == item.children@.len(),
                            i <= len,
                            n.rule == Rule::TypeId,
                            n.children@.len() >= 2,
                            n.children@[0].rule == Rule::Identifier,
                            item == &n.children@[1],
                            item.rule == Rule::GenericsList,
                            generics@.len() == i,
                            forall|j: int|
                                0 <= j < i ==> wf_type_id(#[trigger] item.children@[j]),
                            forall|j: int|
                                0 <= j < i ==> rel_type_id(
                                    #[trigger] generics@[j],
                                    item.children@[j],
                                ),
                        decreases len - i,
                    {
                        proof {
                            assert(decreases_to!(*n => n.children@[1].children@[i as int]));
                        }
                        match SyntaxTypeId::try_from(&item.children[i]) {
                            Ok(g) => {
                                generics.push(g);
                            },
                            Err(e) => {
                                proof {
                                    assert(!wf_type_id(*n)) by {
                                        if wf_type_id(*n) {
                                            assert(wf_type_id(n.children@[1].children@[i as int]));
                                        }
                                    }
                                }
                                return Err(e.wrap("failed to parse generics"));
                            },
                        }
                        i = i + 1;
                    }
                    generics
                } else {
                    return Err(
                        ParseError::new(
                            ErrorKind::UnexpectedRule {
                                expected: Expectation::Exact(Rule::GenericsList),
                                actual: item.rule,
                                span: item.span,
                            },
                        ),
                    );
                }
            },
        };
        let result = SyntaxTypeId { id, generics };
        proof {
            assert(wf_type_id(*n));
            assert(rel_type_id(result, *n));
        }
        Ok(result)
    }
}

/// Well-formed value-type node: it wraps exactly one child that is either
/// a well-formed type id, or an array of a well-formed value type with a
/// positive 32-bit length literal.
pub open spec fn wf_value_type(n: Node) -> bool
    decreases n,
{
    &&& n.rule == Rule::ValueType
    &&& n.children@.len() >= 1
    &&& {
        let c = n.children@[0];
        ||| wf_type_id(c)
        ||| {
            &&& c.rule == Rule::Array
            &&& c.children@.len() >= 2
            &&& wf_value_type(c.children@[0])
            &&& c.children@[1].rule == Rule::NonZeroInteger
            &&& wf_int_literal(c.children@[1].text@)
            &&& dec_val(c.children@[1].text@) > 0
        }
    }
}

/// The value type mirrors the node: a reference for a type-id child, an
/// array with the literal's value as length for an array child.
pub open spec fn rel_value_type(v: SyntaxValueType, n: Node) -> bool
    decreases n,
{
    &&& n.children@.len() >= 1
    &&& {
        let c = n.children@[0];
        match v {
            SyntaxValueType::Reference(id) => c.rule == Rule::TypeId && rel_type_id(id, c),
            SyntaxValueType::Array { inner, len } => {
                &&& c.rule == Rule::Array
                &&& c.children@.len() >= 2
                &&& rel_value_type(*inner, c.children@[0])
                &&& len as nat == dec_val(c.children@[1].text@)
            },
        }
    }
}

/// A value-type node that is an array of a well-formed element type whose
/// length literal reads as zero.
pub open spec fn zero_len_array(n: Node) -> bool {
    &&& n.rule == Rule::ValueType
    &&& n.children@.len() >= 1
    &&& {
        let c = n.children@[0];
        &&& c.rule == Rule::Array
        &&& c.children@.len() >= 2
        &&& wf_value_type(c.children@[0])
        &&& c.children@[1].rule == Rule::NonZeroInteger
        &&& all_digits(c.children@[1].text@)
        &&& c.children@[1].text@.len() > 0
        &&& dec_val(c.children@[1].text@) == 0
    }
}

impl SyntaxValueType {
    /// Map a value-type node; an array length literal must be a positive
    /// 32-bit integer, and in particular a literal `0` is rejected with
    /// `InvalidInteger` at the literal's location.
    pub fn try_from(n: &Node) -> (r: Result<SyntaxValueType, ParseError>)
        ensures
            r is Ok <==> wf_value_type(*n),
            r matches Ok(v) ==> rel_value_type(v, *n),
            n.rule != Rule::ValueType ==> (r matches Err(e) && e.kind == (
            ErrorKind::UnexpectedRule {
                expected: Expectation::Exact(Rule::ValueType),
                actual: n.rule,
                span: n.span,
            })),
            zero_len_array(*n) ==> (r matches Err(e) && e.kind == (ErrorKind::InvalidInteger {
                span: n.children@[0].children@[1].span,
                cause: IntegerCause::Zero,
            })),
            n.rule == Rule::ValueType && n.children@.len() == 0 ==> (r matches Err(e) && e.kind
                == (ErrorKind::ItemExpected { location: n.span.end })),
            n.rule == Rule::ValueType && n.children@.len() >= 1 && n.children@[0].rule
                != Rule::TypeId && n.children@[0].rule != Rule::Array ==> (r matches Err(e)
                && e.kind == (ErrorKind::UnexpectedRule {
                expected: Expectation::ValueTypeChild,
                actual: n.children@[0].rule,
                span: n.children@[0].span,
            })),
            n.rule == Rule::ValueType && n.children@.len() >= 1 && n.children@[0].rule
                == Rule::TypeId && !wf_type_id(n.children@[0]) ==> (r matches Err(e)
                && e.context@.len() >= 1 && e.context@.last()@ == "failed to parse id"@),
            n.rule == Rule::ValueType && n.children@.len() >= 1 && n.children@[0].rule
                == Rule::Array && n.children@[0].children@.len() == 0 ==> (r matches Err(e)
                && e.kind == (ErrorKind::ItemExpected { location: n.children@[0].span.end })
                && e.context@.len() >= 1 && e.context@.last()@
                == "failed to parse inner array value"@),
            n.rule == Rule::ValueType && n.children@.len() >= 1 && n.children@[0].rule
                == Rule::Array && n.children@[0].children@.len() >= 1 && !wf_value_type(
                n.children@[0].children@[0],
            ) ==> (r matches Err(e) && e.context@.len() >= 1 && e.context@.last()@
                == "failed to parse inner array value"@),
            n.rule == Rule::ValueType && n.children@.len() >= 1 && n.children@[0].rule
                == Rule::Array && n.children@[0].children@.len() == 1 && wf_value_type(
                n.children@[0].children@[0],
            ) ==> (r matches Err(e) && e.kind == (ErrorKind::ItemExpected {
                location: n.children@[0].span.end,
            }) && e.context@.len() >= 1 && e.context@.last()@ == "failed to parse array len"@),
            n.rule == Rule::ValueType && n.children@.len() >= 1 && n.children@[0].rule
                == Rule::Array && n.children@[0].children@.len() >= 2 && wf_value_type(
                n.children@[0].children@[0],
            ) && n.children@[0].children@[1].rule != Rule::NonZeroInteger ==> (r matches Err(e)
                && e.kind == (ErrorKind::UnexpectedRule {
                expected: Expectation::Exact(Rule::NonZeroInteger),
                actual: n.children@[0].children@[1].rule,
                span: n.children@[0].children@[1].span,
            }) && e.context@.len() >= 1 && e.context@.last()@ == "failed to parse array len"@),
            n.rule == Rule::ValueType && n.children@.len() >= 1 && n.children@[0].rule
                == Rule::Array && n.children@[0].children@.len() >= 2 && wf_value_type(
                n.children@[0].children@[0],
            ) && n.children@[0].children@[1].rule == Rule::NonZeroInteger && !wf_int_literal(
                n.children@[0].children@[1].text@,
            ) ==> (r matches Err(e) && e.kind == (ErrorKind::InvalidInteger {
                span: n.children@[0].children@[1].span,
                cause: if all_digits(n.children@[0].children@[1].text@)
                    && n.children@[0].children@[1].text@.len() > 0 {
                    IntegerCause::Overflow
                } else {
                    IntegerCause::NotDecimal
                },
            }) && e.context@.len() >= 1 && e.context@.last()@ == "failed to parse array len"@),
        decreases *n,
    {
        if n.rule != Rule::ValueType {
            return Err(
                ParseError::new(
                    ErrorKind::UnexpectedRule {
                        expected: Expectation::Exact(Rule::ValueType),
                        actual: n.rule,
                        span: n.span,
                    },
                ),
            );
        }
        let mut cursor = Cursor::new(n);
        let c = match cursor.take_next() {
            Ok(c) => c,
            Err(e) => {
                return Err(e);
            },
        };
        if c.rule == Rule::TypeId {
            match SyntaxTypeId::try_from(c) {
                Ok(id) => Ok(SyntaxValueType::Reference(id)),
                Err(e) => Err(e.wrap("failed to parse id")),
            }
        } else if c.rule == Rule::Array {
            let mut ac = Cursor::new(c);
            let inner_node = match ac.take_next() {
                Ok(x) => x,
                Err(e) => {
                    return Err(e.wrap("failed to parse inner array value"));
                },
            };
            proof {
                assert(decreases_to!(*n => n.children@[0].children@[0]));
            }
            let inner = match SyntaxValueType::try_from(inner_node) {
                Ok(x) => x,
                Err(e) => {
                    return Err(e.wrap("failed to parse inner array value"));
                },
            };
            let len_node = match ac.take_next() {
                Ok(x) => x,
                Err(e) => {
                    return Err(e.wrap("failed to parse array len"));
                },
            };
            if len_node.rule != Rule::NonZeroInteger {
                return Err(
                    ParseError::new(
                        ErrorKind::UnexpectedRule {
                            expected: Expectation::Exact(Rule::NonZeroInteger),
                            actual: len_node.rule,
                            span: len_node.span,
                        },
                    ).wrap("failed to parse array len"),
                );
            }
            let len = match parse_u32_digits(len_node.text.as_str(), len_node.span) {
                Ok(v) => v,
                Err(e) => {
                    return Err(e.wrap("failed to parse array len"));
                },
            };
            if len == 0 {
                return Err(
                    ParseError::new(
                        ErrorKind::InvalidInteger {
                            span: len_node.span,
                            cause: IntegerCause::Zero,
                        },
                    ).wrap("failed to parse array len"),
                );
            }
            Ok(SyntaxValueType::Array { inner: Box::new(inner), len })
        } else {
            Err(
                ParseError::new(
                    ErrorKind::UnexpectedRule {
                        expected: Expectation::ValueTypeChild,
                        actual: c.rule,
                        span: c.span,
                    },
                ),
            )
        }
    }
}

/// Well-formed named-field node: an identifier child then a well-formed
/// value type.
pub open spec fn wf_named_field(n: Node) -> bool {
    &&& n.rule == Rule::NamedField
    &&& n.children@.len() >= 2
    &&& n.children@[0].rule == Rule::Identifier
    &&& wf_value_type(n.children@[1])
}

/// The field carries the identifier's text and the mapped value type.
pub open spec fn rel_named_field(f: NamedField, n: Node) -> bool {
    &&& rel_identifier(f.name, n.children@[0])
    &&& rel_value_type(f.value, n.children@[1])
}

/// Child `j` is the first field node that is not a well-formed named
/// field.
pub open spec fn first_bad_field(children: Seq<Node>, j: int) -> bool {
    &&& 0 <= j < children.len()
    &&& !wf_named_field(#[trigger] children[j])
    &&& forall|k: int| 0 <= k < j ==> wf_named_field(#[trigger] children[k])
}

/// Well-formed named-body node: every child is a well-formed named field.
pub open spec fn wf_struct_values(n: Node) -> bool {
    &&& n.rule == Rule::StructValues
    &&& forall|i: int| 0 <= i < n.children@.len() ==> wf_named_field(#[trigger] n.children@[i])
}

/// The body keeps exactly one field per child node, in declaration order.
pub open spec fn rel_struct_values(sv: StructValues, n: Node) -> bool {
    &&& sv.0@.len() == n.children@.len()
    &&& forall|i: int|
        0 <= i < sv.0@.len() ==> rel_named_field(#[trigger] sv.0@[i], n.children@[i])
}

impl StructValues {
    /// Map a named-body node; field count and order are preserved
    /// exactly.
    pub fn try_from(n: &Node) -> (r: Result<StructValues, ParseError>)
        ensures
            r is Ok <==> wf_struct_values(*n),
            r matches Ok(sv) ==> rel_struct_values(sv, *n),
            n.rule != Rule::StructValues ==> (r matches Err(e) && e.kind == (
            ErrorKind::UnexpectedRule {
                expected: Expectation::Exact(Rule::StructValues),
                actual: n.rule,
                span: n.span,
            })),
            n.rule == Rule::StructValues && r is Err ==> exists|j: int|
                first_bad_field(n.children@, j),
            r matches Err(e) ==> (n.rule == Rule::StructValues ==> {
                &&& e.context@.len() >= 1
                &&& e.context@.last()@ == "failed to parse struct named fields"@
                &&& forall|j: int|
                    #[trigger] first_bad_field(n.children@, j) ==> {
                        &&& (n.children@[j].rule != Rule::NamedField ==> e.kind == (
                        ErrorKind::UnexpectedRule {
                            expected: Expectation::Exact(Rule::NamedField),
                            actual: n.children@[j].rule,
                            span: n.children@[j].span,
                        }))
                        &&& (n.children@[j].rule == Rule::NamedField
                            && n.children@[j].children@.len() == 0 ==> e.kind == (
                        ErrorKind::ItemExpected { location: n.children@[j].span.end }))
                        &&& (n.children@[j].rule == Rule::NamedField
                            && n.children@[j].children@.len() >= 1
                            && n.children@[j].children@[0].rule != Rule::Identifier ==> e.kind
                            == (ErrorKind::UnexpectedRule {
                            expected: Expectation::Exact(Rule::Identifier),
                            actual: n.children@[j].children@[0].rule,
                            span: n.children@[j].children@[0].span,
                        }))
                        &&& (n.children@[j].rule == Rule::NamedField
                            && n.children@[j].children@.len() == 1
                            && n.children@[j].children@[0].rule == Rule::Identifier ==> e.kind
                            == (ErrorKind::ItemExpected { location: n.children@[j].span.end }))
                    }
            }),
    {
        if n.rule != Rule::StructValues {
            return Err(
                ParseError::new(
                    ErrorKind::UnexpectedRule {
                        expected: Expectation::Exact(Rule::StructValues),
                        actual: n.rule,
                        span: n.span,
                    },
                ),
            );
        }
        let mut fields: Vec<NamedField> = Vec::new();
        let len = n.children.len();
        let mut i: usize = 0;
        while i < len
            invariant
                len == n.children@.len(),
                i <= len,
                n.rule == Rule::StructValues,
                fields@.len() == i,
                forall|j: int| 0 <= j < i ==> wf_named_field(#[trigger] n.children@[j]),
                forall|j: int| 0 <= j < i ==> rel_named_field(#[trigger] fields@[j], n.children@[j]),
            decreases len - i,
        {
            let field_node = &n.children[i];
            if field_node.rule != Rule::NamedField {
                proof {
                    assert(!wf_named_field(n.children@[i as int]));
                    assert(first_bad_field(n.children@, i as int));
                    assert forall|j: int| #[trigger] first_bad_field(n.children@, j) implies j
                        == i as int by {
                        if j < i as int {
                            assert(wf_named_field(n.children@[j]));
                        } else if j > i as int {
                            assert(wf_named_field(n.children@[i as int]));
                        }
                    }
                }
                return Err(
                    ParseError::new(
                        ErrorKind::UnexpectedRule {
                            expected: Expectation::Exact(Rule::NamedField),
                            actual: field_node.rule,
                            span: field_node.span,
                        },
                    ).wrap("failed to parse struct named fields"),
                );
            }
            let mut fc = Cursor::new(field_node);
            let name_node = match fc.take_next() {
                Ok(x) => x,
                Err(e) => {
                    proof {
                        assert(!wf_named_field(n.children@[i as int]));
                        assert(first_bad_field(n.children@, i as int));
                        assert forall|j: int| #[trigger] first_bad_field(n.children@, j) implies j
                            == i as int by {
                            if j < i as int {
                                assert(wf_named_field(n.children@[j]));
                            } else if j > i as int {
                                assert(wf_named_field(n.children@[i as int]));
                            }
                        }
                    }
                    return Err(e.wrap("failed to parse struct named fields"));
                },
            };
            let name = match SyntaxIdentifier::try_from(name_node) {
                Ok(x) => x,
                Err(e) => {
                    proof {
                        assert(!wf_named_field(n.children@[i as int]));
                        assert(first_bad_field(n.children@, i as int));
                        assert forall|j: int| #[trigger] first_bad_field(n.children@, j) implies j
                            == i as int by {
                            if j < i as int {
                                assert(wf_named_field(n.children@[j]));
                            } else if j > i as int {
                                assert(wf_named_field(n.children@[i as int]));
                            }
                        }
                    }
                    return Err(e.wrap("failed to parse struct named fields"));
                },
            };
            let value_node = match fc.take_next() {
                Ok(x) => x,
                Err(e) => {
                    proof {
                        assert(!wf_named_field(n.children@[i as int]));
                        assert(first_bad_field(n.children@, i as int));
                        assert forall|j: int| #[trigger] first_bad_field(n.children@, j) implies j
                            == i as int by {
                            if j < i as int {
                                assert(wf_named_field(n.children@[j]));
                            } else if j > i as int {
                                assert(wf_named_field(n.children@[i as int]));
                            }
                        }
                    }
                    return Err(e.wrap("failed to parse struct named fields"));
                },
            };
            let value = match SyntaxValueType::try_from(value_node) {
                Ok(x) => x,
                Err(e) => {
                    proof {
                        assert(!wf_named_field(n.children@[i as int]));
                        assert(first_bad_field(n.children@, i as int));
                        assert forall|j: int| #[trigger] first_bad_field(n.children@, j) implies j
                            == i as int by {
                            if j < i as int {
                                assert(wf_named_field(n.children@[j]));
                            } else if j > i as int {
                                assert(wf_named_field(n.children@[i as int]));
                            }
                        }
                    }
                    return Err(e.wrap("failed to parse struct named fields"));
                },
            };
            fields.push(NamedField { name, value });
            i = i + 1;
        }
        Ok(StructValues(fields))
    }
}

/// Well-formed tuple-body node: every child is a well-formed value type.
pub open spec fn wf_tuple_values(n: Node) -> bool {
    &&& n.rule == Rule::TupleValues
    &&& forall|i: int| 0 <= i < n.children@.len() ==> wf_value_type(#[trigger] n.children@[i])
}

/// The body keeps exactly one entry per child node, in declaration order.
pub open spec fn rel_tuple_values(tv: TupleValues, n: Node) -> bool {
    &&& tv.0@.len() == n.children@.len()
    &&& forall|i: int|
        0 <= i < tv.0@.len() ==> rel_value_type(#[trigger] tv.0@[i], n.children@[i])
}

impl TupleValues {
    /// Map a tuple-body node; entry count and order are preserved
    /// exactly.
    pub fn try_from(n: &Node) -> (r: Result<TupleValues, ParseError>)
        ensures
            r is Ok <==> wf_tuple_values(*n),
            r matches Ok(tv) ==> rel_tuple_values(tv, *n),
            n.rule != Rule::TupleValues ==> (r matches Err(e) && e.kind == (
            ErrorKind::UnexpectedRule {
                expected: Expectation::Exact(Rule::TupleValues),
                actual: n.rule,
                span: n.span,
            })),
    {
        if n.rule != Rule::TupleValues {
            return Err(
                ParseError::new(
                    ErrorKind::UnexpectedRule {
                        expected: Expectation::Exact(Rule::TupleValues),
                        actual: n.rule,
                        span: n.span,
                    },
                ),
            );
        }
        let mut items: Vec<SyntaxValueType> = Vec::new();
        let len = n.children.len();
        let mut i: usize = 0;
        while i < len
            invariant
                len == n.children@.len(),
                i <= len,
                n.rule == Rule::TupleValues,
                items@.len() == i,
                forall|j: int| 0 <= j < i ==> wf_value_type(#[trigger] n.children@[j]),
                forall|j: int| 0 <= j < i ==> rel_value_type(#[trigger] items@[j], n.children@[j]),
            decreases len - i,
        {
            match SyntaxValueType::try_from(&n.children[i]) {
                Ok(v) => {
                    items.push(v);
                },
                Err(e) => {
                    return Err(e.wrap("failed to extract struct tuple items"));
                },
            }
            i = i + 1;
        }
        Ok(TupleValues(items))
    }
}

/// Well-formed body node: a well-formed named body or tuple body.
pub open spec fn wf_either_values(n: Node) -> bool {
    wf_struct_values(n) || wf_tuple_values(n)
}

/// The mapped body matches the node's tag: named fields for a named-body
/// node, tuple values for a tuple-body node.
pub open spec fn rel_either_values(e: EitherStructOrTupleValues, n: Node) -> bool {
    match e {
        EitherStructOrTupleValues::Struct(sv) => n.rule == Rule::StructValues
            && rel_struct_values(sv, n),
        EitherStructOrTupleValues::Tuple(tv) => n.rule == Rule::TupleValues && rel_tuple_values(
            tv,
            n,
        ),
    }
}

/// Well-formed variant-shape node: one of the three variant shapes,
/// each holding the variant's identifier and, for the two with a body,
/// a well-formed body.
pub open spec fn wf_variant_shape(first: Node) -> bool {
    ||| {
        &&& first.rule == Rule::EnumVariantEmpty
        &&& first.children@.len() >= 1
        &&& first.children@[0].rule == Rule::Identifier
    }
    ||| {
        &&& first.rule == Rule::EnumVariantTuple
        &&& first.children@.len() >= 2
        &&& first.children@[0].rule == Rule::Identifier
        &&& wf_tuple_values(first.children@[1])
    }
    ||| {
        &&& first.rule == Rule::EnumVariantStruct
        &&& first.children@.len() >= 2
        &&& first.children@[0].rule == Rule::Identifier
        &&& wf_struct_values(first.children@[1])
    }
}

/// Well-formed enum-variant node: a first child in one of the three
/// variant shapes (each holding the variant's identifier), then
/// optionally a discriminant literal usable as a 32-bit integer. Children
/// past the second are not read.
pub open spec fn wf_enum_variant(n: Node) -> bool {
    &&& n.rule == Rule::EnumVariant
    &&& n.children@.len() >= 1
    &&& wf_variant_shape(n.children@[0])
    &&& n.children@.len() >= 2 ==> {
        &&& n.children@[1].rule == Rule::EnumDiscriminant
        &&& wf_int_literal(n.children@[1].text@)
    }
}

/// The variant's name and body match the shape child: no body for an
/// empty shape, a tuple body for a tuple shape, named fields for a
/// struct shape.
pub open spec fn rel_variant_shape(
    name: SyntaxIdentifier,
    content: Option<EitherStructOrTupleValues>,
    n: Node,
) -> bool {
    let first = n.children@[0];
    &&& rel_identifier(name, first.children@[0])
    &&& (first.rule == Rule::EnumVariantEmpty ==> content is None)
    &&& (first.rule == Rule::EnumVariantTuple ==> (content matches Some(
        EitherStructOrTupleValues::Tuple(tv),
    ) && rel_tuple_values(tv, first.children@[1])))
    &&& (first.rule == Rule::EnumVariantStruct ==> (content matches Some(
        EitherStructOrTupleValues::Struct(sv),
    ) && rel_struct_values(sv, first.children@[1])))
}

/// The explicit discriminant a variant node carries, if any.
pub open spec fn variant_disc_opt(n: Node) -> Option<u32> {
    if n.children@.len() >= 2 {
        Some(dec_val(n.children@[1].text@) as u32)
    } else {
        None
    }
}

/// The raw variant mirrors the node: shape, name, body, and the explicit
/// discriminant exactly when the node carries the annotation.
pub open spec fn rel_enum_variant(v: SyntaxEnumVariant, n: Node) -> bool {
    &&& rel_variant_shape(v.name, v.content, n)
    &&& v.discriminant == variant_disc_opt(n)
}

impl SyntaxEnumVariant {
    /// Map an enum-variant node: the first child selects one of the three
    /// shapes, an optional second child is the explicit discriminant.
    pub fn try_from(n: &Node) -> (r: Result<SyntaxEnumVariant, ParseError>)
        ensures
            r is Ok <==> wf_enum_variant(*n),
            r matches Ok(v) ==> rel_enum_variant(v, *n),
            n.rule != Rule::EnumVariant ==> (r matches Err(e) && e.kind == (
            ErrorKind::UnexpectedRule {
                expected: Expectation::Exact(Rule::EnumVariant),
                actual: n.rule,
                span: n.span,
            })),
            n.rule == Rule::EnumVariant && n.children@.len() == 0 ==> (r matches Err(e) && e.kind
                == (ErrorKind::ItemExpected { location: n.span.end })),
            n.rule == Rule::EnumVariant && n.children@.len() >= 1 && n.children@[0].rule
                != Rule::EnumVariantEmpty && n.children@[0].rule != Rule::EnumVariantTuple
                && n.children@[0].rule != Rule::EnumVariantStruct ==> (r matches Err(e) && e.kind
                == (ErrorKind::UnexpectedRule {
                expected: Expectation::EnumVariantShape,
                actual: n.children@[0].rule,
                span: n.children@[0].span,
            })),
            n.rule == Rule::EnumVariant && n.children@.len() >= 1 && (n.children@[0].rule
                == Rule::EnumVariantEmpty || n.children@[0].rule == Rule::EnumVariantTuple
                || n.children@[0].rule == Rule::EnumVariantStruct)
                && n.children@[0].children@.len() == 0 ==> (r matches Err(e) && e.kind == (
            ErrorKind::ItemExpected { location: n.children@[0].span.end })),
            n.rule == Rule::EnumVariant && n.children@.len() >= 1 && (n.children@[0].rule
                == Rule::EnumVariantEmpty || n.children@[0].rule == Rule::EnumVariantTuple
                || n.children@[0].rule == Rule::EnumVariantStruct)
                && n.children@[0].children@.len() >= 1 && n.children@[0].children@[0].rule
                != Rule::Identifier ==> (r matches Err(e) && e.kind == (
            ErrorKind::UnexpectedRule {
                expected: Expectation::Exact(Rule::Identifier),
                actual: n.children@[0].children@[0].rule,
                span: n.children@[0].children@[0].span,
            })),
            n.rule == Rule::EnumVariant && n.children@.len() >= 1 && (n.children@[0].rule
                == Rule::EnumVariantTuple || n.children@[0].rule == Rule::EnumVariantStruct)
                && n.children@[0].children@.len() == 1 && n.children@[0].children@[0].rule
                == Rule::Identifier ==> (r matches Err(e) && e.kind == (ErrorKind::ItemExpected {
                location: n.children@[0].span.end,
            })),
            n.rule == Rule::EnumVariant && n.children@.len() >= 2 && wf_variant_shape(
                n.children@[0],
            ) && n.children@[1].rule != Rule::EnumDiscriminant ==> (r matches Err(e) && e.kind
                == (ErrorKind::UnexpectedRule {
                expected: Expectation::Exact(Rule::EnumDiscriminant),
                actual: n.children@[1].rule,
                span: n.children@[1].span,
            })),
            n.rule == Rule::EnumVariant && n.children@.len() >= 2 && wf_variant_shape(
                n.children@[0],
            ) && n.children@[1].rule == Rule::EnumDiscriminant && !wf_int_literal(
                n.children@[1].text@,
            ) ==> (r matches Err(e) && e.kind == (ErrorKind::InvalidInteger {
                span: n.children@[1].span,
                cause: if all_digits(n.children@[1].text@) && n.children@[1].text@.len() > 0 {
                    IntegerCause::Overflow
                } else {
                    IntegerCause::NotDecimal
                },
            }) && e.context@.len() >= 1 && e.context@.last()@
                == "failed to parse enum discriminant"@),
    {
        if n.rule != Rule::EnumVariant {
            return Err(
                ParseError::new(
                    ErrorKind::UnexpectedRule {
                        expected: Expectation::Exact(Rule::EnumVariant),
                        actual: n.rule,
                        span: n.span,
                    },
                ),
            );
        }
        let mut cursor = Cursor::new(n);
        let first = match cursor.take_next() {
            Ok(x) => x,
            Err(e) => {
                return Err(e);
            },
        };
        let mut fc = Cursor::new(first);
        let (name, content) = if first.rule == Rule::EnumVariantEmpty {
            let name_node = match fc.take_next() {
                Ok(x) => x,
                Err(e) => {
                    return Err(e);
                },
            };
            let name = match SyntaxIdentifier::try_from(name_node) {
                Ok(x) => x,
                Err(e) => {
                    return Err(e);
                },
            };
            (name, None)
        } else if first.rule == Rule::EnumVariantTuple {
            let name_node = match fc.take_next() {
                Ok(x) => x,
                Err(e) => {
                    return Err(e);
                },
            };
            let name = match SyntaxIdentifier::try_from(name_node) {
                Ok(x) => x,
                Err(e) => {
                    return Err(e);
                },
            };
            let values_node = match fc.take_next() {
                Ok(x) => x,
                Err(e) => {
                    return Err(e);
                },
            };
            let values = match TupleValues::try_from(values_node) {
                Ok(x) => x,
                Err(e) => {
                    return Err(e);
                },
            };
            (name, Some(EitherStructOrTupleValues::Tuple(values)))
        } else if first.rule == Rule::EnumVariantStruct {
            let name_node = match fc.take_next() {
                Ok(x) => x,
                Err(e) => {
                    return Err(e);
                },
            };
            let name = match SyntaxIdentifier::try_from(name_node) {
                Ok(x) => x,
                Err(e) => {
                    return Err(e);
                },
            };
            let values_node = match fc.take_next() {
                Ok(x) => x,
                Err(e) => {
                    return Err(e);
                },
            };
            let values = match StructValues::try_from(values_node) {
                Ok(x) => x,
                Err(e) => {
                    return Err(e);
                },
            };
            (name, Some(EitherStructOrTupleValues::Struct(values)))
        } else {
            return Err(
                ParseError::new(
                    ErrorKind::UnexpectedRule {
                        expected: Expectation::EnumVariantShape,
                        actual: first.rule,
                        span: first.span,
                    },
                ),
            );
        };
        let discriminant = match cursor.take_optional() {
            None => None,
            Some(dn) => {
                if dn.rule == Rule::EnumDiscriminant {
                    match parse_u32_digits(dn.text.as_str(), dn.span) {
                        Ok(v) => Some(v),
                        Err(e) => {
                            return Err(e.wrap("failed to parse enum discriminant"));
                        },
                    }
                } else {
                    return Err(
                        ParseError::new(
                            ErrorKind::UnexpectedRule {
                                expected: Expectation::Exact(Rule::EnumDiscriminant),
                                actual: dn.rule,
                                span: dn.span,
                            },
                        ),
                    );
                }
            },
        };
        Ok(SyntaxEnumVariant { name, discriminant, content })
    }
}

/// The explicit discriminants of an enum node's variant children.
pub open spec fn variant_discs(n: Node) -> Seq<Option<u32>> {
    Seq::new((n.children@.len() - 1) as nat, |i: int| variant_disc_opt(n.children@[i + 1]))
}

/// Well-formed enum node shape: a type-id child, then well-formed
/// variants.
pub open spec fn wf_syntax_enum(n: Node) -> bool {
    &&& n.rule == Rule::DefEnum
    &&& n.children@.len() >= 1
    &&& wf_type_id(n.children@[0])
    &&& forall|i: int| 1 <= i < n.children@.len() ==> wf_enum_variant(#[trigger] n.children@[i])
}

/// The enum keeps one variant per variant child, in order, with the
/// final discriminants the resolution assigns.
pub open spec fn rel_syntax_enum(e: SyntaxEnum, n: Node) -> bool {
    &&& rel_type_id(e.id, n.children@[0])
    &&& e.variants@.len() == n.children@.len() - 1
    &&& forall|i: int|
        0 <= i < e.variants@.len() ==> {
            &&& rel_variant_shape(
                (#[trigger] e.variants@[i]).name,
                e.variants@[i].content,
                n.children@[i + 1],
            )
            &&& e.variants@[i].discriminant == resolve_at(variant_discs(n), i)
        }
}

impl SyntaxEnum {
    /// Map an enum node: the type id, then the raw variants, then the
    /// discriminant resolution; a duplicate discriminant fails the whole
    /// enum and no variant list is returned.
    pub fn try_from(n: &Node) -> (r: Result<SyntaxEnum, ParseError>)
        ensures
            r is Ok <==> wf_syntax_enum(*n) && !has_dup(variant_discs(*n)),
            r matches Ok(e) ==> rel_syntax_enum(e, *n),
            n.rule != Rule::DefEnum ==> (r matches Err(e) && e.kind == (ErrorKind::UnexpectedRule {
                expected: Expectation::Exact(Rule::DefEnum),
                actual: n.rule,
                span: n.span,
            })),
            wf_syntax_enum(*n) && has_dup(variant_discs(*n)) ==> (r matches Err(e)
                && e.kind matches ErrorKind::DuplicateDiscriminant { value } && is_dup_value(
                variant_discs(*n),
                value,
            ) && (forall|w: u32|
                #[trigger] is_dup_value(variant_discs(*n), w) ==> value <= w)),
    {
        if n.rule != Rule::DefEnum {
            return Err(
                ParseError::new(
                    ErrorKind::UnexpectedRule {
                        expected: Expectation::Exact(Rule::DefEnum),
                        actual: n.rule,
                        span: n.span,
                    },
                ),
            );
        }
        let mut cursor = Cursor::new(n);
        let id_node = match cursor.take_next() {
            Ok(x) => x,
            Err(e) => {
                return Err(e);
            },
        };
        let id = match SyntaxTypeId::try_from(id_node) {
            Ok(x) => x,
            Err(e) => {
                return Err(e);
            },
        };
        let mut raws: Vec<SyntaxEnumVariant> = Vec::new();
        let len = n.children.len();
        let mut i: usize = 1;
        while i < len
            invariant
                len == n.children@.len(),
                1 <= i <= len,
                n.rule == Rule::DefEnum,
                raws@.len() == i - 1,
                forall|j: int| 1 <= j < i ==> wf_enum_variant(#[trigger] n.children@[j]),
                forall|j: int|
                    0 <= j < raws@.len() ==> rel_enum_variant(
                        #[trigger] raws@[j],
                        n.children@[j + 1],
                    ),
            decreases len - i,
        {
            match SyntaxEnumVariant::try_from(&n.children[i]) {
                Ok(v) => {
                    raws.push(v);
                },
                Err(e) => {
                    proof {
                        assert(!wf_enum_variant(n.children@[i as int]));
                    }
                    return Err(e);
                },
            }
            i = i + 1;
        }
        proof {
            assert(discs_of(raws@) =~= variant_discs(*n));
        }
        match EnumVariantWithResolvedDiscriminant::try_from_parsed_list(raws) {
            Ok(variants) => Ok(SyntaxEnum { id, variants }),
            Err(e) => Err(e),
        }
    }
}

/// Well-formed struct node: a type-id child, then one body node.
pub open spec fn wf_syntax_struct(n: Node) -> bool {
    &&& n.rule == Rule::DefStruct
    &&& n.children@.len() >= 2
    &&& wf_type_id(n.children@[0])
    &&& wf_either_values(n.children@[1])
}

/// The struct carries the mapped type id and body.
pub open spec fn rel_syntax_struct(s: SyntaxStruct, n: Node) -> bool {
    &&& rel_type_id(s.id, n.children@[0])
    &&& rel_either_values(s.content, n.children@[1])
}

impl SyntaxStruct {
    /// Map a struct node: the type id, then the named or tuple body.
    pub fn try_from(n: &Node) -> (r: Result<SyntaxStruct, ParseError>)
        ensures
            r is Ok <==> wf_syntax_struct(*n),
            r matches Ok(s) ==> rel_syntax_struct(s, *n),
            n.rule != Rule::DefStruct ==> (r matches Err(e) && e.kind == (
            ErrorKind::UnexpectedRule {
                expected: Expectation::Exact(Rule::DefStruct),
                actual: n.rule,
                span: n.span,
            })),
    {
        if n.rule != Rule::DefStruct {
            return Err(
                ParseError::new(
                    ErrorKind::UnexpectedRule {
                        expected: Expectation::Exact(Rule::DefStruct),
                        actual: n.rule,
                        span: n.span,
                    },
                ),
            );
        }
        let mut cursor = Cursor::new(n);
        let id_node = match cursor.take_next() {
            Ok(x) => x,
            Err(e) => {
                return Err(e);
            },
        };
        let id = match SyntaxTypeId::try_from(id_node) {
            Ok(x) => x,
            Err(e) => {
                return Err(e);
            },
        };
        let content_node = match cursor.take_next() {
            Ok(x) => x,
            Err(e) => {
                return Err(e);
            },
        };
        let content = match EitherStructOrTupleValues::try_from(content_node) {
            Ok(x) => x,
            Err(e) => {
                return Err(e.wrap("failed to parse struct content"));
            },
        };
        Ok(SyntaxStruct { id, content })
    }
}

/// Well-formed alias node: a type-id child, then the aliased value type.
pub open spec fn wf_def_alias(n: Node) -> bool {
    &&& n.rule == Rule::DefAlias
    &&& n.children@.len() >= 2
    &&& wf_type_id(n.children@[0])
    &&& wf_value_type(n.children@[1])
}

/// Well-formed type-definition node shape: a struct, enum or alias node.
pub open spec fn wf_syntax_type(n: Node) -> bool {
    ||| wf_syntax_struct(n)
    ||| wf_syntax_enum(n)
    ||| wf_def_alias(n)
}

/// A type-definition node maps successfully: it is shape-well-formed,
/// and an enum additionally resolves without a duplicate discriminant.
pub open spec fn ok_syntax_type(n: Node) -> bool {
    &&& wf_syntax_type(n)
    &&& n.rule == Rule::DefEnum ==> !has_dup(variant_discs(n))
}

/// The definition matches the node's tag and carries the mapped parts.
pub open spec fn rel_syntax_type(t: SyntaxType, n: Node) -> bool {
    match t {
        SyntaxType::Struct(s) => n.rule == Rule::DefStruct && rel_syntax_struct(s, n),
        SyntaxType::Enum(e) => n.rule == Rule::DefEnum && rel_syntax_enum(e, n),
        SyntaxType::Alias { id, to } => {
            &&& n.rule == Rule::DefAlias
            &&& n.children@.len() >= 2
            &&& rel_type_id(id, n.children@[0])
            &&& rel_value_type(to, n.children@[1])
        },
    }
}

impl SyntaxType {
    /// Map one type-definition node, dispatching on its tag.
    pub fn try_from(n: &Node) -> (r: Result<SyntaxType, ParseError>)
        ensures
            r is Ok <==> ok_syntax_type(*n),
            r matches Ok(t) ==> rel_syntax_type(t, *n),
            n.rule != Rule::DefStruct && n.rule != Rule::DefEnum && n.rule != Rule::DefAlias ==> (
            r matches Err(e) && e.kind == (ErrorKind::UnexpectedRule {
                expected: Expectation::TypeDefinition,
                actual: n.rule,
                span: n.span,
            })),
            n.rule == Rule::DefEnum && wf_syntax_enum(*n) && has_dup(variant_discs(*n)) ==> (
            r matches Err(e) && e.kind matches ErrorKind::DuplicateDiscriminant { value }
                && is_dup_value(variant_discs(*n), value) && (forall|w: u32|
                #[trigger] is_dup_value(variant_discs(*n), w) ==> value <= w)),
            r matches Err(e) ==> {
                &&& (n.rule == Rule::DefStruct ==> e.context@.len() >= 1 && e.context@.last()@
                    == "failed to parse struct"@)
                &&& (n.rule == Rule::DefEnum ==> e.context@.len() >= 1 && e.context@.last()@
                    == "failed to parse enum"@)
                &&& (n.rule == Rule::DefAlias ==> e.context@.len() >= 1 && (e.context@.last()@
                    == "failed to parse alias id"@ || e.context@.last()@
                    == "failed to parse value type"@))
            },
    {
        if n.rule == Rule::DefStruct {
            match SyntaxStruct::try_from(n) {
                Ok(s) => Ok(SyntaxType::Struct(s)),
                Err(e) => Err(e.wrap("failed to parse struct")),
            }
        } else if n.rule == Rule::DefEnum {
            match SyntaxEnum::try_from(n) {
                Ok(e) => Ok(SyntaxType::Enum(e)),
                Err(e) => Err(e.wrap("failed to parse enum")),
            }
        } else if n.rule == Rule::DefAlias {
            let mut cursor = Cursor::new(n);
            let id_node = match cursor.take_next() {
                Ok(x) => x,
                Err(e) => {
                    return Err(e.wrap("failed to parse alias id"));
                },
            };
            let id = match SyntaxTypeId::try_from(id_node) {
                Ok(x) => x,
                Err(e) => {
                    return Err(e.wrap("failed to parse alias id"));
                },
            };
            let to_node = match cursor.take_next() {
                Ok(x) => x,
                Err(e) => {
                    return Err(e.wrap("failed to parse value type"));
                },
            };
            let to = match SyntaxValueType::try_from(to_node) {
                Ok(x) => x,
                Err(e) => {
                    return Err(e.wrap("failed to parse value type"));
                },
            };
            Ok(SyntaxType::Alias { id, to })
        } else {
            Err(
                ParseError::new(
                    ErrorKind::UnexpectedRule {
                        expected: Expectation::TypeDefinition,
                        actual: n.rule,
                        span: n.span,
                    },
                ),
            )
        }
    }
}

/// The namespace's definitions correspond one-to-one, in order, to the
/// children of the root node that are not the end-of-input marker.
pub open spec fn rel_namespace(types: Seq<SyntaxType>, children: Seq<Node>) -> bool
    decreases children.len(),
{
    if children.len() == 0 {
        types.len() == 0
    } else if children.last().rule == Rule::Eoi {
        rel_namespace(types, children.drop_last())
    } else {
        &&& types.len() > 0
        &&& rel_syntax_type(types.last(), children.last())
        &&& rel_namespace(types.drop_last(), children.drop_last())
    }
}

/// Child `j` is the first, in document order, that is neither the
/// end-of-input marker nor a definition that maps successfully.
pub open spec fn first_bad_def(children: Seq<Node>, j: int) -> bool {
    &&& 0 <= j < children.len()
    &&& !((#[trigger] children[j]).rule == Rule::Eoi || ok_syntax_type(children[j]))
    &&& forall|k: int|
        0 <= k < j ==> ((#[trigger] children[k]).rule == Rule::Eoi || ok_syntax_type(children[k]))
}

impl NamespaceDefinition {
    /// Map the root node: every child that is not the end-of-input marker
    /// becomes one type definition, in order. The first child that fails
    /// aborts the whole parse with that child's failure, wrapped with
    /// context; no partial namespace is returned.
    pub fn try_from(root: &Node) -> (r: Result<NamespaceDefinition, ParseError>)
        ensures
            r is Ok <==> forall|i: int|
                0 <= i < root.children@.len() ==> ((#[trigger] root.children@[i]).rule == Rule::Eoi
                    || ok_syntax_type(root.children@[i])),
            r matches Ok(ns) ==> rel_namespace(ns.types@, root.children@),
            r matches Err(e) ==> exists|j: int| first_bad_def(root.children@, j),
            r matches Err(e) ==> forall|j: int|
                #[trigger] first_bad_def(root.children@, j) ==> {
                    &&& ((root.children@[j].rule == Rule::DefEnum && wf_syntax_enum(
                        root.children@[j],
                    ) && has_dup(variant_discs(root.children@[j]))) ==> (
                    e.kind matches ErrorKind::DuplicateDiscriminant { value } && is_dup_value(
                        variant_discs(root.children@[j]),
                        value,
                    ) && (forall|w: u32|
                        #[trigger] is_dup_value(variant_discs(root.children@[j]), w) ==> value
                            <= w)))
                    &&& ((root.children@[j].rule != Rule::DefStruct && root.children@[j].rule
                        != Rule::DefEnum && root.children@[j].rule != Rule::DefAlias) ==> e.kind
                        == (ErrorKind::UnexpectedRule {
                        expected: Expectation::TypeDefinition,
                        actual: root.children@[j].rule,
                        span: root.children@[j].span,
                    }))
                },
            r matches Err(e) ==> e.context@.len() >= 2 && e.context@.last()@
                == "failed to parse types"@ && e.context@[e.context@.len() - 2]@
                == "failed to parse type definition"@,
    {
        let mut types: Vec<SyntaxType> = Vec::new();
        let len = root.children.len();
        let mut i: usize = 0;
        while i < len
            invariant
                len == root.children@.len(),
                i <= len,
                forall|j: int|
                    0 <= j < i ==> ((#[trigger] root.children@[j]).rule == Rule::Eoi
                        || ok_syntax_type(root.children@[j])),
                rel_namespace(types@, root.children@.take(i as int)),
            decreases len - i,
        {
            let child = &root.children[i];
            if child.rule == Rule::Eoi {
                proof {
                    assert(root.children@.take(i + 1).drop_last() =~= root.children@.take(i as int));
                    assert(root.children@.take(i + 1).last() == root.children@[i as int]);
                }
            } else {
                match SyntaxType::try_from(child) {
                    Ok(t) => {
                        let ghost prev = types@;
                        types.push(t);
                        proof {
                            assert(root.children@.take(i + 1).drop_last() =~= root.children@.take(
                                i as int,
                            ));
                            assert(root.children@.take(i + 1).last() == root.children@[i as int]);
                            assert(types@.drop_last() =~= prev);
                        }
                    },
                    Err(e) => {
                        proof {
                            assert(first_bad_def(root.children@, i as int));
                            assert forall|j: int|
                                #[trigger] first_bad_def(root.children@, j) implies j
                                == i as int by {
                                if j < i as int {
                                    assert(root.children@[j].rule == Rule::Eoi || ok_syntax_type(
                                        root.children@[j],
                                    ));
                                } else if j > i as int {
                                    assert(root.children@[i as int].rule == Rule::Eoi
                                        || ok_syntax_type(root.children@[i as int]));
                                }
                            }
                        }
                        return Err(
                            e.wrap("failed to parse type definition").wrap("failed to parse types"),
                        );
                    },
                }
            }
            i = i + 1;
        }
        proof {
            assert(root.children@.take(len as int) =~= root.children@);
        }
        Ok(NamespaceDefinition { types })
    }
}

impl EitherStructOrTupleValues {
    /// Dispatch a body node on its tag: named fields or tuple values.
    pub fn try_from(n: &Node) -> (r: Result<EitherStructOrTupleValues, ParseError>)
        ensures
            r is Ok <==> wf_either_values(*n),
            r matches Ok(v) ==> rel_either_values(v, *n),
            n.rule != Rule::StructValues && n.rule != Rule::TupleValues ==> (r matches Err(e)
                && e.kind == (ErrorKind::UnexpectedRule {
                expected: Expectation::StructContent,
                actual: n.rule,
                span: n.span,
            })),
    {
        if n.rule == Rule::StructValues {
            match StructValues::try_from(n) {
                Ok(sv) => Ok(EitherStructOrTupleValues::Struct(sv)),
                Err(e) => Err(e.wrap("failed to parse struct values")),
            }
        } else if n.rule == Rule::TupleValues {
            match TupleValues::try_from(n) {
                Ok(tv) => Ok(EitherStructOrTupleValues::Tuple(tv)),
                Err(e) => Err(e.wrap("failed to parse tuple values")),
            }
        } else {
            Err(
                ParseError::new(
                    ErrorKind::UnexpectedRule {
                        expected: Expectation::StructContent,
                        actual: n.rule,
                        span: n.span,
                    },
                ),
            )
        }
    }
}

} // verus!
