use vstd::prelude::*;

verus! {

/// A name taken verbatim from the source text.
#[derive(Debug, PartialEq, Eq)]
pub struct SyntaxIdentifier(pub String);

/// A type identifier: a name and its ordered, recursively typed generic
/// arguments (empty for a plain name).
#[derive(Debug, PartialEq, Eq)]
pub struct SyntaxTypeId {
    pub id: SyntaxIdentifier,
    pub generics: Vec<SyntaxTypeId>,
}

/// A type usable in a field, tuple entry, array element or alias target:
/// either a reference to a type id or a fixed-size array.
#[derive(Debug, PartialEq, Eq)]
pub enum SyntaxValueType {
    Reference(SyntaxTypeId),
    /// `len` is always positive when produced by the builder.
    Array { inner: Box<SyntaxValueType>, len: u32 },
}

/// One named struct field.
#[derive(Debug, PartialEq, Eq)]
pub struct NamedField {
    pub name: SyntaxIdentifier,
    pub value: SyntaxValueType,
}

/// The named fields of a struct-shaped body, in declaration order.
#[derive(Debug, PartialEq, Eq)]
pub struct StructValues(pub Vec<NamedField>);

/// The positional entries of a tuple-shaped body, in declaration order.
#[derive(Debug, PartialEq, Eq)]
pub struct TupleValues(pub Vec<SyntaxValueType>);

/// A struct or enum-variant body: named fields or positional tuple values.
#[derive(Debug, PartialEq, Eq)]
pub enum EitherStructOrTupleValues {
    Struct(StructValues),
    Tuple(TupleValues),
}

/// A struct definition.
#[derive(Debug, PartialEq, Eq)]
pub struct SyntaxStruct {
    pub id: SyntaxTypeId,
    pub content: EitherStructOrTupleValues,
}

/// An enum variant before discriminant resolution: its name, the explicit
/// discriminant if the source carried one, and its body if it has one.
#[derive(Debug, PartialEq, Eq)]
pub struct SyntaxEnumVariant {
    pub name: SyntaxIdentifier,
    pub discriminant: Option<u32>,
    pub content: Option<EitherStructOrTupleValues>,
}

/// An enum variant after discriminant resolution: the discriminant is
/// final and unique within its enum.
#[derive(Debug, PartialEq, Eq)]
pub struct EnumVariantWithResolvedDiscriminant {
    pub name: SyntaxIdentifier,
    pub discriminant: u32,
    pub content: Option<EitherStructOrTupleValues>,
}

/// An enum definition with resolved variants.
#[derive(Debug, PartialEq, Eq)]
pub struct SyntaxEnum {
    pub id: SyntaxTypeId,
    pub variants: Vec<EnumVariantWithResolvedDiscriminant>,
}

/// One type definition of a namespace.
#[derive(Debug, PartialEq, Eq)]
pub enum SyntaxType {
    Enum(SyntaxEnum),
    Struct(SyntaxStruct),
    Alias { id: SyntaxTypeId, to: SyntaxValueType },
}

/// All type definitions of one source document, in declaration order.
#[derive(Debug, PartialEq, Eq)]
pub struct NamespaceDefinition {
    pub types: Vec<SyntaxType>,
}

impl From<SyntaxTypeId> for SyntaxValueType {
    /// A bare type id used as a value type is a reference to it.
    fn from(id: SyntaxTypeId) -> (r: SyntaxValueType) {
        SyntaxValueType::Reference(id)
    }
}

impl vstd::std_specs::convert::FromSpecImpl<SyntaxTypeId> for SyntaxValueType {
    open spec fn obeys_from_spec() -> bool {
        true
    }

    open spec fn from_spec(id: SyntaxTypeId) -> SyntaxValueType {
        SyntaxValueType::Reference(id)
    }
}

} // verus!
