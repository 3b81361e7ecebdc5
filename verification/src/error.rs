use vstd::prelude::*;
use vstd::string::{StringExecFns, StrSliceExecFns};

use crate::encode::{dec_str, u128_to_dec};
use crate::node::Rule;

verus! {

/// A half-open range `[start, end)` of character offsets into the source
/// text, locating a token or construct. The grammar's tokens and
/// separators are ASCII and the engine stops at the first character
/// outside them, so every character before a reported offset is ASCII
/// and the offset coincides with the byte offset; only offsets into
/// text the grammar rejects anyway can differ from byte counts.
#[derive(Clone, Copy, Debug, PartialEq, Eq, Structural)]
pub struct Span {
    pub start: usize,
    pub end: usize,
}

/// What a mapping function was prepared to accept when it met a node of an
/// unexpected kind.
#[derive(Clone, Copy, Debug, PartialEq, Eq, Structural)]
pub enum Expectation {
    /// Exactly one rule kind was acceptable.
    Exact(Rule),
    /// A type definition: a struct, enum or alias node.
    TypeDefinition,
    /// A struct body: named fields or tuple values.
    StructContent,
    /// The single child of a value-type node: a type id or an array.
    ValueTypeChild,
    /// One of the three enum-variant shapes.
    EnumVariantShape,
}

/// Why a numeric literal was rejected.
#[derive(Clone, Copy, Debug, PartialEq, Eq, Structural)]
pub enum IntegerCause {
    /// The text is not a plain run of decimal digits.
    NotDecimal,
    /// The value does not fit in 32 unsigned bits.
    Overflow,
    /// The value is zero where a positive number is required.
    Zero,
}

/// The classified cause of a failed parse.
#[derive(Clone, Copy, Debug, PartialEq, Eq, Structural)]
pub enum ErrorKind {
    /// The source text does not match the grammar; `location` is the
    /// character offset where matching stopped.
    Syntax { location: usize },
    /// A node did not carry the rule kind the mapping function required.
    UnexpectedRule { expected: Expectation, actual: Rule, span: Span },
    /// A required child node was absent.
    ItemExpected { location: usize },
    /// A numeric literal could not be used as the target integer.
    InvalidInteger { span: Span, cause: IntegerCause },
    /// Two variants of one enum resolved to the same discriminant.
    DuplicateDiscriminant { value: u32 },
}

/// A fatal parse failure: the classified kind plus a chain of
/// human-readable context messages, innermost first, added as the failure
/// propagated outward through the recursive mapping functions.
#[derive(Debug, PartialEq, Eq)]
pub struct ParseError {
    pub kind: ErrorKind,
    pub context: Vec<String>,
}

impl ParseError {
    /// A fresh error with no context yet.
    pub fn new(kind: ErrorKind) -> (r: ParseError)
        ensures
            r.kind == kind,
            r.context@ =~= Seq::<String>::empty(),
    {
        ParseError { kind, context: Vec::new() }
    }

    /// Wrap the error with one more context message while keeping the
    /// original kind; the message joins the chain outermost-last.
    pub fn wrap(self, msg: &str) -> (r: ParseError)
        ensures
            r.kind == self.kind,
            r.context@.len() == self.context@.len() + 1,
            forall|i: int| 0 <= i < self.context@.len() ==> r.context@[i] == self.context@[i],
            r.context@.last()@ == msg@,
    {
        let mut context = self.context;
        context.push(msg.to_owned());
        ParseError { kind: self.kind, context }
    }

    /// The failure as one line of text: the classified cause first, then
    /// every added context, innermost to outermost.
    pub fn describe(&self) -> (r: String)
        ensures
            r@ == kind_text(self.kind) + context_text(self.context@),
    {
        let mut out = match self.kind {
            ErrorKind::Syntax { location } => {
                let mut s = String::from_str("syntax error at character ");
                let num = u128_to_dec(location as u128);
                s.append(num.as_str());
                s
            },
            ErrorKind::UnexpectedRule { expected, actual, span: _ } => {
                let mut s = String::from_str("expected ");
                s.append(expectation_name(expected));
                s.append(", got ");
                s.append(rule_name(actual));
                s
            },
            ErrorKind::ItemExpected { location: _ } => String::from_str("item expected"),
            ErrorKind::InvalidInteger { span: _, cause } => {
                let mut s = String::from_str("invalid integer: ");
                s.append(cause_name(cause));
                s
            },
            ErrorKind::DuplicateDiscriminant { value } => {
                let mut s = String::from_str("duplicate discriminant found: ");
                let num = u128_to_dec(value as u128);
                s.append(num.as_str());
                s
            },
        };
        proof {
            assert(out@ + context_text(self.context@.take(0)) =~= kind_text(self.kind));
        }
        let len = self.context.len();
        let mut i: usize = 0;
        while i < len
            invariant
                len == self.context@.len(),
                i <= len,
                out@ == kind_text(self.kind) + context_text(self.context@.take(i as int)),
            decreases len - i,
        {
            out.append("; ");
            out.append(self.context[i].as_str());
            proof {
                assert(self.context@.take(i + 1).drop_last() =~= self.context@.take(i as int));
                assert(self.context@.take(i + 1).last() == self.context@[i as int]);
                assert(out@ =~= kind_text(self.kind) + context_text(self.context@.take(i + 1)));
            }
            i = i + 1;
        }
        proof {
            assert(self.context@.take(len as int) =~= self.context@);
        }
        out
    }
}

/// The one-line text of an error kind.
pub open spec fn kind_text(k: ErrorKind) -> Seq<char> {
    match k {
        ErrorKind::Syntax { location } => "syntax error at character "@ + dec_str(location as nat),
        ErrorKind::UnexpectedRule { expected, actual, span: _ } => "expected "@
            + expectation_text(expected) + ", got "@ + rule_text(actual),
        ErrorKind::ItemExpected { location: _ } => "item expected"@,
        ErrorKind::InvalidInteger { span: _, cause } => "invalid integer: "@ + cause_text(cause),
        ErrorKind::DuplicateDiscriminant { value } => "duplicate discriminant found: "@ + dec_str(
            value as nat,
        ),
    }
}

/// The context messages joined onto a line, innermost first.
pub open spec fn context_text(cs: Seq<String>) -> Seq<char>
    decreases cs.len(),
{
    if cs.len() == 0 {
        Seq::empty()
    } else {
        context_text(cs.drop_last()) + "; "@ + cs.last()@
    }
}

/// A readable name for each rule kind.
pub open spec fn rule_text(r: Rule) -> Seq<char> {
    match r {
        Rule::Main => "main"@,
        Rule::Eoi => "end of input"@,
        Rule::DefStruct => "struct definition"@,
        Rule::DefEnum => "enum definition"@,
        Rule::DefAlias => "alias definition"@,
        Rule::Identifier => "identifier"@,
        Rule::TypeId => "type id"@,
        Rule::GenericsList => "generics list"@,
        Rule::ValueType => "value type"@,
        Rule::Array => "array"@,
        Rule::NonZeroInteger => "non-zero integer"@,
        Rule::StructValues => "struct values"@,
        Rule::NamedField => "named field"@,
        Rule::TupleValues => "tuple values"@,
        Rule::EnumVariant => "enum variant"@,
        Rule::EnumVariantEmpty => "empty enum variant"@,
        Rule::EnumVariantTuple => "tuple enum variant"@,
        Rule::EnumVariantStruct => "struct enum variant"@,
        Rule::EnumDiscriminant => "enum discriminant"@,
    }
}

/// A readable name for each expected shape.
pub open spec fn expectation_text(e: Expectation) -> Seq<char> {
    match e {
        Expectation::Exact(r) => rule_text(r),
        Expectation::TypeDefinition => "type definition"@,
        Expectation::StructContent => "struct content"@,
        Expectation::ValueTypeChild => "type id or array"@,
        Expectation::EnumVariantShape => "some of enum variants"@,
    }
}

/// A readable name for each rejection cause of a numeric literal.
pub open spec fn cause_text(c: IntegerCause) -> Seq<char> {
    match c {
        IntegerCause::NotDecimal => "not a decimal number"@,
        IntegerCause::Overflow => "out of range"@,
        IntegerCause::Zero => "must not be zero"@,
    }
}

fn rule_name(r: Rule) -> (s: &'static str)
    ensures
        s@ == rule_text(r),
{
    match r {
        Rule::Main => "main",
        Rule::Eoi => "end of input",
        Rule::DefStruct => "struct definition",
        Rule::DefEnum => "enum definition",
        Rule::DefAlias => "alias definition",
        Rule::Identifier => "identifier",
        Rule::TypeId => "type id",
        Rule::GenericsList => "generics list",
        Rule::ValueType => "value type",
        Rule::Array => "array",
        Rule::NonZeroInteger => "non-zero integer",
        Rule::StructValues => "struct values",
        Rule::NamedField => "named field",
        Rule::TupleValues => "tuple values",
        Rule::EnumVariant => "enum variant",
        Rule::EnumVariantEmpty => "empty enum variant",
        Rule::EnumVariantTuple => "tuple enum variant",
        Rule::EnumVariantStruct => "struct enum variant",
        Rule::EnumDiscriminant => "enum discriminant",
    }
}

fn expectation_name(e: Expectation) -> (s: &'static str)
    ensures
        s@ == expectation_text(e),
{
    match e {
        Expectation::Exact(r) => rule_name(r),
        Expectation::TypeDefinition => "type definition",
        Expectation::StructContent => "struct content",
        Expectation::ValueTypeChild => "type id or array",
        Expectation::EnumVariantShape => "some of enum variants",
    }
}

fn cause_name(c: IntegerCause) -> (s: &'static str)
    ensures
        s@ == cause_text(c),
{
    match c {
        IntegerCause::NotDecimal => "not a decimal number",
        IntegerCause::Overflow => "out of range",
        IntegerCause::Zero => "must not be zero",
    }
}

} // verus!
