use vstd::prelude::*;

use crate::error::{ErrorKind, ParseError, Span};

verus! {

/// The rule kinds the grammar engine tags its nodes with, one per grammar
/// production.
#[derive(Clone, Copy, Debug, PartialEq, Eq, Structural)]
pub enum Rule {
    /// The root of a document; its children are the definitions followed by
    /// the end-of-input marker.
    Main,
    /// The end-of-input marker, skipped by the namespace builder.
    Eoi,
    /// A struct definition: a type id and one body node.
    DefStruct,
    /// An enum definition: a type id and the variant nodes.
    DefEnum,
    /// An alias definition: a type id and the aliased value type.
    DefAlias,
    /// An identifier token; the matched text is kept verbatim.
    Identifier,
    /// A type id: an identifier and an optional generics list.
    TypeId,
    /// The generic arguments of a type id, each itself a type id.
    GenericsList,
    /// A value type wrapping exactly one type-id or array child.
    ValueType,
    /// A fixed-size array: an element value type and a length literal.
    Array,
    /// A positive integer literal token.
    NonZeroInteger,
    /// Named struct fields.
    StructValues,
    /// One named field: an identifier and a value type.
    NamedField,
    /// Positional tuple values.
    TupleValues,
    /// One enum variant: a shape node and an optional discriminant.
    EnumVariant,
    /// A variant without a body; the child is its identifier.
    EnumVariantEmpty,
    /// A variant with a tuple body: an identifier and tuple values.
    EnumVariantTuple,
    /// A variant with named fields: an identifier and struct values.
    EnumVariantStruct,
    /// An explicit discriminant annotation token.
    EnumDiscriminant,
}

/// One tagged node of the parse tree the grammar engine produces: a rule
/// kind, the character span it covers, the matched text for leaf tokens
/// (empty otherwise), and the child nodes in source order.
#[derive(Debug, PartialEq, Eq)]
pub struct Node {
    pub rule: Rule,
    pub span: Span,
    pub text: String,
    pub children: Vec<Node>,
}

/// Sequential access to a node's children: each `take_next` yields the
/// next child, or fails with `ItemExpected` at the node's end when a
/// required child is absent.
pub struct Cursor<'a> {
    pub node: &'a Node,
    pub index: usize,
}

impl<'a> Cursor<'a> {
    /// Start before the first child of `node`.
    pub fn new(node: &'a Node) -> (r: Cursor<'a>)
        ensures
            r.node == node,
            r.index == 0,
    {
        Cursor { node, index: 0 }
    }

    /// How many children have not been taken yet.
    pub open spec fn remaining(self) -> int {
        self.node.children@.len() - self.index
    }

    /// Take the next child, or fail with `ItemExpected` located at the end
    /// of the node when none is left.
    pub fn take_next(&mut self) -> (r: Result<&'a Node, ParseError>)
        ensures
            final(self).node == old(self).node,
            r is Ok <==> old(self).remaining() > 0,
            r is Ok ==> final(self).index == old(self).index + 1 && r->Ok_0
                == &old(self).node.children@[old(self).index as int],
            r is Err ==> final(self).index == old(self).index && r->Err_0.kind == (
            ErrorKind::ItemExpected { location: old(self).node.span.end }),
    {
        if self.index < self.node.children.len() {
            let child = &self.node.children[self.index];
            self.index = self.index + 1;
            Ok(child)
        } else {
            Err(ParseError::new(ErrorKind::ItemExpected { location: self.node.span.end }))
        }
    }

    /// Take the next child if one is left.
    pub fn take_optional(&mut self) -> (r: Option<&'a Node>)
        ensures
            final(self).node == old(self).node,
            r is Some <==> old(self).remaining() > 0,
            r is Some ==> final(self).index == old(self).index + 1 && r->0 == &old(
                self,
            ).node.children@[old(self).index as int],
            r is None ==> final(self).index == old(self).index,
    {
        if self.index < self.node.children.len() {
            let child = &self.node.children[self.index];
            self.index = self.index + 1;
            Some(child)
        } else {
            None
        }
    }
}

} // verus!
