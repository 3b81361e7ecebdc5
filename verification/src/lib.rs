//! A verified front end for a small interface-definition language of
//! structs, enums and type aliases. Source text is tokenized and parsed
//! into a tree of tagged nodes, the tree is mapped to a typed abstract
//! syntax tree, and enum variant discriminants are resolved and checked
//! for uniqueness; the result is an ordered namespace of definitions, or
//! one structured, located error. A second part of the crate describes
//! integers and strings by their byte encodings for sample tables.

pub mod ast;
pub mod builder;
pub mod encode;
pub mod error;
pub mod grammar;
pub mod node;
pub mod resolve;
pub mod samples;
pub mod scale;

use vstd::prelude::*;

use crate::ast::NamespaceDefinition;
use crate::error::ParseError;

verus! {

/// Parse a whole source text into a namespace: the grammar engine builds
/// the tagged node tree, the builder maps it to typed definitions, and
/// enum discriminants are resolved and checked. Success is owed exactly
/// when the text reads as definitions under the grammar and those
/// definitions are semantically admissible; the namespace then relates,
/// definition by definition, to the tree form of exactly those
/// definitions, whose every token is the verbatim source text at its
/// recorded span.
pub fn parse_definitions(input: &str) -> (r: Result<NamespaceDefinition, ParseError>)
    ensures
        r is Ok <==> (grammar::sp_document(input@) matches Some(defs) && grammar::gsem_defs(
            defs,
        )),
        r matches Ok(ns) ==> exists|root: node::Node| {
            &&& #[trigger] grammar::node_spans_text(root, input@)
            &&& grammar::root_matches(root, grammar::sp_document(input@)->0)
            &&& builder::rel_namespace(ns.types@, root.children@)
        },
{
    let root = match grammar::parse_tree(input) {
        Ok(root) => root,
        Err(e) => {
            return Err(e.wrap("failed to parse input"));
        },
    };
    match NamespaceDefinition::try_from(&root) {
        Ok(ns) => {
            proof {
                assert(grammar::node_spans_text(root, input@) && grammar::root_matches(
                    root,
                    grammar::sp_document(input@)->0,
                ) && builder::rel_namespace(ns.types@, root.children@));
            }
            Ok(ns)
        },
        Err(e) => Err(e.wrap("failed to map parsed data")),
    }
}

/// Numeric value of an ASCII decimal digit character, or 10 when the
/// character is not a digit.
pub open spec fn digit_value(c: char) -> nat {
    if '0' <= c && c <= '9' {
        ((c as int) - ('0' as int)) as nat
    } else {
        10
    }
}

/// True when the character is an ASCII decimal digit.
pub open spec fn is_digit_char(c: char) -> bool {
    digit_value(c) < 10
}

/// Decide whether a character is an ASCII decimal digit.
pub fn char_is_digit(c: char) -> (r: bool)
    ensures
        r == is_digit_char(c),
{
    let n = c as u32;
    48 <= n && n <= 57
}

/// True when every character of the sequence is an ASCII decimal digit.
pub open spec fn all_digits(s: Seq<char>) -> bool {
    forall|i: int| 0 <= i < s.len() ==> is_digit_char(#[trigger] s[i])
}

/// The numeric value of a sequence of decimal digit characters, most
/// significant digit first.
pub open spec fn dec_val(s: Seq<char>) -> nat
    decreases s.len(),
{
    if s.len() == 0 {
        0
    } else {
        dec_val(s.drop_last()) * 10 + digit_value(s.last())
    }
}

/// Reading one more digit multiplies the prefix value by ten and adds the
/// digit.
pub proof fn lemma_dec_val_step(s: Seq<char>, k: int)
    requires
        0 <= k < s.len(),
    ensures
        dec_val(s.take(k + 1)) == dec_val(s.take(k)) * 10 + digit_value(s[k]),
{
    assert(s.take(k + 1).drop_last() =~= s.take(k));
    assert(s.take(k + 1).last() == s[k]);
}

/// The value of a prefix never exceeds the value of the whole digit run.
pub proof fn lemma_dec_val_prefix_le(s: Seq<char>, k: int)
    requires
        0 <= k <= s.len(),
    ensures
        dec_val(s.take(k)) <= dec_val(s),
    decreases s.len() - k,
{
    if k == s.len() {
        assert(s.take(k) =~= s);
    } else {
        lemma_dec_val_step(s, k);
        lemma_dec_val_prefix_le(s, k + 1);
    }
}

} // verus!
