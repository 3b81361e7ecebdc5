use vstd::prelude::*;

use crate::ast::{EnumVariantWithResolvedDiscriminant, SyntaxEnumVariant};
use crate::error::{ErrorKind, ParseError};

verus! {

/// The final discriminant of position `i`, given each position's explicit
/// discriminant (or `None`), under C-enum style numbering: an explicit
/// discriminant is taken as is; an implicit one is the successor of the
/// previous position's final discriminant, or 0 at the first position.
/// The successor of `u32::MAX` saturates to `u32::MAX`, which collides
/// with its predecessor and is therefore always rejected by the duplicate
/// check.
pub open spec fn resolve_at(discs: Seq<Option<u32>>, i: int) -> u32
    decreases i,
{
    match discs[i] {
        Some(x) => x,
        None => if i <= 0 {
            0u32
        } else if resolve_at(discs, i - 1) == u32::MAX {
            u32::MAX
        } else {
            (resolve_at(discs, i - 1) + 1) as u32
        },
    }
}

/// The explicit discriminants of a raw variant list, position by position.
pub open spec fn discs_of(items: Seq<SyntaxEnumVariant>) -> Seq<Option<u32>> {
    Seq::new(items.len(), |i: int| items[i].discriminant)
}

/// The final discriminant of variant `i` of a raw variant list.
pub open spec fn resolved_disc(items: Seq<SyntaxEnumVariant>, i: int) -> u32 {
    resolve_at(discs_of(items), i)
}

/// Positions `a` and `b` (in that order) resolve to the same final
/// discriminant.
pub open spec fn dup_pair(discs: Seq<Option<u32>>, a: int, b: int) -> bool {
    &&& 0 <= a < b < discs.len()
    &&& resolve_at(discs, a) == resolve_at(discs, b)
}

/// Some two positions share the final discriminant `v`.
pub open spec fn is_dup_value(discs: Seq<Option<u32>>, v: u32) -> bool {
    exists|a: int, b: int| dup_pair(discs, a, b) && resolve_at(discs, a) == v
}

/// Some two positions share a final discriminant.
pub open spec fn has_dup(discs: Seq<Option<u32>>) -> bool {
    exists|a: int, b: int| dup_pair(discs, a, b)
}

impl EnumVariantWithResolvedDiscriminant {
    /// Assign final discriminants to a raw variant list in declaration
    /// order, then reject the whole list if any two variants resolved to
    /// the same value; the reported duplicate is the smallest one.
    pub fn try_from_parsed_list(items: Vec<SyntaxEnumVariant>) -> (r: Result<
        Vec<EnumVariantWithResolvedDiscriminant>,
        ParseError,
    >)
        ensures
            r is Ok <==> !has_dup(discs_of(items@)),
            r matches Ok(list) ==> {
                &&& list@.len() == items@.len()
                &&& forall|i: int|
                    0 <= i < items@.len() ==> {
                        &&& (#[trigger] list@[i]).name == items@[i].name
                        &&& list@[i].content == items@[i].content
                        &&& list@[i].discriminant == resolved_disc(items@, i)
                    }
                &&& forall|a: int, b: int|
                    0 <= a < list@.len() && 0 <= b < list@.len() && a != b
                        ==> (#[trigger] list@[a]).discriminant != (#[trigger] list@[b]).discriminant
            },
            r matches Err(e) ==> {
                &&& e.kind matches ErrorKind::DuplicateDiscriminant { value }
                &&& is_dup_value(discs_of(items@), e.kind->DuplicateDiscriminant_value)
                &&& forall|w: u32|
                    #[trigger] is_dup_value(discs_of(items@), w) ==> e.kind->DuplicateDiscriminant_value <= w
            },
    {
        let ghost orig = items@;
        let mut items = items;
        let mut mapped: Vec<EnumVariantWithResolvedDiscriminant> = Vec::new();
        let mut previous: Option<u32> = None;

        while items.len() > 0
            invariant
                orig.len() == mapped@.len() + items@.len(),
                items@ =~= orig.subrange(mapped@.len() as int, orig.len() as int),
                forall|i: int|
                    0 <= i < mapped@.len() ==> {
                        &&& (#[trigger] mapped@[i]).name == orig[i].name
                        &&& mapped@[i].content == orig[i].content
                        &&& mapped@[i].discriminant == resolved_disc(orig, i)
                    },
                mapped@.len() == 0 ==> previous is None,
                mapped@.len() > 0 ==> previous == Some(resolved_disc(orig, mapped@.len() - 1)),
            decreases items@.len(),
        {
            let ghost k = mapped@.len() as int;
            let item = items.remove(0);
            proof {
                assert(item == orig[k]);
                assert(items@ =~= orig.subrange(k + 1, orig.len() as int));
            }
            let current: u32 = match item.discriminant {
                Some(x) => x,
                None => match previous {
                    None => 0,
                    Some(p) => if p == u32::MAX {
                        u32::MAX
                    } else {
                        p + 1
                    },
                },
            };
            proof {
                assert(current == resolved_disc(orig, k));
            }
            previous = Some(current);
            mapped.push(
                EnumVariantWithResolvedDiscriminant {
                    name: item.name,
                    discriminant: current,
                    content: item.content,
                },
            );
        }

        // Find the smallest discriminant shared by two variants, if any.
        let n = mapped.len();
        let mut best: Option<u32> = None;
        let mut i: usize = 0;
        while i < n
            invariant
                n == mapped@.len(),
                n == orig.len(),
                i <= n,
                forall|idx: int|
                    0 <= idx < n ==> (#[trigger] mapped@[idx]).discriminant == resolved_disc(
                        orig,
                        idx,
                    ),
                best is None ==> forall|a: int, b: int| dup_pair(discs_of(orig), a, b) ==> a >= i,
                best matches Some(v) ==> is_dup_value(discs_of(orig), v) && forall|a: int, b: int|
                    dup_pair(discs_of(orig), a, b) && a < i ==> v <= resolved_disc(orig, a),
            decreases n - i,
        {
            let mut j: usize = i + 1;
            while j < n
                invariant
                    n == mapped@.len(),
                    n == orig.len(),
                    i < n,
                    i < j <= n,
                    forall|idx: int|
                        0 <= idx < n ==> (#[trigger] mapped@[idx]).discriminant == resolved_disc(
                            orig,
                            idx,
                        ),
                    best is None ==> forall|a: int, b: int|
                        dup_pair(discs_of(orig), a, b) ==> a > i || (a == i && b >= j),
                    best matches Some(v) ==> is_dup_value(discs_of(orig), v) && forall|a: int, b: int|
                        dup_pair(discs_of(orig), a, b) && (a < i || (a == i && b < j)) ==> v <= resolved_disc(
                            orig,
                            a,
                        ),
                decreases n - j,
            {
                if mapped[i].discriminant == mapped[j].discriminant {
                    let d = mapped[i].discriminant;
                    proof {
                        assert(dup_pair(discs_of(orig), i as int, j as int));
                    }
                    best = match best {
                        None => Some(d),
                        Some(v) => if d < v {
                            Some(d)
                        } else {
                            Some(v)
                        },
                    };
                }
                j = j + 1;
            }
            i = i + 1;
        }

        match best {
            None => {
                proof {
                    assert(!has_dup(discs_of(orig)));
                    assert forall|a: int, b: int|
                        0 <= a < mapped@.len() && 0 <= b < mapped@.len() && a != b implies (
                    #[trigger] mapped@[a]).discriminant != (#[trigger] mapped@[b]).discriminant by {
                        if a < b {
                            assert(!dup_pair(discs_of(orig), a, b));
                        } else {
                            assert(!dup_pair(discs_of(orig), b, a));
                        }
                    }
                }
                Ok(mapped)
            },
            Some(value) => Err(
                ParseError::new(ErrorKind::DuplicateDiscriminant { value }),
            ),
        }
    }
}

/// For an enum where no variant carries an explicit discriminant, the
/// resolved discriminants equal the positional indices 0, 1, 2, ... in
/// declaration order.
pub proof fn lemma_implicit_discriminants_are_indices(items: Seq<SyntaxEnumVariant>, i: int)
    requires
        forall|j: int| 0 <= j < items.len() ==> items[j].discriminant is None,
        0 <= i < items.len(),
        i <= u32::MAX,
    ensures
        resolved_disc(items, i) as int == i,
    decreases i,
{
    if i > 0 {
        lemma_implicit_discriminants_are_indices(items, i - 1);
    }
}

/// An explicit discriminant changes the baseline for the variants after
/// it: an implicit variant directly after one with explicit discriminant
/// `d` resolves to `d + 1`, not to its positional index.
pub proof fn lemma_explicit_sets_baseline(items: Seq<SyntaxEnumVariant>, k: int)
    requires
        0 <= k,
        k + 1 < items.len(),
        items[k].discriminant is Some,
        items[k].discriminant->0 < u32::MAX,
        items[k + 1].discriminant is None,
    ensures
        resolved_disc(items, k + 1) as int == items[k].discriminant->0 + 1,
{
    assert(resolved_disc(items, k) == items[k].discriminant->0);
}

} // verus!
