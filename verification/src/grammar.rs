use vstd::prelude::*;
use vstd::string::StrSliceExecFns;

use crate::all_digits;
use crate::builder::{
    wf_enum_variant, wf_named_field, wf_struct_values, wf_tuple_values, wf_type_id, wf_value_type,
};
use crate::resolve::has_dup;
use crate::char_is_digit;
use crate::dec_val;
use crate::error::{ErrorKind, ParseError, Span};
use crate::node::{Node, Rule};

verus! {


/// Whitespace between tokens.
pub open spec fn is_ws(c: char) -> bool {
    c == ' ' || c == '\t' || c == '\r' || c == '\n'
}

/// A character that may open an identifier.
pub open spec fn is_ident_start(c: char) -> bool {
    ('a' <= c && c <= 'z') || ('A' <= c && c <= 'Z') || c == '_'
}

/// A character that may continue an identifier.
pub open spec fn is_ident_continue(c: char) -> bool {
    is_ident_start(c) || crate::is_digit_char(c)
}

fn char_is_ws(c: char) -> (r: bool)
    ensures
        r == is_ws(c),
{
    c == ' ' || c == '\t' || c == '\r' || c == '\n'
}

fn char_is_ident_start(c: char) -> (r: bool)
    ensures
        r == is_ident_start(c),
{
    let n = c as u32;
    (97 <= n && n <= 122) || (65 <= n && n <= 90) || n == 95
}

fn char_is_ident_continue(c: char) -> (r: bool)
    ensures
        r == is_ident_continue(c),
{
    char_is_ident_start(c) || char_is_digit(c)
}

/// Every node of the tree lies within the source text, every leaf
/// token's text is the verbatim source at its span, and no identifier
/// token is empty.
pub open spec fn node_spans_text(n: Node, s: Seq<char>) -> bool
    decreases n,
{
    &&& n.span.start <= n.span.end <= s.len()
    &&& ((n.rule == Rule::Identifier || n.rule == Rule::NonZeroInteger || n.rule
        == Rule::EnumDiscriminant) ==> n.text@ == s.subrange(n.span.start as int, n.span.end as int))
    &&& (n.rule == Rule::Identifier ==> n.span.start < n.span.end)
    &&& forall|i: int|
        0 <= i < n.children@.len() ==> node_spans_text(#[trigger] n.children@[i], s)
}

/// Where a run of whitespace starting at `pos` ends.
pub open spec fn scan_ws(s: Seq<char>, pos: int) -> int
    decreases s.len() - pos,
{
    if 0 <= pos < s.len() && is_ws(s[pos]) {
        scan_ws(s, pos + 1)
    } else {
        pos
    }
}

/// Where a run of identifier-continuation characters starting at `pos`
/// ends.
pub open spec fn scan_ident(s: Seq<char>, pos: int) -> int
    decreases s.len() - pos,
{
    if 0 <= pos < s.len() && is_ident_continue(s[pos]) {
        scan_ident(s, pos + 1)
    } else {
        pos
    }
}

/// Where a run of decimal digits starting at `pos` ends.
pub open spec fn scan_digits(s: Seq<char>, pos: int) -> int
    decreases s.len() - pos,
{
    if 0 <= pos < s.len() && crate::is_digit_char(s[pos]) {
        scan_digits(s, pos + 1)
    } else {
        pos
    }
}

/// The identifier token at `pos`: its text and end, or nothing when no
/// identifier starts there.
pub open spec fn sp_ident(s: Seq<char>, pos: int) -> Option<(Seq<char>, int)> {
    if 0 <= pos < s.len() && is_ident_start(s[pos]) {
        Some((s.subrange(pos, scan_ident(s, pos + 1)), scan_ident(s, pos + 1)))
    } else {
        None
    }
}

/// The digit-run token at `pos`: its text and end, or nothing when no
/// digit stands there.
pub open spec fn sp_digits(s: Seq<char>, pos: int) -> Option<(Seq<char>, int)> {
    if 0 <= pos < s.len() && crate::is_digit_char(s[pos]) {
        Some((s.subrange(pos, scan_digits(s, pos + 1)), scan_digits(s, pos + 1)))
    } else {
        None
    }
}

/// A syntax-location failure of the grammar engine.
fn syntax_err(location: usize) -> (r: ParseError)
    ensures
        r.kind == (ErrorKind::Syntax { location }),
{
    ParseError::new(ErrorKind::Syntax { location })
}

/// Advance past whitespace.
fn skip_ws(s: &str, pos: usize) -> (r: usize)
    requires
        pos <= s@.len(),
    ensures
        pos <= r <= s@.len(),
        r < s@.len() ==> !is_ws(s@[r as int]),
        r as int == scan_ws(s@, pos as int),
{
    let len = s.unicode_len();
    let mut p = pos;
    while p < len
        invariant
            pos <= p <= len,
            len == s@.len(),
            scan_ws(s@, pos as int) == scan_ws(s@, p as int),
        decreases len - p,
    {
        if !char_is_ws(s.get_char(p)) {
            return p;
        }
        p = p + 1;
    }
    p
}

/// True when the character at `pos` is exactly `c`.
fn peek_is(s: &str, pos: usize, c: char) -> (r: bool)
    requires
        pos <= s@.len(),
    ensures
        r == (pos < s@.len() && s@[pos as int] == c),
{
    let len = s.unicode_len();
    pos < len && s.get_char(pos) == c
}

/// Read an identifier token into a leaf node.
fn parse_identifier(s: &str, pos: usize) -> (r: Result<(Node, usize), ParseError>)
    requires
        pos <= s@.len(),
    ensures
        r matches Ok(p) ==> {
            &&& pos < p.1 <= s@.len()
            &&& p.0.rule == Rule::Identifier
            &&& p.0.span == (Span { start: pos, end: p.1 })
            &&& p.0.children@.len() == 0
            &&& p.0.text@.len() > 0
            &&& node_spans_text(p.0, s@)
            &&& sp_ident(s@, pos as int) == Some((p.0.text@, p.1 as int))
        },
        r is Ok <==> sp_ident(s@, pos as int) is Some,
        r matches Err(e) ==> e.kind == (ErrorKind::Syntax { location: pos }),
{
    let len = s.unicode_len();
    if pos >= len || !char_is_ident_start(s.get_char(pos)) {
        return Err(syntax_err(pos));
    }
    let mut end = pos + 1;
    let mut stop = false;
    while !stop && end < len
        invariant
            pos < end <= len,
            len == s@.len(),
            scan_ident(s@, pos + 1) == scan_ident(s@, end as int),
            stop ==> end < len && !is_ident_continue(s@[end as int]),
        decreases len - end + (if stop { 0int } else { 1int }),
    {
        if char_is_ident_continue(s.get_char(end)) {
            end = end + 1;
        } else {
            stop = true;
        }
    }
    proof {
        assert(end as int == scan_ident(s@, pos + 1));
    }
    let text = s.substring_char(pos, end).to_owned();
    Ok(
        (
            Node {
                rule: Rule::Identifier,
                span: Span { start: pos, end },
                text,
                children: Vec::new(),
            },
            end,
        ),
    )
}

/// Read a run of decimal digits, returning its end and its text.
fn parse_digits(s: &str, pos: usize) -> (r: Result<(String, usize), ParseError>)
    requires
        pos <= s@.len(),
    ensures
        r matches Ok(p) ==> {
            &&& pos < p.1 <= s@.len()
            &&& p.0@ == s@.subrange(pos as int, p.1 as int)
            &&& all_digits(p.0@)
            &&& p.0@.len() > 0
            &&& sp_digits(s@, pos as int) == Some((p.0@, p.1 as int))
        },
        r is Ok <==> sp_digits(s@, pos as int) is Some,
        r matches Err(e) ==> e.kind == (ErrorKind::Syntax { location: pos }),
{
    let len = s.unicode_len();
    if pos >= len || !char_is_digit(s.get_char(pos)) {
        return Err(syntax_err(pos));
    }
    let mut end = pos + 1;
    let mut stop = false;
    while !stop && end < len
        invariant
            pos < end <= len,
            len == s@.len(),
            forall|k: int| pos <= k < end ==> crate::is_digit_char(#[trigger] s@[k]),
            scan_digits(s@, pos + 1) == scan_digits(s@, end as int),
            stop ==> end < len && !crate::is_digit_char(s@[end as int]),
        decreases len - end + (if stop { 0int } else { 1int }),
    {
        if char_is_digit(s.get_char(end)) {
            end = end + 1;
        } else {
            stop = true;
        }
    }
    proof {
        assert(end as int == scan_digits(s@, pos + 1));
    }
    let text = s.substring_char(pos, end).to_owned();
    proof {
        assert forall|i: int| 0 <= i < text@.len() implies crate::is_digit_char(
            #[trigger] text@[i],
        ) by {
            assert(text@[i] == s@[pos + i]);
        }
    }
    Ok((text, end))
}

/// The abstract content of a type-id node: the name and the generic
/// arguments, recursively.
pub struct GTypeId {
    pub name: Seq<char>,
    pub generics: Seq<GTypeId>,
}

/// The abstract content of a value-type node: a reference or an array
/// with the raw numeric value of its length literal.
pub enum GValue {
    Ref(GTypeId),
    Arr(Box<GValue>, nat),
}

/// The abstract content of one named field.
pub struct GField {
    pub name: Seq<char>,
    pub value: GValue,
}

/// The abstract content of a struct or variant body.
pub enum GBody {
    Named(Seq<GField>),
    Tuple(Seq<GValue>),
}

/// The abstract content of one enum variant, with the raw numeric value
/// of its explicit discriminant if it carries one.
pub struct GVariant {
    pub name: Seq<char>,
    pub disc: Option<nat>,
    pub body: Option<GBody>,
}

/// The abstract content of one type definition.
pub enum GDef {
    Struct(GTypeId, GBody),
    Enum(GTypeId, Seq<GVariant>),
    Alias(GTypeId, GValue),
}

/// The type id the engine reads at `pos` with call budget `b`, and where
/// it ends; or nothing when the text does not match or the budget runs
/// out.
pub open spec fn sp_type_id(s: Seq<char>, pos: int, b: int) -> Option<(GTypeId, int)>
    decreases b,
{
    if b <= 0 {
        None
    } else {
        match sp_ident(s, pos) {
            None => None,
            Some((name, e1)) => {
                let w = scan_ws(s, e1);
                if w < s.len() && s[w] == '<' {
                    let p0 = scan_ws(s, w + 1);
                    match sp_type_id(s, p0, b - 1) {
                        None => None,
                        Some((g0, e2)) => {
                            match sp_gen_rest(s, scan_ws(s, e2), b - 1, seq![g0]) {
                                None => None,
                                Some((gens, e3)) => Some((GTypeId { name, generics: gens }, e3)),
                            }
                        },
                    }
                } else {
                    Some((GTypeId { name, generics: Seq::empty() }, e1))
                }
            },
        }
    }
}

/// The rest of a generics list after one argument: more comma-separated
/// arguments, then the closing bracket.
pub open spec fn sp_gen_rest(s: Seq<char>, pos: int, b: int, acc: Seq<GTypeId>) -> Option<
    (Seq<GTypeId>, int),
>
    decreases b,
{
    if pos < s.len() && s[pos] == ',' {
        if b <= 0 {
            None
        } else {
            let p0 = scan_ws(s, pos + 1);
            match sp_type_id(s, p0, b - 1) {
                None => None,
                Some((g, e)) => sp_gen_rest(s, scan_ws(s, e), b - 1, acc.push(g)),
            }
        }
    } else if pos < s.len() && s[pos] == '>' {
        Some((acc, pos + 1))
    } else {
        None
    }
}

/// The value type the engine reads at `pos` with call budget `b`, and
/// where it ends.
pub open spec fn sp_value_type(s: Seq<char>, pos: int, b: int) -> Option<(GValue, int)>
    decreases b,
{
    if b <= 0 {
        None
    } else if pos < s.len() && s[pos] == '[' {
        let p0 = scan_ws(s, pos + 1);
        match sp_value_type(s, p0, b - 1) {
            None => None,
            Some((inner, e1)) => {
                let p2 = scan_ws(s, e1);
                if p2 < s.len() && s[p2] == ';' {
                    let p3 = scan_ws(s, p2 + 1);
                    match sp_digits(s, p3) {
                        None => None,
                        Some((dt, de)) => {
                            let p4 = scan_ws(s, de);
                            if p4 < s.len() && s[p4] == ']' {
                                Some((GValue::Arr(Box::new(inner), dec_val(dt)), p4 + 1))
                            } else {
                                None
                            }
                        },
                    }
                } else {
                    None
                }
            },
        }
    } else {
        match sp_type_id(s, pos, b - 1) {
            None => None,
            Some((t, e)) => Some((GValue::Ref(t), e)),
        }
    }
}

/// The node is exactly the tree form of the abstract type id: same name,
/// same generics, recursively.
pub open spec fn tid_matches(n: Node, g: GTypeId) -> bool
    decreases n,
{
    &&& n.rule == Rule::TypeId
    &&& n.children@.len() >= 1
    &&& n.children@[0].rule == Rule::Identifier
    &&& n.children@[0].text@ == g.name
    &&& if g.generics.len() == 0 {
        n.children@.len() == 1
    } else {
        &&& n.children@.len() == 2
        &&& n.children@[1].rule == Rule::GenericsList
        &&& n.children@[1].children@.len() == g.generics.len()
        &&& forall|i: int|
            0 <= i < g.generics.len() ==> tid_matches(
                #[trigger] n.children@[1].children@[i],
                g.generics[i],
            )
    }
}

/// The node is exactly the tree form of the abstract value type.
pub open spec fn val_matches(n: Node, g: GValue) -> bool
    decreases n,
{
    &&& n.rule == Rule::ValueType
    &&& n.children@.len() == 1
    &&& {
        let c = n.children@[0];
        match g {
            GValue::Ref(t) => tid_matches(c, t),
            GValue::Arr(inner, len) => {
                &&& c.rule == Rule::Array
                &&& c.children@.len() == 2
                &&& val_matches(c.children@[0], *inner)
                &&& c.children@[1].rule == Rule::NonZeroInteger
                &&& all_digits(c.children@[1].text@)
                &&& c.children@[1].text@.len() > 0
                &&& dec_val(c.children@[1].text@) == len
            },
        }
    }
}

/// An abstract value type is semantically admissible when every array
/// length within it is a positive 32-bit value.
pub open spec fn gsem_value(g: GValue) -> bool
    decreases g,
{
    match g {
        GValue::Ref(_) => true,
        GValue::Arr(inner, len) => 0 < len <= u32::MAX && gsem_value(*inner),
    }
}

/// Read a type id: an identifier, optionally followed by angle-bracketed
/// generic arguments, each recursively a type id.
fn parse_type_id(s: &str, pos: usize, b: u128) -> (r: Result<(Node, usize), ParseError>)
    requires
        pos <= s@.len(),
    ensures
        r is Ok <==> sp_type_id(s@, pos as int, b as int) is Some,
        r matches Ok(p) ==> {
            &&& pos < p.1 <= s@.len()
            &&& p.0.rule == Rule::TypeId
            &&& node_spans_text(p.0, s@)
            &&& wf_type_id(p.0)
            &&& (sp_type_id(s@, pos as int, b as int) matches Some(g) && p.1 as int == g.1
                && tid_matches(p.0, g.0))
        },
        r matches Err(e) ==> e.kind is Syntax,
    decreases b,
{
    let len = s.unicode_len();
    if b == 0 {
        return Err(syntax_err(pos));
    }
    let (id_node, p1) = match parse_identifier(s, pos) {
        Ok(x) => x,
        Err(e) => {
            return Err(e);
        },
    };
    let ghost gname = id_node.text@;
    let after_ws = skip_ws(s, p1);
    if peek_is(s, after_ws, '<') {
        let gl_start = after_ws;
        let mut items: Vec<Node> = Vec::new();
        let p_first = skip_ws(s, after_ws + 1);
        let mut p: usize;
        let mut gb: u128 = b - 1;
        let ghost mut gacc: Seq<GTypeId> = Seq::empty();
        match parse_type_id(s, p_first, b - 1) {
            Ok((item, np)) => {
                proof {
                    let g0 = sp_type_id(s@, p_first as int, (b - 1) as int)->0;
                    gacc = seq![g0.0];
                }
                items.push(item);
                p = skip_ws(s, np);
            },
            Err(e) => {
                return Err(e);
            },
        }
        while peek_is(s, p, ',')
            invariant
                len == s@.len(),
                pos < p <= s@.len(),
                gl_start < p,
                gb < b,
                items@.len() == gacc.len(),
                items@.len() >= 1,
                forall|j: int| 0 <= j < items@.len() ==> node_spans_text(#[trigger] items@[j], s@),
                forall|j: int| 0 <= j < items@.len() ==> wf_type_id(#[trigger] items@[j]),
                forall|j: int|
                    0 <= j < items@.len() ==> tid_matches(#[trigger] items@[j], gacc[j]),
                sp_type_id(s@, pos as int, b as int) == (match sp_gen_rest(
                    s@,
                    p as int,
                    gb as int,
                    gacc,
                ) {
                    None => None::<(GTypeId, int)>,
                    Some((gens, e)) => Some((GTypeId { name: gname, generics: gens }, e)),
                }),
            decreases gb,
        {
            if gb == 0 {
                return Err(syntax_err(p));
            }
            let p0 = skip_ws(s, p + 1);
            match parse_type_id(s, p0, gb - 1) {
                Ok((item, np)) => {
                    proof {
                        let g = sp_type_id(s@, p0 as int, (gb - 1) as int)->0;
                        gacc = gacc.push(g.0);
                    }
                    items.push(item);
                    p = skip_ws(s, np);
                },
                Err(e) => {
                    return Err(e);
                },
            }
            gb = gb - 1;
        }
        if !peek_is(s, p, '>') {
            return Err(syntax_err(p));
        }
        let end = p + 1;
        let glist = Node {
            rule: Rule::GenericsList,
            span: Span { start: gl_start, end },
            text: String::new(),
            children: items,
        };
        let mut children: Vec<Node> = Vec::new();
        children.push(id_node);
        children.push(glist);
        let tid = Node {
            rule: Rule::TypeId,
            span: Span { start: pos, end },
            text: String::new(),
            children,
        };
        proof {
            assert(node_spans_text(tid.children@[1], s@));
            assert(node_spans_text(tid.children@[0], s@));
            assert(node_spans_text(tid, s@));
            assert(!((p as int) < s@.len() && s@[p as int] == ','));
            assert((p as int) < s@.len() && s@[p as int] == '>');
            assert(sp_gen_rest(s@, p as int, gb as int, gacc) == Some((gacc, (p + 1) as int)));
            assert(gacc.len() > 0);
            assert(tid_matches(tid, GTypeId { name: gname, generics: gacc }));
            assert(wf_type_id(tid));
        }
        Ok((tid, end))
    } else {
        let mut children: Vec<Node> = Vec::new();
        children.push(id_node);
        let tid = Node {
            rule: Rule::TypeId,
            span: Span { start: pos, end: p1 },
            text: String::new(),
            children,
        };
        proof {
            assert(node_spans_text(tid.children@[0], s@));
            assert(node_spans_text(tid, s@));
            assert(tid_matches(tid, GTypeId { name: gname, generics: Seq::empty() }));
            assert(wf_type_id(tid));
        }
        Ok((tid, p1))
    }
}

/// Read a value type: a fixed-size array in square brackets, or a type
/// id, wrapped in a value-type node.
fn parse_value_type(s: &str, pos: usize, b: u128) -> (r: Result<(Node, usize), ParseError>)
    requires
        pos <= s@.len(),
    ensures
        r is Ok <==> sp_value_type(s@, pos as int, b as int) is Some,
        r matches Ok(p) ==> {
            &&& pos < p.1 <= s@.len()
            &&& p.0.rule == Rule::ValueType
            &&& node_spans_text(p.0, s@)
            &&& (sp_value_type(s@, pos as int, b as int) matches Some(g) && p.1 as int == g.1
                && val_matches(p.0, g.0) && (wf_value_type(p.0) <==> gsem_value(g.0)))
        },
        r matches Err(e) ==> e.kind is Syntax,
    decreases b,
{
    let len = s.unicode_len();
    if b == 0 {
        return Err(syntax_err(pos));
    }
    if peek_is(s, pos, '[') {
        let p0 = skip_ws(s, pos + 1);
        let (inner, p1) = match parse_value_type(s, p0, b - 1) {
            Ok(x) => x,
            Err(e) => {
                return Err(e);
            },
        };
        let p2 = skip_ws(s, p1);
        if !peek_is(s, p2, ';') {
            return Err(syntax_err(p2));
        }
        let p3 = skip_ws(s, p2 + 1);
        let (text, digits_end) = match parse_digits(s, p3) {
            Ok(x) => x,
            Err(e) => {
                return Err(e);
            },
        };
        let lit = Node {
            rule: Rule::NonZeroInteger,
            span: Span { start: p3, end: digits_end },
            text,
            children: Vec::new(),
        };
        let p4 = skip_ws(s, digits_end);
        if !peek_is(s, p4, ']') {
            return Err(syntax_err(p4));
        }
        let end = p4 + 1;
        let mut acs: Vec<Node> = Vec::new();
        acs.push(inner);
        acs.push(lit);
        let array = Node {
            rule: Rule::Array,
            span: Span { start: pos, end },
            text: String::new(),
            children: acs,
        };
        let mut vcs: Vec<Node> = Vec::new();
        vcs.push(array);
        let value = Node {
            rule: Rule::ValueType,
            span: Span { start: pos, end },
            text: String::new(),
            children: vcs,
        };
        proof {
            assert(node_spans_text(value.children@[0].children@[0], s@));
            assert(node_spans_text(value.children@[0].children@[1], s@));
            assert(node_spans_text(value.children@[0], s@));
            assert(node_spans_text(value, s@));
            let g = sp_value_type(s@, pos as int, b as int)->0;
            assert(val_matches(value, g.0));
            assert(wf_value_type(value) <==> gsem_value(g.0));
        }
        Ok((value, end))
    } else {
        let (tid, p) = match parse_type_id(s, pos, b - 1) {
            Ok(x) => x,
            Err(e) => {
                return Err(e);
            },
        };
        let mut vcs: Vec<Node> = Vec::new();
        vcs.push(tid);
        let value = Node {
            rule: Rule::ValueType,
            span: Span { start: pos, end: p },
            text: String::new(),
            children: vcs,
        };
        proof {
            assert(node_spans_text(value.children@[0], s@));
            assert(node_spans_text(value, s@));
            let g = sp_value_type(s@, pos as int, b as int)->0;
            assert(val_matches(value, g.0));
            assert(wf_value_type(value) <==> gsem_value(g.0));
        }
        Ok((value, p))
    }
}

/// Consume exactly the character `c` at `pos`.
fn expect_char(s: &str, pos: usize, c: char) -> (r: Result<usize, ParseError>)
    requires
        pos <= s@.len(),
    ensures
        r is Ok <==> pos < s@.len() && s@[pos as int] == c,
        r matches Ok(np) ==> np == pos + 1 && pos < s@.len() && s@[pos as int] == c,
        r matches Err(e) ==> e.kind == (ErrorKind::Syntax { location: pos }),
{
    let len = s.unicode_len();
    if pos < len && s.get_char(pos) == c {
        Ok(pos + 1)
    } else {
        Err(syntax_err(pos))
    }
}

/// Character-by-character string equality.
pub fn str_eq(a: &str, b: &str) -> (r: bool)
    ensures
        r == (a@ == b@),
{
    let la = a.unicode_len();
    let lb = b.unicode_len();
    if la != lb {
        proof {
            assert(a@ != b@) by {
                if a@ == b@ {
                    assert(a@.len() == b@.len());
                }
            }
        }
        return false;
    }
    let mut i: usize = 0;
    while i < la
        invariant
            la == a@.len(),
            la == b@.len(),
            i <= la,
            forall|j: int| 0 <= j < i ==> a@[j] == b@[j],
        decreases la - i,
    {
        if a.get_char(i) != b.get_char(i) {
            proof {
                assert(a@ != b@) by {
                    if a@ == b@ {
                        assert(a@[i as int] == b@[i as int]);
                    }
                }
            }
            return false;
        }
        i = i + 1;
    }
    proof {
        assert(a@ =~= b@);
    }
    true
}

/// The rest of a named body after its opening brace, one field per
/// step: more comma-separated fields, then the closing brace.
pub open spec fn sp_fields_rest(s: Seq<char>, pos: int, b: int, acc: Seq<GField>) -> Option<
    (Seq<GField>, int),
>
    decreases b,
{
    if b <= 0 {
        None
    } else {
        match sp_ident(s, pos) {
            None => None,
            Some((fname, e1)) => {
                let p2 = scan_ws(s, e1);
                if p2 < s.len() && s[p2] == ':' {
                    let p4 = scan_ws(s, p2 + 1);
                    match sp_value_type(s, p4, b - 1) {
                        None => None,
                        Some((gv, e5)) => {
                            let acc2 = acc.push(GField { name: fname, value: gv });
                            let p = scan_ws(s, e5);
                            if p < s.len() && s[p] == ',' {
                                let p2b = scan_ws(s, p + 1);
                                if p2b < s.len() && s[p2b] == '}' {
                                    Some((acc2, p2b + 1))
                                } else {
                                    sp_fields_rest(s, p2b, b - 1, acc2)
                                }
                            } else if p < s.len() && s[p] == '}' {
                                Some((acc2, p + 1))
                            } else {
                                None
                            }
                        },
                    }
                } else {
                    None
                }
            },
        }
    }
}

/// The named body the engine reads at `pos`, and where it ends.
pub open spec fn sp_struct_values(s: Seq<char>, pos: int, b: int) -> Option<(Seq<GField>, int)> {
    if b <= 0 {
        None
    } else if pos < s.len() && s[pos] == '{' {
        let p = scan_ws(s, pos + 1);
        if p < s.len() && s[p] == '}' {
            Some((Seq::empty(), p + 1))
        } else {
            sp_fields_rest(s, p, b - 1, Seq::empty())
        }
    } else {
        None
    }
}

/// The rest of a tuple body after its opening parenthesis, one entry per
/// step.
pub open spec fn sp_tuple_rest(s: Seq<char>, pos: int, b: int, acc: Seq<GValue>) -> Option<
    (Seq<GValue>, int),
>
    decreases b,
{
    if b <= 0 {
        None
    } else {
        match sp_value_type(s, pos, b - 1) {
            None => None,
            Some((gv, e1)) => {
                let acc2 = acc.push(gv);
                let p = scan_ws(s, e1);
                if p < s.len() && s[p] == ',' {
                    let p2 = scan_ws(s, p + 1);
                    if p2 < s.len() && s[p2] == ')' {
                        Some((acc2, p2 + 1))
                    } else {
                        sp_tuple_rest(s, p2, b - 1, acc2)
                    }
                } else if p < s.len() && s[p] == ')' {
                    Some((acc2, p + 1))
                } else {
                    None
                }
            },
        }
    }
}

/// The tuple body the engine reads at `pos`, and where it ends.
pub open spec fn sp_tuple_values(s: Seq<char>, pos: int, b: int) -> Option<(Seq<GValue>, int)> {
    if b <= 0 {
        None
    } else if pos < s.len() && s[pos] == '(' {
        let p = scan_ws(s, pos + 1);
        if p < s.len() && s[p] == ')' {
            Some((Seq::empty(), p + 1))
        } else {
            sp_tuple_rest(s, p, b - 1, Seq::empty())
        }
    } else {
        None
    }
}

/// The enum variant the engine reads at `pos`, and where it ends.
pub open spec fn sp_variant(s: Seq<char>, pos: int, b: int) -> Option<(GVariant, int)> {
    if b <= 0 {
        None
    } else {
        match sp_ident(s, pos) {
            None => None,
            Some((name, e1)) => {
                let w = scan_ws(s, e1);
                let shape: Option<(Option<GBody>, int)> = if w < s.len() && s[w] == '(' {
                    match sp_tuple_values(s, w, b - 1) {
                        None => None,
                        Some((vs, e)) => Some((Some(GBody::Tuple(vs)), e)),
                    }
                } else if w < s.len() && s[w] == '{' {
                    match sp_struct_values(s, w, b - 1) {
                        None => None,
                        Some((fs, e)) => Some((Some(GBody::Named(fs)), e)),
                    }
                } else {
                    Some((None, e1))
                };
                match shape {
                    None => None,
                    Some((body, shape_end)) => {
                        let p = scan_ws(s, shape_end);
                        if p < s.len() && s[p] == '/' && p + 1 < s.len() && s[p + 1] == '*' {
                            let q0 = scan_ws(s, p + 2);
                            if q0 < s.len() && s[q0] == '#' {
                                match sp_ident(s, q0 + 1) {
                                    None => None,
                                    Some((dw, q2)) => {
                                        if dw == "_DISC"@ {
                                            let q3 = scan_ws(s, q2);
                                            if q3 < s.len() && s[q3] == '=' {
                                                let q5 = scan_ws(s, q3 + 1);
                                                match sp_digits(s, q5) {
                                                    None => None,
                                                    Some((dt, dend)) => {
                                                        let q6 = scan_ws(s, dend);
                                                        if q6 < s.len() && s[q6] == '*' && q6 + 1
                                                            < s.len() && s[q6 + 1] == '/' {
                                                            Some(
                                                                (
                                                                    GVariant {
                                                                        name,
                                                                        disc: Some(dec_val(dt)),
                                                                        body,
                                                                    },
                                                                    q6 + 2,
                                                                ),
                                                            )
                                                        } else {
                                                            None
                                                        }
                                                    },
                                                }
                                            } else {
                                                None
                                            }
                                        } else {
                                            None
                                        }
                                    },
                                }
                            } else {
                                None
                            }
                        } else {
                            Some((GVariant { name, disc: None, body }, shape_end))
                        }
                    },
                }
            },
        }
    }
}

/// The rest of an enum's variant list, one variant per step.
pub open spec fn sp_variants_rest(s: Seq<char>, pos: int, b: int, acc: Seq<GVariant>) -> Option<
    (Seq<GVariant>, int),
>
    decreases b,
{
    if b <= 0 {
        None
    } else {
        match sp_variant(s, pos, b - 1) {
            None => None,
            Some((gv, e)) => {
                let acc2 = acc.push(gv);
                let p = scan_ws(s, e);
                if p < s.len() && s[p] == ',' {
                    let p2 = scan_ws(s, p + 1);
                    if p2 < s.len() && s[p2] == '}' {
                        Some((acc2, p2 + 1))
                    } else {
                        sp_variants_rest(s, p2, b - 1, acc2)
                    }
                } else if p < s.len() && s[p] == '}' {
                    Some((acc2, p + 1))
                } else {
                    None
                }
            },
        }
    }
}

/// The type definition the engine reads at `pos`, and where it ends.
pub open spec fn sp_def(s: Seq<char>, pos: int, b: int) -> Option<(GDef, int)> {
    if b <= 0 {
        None
    } else {
        match sp_ident(s, pos) {
            None => None,
            Some((w, e1)) => {
                let p = scan_ws(s, e1);
                if w == "struct"@ {
                    match sp_type_id(s, p, b - 1) {
                        None => None,
                        Some((t, e2)) => {
                            let p3 = scan_ws(s, e2);
                            if p3 < s.len() && s[p3] == '{' {
                                match sp_struct_values(s, p3, b - 1) {
                                    None => None,
                                    Some((fs, e4)) => Some(
                                        (GDef::Struct(t, GBody::Named(fs)), e4),
                                    ),
                                }
                            } else if p3 < s.len() && s[p3] == '(' {
                                match sp_tuple_values(s, p3, b - 1) {
                                    None => None,
                                    Some((vs, e4)) => {
                                        let p5 = scan_ws(s, e4);
                                        if p5 < s.len() && s[p5] == ';' {
                                            Some((GDef::Struct(t, GBody::Tuple(vs)), p5 + 1))
                                        } else {
                                            None
                                        }
                                    },
                                }
                            } else {
                                None
                            }
                        },
                    }
                } else if w == "enum"@ {
                    match sp_type_id(s, p, b - 1) {
                        None => None,
                        Some((t, e2)) => {
                            let p3 = scan_ws(s, e2);
                            if p3 < s.len() && s[p3] == '{' {
                                let q = scan_ws(s, p3 + 1);
                                if q < s.len() && s[q] == '}' {
                                    Some((GDef::Enum(t, Seq::empty()), q + 1))
                                } else {
                                    match sp_variants_rest(s, q, b - 1, Seq::empty()) {
                                        None => None,
                                        Some((vs, e)) => Some((GDef::Enum(t, vs), e)),
                                    }
                                }
                            } else {
                                None
                            }
                        },
                    }
                } else if w == "type"@ {
                    match sp_type_id(s, p, b - 1) {
                        None => None,
                        Some((t, e2)) => {
                            let p3 = scan_ws(s, e2);
                            if p3 < s.len() && s[p3] == '=' {
                                let p5 = scan_ws(s, p3 + 1);
                                match sp_value_type(s, p5, b - 1) {
                                    None => None,
                                    Some((v, e6)) => {
                                        let p7 = scan_ws(s, e6);
                                        if p7 < s.len() && s[p7] == ';' {
                                            Some((GDef::Alias(t, v), p7 + 1))
                                        } else {
                                            None
                                        }
                                    },
                                }
                            } else {
                                None
                            }
                        },
                    }
                } else {
                    None
                }
            },
        }
    }
}

/// The rest of the document's definition list.
pub open spec fn sp_defs_rest(s: Seq<char>, pos: int, b: int, acc: Seq<GDef>) -> Option<
    Seq<GDef>,
>
    decreases b,
{
    if pos >= s.len() {
        Some(acc)
    } else if b <= 0 {
        None
    } else {
        match sp_def(s, pos, b - 1) {
            None => None,
            Some((gd, e)) => sp_defs_rest(s, scan_ws(s, e), b - 1, acc.push(gd)),
        }
    }
}

/// The call budget the engine grants a text, bounding recursion and
/// list length uniformly; it is generous for every meaningful input.
pub open spec fn budget_of(n: nat) -> int {
    4 * (n as int) + 64
}

/// The definitions a whole source text reads as, or nothing when the
/// text does not match the grammar.
pub open spec fn sp_document(s: Seq<char>) -> Option<Seq<GDef>> {
    sp_defs_rest(s, scan_ws(s, 0), budget_of(s.len()), Seq::empty())
}

/// The node is exactly the tree form of one abstract named field.
pub open spec fn field_matches(n: Node, gf: GField) -> bool {
    &&& n.rule == Rule::NamedField
    &&& n.children@.len() == 2
    &&& n.children@[0].rule == Rule::Identifier
    &&& n.children@[0].text@ == gf.name
    &&& val_matches(n.children@[1], gf.value)
}

/// The node is exactly the tree form of an abstract named body.
pub open spec fn fields_match(n: Node, gfs: Seq<GField>) -> bool {
    &&& n.rule == Rule::StructValues
    &&& n.children@.len() == gfs.len()
    &&& forall|k: int| 0 <= k < gfs.len() ==> field_matches(#[trigger] n.children@[k], gfs[k])
}

/// The node is exactly the tree form of an abstract tuple body.
pub open spec fn tuple_match(n: Node, gvs: Seq<GValue>) -> bool {
    &&& n.rule == Rule::TupleValues
    &&& n.children@.len() == gvs.len()
    &&& forall|k: int| 0 <= k < gvs.len() ==> val_matches(#[trigger] n.children@[k], gvs[k])
}

/// Every field value of an abstract named body is admissible.
pub open spec fn gsem_fields(gfs: Seq<GField>) -> bool {
    forall|k: int| 0 <= k < gfs.len() ==> gsem_value((#[trigger] gfs[k]).value)
}

/// Every entry of an abstract tuple body is admissible.
pub open spec fn gsem_values(gvs: Seq<GValue>) -> bool {
    forall|k: int| 0 <= k < gvs.len() ==> gsem_value(#[trigger] gvs[k])
}

/// Every value within an abstract body is admissible.
pub open spec fn gsem_body(gb: GBody) -> bool {
    match gb {
        GBody::Named(fs) => gsem_fields(fs),
        GBody::Tuple(vs) => gsem_values(vs),
    }
}

/// The node is exactly the tree form of one abstract enum variant.
pub open spec fn var_matches(n: Node, gv: GVariant) -> bool {
    &&& n.rule == Rule::EnumVariant
    &&& n.children@.len() >= 1
    &&& {
        let first = n.children@[0];
        match gv.body {
            None => {
                &&& first.rule == Rule::EnumVariantEmpty
                &&& first.children@.len() == 1
                &&& first.children@[0].rule == Rule::Identifier
                &&& first.children@[0].text@ == gv.name
            },
            Some(GBody::Tuple(gvs)) => {
                &&& first.rule == Rule::EnumVariantTuple
                &&& first.children@.len() == 2
                &&& first.children@[0].rule == Rule::Identifier
                &&& first.children@[0].text@ == gv.name
                &&& tuple_match(first.children@[1], gvs)
            },
            Some(GBody::Named(gfs)) => {
                &&& first.rule == Rule::EnumVariantStruct
                &&& first.children@.len() == 2
                &&& first.children@[0].rule == Rule::Identifier
                &&& first.children@[0].text@ == gv.name
                &&& fields_match(first.children@[1], gfs)
            },
        }
    }
    &&& match gv.disc {
        None => n.children@.len() == 1,
        Some(d) => {
            &&& n.children@.len() == 2
            &&& n.children@[1].rule == Rule::EnumDiscriminant
            &&& all_digits(n.children@[1].text@)
            &&& n.children@[1].text@.len() > 0
            &&& dec_val(n.children@[1].text@) == d
        },
    }
}

/// An abstract variant is admissible when its body values are and its
/// explicit discriminant, if any, fits in 32 unsigned bits.
pub open spec fn gsem_variant(gv: GVariant) -> bool {
    &&& (gv.body matches Some(gb) ==> gsem_body(gb))
    &&& (gv.disc matches Some(d) ==> d <= u32::MAX)
}

/// The explicit discriminant of an abstract variant, clipped to 32 bits
/// the way the builder reads it.
pub open spec fn gdisc_opt(gv: GVariant) -> Option<u32> {
    match gv.disc {
        Some(d) => Some(d as u32),
        None => None,
    }
}

/// The explicit discriminants of an abstract variant list.
pub open spec fn gdiscs(vs: Seq<GVariant>) -> Seq<Option<u32>> {
    Seq::new(vs.len(), |i: int| gdisc_opt(vs[i]))
}

/// The node is exactly the tree form of one abstract type definition.
pub open spec fn def_matches(n: Node, gd: GDef) -> bool {
    match gd {
        GDef::Struct(t, body) => {
            &&& n.rule == Rule::DefStruct
            &&& n.children@.len() == 2
            &&& tid_matches(n.children@[0], t)
            &&& match body {
                GBody::Named(fs) => fields_match(n.children@[1], fs),
                GBody::Tuple(vs) => tuple_match(n.children@[1], vs),
            }
        },
        GDef::Enum(t, vs) => {
            &&& n.rule == Rule::DefEnum
            &&& n.children@.len() == vs.len() + 1
            &&& tid_matches(n.children@[0], t)
            &&& forall|k: int| 0 <= k < vs.len() ==> var_matches(#[trigger] n.children@[k + 1], vs[k])
        },
        GDef::Alias(t, v) => {
            &&& n.rule == Rule::DefAlias
            &&& n.children@.len() == 2
            &&& tid_matches(n.children@[0], t)
            &&& val_matches(n.children@[1], v)
        },
    }
}

/// An abstract definition is admissible when its values are and, for an
/// enum, its resolved discriminants are unique.
pub open spec fn gsem_def(gd: GDef) -> bool {
    match gd {
        GDef::Struct(_, body) => gsem_body(body),
        GDef::Enum(_, vs) => (forall|k: int| 0 <= k < vs.len() ==> gsem_variant(#[trigger] vs[k]))
            && !has_dup(gdiscs(vs)),
        GDef::Alias(_, v) => gsem_value(v),
    }
}

/// Every abstract definition of a document is admissible.
pub open spec fn gsem_defs(defs: Seq<GDef>) -> bool {
    forall|k: int| 0 <= k < defs.len() ==> gsem_def(#[trigger] defs[k])
}

/// The root node is exactly the tree form of the document's abstract
/// definitions, with the end-of-input marker last.
pub open spec fn root_matches(root: Node, defs: Seq<GDef>) -> bool {
    &&& root.rule == Rule::Main
    &&& root.children@.len() == defs.len() + 1
    &&& root.children@.last().rule == Rule::Eoi
    &&& forall|k: int| 0 <= k < defs.len() ==> def_matches(#[trigger] root.children@[k], defs[k])
}

/// Read a named body `{ name: Type, ... }` into a struct-values node,
/// one named-field child per field.
fn parse_struct_values(s: &str, pos: usize, b: u128) -> (r: Result<(Node, usize), ParseError>)
    requires
        pos <= s@.len(),
    ensures
        r is Ok <==> sp_struct_values(s@, pos as int, b as int) is Some,
        r matches Ok(p) ==> {
            &&& pos < p.1 <= s@.len()
            &&& p.0.rule == Rule::StructValues
            &&& node_spans_text(p.0, s@)
            &&& (sp_struct_values(s@, pos as int, b as int) matches Some(g) && p.1 as int == g.1
                && fields_match(p.0, g.0) && (wf_struct_values(p.0) <==> gsem_fields(g.0)))
        },
        r matches Err(e) ==> e.kind is Syntax,
{
    let len = s.unicode_len();
    if b == 0 {
        return Err(syntax_err(pos));
    }
    if !peek_is(s, pos, '{') {
        return Err(syntax_err(pos));
    }
    let p0 = skip_ws(s, pos + 1);
    if peek_is(s, p0, '}') {
        let node = Node {
            rule: Rule::StructValues,
            span: Span { start: pos, end: p0 + 1 },
            text: String::new(),
            children: Vec::new(),
        };
        proof {
            assert(node_spans_text(node, s@));
            assert(fields_match(node, Seq::<GField>::empty()));
        }
        return Ok((node, p0 + 1));
    }
    let mut fields: Vec<Node> = Vec::new();
    let ghost mut gfs: Seq<GField> = Seq::empty();
    let mut p = p0;
    let mut fb: u128 = b - 1;
    let mut done = false;
    let mut end: usize = 0;
    while !done
        invariant
            len == s@.len(),
            pos < p <= len,
            fields@.len() == gfs.len(),
            forall|j: int| 0 <= j < fields@.len() ==> node_spans_text(#[trigger] fields@[j], s@),
            forall|j: int| 0 <= j < fields@.len() ==> field_matches(#[trigger] fields@[j], gfs[j]),
            forall|j: int|
                0 <= j < fields@.len() ==> (wf_named_field(#[trigger] fields@[j]) <==> gsem_value(
                    gfs[j].value,
                )),
            !done ==> sp_struct_values(s@, pos as int, b as int) == sp_fields_rest(
                s@,
                p as int,
                fb as int,
                gfs,
            ),
            done ==> pos < end <= len && sp_struct_values(s@, pos as int, b as int) == Some(
                (gfs, end as int),
            ),
        decreases (if done { 0int } else { fb as int + 1 }),
    {
        if fb == 0 {
            return Err(syntax_err(p));
        }
        let (name_node, p1) = match parse_identifier(s, p) {
            Ok(x) => x,
            Err(e) => {
                return Err(e);
            },
        };
        let p2 = skip_ws(s, p1);
        let p3 = match expect_char(s, p2, ':') {
            Ok(x) => x,
            Err(e) => {
                return Err(e);
            },
        };
        let p4 = skip_ws(s, p3);
        let (vt, p5) = match parse_value_type(s, p4, fb - 1) {
            Ok(x) => x,
            Err(e) => {
                return Err(e);
            },
        };
        let fstart = p;
        let ghost gv = sp_value_type(s@, p4 as int, (fb - 1) as int)->0;
        let mut fchildren: Vec<Node> = Vec::new();
        fchildren.push(name_node);
        fchildren.push(vt);
        let field = Node {
            rule: Rule::NamedField,
            span: Span { start: fstart, end: p5 },
            text: String::new(),
            children: fchildren,
        };
        proof {
            assert(node_spans_text(field.children@[0], s@));
            assert(node_spans_text(field.children@[1], s@));
            assert(node_spans_text(field, s@));
            assert(field_matches(field, GField { name: field.children@[0].text@, value: gv.0 }));
            gfs = gfs.push(GField { name: field.children@[0].text@, value: gv.0 });
        }
        fields.push(field);
        p = skip_ws(s, p5);
        if peek_is(s, p, ',') {
            let pc = skip_ws(s, p + 1);
            if peek_is(s, pc, '}') {
                end = pc + 1;
                done = true;
            } else {
                p = pc;
                fb = fb - 1;
            }
        } else if peek_is(s, p, '}') {
            end = p + 1;
            done = true;
        } else {
            return Err(syntax_err(p));
        }
    }
    let node = Node {
        rule: Rule::StructValues,
        span: Span { start: pos, end },
        text: String::new(),
        children: fields,
    };
    proof {
        assert(node_spans_text(node, s@));
        assert(fields_match(node, gfs));
        assert(wf_struct_values(node) <==> gsem_fields(gfs)) by {
            if wf_struct_values(node) {
                assert forall|k: int| 0 <= k < gfs.len() implies gsem_value(
                    (#[trigger] gfs[k]).value,
                ) by {
                    assert(wf_named_field(node.children@[k]));
                }
            }
            if gsem_fields(gfs) {
                assert forall|k: int| 0 <= k < node.children@.len() implies wf_named_field(
                    #[trigger] node.children@[k],
                ) by {
                    assert(gsem_value(gfs[k].value));
                }
            }
        }
    }
    Ok((node, end))
}

/// Read a tuple body `( Type, ... )` into a tuple-values node, one
/// value-type child per entry.
fn parse_tuple_values(s: &str, pos: usize, b: u128) -> (r: Result<(Node, usize), ParseError>)
    requires
        pos <= s@.len(),
    ensures
        r is Ok <==> sp_tuple_values(s@, pos as int, b as int) is Some,
        r matches Ok(p) ==> {
            &&& pos < p.1 <= s@.len()
            &&& p.0.rule == Rule::TupleValues
            &&& node_spans_text(p.0, s@)
            &&& (sp_tuple_values(s@, pos as int, b as int) matches Some(g) && p.1 as int == g.1
                && tuple_match(p.0, g.0) && (wf_tuple_values(p.0) <==> gsem_values(g.0)))
        },
        r matches Err(e) ==> e.kind is Syntax,
{
    let len = s.unicode_len();
    if b == 0 {
        return Err(syntax_err(pos));
    }
    if !peek_is(s, pos, '(') {
        return Err(syntax_err(pos));
    }
    let p0 = skip_ws(s, pos + 1);
    if peek_is(s, p0, ')') {
        let node = Node {
            rule: Rule::TupleValues,
            span: Span { start: pos, end: p0 + 1 },
            text: String::new(),
            children: Vec::new(),
        };
        proof {
            assert(node_spans_text(node, s@));
            assert(tuple_match(node, Seq::<GValue>::empty()));
        }
        return Ok((node, p0 + 1));
    }
    let mut items: Vec<Node> = Vec::new();
    let ghost mut gvs: Seq<GValue> = Seq::empty();
    let mut p = p0;
    let mut tb: u128 = b - 1;
    let mut done = false;
    let mut end: usize = 0;
    while !done
        invariant
            len == s@.len(),
            pos < p <= len,
            items@.len() == gvs.len(),
            forall|j: int| 0 <= j < items@.len() ==> node_spans_text(#[trigger] items@[j], s@),
            forall|j: int| 0 <= j < items@.len() ==> val_matches(#[trigger] items@[j], gvs[j]),
            forall|j: int|
                0 <= j < items@.len() ==> (wf_value_type(#[trigger] items@[j]) <==> gsem_value(
                    gvs[j],
                )),
            !done ==> sp_tuple_values(s@, pos as int, b as int) == sp_tuple_rest(
                s@,
                p as int,
                tb as int,
                gvs,
            ),
            done ==> pos < end <= len && sp_tuple_values(s@, pos as int, b as int) == Some(
                (gvs, end as int),
            ),
        decreases (if done { 0int } else { tb as int + 1 }),
    {
        if tb == 0 {
            return Err(syntax_err(p));
        }
        let (vt, p1) = match parse_value_type(s, p, tb - 1) {
            Ok(x) => x,
            Err(e) => {
                return Err(e);
            },
        };
        let ghost gv = sp_value_type(s@, p as int, (tb - 1) as int)->0;
        proof {
            gvs = gvs.push(gv.0);
        }
        items.push(vt);
        p = skip_ws(s, p1);
        if peek_is(s, p, ',') {
            let pc = skip_ws(s, p + 1);
            if peek_is(s, pc, ')') {
                end = pc + 1;
                done = true;
            } else {
                p = pc;
                tb = tb - 1;
            }
        } else if peek_is(s, p, ')') {
            end = p + 1;
            done = true;
        } else {
            return Err(syntax_err(p));
        }
    }
    let node = Node {
        rule: Rule::TupleValues,
        span: Span { start: pos, end },
        text: String::new(),
        children: items,
    };
    proof {
        assert(node_spans_text(node, s@));
        assert(tuple_match(node, gvs));
        assert(wf_tuple_values(node) <==> gsem_values(gvs)) by {
            if wf_tuple_values(node) {
                assert forall|k: int| 0 <= k < gvs.len() implies gsem_value(
                    #[trigger] gvs[k],
                ) by {
                    assert(wf_value_type(node.children@[k]));
                }
            }
            if gsem_values(gvs) {
                assert forall|k: int| 0 <= k < node.children@.len() implies wf_value_type(
                    #[trigger] node.children@[k],
                ) by {
                    assert(gsem_value(gvs[k]));
                }
            }
        }
    }
    Ok((node, end))
}

/// Read one enum variant: an identifier with an optional tuple or named
/// body, then an optional explicit-discriminant annotation.
fn parse_enum_variant(s: &str, pos: usize, b: u128) -> (r: Result<(Node, usize), ParseError>)
    requires
        pos <= s@.len(),
    ensures
        r is Ok <==> sp_variant(s@, pos as int, b as int) is Some,
        r matches Ok(p) ==> {
            &&& pos < p.1 <= s@.len()
            &&& p.0.rule == Rule::EnumVariant
            &&& node_spans_text(p.0, s@)
            &&& (sp_variant(s@, pos as int, b as int) matches Some(g) && p.1 as int == g.1
                && var_matches(p.0, g.0) && (wf_enum_variant(p.0) <==> gsem_variant(g.0))
                && crate::builder::variant_disc_opt(p.0) == gdisc_opt(g.0))
        },
        r matches Err(e) ==> e.kind is Syntax,
{
    let len = s.unicode_len();
    if b == 0 {
        return Err(syntax_err(pos));
    }
    let (ident, p1) = match parse_identifier(s, pos) {
        Ok(x) => x,
        Err(e) => {
            return Err(e);
        },
    };
    let ghost gname = ident.text@;
    let after_ident = skip_ws(s, p1);
    let ghost mut gbody: Option<GBody> = None;
    let (shape, shape_end) = if peek_is(s, after_ident, '(') {
        let (tv, p2) = match parse_tuple_values(s, after_ident, b - 1) {
            Ok(x) => x,
            Err(e) => {
                return Err(e);
            },
        };
        proof {
            let g = sp_tuple_values(s@, after_ident as int, (b - 1) as int)->0;
            gbody = Some(GBody::Tuple(g.0));
        }
        let mut sc: Vec<Node> = Vec::new();
        sc.push(ident);
        sc.push(tv);
        let shape = Node {
            rule: Rule::EnumVariantTuple,
            span: Span { start: pos, end: p2 },
            text: String::new(),
            children: sc,
        };
        proof {
            assert(node_spans_text(shape.children@[0], s@));
            assert(node_spans_text(shape.children@[1], s@));
            assert(node_spans_text(shape, s@));
        }
        (shape, p2)
    } else if peek_is(s, after_ident, '{') {
        let (sv, p2) = match parse_struct_values(s, after_ident, b - 1) {
            Ok(x) => x,
            Err(e) => {
                return Err(e);
            },
        };
        proof {
            let g = sp_struct_values(s@, after_ident as int, (b - 1) as int)->0;
            gbody = Some(GBody::Named(g.0));
        }
        let mut sc: Vec<Node> = Vec::new();
        sc.push(ident);
        sc.push(sv);
        let shape = Node {
            rule: Rule::EnumVariantStruct,
            span: Span { start: pos, end: p2 },
            text: String::new(),
            children: sc,
        };
        proof {
            assert(node_spans_text(shape.children@[0], s@));
            assert(node_spans_text(shape.children@[1], s@));
            assert(node_spans_text(shape, s@));
        }
        (shape, p2)
    } else {
        let mut sc: Vec<Node> = Vec::new();
        sc.push(ident);
        let shape = Node {
            rule: Rule::EnumVariantEmpty,
            span: Span { start: pos, end: p1 },
            text: String::new(),
            children: sc,
        };
        proof {
            assert(node_spans_text(shape.children@[0], s@));
            assert(node_spans_text(shape, s@));
        }
        (shape, p1)
    };
    let p = skip_ws(s, shape_end);
    if peek_is(s, p, '/') && peek_is(s, p + 1, '*') {
        let q0 = skip_ws(s, p + 2);
        let q1 = match expect_char(s, q0, '#') {
            Ok(x) => x,
            Err(e) => {
                return Err(e);
            },
        };
        let (word, q2) = match parse_identifier(s, q1) {
            Ok(x) => x,
            Err(e) => {
                return Err(e);
            },
        };
        if !str_eq(word.text.as_str(), "_DISC") {
            return Err(syntax_err(q1));
        }
        let q3 = skip_ws(s, q2);
        let q4 = match expect_char(s, q3, '=') {
            Ok(x) => x,
            Err(e) => {
                return Err(e);
            },
        };
        let q5 = skip_ws(s, q4);
        let (dtext, dend) = match parse_digits(s, q5) {
            Ok(x) => x,
            Err(e) => {
                return Err(e);
            },
        };
        let disc = Node {
            rule: Rule::EnumDiscriminant,
            span: Span { start: q5, end: dend },
            text: dtext,
            children: Vec::new(),
        };
        let q6 = skip_ws(s, dend);
        let q7 = match expect_char(s, q6, '*') {
            Ok(x) => x,
            Err(e) => {
                return Err(e);
            },
        };
        let q8 = match expect_char(s, q7, '/') {
            Ok(x) => x,
            Err(e) => {
                return Err(e);
            },
        };
        let ghost gdv = dec_val(disc.text@);
        let mut vc: Vec<Node> = Vec::new();
        vc.push(shape);
        vc.push(disc);
        let variant = Node {
            rule: Rule::EnumVariant,
            span: Span { start: pos, end: q8 },
            text: String::new(),
            children: vc,
        };
        proof {
            assert(node_spans_text(variant.children@[0], s@));
            assert(node_spans_text(variant.children@[1], s@));
            assert(node_spans_text(variant, s@));
            let gv = GVariant { name: gname, disc: Some(gdv), body: gbody };
            assert(sp_variant(s@, pos as int, b as int) == Some((gv, q8 as int)));
            assert(var_matches(variant, gv));
            assert(wf_enum_variant(variant) <==> gsem_variant(gv));
        }
        Ok((variant, q8))
    } else {
        let mut vc: Vec<Node> = Vec::new();
        vc.push(shape);
        let variant = Node {
            rule: Rule::EnumVariant,
            span: Span { start: pos, end: shape_end },
            text: String::new(),
            children: vc,
        };
        proof {
            assert(node_spans_text(variant.children@[0], s@));
            assert(node_spans_text(variant, s@));
            let gv = GVariant { name: gname, disc: None, body: gbody };
            assert(sp_variant(s@, pos as int, b as int) == Some((gv, shape_end as int)));
            assert(var_matches(variant, gv));
            assert(wf_enum_variant(variant) <==> gsem_variant(gv));
        }
        Ok((variant, shape_end))
    }
}

/// Read one type definition: a struct, enum or alias, selected by its
/// leading keyword.
#[verifier::rlimit(100)]
fn parse_def(s: &str, pos: usize, b: u128) -> (r: Result<(Node, usize), ParseError>)
    requires
        pos <= s@.len(),
    ensures
        r is Ok <==> sp_def(s@, pos as int, b as int) is Some,
        r matches Ok(p) ==> {
            &&& pos < p.1 <= s@.len()
            &&& (p.0.rule == Rule::DefStruct || p.0.rule == Rule::DefEnum || p.0.rule
                == Rule::DefAlias)
            &&& node_spans_text(p.0, s@)
            &&& (sp_def(s@, pos as int, b as int) matches Some(g) && p.1 as int == g.1
                && def_matches(p.0, g.0) && (crate::builder::ok_syntax_type(p.0) <==> gsem_def(
                g.0,
            )))
        },
        r matches Err(e) ==> e.kind is Syntax,
{
    let len = s.unicode_len();
    if b == 0 {
        return Err(syntax_err(pos));
    }
    let (word, p1) = match parse_identifier(s, pos) {
        Ok(x) => x,
        Err(e) => {
            return Err(e);
        },
    };
    let p = skip_ws(s, p1);
    if str_eq(word.text.as_str(), "struct") {
        let (tid, p2) = match parse_type_id(s, p, b - 1) {
            Ok(x) => x,
            Err(e) => {
                return Err(e);
            },
        };
        let ghost gt = sp_type_id(s@, p as int, (b - 1) as int)->0;
        let p3 = skip_ws(s, p2);
        if peek_is(s, p3, '{') {
            let (body, p4) = match parse_struct_values(s, p3, b - 1) {
                Ok(x) => x,
                Err(e) => {
                    return Err(e);
                },
            };
            let ghost gfs = sp_struct_values(s@, p3 as int, (b - 1) as int)->0;
            let mut dc: Vec<Node> = Vec::new();
            dc.push(tid);
            dc.push(body);
            let def = Node {
                rule: Rule::DefStruct,
                span: Span { start: pos, end: p4 },
                text: String::new(),
                children: dc,
            };
            proof {
                assert(node_spans_text(def.children@[0], s@));
                assert(node_spans_text(def.children@[1], s@));
                assert(node_spans_text(def, s@));
                let gd = GDef::Struct(gt.0, GBody::Named(gfs.0));
                assert(sp_def(s@, pos as int, b as int) == Some((gd, p4 as int)));
                assert(def_matches(def, gd));
                assert(crate::builder::ok_syntax_type(def) <==> gsem_def(gd));
            }
            Ok((def, p4))
        } else if peek_is(s, p3, '(') {
            let (body, p4) = match parse_tuple_values(s, p3, b - 1) {
                Ok(x) => x,
                Err(e) => {
                    return Err(e);
                },
            };
            let ghost gvs = sp_tuple_values(s@, p3 as int, (b - 1) as int)->0;
            let p5 = skip_ws(s, p4);
            let p6 = match expect_char(s, p5, ';') {
                Ok(x) => x,
                Err(e) => {
                    return Err(e);
                },
            };
            let mut dc: Vec<Node> = Vec::new();
            dc.push(tid);
            dc.push(body);
            let def = Node {
                rule: Rule::DefStruct,
                span: Span { start: pos, end: p6 },
                text: String::new(),
                children: dc,
            };
            proof {
                assert(node_spans_text(def.children@[0], s@));
                assert(node_spans_text(def.children@[1], s@));
                assert(node_spans_text(def, s@));
                let gd = GDef::Struct(gt.0, GBody::Tuple(gvs.0));
                assert(sp_def(s@, pos as int, b as int) == Some((gd, p6 as int)));
                assert(def_matches(def, gd));
                assert(crate::builder::ok_syntax_type(def) <==> gsem_def(gd));
            }
            Ok((def, p6))
        } else {
            return Err(syntax_err(p3));
        }
    } else if str_eq(word.text.as_str(), "enum") {
        let (tid, p2) = match parse_type_id(s, p, b - 1) {
            Ok(x) => x,
            Err(e) => {
                return Err(e);
            },
        };
        let ghost gt = sp_type_id(s@, p as int, (b - 1) as int)->0;
        let p3 = skip_ws(s, p2);
        let p4 = match expect_char(s, p3, '{') {
            Ok(x) => x,
            Err(e) => {
                return Err(e);
            },
        };
        let mut dc: Vec<Node> = Vec::new();
        dc.push(tid);
        let mut q = skip_ws(s, p4);
        let ghost mut gvars: Seq<GVariant> = Seq::empty();
        let mut end: usize = 0;
        if peek_is(s, q, '}') {
            end = q + 1;
        } else {
            let mut vb: u128 = b - 1;
            let mut done = false;
            while !done
                invariant
                    len == s@.len(),
                    pos < q <= len,
                    dc@.len() == gvars.len() + 1,
                    crate::builder::wf_type_id(dc@[0]),
                    tid_matches(dc@[0], gt.0),
                    node_spans_text(dc@[0], s@),
                    forall|j: int| 1 <= j < dc@.len() ==> node_spans_text(#[trigger] dc@[j], s@),
                    forall|j: int|
                        1 <= j < dc@.len() ==> var_matches(#[trigger] dc@[j], gvars[j - 1]),
                    forall|j: int|
                        1 <= j < dc@.len() ==> (wf_enum_variant(#[trigger] dc@[j])
                            <==> gsem_variant(gvars[j - 1])),
                    forall|j: int|
                        1 <= j < dc@.len() ==> crate::builder::variant_disc_opt(#[trigger] dc@[j])
                            == gdisc_opt(gvars[j - 1]),
                    !done ==> (sp_def(s@, pos as int, b as int) == (match sp_variants_rest(
                        s@,
                        q as int,
                        vb as int,
                        gvars,
                    ) {
                        None => None::<(GDef, int)>,
                        Some((vs, e)) => Some((GDef::Enum(gt.0, vs), e)),
                    })),
                    done ==> pos < end <= len && sp_def(s@, pos as int, b as int) == Some(
                        (GDef::Enum(gt.0, gvars), end as int),
                    ),
                decreases (if done { 0int } else { vb as int + 1 }),
            {
                if vb == 0 {
                    return Err(syntax_err(q));
                }
                let (variant, qv) = match parse_enum_variant(s, q, vb - 1) {
                    Ok(x) => x,
                    Err(e) => {
                        return Err(e);
                    },
                };
                let ghost gv = sp_variant(s@, q as int, (vb - 1) as int)->0;
                proof {
                    gvars = gvars.push(gv.0);
                }
                dc.push(variant);
                let qn = skip_ws(s, qv);
                if peek_is(s, qn, ',') {
                    let qc = skip_ws(s, qn + 1);
                    if peek_is(s, qc, '}') {
                        end = qc + 1;
                        q = qc;
                        done = true;
                    } else {
                        q = qc;
                        vb = vb - 1;
                    }
                } else if peek_is(s, qn, '}') {
                    end = qn + 1;
                    q = qn;
                    done = true;
                } else {
                    return Err(syntax_err(qn));
                }
            }
        }
        let def = Node {
            rule: Rule::DefEnum,
            span: Span { start: pos, end },
            text: String::new(),
            children: dc,
        };
        proof {
            assert(node_spans_text(def, s@)) by {
                assert forall|i: int|
                    0 <= i < def.children@.len() implies node_spans_text(
                    #[trigger] def.children@[i],
                    s@,
                ) by {
                    if i == 0 {
                        assert(node_spans_text(dc@[0], s@));
                    }
                }
            }
            let gd = GDef::Enum(gt.0, gvars);
            assert(sp_def(s@, pos as int, b as int) == Some((gd, end as int)));
            assert(def_matches(def, gd)) by {
                assert forall|k: int|
                    0 <= k < gvars.len() implies var_matches(
                    #[trigger] def.children@[k + 1],
                    gvars[k],
                ) by {
                    assert(1 <= k + 1 < dc@.len());
                }
            }
            assert(crate::builder::variant_discs(def) =~= gdiscs(gvars)) by {
                assert forall|k: int| 0 <= k < gvars.len() implies crate::builder::variant_discs(
                    def,
                )[k] == gdiscs(gvars)[k] by {
                    assert(crate::builder::variant_disc_opt(def.children@[k + 1]) == gdisc_opt(
                        gvars[k],
                    ));
                }
            }
            assert(crate::builder::ok_syntax_type(def) <==> gsem_def(gd)) by {
                if crate::builder::ok_syntax_type(def) {
                    assert forall|k: int| 0 <= k < gvars.len() implies gsem_variant(
                        #[trigger] gvars[k],
                    ) by {
                        assert(wf_enum_variant(def.children@[k + 1]));
                    }
                }
                if gsem_def(gd) {
                    assert forall|k: int|
                        1 <= k < def.children@.len() implies wf_enum_variant(
                        #[trigger] def.children@[k],
                    ) by {
                        assert(gsem_variant(gvars[k - 1]));
                    }
                }
            }
        }
        Ok((def, end))
    } else if str_eq(word.text.as_str(), "type") {
        let (tid, p2) = match parse_type_id(s, p, b - 1) {
            Ok(x) => x,
            Err(e) => {
                return Err(e);
            },
        };
        let ghost gt = sp_type_id(s@, p as int, (b - 1) as int)->0;
        let p3 = skip_ws(s, p2);
        let p4 = match expect_char(s, p3, '=') {
            Ok(x) => x,
            Err(e) => {
                return Err(e);
            },
        };
        let p5 = skip_ws(s, p4);
        let (vt, p6) = match parse_value_type(s, p5, b - 1) {
            Ok(x) => x,
            Err(e) => {
                return Err(e);
            },
        };
        let ghost gv = sp_value_type(s@, p5 as int, (b - 1) as int)->0;
        let p7 = skip_ws(s, p6);
        let p8 = match expect_char(s, p7, ';') {
            Ok(x) => x,
            Err(e) => {
                return Err(e);
            },
        };
        let mut dc: Vec<Node> = Vec::new();
        dc.push(tid);
        dc.push(vt);
        let def = Node {
            rule: Rule::DefAlias,
            span: Span { start: pos, end: p8 },
            text: String::new(),
            children: dc,
        };
        proof {
            assert(node_spans_text(def.children@[0], s@));
            assert(node_spans_text(def.children@[1], s@));
            assert(node_spans_text(def, s@));
            let gd = GDef::Alias(gt.0, gv.0);
            assert(sp_def(s@, pos as int, b as int) == Some((gd, p8 as int)));
            assert(def_matches(def, gd));
            assert(crate::builder::ok_syntax_type(def) <==> gsem_def(gd));
        }
        Ok((def, p8))
    } else {
        Err(syntax_err(pos))
    }
}

/// The grammar engine's entry: tokenize and parse a whole source text
/// into a root node whose children are the type definitions followed by
/// the end-of-input marker, or fail with a syntax-location error. The
/// call budget, computed from the text's length, bounds recursion depth
/// on hostile input. On success the tree is exactly the tree form of the
/// text's abstract definitions, and the builder accepts it exactly when
/// those definitions are semantically admissible.
pub fn parse_tree(s: &str) -> (r: Result<Node, ParseError>)
    ensures
        r is Ok <==> sp_document(s@) is Some,
        r matches Ok(root) ==> (sp_document(s@) matches Some(defs) && {
            &&& root_matches(root, defs)
            &&& node_spans_text(root, s@)
            &&& ((forall|i: int|
                0 <= i < root.children@.len() ==> ((#[trigger] root.children@[i]).rule
                    == Rule::Eoi || crate::builder::ok_syntax_type(root.children@[i])))
                <==> gsem_defs(defs))
        }),
        r matches Err(e) ==> e.kind is Syntax,
{
    let len = s.unicode_len();
    let budget: u128 = 4 * (len as u128) + 64;
    proof {
        assert(budget as int == budget_of(s@.len()));
    }
    let mut children: Vec<Node> = Vec::new();
    let ghost mut gdefs: Seq<GDef> = Seq::empty();
    let mut pos = skip_ws(s, 0);
    let mut bud = budget;
    while pos < len
        invariant
            len == s@.len(),
            pos <= len,
            children@.len() == gdefs.len(),
            forall|j: int| 0 <= j < children@.len() ==> node_spans_text(#[trigger] children@[j], s@),
            forall|j: int| 0 <= j < children@.len() ==> (#[trigger] children@[j]).rule != Rule::Eoi,
            forall|j: int| 0 <= j < children@.len() ==> def_matches(#[trigger] children@[j], gdefs[j]),
            forall|j: int|
                0 <= j < children@.len() ==> (crate::builder::ok_syntax_type(
                    #[trigger] children@[j],
                ) <==> gsem_def(gdefs[j])),
            sp_document(s@) == sp_defs_rest(s@, pos as int, bud as int, gdefs),
        decreases bud,
    {
        if bud == 0 {
            return Err(syntax_err(pos));
        }
        let (def, p) = match parse_def(s, pos, bud - 1) {
            Ok(x) => x,
            Err(e) => {
                return Err(e);
            },
        };
        let ghost gd = sp_def(s@, pos as int, (bud - 1) as int)->0;
        proof {
            gdefs = gdefs.push(gd.0);
        }
        children.push(def);
        pos = skip_ws(s, p);
        bud = bud - 1;
    }
    let eoi = Node {
        rule: Rule::Eoi,
        span: Span { start: len, end: len },
        text: String::new(),
        children: Vec::new(),
    };
    proof {
        assert(node_spans_text(eoi, s@));
    }
    children.push(eoi);
    let root = Node {
        rule: Rule::Main,
        span: Span { start: 0, end: len },
        text: String::new(),
        children,
    };
    proof {
        assert(sp_document(s@) == Some(gdefs));
        assert(node_spans_text(root, s@));
        assert(root_matches(root, gdefs));
        assert((forall|i: int|
            0 <= i < root.children@.len() ==> ((#[trigger] root.children@[i]).rule == Rule::Eoi
                || crate::builder::ok_syntax_type(root.children@[i]))) <==> gsem_defs(gdefs)) by {
            if forall|i: int|
                0 <= i < root.children@.len() ==> ((#[trigger] root.children@[i]).rule
                    == Rule::Eoi || crate::builder::ok_syntax_type(root.children@[i])) {
                assert forall|k: int| 0 <= k < gdefs.len() implies gsem_def(
                    #[trigger] gdefs[k],
                ) by {
                    assert(root.children@[k].rule == Rule::Eoi || crate::builder::ok_syntax_type(
                        root.children@[k],
                    ));
                }
            }
            if gsem_defs(gdefs) {
                assert forall|i: int|
                    0 <= i < root.children@.len() implies ((#[trigger] root.children@[i]).rule
                        == Rule::Eoi || crate::builder::ok_syntax_type(root.children@[i])) by {
                    if i < gdefs.len() {
                        assert(gsem_def(gdefs[i]));
                    }
                }
            }
        }
    }
    Ok(root)
}

} // verus!
