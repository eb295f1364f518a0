//! Properties of the parser stated over its specifications.
use vstd::prelude::*;
use crate::attrs::{spec_field_attrs, spec_param_attr, spec_type_attr, UNKNOWN_ATTR};
use crate::error::{naming, syn_err};
use crate::ast::EndpointV;
use crate::attrs::{spec_type_attrs, TypeAttrV};
use crate::ast::EnumParameterV;
use crate::parser::{spec_payload, spec_struct, spec_declaration, spec_endpoints, spec_field, spec_group};
use crate::token::{lemma_close_is_close, close_of, is_open, Delim, ident_text, int_value, is_ident, is_int, is_keyword, is_punct, region, Token};
use crate::validate::{spec_range, ValidateAction};

verus! {

/// A field is optional exactly when a `?` stands right before its type.
pub proof fn lemma_optional_flag(t: Seq<Token>, pos: int, end: int)
    requires
        region(t, pos, end),
        t.len() <= usize::MAX,
    ensures
        spec_field(t, pos, end) matches Ok((f, _)) ==> (f.optional <==> is_punct(t, f.ty.start as int - 1, '?')),
{
    reveal(spec_field);
    lemma_field_attrs_bounds(t, pos, end, Seq::empty());
}

pub proof fn lemma_field_attrs_bounds(t: Seq<Token>, pos: int, end: int, acc: Seq<crate::attrs::FieldAttrV>)
    requires
        region(t, pos, end),
    ensures
        spec_field_attrs(t, pos, end, acc) matches Ok((_, a)) ==> pos <= a <= end,
    decreases end - pos,
{
    if pos < end && is_punct(t, pos, '#') && pos + 1 < end && is_open(t, pos + 1, Delim::Bracket) {
        match close_of(t, pos + 1, end) {
            Some(c) => if pos + 1 < c < end {
                match spec_param_attr(t, pos + 2, c) {
                    Ok(a) => lemma_field_attrs_bounds(t, c + 1, end, acc.push(crate::attrs::FieldAttrV { at: pos as usize, attr: a })),
                    Err(_) => {},
                }
            },
            None => {},
        }
    }
}

/// `range(min: A, max: B)` parses to both bounds.
pub proof fn lemma_range_min_max(t: Seq<Token>, pos: int)
    requires
        region(t, pos, pos + 7),
        is_keyword(t, pos, "min"@),
        is_punct(t, pos + 1, ':'),
        is_int(t, pos + 2),
        is_punct(t, pos + 3, ','),
        is_keyword(t, pos + 4, "max"@),
        is_punct(t, pos + 5, ':'),
        is_int(t, pos + 6),
    ensures
        spec_range(t, pos, pos + 7) == Ok::<ValidateAction, crate::error::ErrorV>(ValidateAction::Range {
            min: Some(int_value(t, pos + 2) as i128),
            max: Some(int_value(t, pos + 6) as i128),
        }),
{
    reveal_strlit("min");
    reveal_strlit("max");
    assert("min"@[1] != "max"@[1]);
}

/// `range(max: B, min: A)` fails to parse.
pub proof fn lemma_range_max_min(t: Seq<Token>, pos: int)
    requires
        region(t, pos, pos + 7),
        is_keyword(t, pos, "max"@),
        is_punct(t, pos + 1, ':'),
        is_int(t, pos + 2),
        is_punct(t, pos + 3, ','),
        is_keyword(t, pos + 4, "min"@),
        is_punct(t, pos + 5, ':'),
        is_int(t, pos + 6),
    ensures
        spec_range(t, pos, pos + 7) is Err,
{
    reveal_strlit("min");
    reveal_strlit("max");
    assert("min"@[1] != "max"@[1]);
}

/// The names of the record attributes.
pub open spec fn is_type_attr_name(n: Seq<char>) -> bool {
    n == "async"@ || n == "builder"@ || n == "derive"@ || n == "rename_all"@ || n == "remote"@
        || n == "validate"@ || n == "log"@
}

/// The names of the field attributes.
pub open spec fn is_param_attr_name(n: Seq<char>) -> bool {
    n == "borrow"@ || n == "bound"@ || n == "default"@ || n == "deserialize_with"@ || n == "flatten"@
        || n == "getter"@ || n == "log"@ || n == "rename"@ || n == "serialize_with"@ || n == "skip"@
        || n == "skip_deserialize"@ || n == "skip_if"@ || n == "skip_serialize"@ || n == "validate"@
        || n == "with"@
}

/// An attribute name outside the vocabulary is a syntax error that names it.
pub proof fn lemma_unknown_attribute(t: Seq<Token>, pos: int, end: int)
    requires
        region(t, pos, end),
        pos < end,
        is_ident(t, pos),
    ensures
        !is_type_attr_name(ident_text(t, pos))
            ==> spec_type_attr(t, pos, end) == Err::<crate::attrs::TypeAttrV, crate::error::ErrorV>(
                syn_err(pos, naming(UNKNOWN_ATTR@, ident_text(t, pos)))),
        !is_param_attr_name(ident_text(t, pos))
            ==> spec_param_attr(t, pos, end) == Err::<crate::attrs::ParamAttrV, crate::error::ErrorV>(
                syn_err(pos, naming(UNKNOWN_ATTR@, ident_text(t, pos)))),
{
}

/// The indices of the bracketed groups from `k` to `end` that stand at the
/// top level and are not attributes (not preceded by `#`), in order.
pub open spec fn top_groups(t: Seq<Token>, k: int, end: int) -> Seq<int>
    decreases end - k,
{
    if !(0 <= k < end) {
        Seq::empty()
    } else if t[k] is Open {
        match close_of(t, k, end) {
            Some(c) => if k < c < end {
                if is_open(t, k, Delim::Bracket) && !is_punct(t, k - 1, '#') {
                    seq![k] + top_groups(t, c + 1, end)
                } else {
                    top_groups(t, c + 1, end)
                }
            } else {
                Seq::empty()
            },
            None => Seq::empty(),
        }
    } else {
        top_groups(t, k + 1, end)
    }
}

/// The endpoint group held by the brackets opened at `b`, leaving its
/// attributes aside.
pub open spec fn group_at(t: Seq<Token>, b: int) -> EndpointV {
    spec_group(t, b + 1, close_of(t, b, t.len() as int)->Some_0, Seq::empty())->Ok_0
}

/// Two endpoint groups agree but for their attributes.
pub open spec fn same_group(a: EndpointV, b: EndpointV) -> bool {
    a.vis == b.vis && a.name == b.name && a.methods == b.methods
}

proof fn lemma_type_attrs_skip(t: Seq<Token>, pos: int, end: int, acc: Seq<TypeAttrV>)
    requires
        region(t, pos, end),
        end == t.len(),
    ensures
        spec_type_attrs(t, pos, end, acc) matches Ok((_, a)) ==> pos <= a <= end
            && top_groups(t, pos, end) == top_groups(t, a, end)
            && (a == pos || t[a - 1] is Close),
    decreases end - pos,
{
    if pos < end && is_punct(t, pos, '#') && pos + 1 < end && is_open(t, pos + 1, Delim::Bracket) {
        lemma_close_is_close(t, pos + 1, end);
        match close_of(t, pos + 1, end) {
            Some(c) => if pos + 1 < c < end {
                match spec_type_attr(t, pos + 2, c) {
                    Ok(a) => {
                        lemma_type_attrs_skip(t, c + 1, end, acc.push(a));
                        assert(top_groups(t, pos, end) == top_groups(t, pos + 1, end));
                        assert(top_groups(t, pos + 1, end) == top_groups(t, c + 1, end));
                    },
                    Err(_) => {},
                }
            },
            None => {},
        }
    }
}

proof fn lemma_group_attrs(t: Seq<Token>, pos: int, end: int, attrs: Seq<TypeAttrV>)
    ensures
        spec_group(t, pos, end, attrs) matches Ok(g) ==> spec_group(t, pos, end, Seq::empty()) is Ok
            && same_group(g, spec_group(t, pos, end, Seq::empty())->Ok_0),
{
    reveal(spec_group);
}

proof fn lemma_endpoints_groups(t: Seq<Token>, pos: int, end: int, acc: Seq<EndpointV>)
    requires
        region(t, pos, end),
        end == t.len(),
        !is_punct(t, pos - 1, '#'),
    ensures
        spec_endpoints(t, pos, end, acc) matches Ok(s) ==> {
            let g = top_groups(t, pos, end);
            &&& s.len() == acc.len() + g.len()
            &&& forall|i: int| 0 <= i < acc.len() ==> s[i] == acc[i]
            &&& forall|j: int| 0 <= j < g.len() ==> same_group(#[trigger] s[acc.len() + j], group_at(t, g[j]))
        },
    decreases end - pos,
{
    lemma_type_attrs_skip(t, pos, end, Seq::empty());
    match spec_type_attrs(t, pos, end, Seq::empty()) {
        Err(_) => {},
        Ok((attrs, a)) => if a < end && is_open(t, a, Delim::Bracket) {
            lemma_close_is_close(t, a, end);
            match close_of(t, a, end) {
                None => {},
                Some(c) => match spec_group(t, a + 1, c, attrs) {
                    Err(_) => {},
                    Ok(g) => {
                        assert(!is_punct(t, a - 1, '#'));
                        assert(top_groups(t, a, end) == seq![a] + top_groups(t, c + 1, end));
                        lemma_group_attrs(t, a + 1, c, attrs);
                        assert(same_group(g, group_at(t, a)));
                        if c + 1 == end {
                            assert(top_groups(t, c + 1, end) =~= Seq::<int>::empty());
                        } else if c + 1 < end && is_punct(t, c + 1, ',') {
                            assert(top_groups(t, c + 1, end) == top_groups(t, c + 2, end));
                            lemma_endpoints_groups(t, c + 2, end, acc.push(g));
                            let s = spec_endpoints(t, c + 2, end, acc.push(g))->Ok_0;
                            let g2 = top_groups(t, c + 2, end);
                            if spec_endpoints(t, c + 2, end, acc.push(g)) is Ok {
                                assert forall|j: int| 0 <= j < g2.len() + 1 implies same_group(
                                    #[trigger] s[acc.len() + j],
                                    group_at(t, (seq![a] + g2)[j]),
                                ) by {
                                    if j == 0 {
                                        assert(s[acc.len() as int] == acc.push(g)[acc.len() as int]);
                                    } else {
                                        assert(s[acc.push(g).len() + (j - 1)] == s[acc.len() + j]);
                                    }
                                }
                                assert forall|i: int| 0 <= i < acc.len() implies s[i] == acc[i] by {
                                    assert(s[i] == acc.push(g)[i]);
                                }
                            }
                        }
                    },
                },
            }
        },
    }
}

/// A declaration with N top-level bracketed groups parses, when it parses,
/// to exactly N endpoint groups, the i-th being the one that the i-th
/// brackets hold.
pub proof fn lemma_group_count(t: Seq<Token>)
    ensures
        spec_declaration(t) matches Ok(s) ==> {
            let g = top_groups(t, 0, t.len() as int);
            &&& s.len() == g.len()
            &&& forall|j: int| 0 <= j < g.len() ==> same_group(#[trigger] s[j], group_at(t, g[j]))
        },
{
    lemma_endpoints_groups(t, 0, t.len() as int, Seq::empty());
    if spec_declaration(t) is Ok {
        let s = spec_declaration(t)->Ok_0;
        let g = top_groups(t, 0, t.len() as int);
        assert forall|j: int| 0 <= j < g.len() implies same_group(#[trigger] s[j], group_at(t, g[j])) by {
            assert(s[0 + j] == s[j]);
        }
    }
}

/// Where the braces of a record that follows `struct` open: after its name,
/// or after its role tag.
pub open spec fn record_brace(t: Seq<Token>, pos: int, end: int) -> int {
    if pos + 1 < end && is_punct(t, pos + 1, '<') {
        pos + 4
    } else {
        pos + 1
    }
}

/// The fields of a struct-shaped variant are the very fields that a record
/// gets from braces holding the same tokens: same names, types, attributes
/// and optionality.
pub proof fn lemma_variant_fields_match_record(
    t1: Seq<Token>,
    pos: int,
    end1: int,
    attrs: Seq<TypeAttrV>,
    t2: Seq<Token>,
    k: int,
    end2: int,
)
    requires
        region(t1, pos, end1),
        region(t2, k, end2),
        t1.len() <= usize::MAX,
        t2.len() <= usize::MAX,
        k == record_brace(t1, pos, end1),
        close_of(t1, k, end1) is Some,
        close_of(t1, k, end1) == close_of(t2, k, end2),
        forall|i: int| k <= i <= close_of(t1, k, end1)->Some_0 ==> t1[i] == t2[i],
        spec_struct(t1, pos, end1, attrs) is Ok,
        spec_payload(t2, k, end2) matches Ok((EnumParameterV::Struct(_), _)),
    ensures
        spec_payload(t2, k, end2)->Ok_0.0 == EnumParameterV::Struct(spec_struct(t1, pos, end1, attrs)->Ok_0.0.parameters),
{
    let c = close_of(t1, k, end1)->Some_0;
    crate::token::lemma_close_is_close(t1, k, end1);
    crate::token::lemma_close_is_close(t2, k, end2);
    crate::frame::lemma_fields(t1, t2, k + 1, c, Seq::empty());
}

} // verus!
