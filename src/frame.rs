//! Locality: what a production yields depends only on the tokens of the
//! region that it is given.
use vstd::prelude::*;
use crate::attrs::{
    spec_field_attrs, spec_ident_list, spec_log_arg, spec_opt_str, spec_paren, spec_param_attr,
    spec_validate_arg, FieldAttrV,
};
use crate::log::{spec_log, spec_log_cmd, spec_log_cmds, LogCmd};
use crate::parser::{spec_field, spec_fields};
use crate::token::{close_of, close_scan, is_punct, Token};
use crate::typeref::{spec_angle, spec_segments, spec_type};
use crate::validate::{spec_action, spec_bound, spec_chain, spec_range, spec_str_arg, ValidateAction};
use crate::ast::StructParameterV;

verus! {

/// Two token sequences hold the same tokens at the positions `pos..end`.
pub open spec fn agree(t1: Seq<Token>, t2: Seq<Token>, pos: int, end: int) -> bool {
    &&& 0 <= pos <= end
    &&& end <= t1.len()
    &&& end <= t2.len()
    &&& end <= usize::MAX
    &&& forall|i: int| pos <= i < end ==> t1[i] == t2[i]
}

proof fn lemma_close_scan(t1: Seq<Token>, t2: Seq<Token>, k: int, end: int, depth: nat)
    requires
        agree(t1, t2, if k < 0 { 0 } else if k > end { end } else { k }, end),
    ensures
        close_scan(t1, k, end, depth) == close_scan(t2, k, end, depth),
    decreases end - k,
{
    if k >= end || k < 0 {
    } else {
        lemma_close_scan(t1, t2, k + 1, end, depth + 1);
        lemma_close_scan(t1, t2, k + 1, end, depth);
        if depth > 1 {
            lemma_close_scan(t1, t2, k + 1, end, (depth - 1) as nat);
        }
    }
}

pub proof fn lemma_close(t1: Seq<Token>, t2: Seq<Token>, k: int, end: int)
    requires
        agree(t1, t2, k, end),
    ensures
        close_of(t1, k, end) == close_of(t2, k, end),
{
    lemma_close_scan(t1, t2, k, end, 0);
}

proof fn lemma_ident_list(t1: Seq<Token>, t2: Seq<Token>, pos: int, end: int, acc: Seq<usize>)
    requires
        agree(t1, t2, pos, end),
    ensures
        spec_ident_list(t1, pos, end, acc) == spec_ident_list(t2, pos, end, acc),
    decreases end - pos,
{
    if pos + 2 <= end {
        lemma_ident_list(t1, t2, pos + 2, end, acc.push(pos as usize));
    }
}

proof fn lemma_range(t1: Seq<Token>, t2: Seq<Token>, pos: int, end: int)
    requires
        agree(t1, t2, pos, end),
    ensures
        spec_range(t1, pos, end) == spec_range(t2, pos, end),
{
    if pos + 1 <= end {
        assert(spec_bound(t1, pos + 1, end) == spec_bound(t2, pos + 1, end));
        match spec_bound(t1, pos + 1, end) {
            Ok((_, k)) => if k + 2 <= end {
                assert(spec_bound(t1, k + 2, end) == spec_bound(t2, k + 2, end));
            },
            Err(_) => {},
        }
    }
}

proof fn lemma_action(t1: Seq<Token>, t2: Seq<Token>, pos: int, end: int)
    requires
        agree(t1, t2, pos, end),
    ensures
        spec_action(t1, pos, end) == spec_action(t2, pos, end),
{
    if pos + 1 < end {
        assert(spec_str_arg(t1, pos + 1, end) == spec_str_arg(t2, pos + 1, end));
        lemma_close(t1, t2, pos + 1, end);
        crate::token::lemma_close_is_close(t1, pos + 1, end);
        match close_of(t1, pos + 1, end) {
            Some(c) => if pos + 2 <= c {
                lemma_range(t1, t2, pos + 2, c);
            },
            None => {},
        }
    }
}

proof fn lemma_chain(t1: Seq<Token>, t2: Seq<Token>, pos: int, end: int, acc: Seq<ValidateAction>)
    requires
        agree(t1, t2, pos, end),
    ensures
        spec_chain(t1, pos, end, acc) == spec_chain(t2, pos, end, acc),
    decreases end - pos,
{
    lemma_action(t1, t2, pos, end);
    match spec_action(t1, pos, end) {
        Ok((a, n)) => if pos < n < end {
            lemma_chain(t1, t2, n + 1, end, acc.push(a));
        },
        Err(_) => {},
    }
}

proof fn lemma_log_cmds(t1: Seq<Token>, t2: Seq<Token>, pos: int, end: int, acc: Seq<LogCmd>)
    requires
        agree(t1, t2, pos, end),
    ensures
        spec_log_cmds(t1, pos, end, acc) == spec_log_cmds(t2, pos, end, acc),
        spec_log_cmds(t1, pos, end, acc) matches Ok(cmds) ==> forall|i: int|
            acc.len() <= i < cmds.len() ==> pos <= #[trigger] cmds[i].msg < end,
        spec_log_cmds(t1, pos, end, acc) matches Ok(cmds) ==> cmds.len() >= acc.len()
            && forall|i: int| 0 <= i < acc.len() ==> #[trigger] cmds[i] == acc[i],
    decreases end - pos,
{
    assert(spec_log_cmd(t1, pos, end) == spec_log_cmd(t2, pos, end));
    match spec_log_cmd(t1, pos, end) {
        Ok((c, n)) => {
            assert(c.msg == pos + 2 && n == pos + 3);
            if n == end {
                let v = acc.push(c);
                assert forall|i: int| acc.len() <= i < v.len() implies pos <= #[trigger] v[i].msg < end by {}
                assert forall|i: int| 0 <= i < acc.len() implies #[trigger] v[i] == acc[i] by {}
            } else if pos < n < end && is_punct(t1, n, ',') {
                lemma_log_cmds(t1, t2, n + 1, end, acc.push(c));
                let cmds = spec_log_cmds(t1, n + 1, end, acc.push(c));
                if cmds is Ok {
                    let v = cmds->Ok_0;
                    assert forall|i: int| 0 <= i < acc.len() implies #[trigger] v[i] == acc[i] by {
                        assert(v[i] == acc.push(c)[i]);
                    }
                    assert forall|i: int| acc.len() <= i < v.len() implies pos <= #[trigger] v[i].msg < end by {
                        if i == acc.len() {
                            assert(v[i] == acc.push(c)[i]);
                        }
                    }
                }
            }
        },
        Err(_) => {},
    }
}

proof fn lemma_log(t1: Seq<Token>, t2: Seq<Token>, pos: int, end: int)
    requires
        agree(t1, t2, pos, end),
    ensures
        spec_log(t1, pos, end) == spec_log(t2, pos, end),
{
    lemma_log_cmds(t1, t2, pos, end, Seq::empty());
    match spec_log_cmds(t1, pos, end, Seq::empty()) {
        Ok(cmds) => {
            assert forall|i: int| 0 <= i < cmds.len() implies crate::token::str_text(t1, #[trigger] cmds[i].msg as int)
                == crate::token::str_text(t2, cmds[i].msg as int) by {
                assert(pos <= cmds[i].msg < end);
            }
            assert(crate::log::any_placeholder(t1, cmds) == crate::log::any_placeholder(t2, cmds));
        },
        Err(_) => {},
    }
}

proof fn lemma_param_attr(t1: Seq<Token>, t2: Seq<Token>, pos: int, end: int)
    requires
        agree(t1, t2, pos, end),
    ensures
        spec_param_attr(t1, pos, end) == spec_param_attr(t2, pos, end),
{
    if pos + 1 <= end {
        assert(spec_str_arg(t1, pos + 1, end) == spec_str_arg(t2, pos + 1, end));
        assert(spec_opt_str(t1, pos + 1, end) == spec_opt_str(t2, pos + 1, end));
        lemma_close(t1, t2, pos + 1, end);
        crate::token::lemma_close_is_close(t1, pos + 1, end);
        assert(spec_paren(t1, pos + 1, end) == spec_paren(t2, pos + 1, end));
        match spec_paren(t1, pos + 1, end) {
            Ok(c) => {
                lemma_chain(t1, t2, pos + 2, c, Seq::empty());
                lemma_log(t1, t2, pos + 2, c);
            },
            Err(_) => {},
        }
        assert(spec_validate_arg(t1, pos + 1, end) == spec_validate_arg(t2, pos + 1, end));
        assert(spec_log_arg(t1, pos + 1, end) == spec_log_arg(t2, pos + 1, end));
    }
}

proof fn lemma_field_attrs(t1: Seq<Token>, t2: Seq<Token>, pos: int, end: int, acc: Seq<FieldAttrV>)
    requires
        agree(t1, t2, pos, end),
    ensures
        spec_field_attrs(t1, pos, end, acc) == spec_field_attrs(t2, pos, end, acc),
    decreases end - pos,
{
    if pos + 1 < end {
        lemma_close(t1, t2, pos + 1, end);
        match close_of(t1, pos + 1, end) {
            Some(c) => if pos + 1 < c < end {
                lemma_param_attr(t1, t2, pos + 2, c);
                match spec_param_attr(t1, pos + 2, c) {
                    Ok(a) => lemma_field_attrs(t1, t2, c + 1, end, acc.push(FieldAttrV { at: pos as usize, attr: a })),
                    Err(_) => {},
                }
            },
            None => {},
        }
    }
}

proof fn lemma_angle(t1: Seq<Token>, t2: Seq<Token>, k: int, end: int, depth: nat, lo: int)
    requires
        agree(t1, t2, lo, end),
        lo < k,
    ensures
        spec_angle(t1, k, end, depth) == spec_angle(t2, k, end, depth),
    decreases end - k,
{
    if 0 <= k < end {
        lemma_close(t1, t2, k, end);
        match close_of(t1, k, end) {
            Some(c) => if k < c < end {
                lemma_angle(t1, t2, c + 1, end, depth, lo);
            },
            None => {},
        }
        lemma_angle(t1, t2, k + 1, end, depth + 1, lo);
        lemma_angle(t1, t2, k + 1, end, depth, lo);
        if depth > 1 {
            lemma_angle(t1, t2, k + 1, end, (depth - 1) as nat, lo);
        }
    }
}

proof fn lemma_segments(t1: Seq<Token>, t2: Seq<Token>, pos: int, end: int)
    requires
        agree(t1, t2, pos, end),
    ensures
        spec_segments(t1, pos, end) == spec_segments(t2, pos, end),
    decreases end - pos,
{
    if 0 <= pos < end {
        if pos + 2 <= end {
            lemma_angle(t1, t2, pos + 2, end, 1, pos);
        }
        let g: Result<int, crate::error::ErrorV> = if pos + 1 < end && is_punct(t1, pos + 1, '<') {
            match spec_angle(t1, pos + 2, end, 1) {
                Some(m) => Ok(m + 1),
                None => Err(crate::error::syn_err(pos + 1, crate::typeref::UNCLOSED_GENERICS@)),
            }
        } else {
            Ok(pos + 1)
        };
        match g {
            Ok(k) => if pos < k && k + 1 < end {
                lemma_segments(t1, t2, k + 2, end);
            },
            Err(_) => {},
        }
    }
}

proof fn lemma_type(t1: Seq<Token>, t2: Seq<Token>, pos: int, end: int)
    requires
        agree(t1, t2, pos, end),
    ensures
        spec_type(t1, pos, end) == spec_type(t2, pos, end),
    decreases end - pos,
{
    if 0 <= pos < end {
        lemma_close(t1, t2, pos, end);
        if pos + 2 <= end {
            lemma_segments(t1, t2, pos + 2, end);
        }
        lemma_segments(t1, t2, pos, end);
        let k = if pos + 2 < end && is_punct(t1, pos + 1, '\'') && crate::token::is_ident(t1, pos + 2) {
            pos + 3
        } else {
            pos + 1
        };
        let k2 = if k < end && crate::token::is_keyword(t1, k, "mut"@) {
            k + 1
        } else {
            k
        };
        if k2 <= end {
            lemma_type(t1, t2, k2, end);
        }
    }
}

pub proof fn lemma_segments_bounds(t: Seq<Token>, pos: int, end: int)
    ensures
        spec_segments(t, pos, end) matches Ok(n) ==> pos < n <= end,
    decreases end - pos,
{
    if 0 <= pos < end {
        if pos + 2 <= end {
            crate::typeref::lemma_angle_bounds(t, pos + 2, end, 1);
        }
        let g: Result<int, crate::error::ErrorV> = if pos + 1 < end && is_punct(t, pos + 1, '<') {
            match spec_angle(t, pos + 2, end, 1) {
                Some(m) => Ok(m + 1),
                None => Err(crate::error::syn_err(pos + 1, crate::typeref::UNCLOSED_GENERICS@)),
            }
        } else {
            Ok(pos + 1)
        };
        match g {
            Ok(k) => if pos < k && k + 1 < end {
                lemma_segments_bounds(t, k + 2, end);
            },
            Err(_) => {},
        }
    }
}

pub proof fn lemma_type_bounds(t: Seq<Token>, pos: int, end: int)
    requires
        end <= t.len(),
    ensures
        spec_type(t, pos, end) matches Ok(n) ==> pos < n <= end,
    decreases end - pos,
{
    if 0 <= pos < end {
        crate::token::lemma_close_is_close(t, pos, end);
        lemma_segments_bounds(t, pos + 2, end);
        lemma_segments_bounds(t, pos, end);
        let k = if pos + 2 < end && is_punct(t, pos + 1, '\'') && crate::token::is_ident(t, pos + 2) {
            pos + 3
        } else {
            pos + 1
        };
        let k2 = if k < end && crate::token::is_keyword(t, k, "mut"@) {
            k + 1
        } else {
            k
        };
        lemma_type_bounds(t, k2, end);
    }
}

proof fn lemma_field(t1: Seq<Token>, t2: Seq<Token>, pos: int, end: int)
    requires
        agree(t1, t2, pos, end),
    ensures
        spec_field(t1, pos, end) == spec_field(t2, pos, end),
{
    reveal(spec_field);
    lemma_field_attrs(t1, t2, pos, end, Seq::empty());
    crate::laws::lemma_field_attrs_bounds(t1, pos, end, Seq::empty());
    match spec_field_attrs(t1, pos, end, Seq::empty()) {
        Ok((_, a)) => {
            if a + 2 <= end {
                lemma_type(t1, t2, a + 2, end);
                lemma_type_bounds(t1, a + 2, end);
            }
            if a + 3 <= end {
                lemma_type(t1, t2, a + 3, end);
                lemma_type_bounds(t1, a + 3, end);
            }
        },
        Err(_) => {},
    }
}

/// The fields parsed from a region depend only on the tokens in it.
pub proof fn lemma_fields(t1: Seq<Token>, t2: Seq<Token>, pos: int, end: int, acc: Seq<StructParameterV>)
    requires
        agree(t1, t2, pos, end),
    ensures
        spec_fields(t1, pos, end, acc) == spec_fields(t2, pos, end, acc),
    decreases end - pos,
{
    if pos < end {
        lemma_field(t1, t2, pos, end);
        match spec_field(t1, pos, end) {
            Ok((f, n)) => if pos < n <= end {
                lemma_fields(t1, t2, n, end, acc.push(f));
            },
            Err(_) => {},
        }
    }
}

} // verus!
