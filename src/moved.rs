//! A type reference parses the same wherever its tokens stand, so long as
//! the token after it does not continue it.
use vstd::prelude::*;
use crate::token::{close_scan, close_of, is_ident, is_joint_punct, is_keyword, is_open, is_punct, Delim, Token};
use crate::ast::{StructParameter, StructParameterV};
use crate::attrs::spec_field_attrs;
use crate::parser::spec_field;
use crate::token::region;
use crate::typeref::{is_any_close, is_any_open, is_closing_angle, spec_angle, spec_segments, spec_type};

verus! {

/// The tokens `lo..hi` of `t` stand in `p` at `lo + d .. hi + d`.
pub open spec fn moved(t: Seq<Token>, p: Seq<Token>, lo: int, hi: int, d: int) -> bool {
    &&& 0 <= lo <= hi <= t.len()
    &&& 0 <= lo + d
    &&& hi + d <= p.len()
    &&& forall|i: int| lo <= i < hi ==> p[i + d] == t[i]
}

proof fn lemma_close_scan_moved(t: Seq<Token>, p: Seq<Token>, k: int, end: int, depth: nat, d: int, end2: int)
    requires
        close_scan(t, k, end, depth) matches Some(c) && moved(t, p, k, c + 1, d) && c + d < end2 <= p.len(),
        end <= t.len(),
        0 <= k,
    ensures
        close_scan(p, k + d, end2, depth) == Some(close_scan(t, k, end, depth)->Some_0 + d),
    decreases end - k,
{
    crate::token::lemma_close_scan_bounds(t, k, end, depth);
    crate::token::lemma_close_scan_bounds(t, k + 1, end, depth + 1);
    crate::token::lemma_close_scan_bounds(t, k + 1, end, depth);
    if depth > 1 {
        crate::token::lemma_close_scan_bounds(t, k + 1, end, (depth - 1) as nat);
    }
    let c = close_scan(t, k, end, depth)->Some_0;
    assert(p[k + d] == t[k]);
    match t[k] {
        Token::Open(_) => lemma_close_scan_moved(t, p, k + 1, end, depth + 1, d, end2),
        Token::Close(_) => if depth > 1 {
            lemma_close_scan_moved(t, p, k + 1, end, (depth - 1) as nat, d, end2)
        },
        _ => lemma_close_scan_moved(t, p, k + 1, end, depth, d, end2),
    }
}

proof fn lemma_angle_moved(t: Seq<Token>, p: Seq<Token>, k: int, end: int, depth: nat, d: int, end2: int, lo: int)
    requires
        spec_angle(t, k, end, depth) matches Some(m) && moved(t, p, lo, m + 1, d) && m + d < end2 <= p.len(),
        lo < k,
        end <= t.len(),
    ensures
        spec_angle(p, k + d, end2, depth) == Some(spec_angle(t, k, end, depth)->Some_0 + d),
    decreases end - k,
{
    crate::typeref::lemma_angle_bounds(t, k, end, depth);
    let m = spec_angle(t, k, end, depth)->Some_0;
    assert(p[k + d] == t[k]);
    assert(p[k - 1 + d] == t[k - 1]);
    assert(is_closing_angle(p, k + d) == is_closing_angle(t, k));
    if is_any_open(t, k) {
        crate::token::lemma_close_is_close(t, k, end);
        let c = close_of(t, k, end)->Some_0;
        crate::typeref::lemma_angle_bounds(t, c + 1, end, depth);
        lemma_close_scan_moved(t, p, k, end, 0, d, end2);
        lemma_angle_moved(t, p, c + 1, end, depth, d, end2, lo);
    } else if is_punct(t, k, '<') {
        lemma_angle_moved(t, p, k + 1, end, depth + 1, d, end2, lo);
    } else if is_closing_angle(t, k) {
        if depth > 1 {
            lemma_angle_moved(t, p, k + 1, end, (depth - 1) as nat, d, end2, lo);
        }
    } else if !is_any_close(t, k) {
        lemma_angle_moved(t, p, k + 1, end, depth, d, end2, lo);
    }
}

pub open spec fn is_comma(p: Seq<Token>, i: int) -> bool {
    0 <= i < p.len() && (p[i] matches Token::Punct(c, _) && c == ',')
}

proof fn lemma_segments_moved(t: Seq<Token>, p: Seq<Token>, pos: int, end: int, d: int)
    requires
        spec_segments(t, pos, end) matches Ok(te) && moved(t, p, pos, te, d)
            && is_comma(p, te + d) && te + d + 1 <= p.len(),
        end <= t.len(),
        0 <= pos,
    ensures
        spec_segments(p, pos + d, spec_segments(t, pos, end)->Ok_0 + d + 1) == Ok::<int, crate::error::ErrorV>(spec_segments(t, pos, end)->Ok_0 + d),
    decreases end - pos,
{
    let te = spec_segments(t, pos, end)->Ok_0;
    let end2 = te + d + 1;
    crate::frame::lemma_segments_bounds(t, pos, end);
    assert(p[pos + d] == t[pos]);
    if pos + 1 < end && is_punct(t, pos + 1, '<') {
        crate::typeref::lemma_angle_bounds(t, pos + 2, end, 1);
        let m = spec_angle(t, pos + 2, end, 1)->Some_0;
        crate::frame::lemma_segments_bounds(t, m + 3, end);
        assert(p[pos + 1 + d] == t[pos + 1]);
        lemma_angle_moved(t, p, pos + 2, end, 1, d, end2, pos);
        let k = m + 1;
        if pos < k && k + 1 < end && is_joint_punct(t, k, ':') && is_punct(t, k + 1, ':') {
            assert(p[k + d] == t[k]);
            assert(p[k + 1 + d] == t[k + 1]);
            lemma_segments_moved(t, p, k + 2, end, d);
        } else {
            assert(k == te);
        }
    } else {
        let k = pos + 1;
        crate::frame::lemma_segments_bounds(t, k + 2, end);
        if k < te {
            assert(p[k + d] == t[k]);
        }
        if pos < k && k + 1 < end && is_joint_punct(t, k, ':') && is_punct(t, k + 1, ':') {
            assert(p[k + 1 + d] == t[k + 1]);
            lemma_segments_moved(t, p, k + 2, end, d);
        } else {
            assert(k == te);
        }
    }
}

/// A type that ends at `te` in `t` parses to the same extent when its tokens
/// stand `d` places further in `p` and a comma follows them.
pub proof fn lemma_type_moved(t: Seq<Token>, p: Seq<Token>, pos: int, end: int, d: int)
    requires
        spec_type(t, pos, end) matches Ok(te) && moved(t, p, pos, te, d)
            && is_comma(p, te + d) && te + d + 1 <= p.len(),
        end <= t.len(),
        0 <= pos,
    ensures
        spec_type(p, pos + d, spec_type(t, pos, end)->Ok_0 + d + 1) == Ok::<int, crate::error::ErrorV>(spec_type(t, pos, end)->Ok_0 + d),
    decreases end - pos,
{
    let te = spec_type(t, pos, end)->Ok_0;
    crate::frame::lemma_type_bounds(t, pos, end);
    assert(p[pos + d] == t[pos]);
    if is_punct(t, pos, '&') {
        let k = if pos + 2 < end && is_punct(t, pos + 1, '\'') && is_ident(t, pos + 2) {
            pos + 3
        } else {
            pos + 1
        };
        let k2 = if k < end && is_keyword(t, k, "mut"@) {
            k + 1
        } else {
            k
        };
        crate::frame::lemma_type_bounds(t, k2, end);
        if pos + 1 < te {
            assert(p[pos + 1 + d] == t[pos + 1]);
        }
        if pos + 2 < te {
            assert(p[pos + 2 + d] == t[pos + 2]);
        }
        if k < te {
            assert(p[k + d] == t[k]);
        }
        lemma_type_moved(t, p, k2, end, d);
    } else if is_open(t, pos, Delim::Paren) || is_open(t, pos, Delim::Bracket) {
        crate::token::lemma_close_is_close(t, pos, end);
        lemma_close_scan_moved(t, p, pos, end, 0, d, te + d + 1);
    } else if pos + 1 < end && is_joint_punct(t, pos, ':') && is_punct(t, pos + 1, ':') {
        crate::frame::lemma_segments_bounds(t, pos + 2, end);
        assert(p[pos + 1 + d] == t[pos + 1]);
        lemma_segments_moved(t, p, pos + 2, end, d);
    } else {
        crate::frame::lemma_segments_bounds(t, pos, end);
        if pos + 1 < te {
            assert(p[pos + 1 + d] == t[pos + 1]);
        }
        lemma_segments_moved(t, p, pos, end, d);
    }
}

/// A field written back as tokens, without its attributes: its name token,
/// `:`, `?` when it is optional, its type's tokens, and `,`.
pub open spec fn reprinted_field(t: Seq<Token>, f: StructParameterV) -> Seq<Token> {
    let a = f.ty.start as int - (if f.optional { 3int } else { 2int });
    seq![t[a], Token::Punct(':', false)]
        + (if f.optional { seq![Token::Punct('?', false)] } else { Seq::empty() })
        + t.subrange(f.ty.start as int, f.ty.end as int)
        + seq![Token::Punct(',', false)]
}

fn copy_token(t: &Token) -> (r: Token)
    ensures
        r == *t,
{
    match t {
        Token::Ident(s) => Token::Ident(s.clone()),
        Token::Punct(c, j) => Token::Punct(*c, *j),
        Token::Str(s) => Token::Str(s.clone()),
        Token::Int(v) => Token::Int(*v),
        Token::Other(s) => Token::Other(s.clone()),
        Token::Open(d) => Token::Open(*d),
        Token::Close(d) => Token::Close(*d),
    }
}

impl StructParameter {
    /// The field written back as tokens, without its attributes; `toks` are
    /// the tokens that it was parsed from.
    pub fn to_tokens(&self, toks: &Vec<Token>) -> (r: Vec<Token>)
        requires
            self.ty.start as int - (if self.optional { 3int } else { 2int }) >= 0,
            self.ty.start <= self.ty.end <= toks@.len(),
        ensures
            r@ == reprinted_field(toks@, self@),
    {
        let a = if self.optional { self.ty.start - 3 } else { self.ty.start - 2 };
        let mut r: Vec<Token> = Vec::new();
        r.push(copy_token(&toks[a]));
        r.push(Token::Punct(':', false));
        if self.optional {
            r.push(Token::Punct('?', false));
        }
        let ghost head = r@;
        let mut i = self.ty.start;
        while i < self.ty.end
            invariant
                self.ty.start <= i <= self.ty.end <= toks@.len(),
                r@ == head + toks@.subrange(self.ty.start as int, i as int),
            decreases self.ty.end - i,
        {
            r.push(copy_token(&toks[i]));
            proof {
                assert(r@ =~= head + toks@.subrange(self.ty.start as int, i as int + 1));
            }
            i += 1;
        }
        r.push(Token::Punct(',', false));
        proof {
            assert(r@ =~= reprinted_field(toks@, self@));
        }
        r
    }
}

proof fn lemma_field_of_shape(p: Seq<Token>, opt: bool)
    requires
        p.len() >= 3,
        is_ident(p, 0),
        p[1] == Token::Punct(':', false),
        opt ==> p[2] == Token::Punct('?', false),
        !opt ==> !is_punct(p, 2, '?'),
        spec_type(p, if opt { 3int } else { 2int }, p.len() as int) == Ok::<int, crate::error::ErrorV>(p.len() - 1),
        p[p.len() - 1] == Token::Punct(',', false),
    ensures
        spec_field(p, 0, p.len() as int) matches Ok((g, n))
            && n == p.len() && g.optional == opt && g.name == crate::token::ident_text(p, 0),
{
    reveal(spec_field);
    assert(spec_field_attrs(p, 0, p.len() as int, Seq::empty()) == Ok::<(Seq<crate::attrs::FieldAttrV>, int), crate::error::ErrorV>((Seq::empty(), 0)));
}

proof fn lemma_type_not_question(t: Seq<Token>, ts: int, end: int)
    requires
        spec_type(t, ts, end) is Ok,
    ensures
        !is_punct(t, ts, '?'),
{
}

proof fn lemma_field_facts(t: Seq<Token>, pos: int, end: int)
    requires
        region(t, pos, end),
        t.len() <= usize::MAX,
    ensures
        spec_field(t, pos, end) matches Ok((f, _)) ==> {
            let h = if f.optional { 3int } else { 2int };
            let a = f.ty.start as int - h;
            &&& pos <= a
            &&& is_ident(t, a)
            &&& f.name == crate::token::ident_text(t, a)
            &&& spec_type(t, f.ty.start as int, end) == Ok::<int, crate::error::ErrorV>(f.ty.end as int)
            &&& f.ty.start < f.ty.end <= end
        },
{
    reveal(spec_field);
    crate::laws::lemma_field_attrs_bounds(t, pos, end, Seq::empty());
    if spec_field(t, pos, end) is Ok {
        let a = spec_field_attrs(t, pos, end, Seq::empty())->Ok_0.1;
        crate::frame::lemma_type_bounds(t, a + 2, end);
        crate::frame::lemma_type_bounds(t, a + 3, end);
    }
}

/// Writing a parsed field back as tokens and parsing it again keeps its
/// optionality and its name.
pub proof fn lemma_optional_round_trip(t: Seq<Token>, pos: int, end: int)
    requires
        region(t, pos, end),
        t.len() <= usize::MAX,
    ensures
        spec_field(t, pos, end) matches Ok((f, _)) ==> {
            let p = reprinted_field(t, f);
            spec_field(p, 0, p.len() as int) matches Ok((g, n))
                && n == p.len() && g.optional == f.optional && g.name == f.name
        },
{
    lemma_field_facts(t, pos, end);
    if spec_field(t, pos, end) is Ok {
        let f = spec_field(t, pos, end)->Ok_0.0;
        let h = if f.optional { 3int } else { 2int };
        let ts = f.ty.start as int;
        let te = f.ty.end as int;
        let a = ts - h;
        let p = reprinted_field(t, f);
        let d = h - ts;
        assert(p.len() == h + (te - ts) + 1);
        assert forall|i: int| ts <= i < te implies p[i + d] == t[i] by {
            assert(p[i + d] == t.subrange(ts, te)[i - ts]);
        }
        assert(p[te + d] == Token::Punct(',', false));
        lemma_type_moved(t, p, ts, end, d);
        assert(p[0] == t[a]);
        assert(p[1] == Token::Punct(':', false));
        if !f.optional {
            assert(p[2] == t[ts]);
            lemma_type_not_question(t, ts, end);
        } else {
            assert(p[2] == Token::Punct('?', false));
        }
        lemma_field_of_shape(p, f.optional);
    }
}

} // verus!
