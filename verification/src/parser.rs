//! The interface schema parser: a token sequence to a
//! [`ServiceInterfaceDescriptor`].  Malformed receivers, destructured
//! parameter patterns and unparsable declarations are fatal; no partial
//! schema is produced.

use vstd::prelude::*;
use crate::lexer::{spec_tokenize, tokenize, toks_of, Tok, Token};
use crate::names::{shouty_snake, shouty_snake_of};
use crate::schema::{
    wf_ident, wf_method, wf_service, GenError, MethodDescriptor, MethodSchema, Param, ParamSchema,
    ServiceInterfaceDescriptor, ServiceSchema, Visibility,
};
use crate::text::{digit_char, ident_char, push_char, str_eq};
use vstd::string::{StrSliceExecFns, StringExecFns};

verus! {

/// Token `i` is the identifier `w`.
pub open spec fn is_id(ts: Seq<Tok>, i: int, w: Seq<char>) -> bool {
    0 <= i < ts.len() && (ts[i] matches Tok::Ident(n) && n == w)
}

/// Token `i` is the punctuation character `c`.
pub open spec fn is_p(ts: Seq<Tok>, i: int, c: char) -> bool {
    0 <= i < ts.len() && ts[i] == Tok::Punct(c)
}

/// The attribute texts starting at token `i`, and the first token after
/// them.
pub open spec fn spec_parse_attrs(ts: Seq<Tok>, i: int) -> (Seq<Seq<char>>, int)
    decreases ts.len() - i,
{
    if 0 <= i < ts.len() && (ts[i] matches Tok::Attr(a)) {
        let (rest, j) = spec_parse_attrs(ts, i + 1);
        (seq![ts[i]->Attr_0] + rest, j)
    } else {
        (Seq::empty(), i)
    }
}

pub proof fn lemma_parse_attrs_bounds(ts: Seq<Tok>, i: int)
    requires
        0 <= i <= ts.len(),
    ensures
        i <= spec_parse_attrs(ts, i).1 <= ts.len(),
    decreases ts.len() - i,
{
    if i < ts.len() && (ts[i] matches Tok::Attr(a)) {
        lemma_parse_attrs_bounds(ts, i + 1);
    }
}

/// The declared visibility starting at token `i`, and the first token after
/// it.  `pub` followed by a parenthesis other than `(crate)` is not
/// supported.
pub open spec fn spec_parse_vis(ts: Seq<Tok>, i: int) -> Option<(Visibility, int)> {
    if is_id(ts, i, "pub"@) {
        if is_p(ts, i + 1, '(') {
            if is_id(ts, i + 2, "crate"@) && is_p(ts, i + 3, ')') {
                Some((Visibility::PubCrate, i + 4))
            } else {
                None
            }
        } else {
            Some((Visibility::Public, i + 1))
        }
    } else {
        Some((Visibility::Private, i))
    }
}

/// Whether `c` opens a bracketing level inside a type.
pub open spec fn is_opener(c: char) -> bool {
    c == '(' || c == '[' || c == '{' || c == '<'
}

/// Whether `c` closes a bracketing level inside a type.
pub open spec fn is_closer(c: char) -> bool {
    c == ')' || c == ']' || c == '}' || c == '>'
}

/// End of a type's token span starting at `i` with `d` bracket levels open:
/// the first position at depth zero holding the terminator (`;` when `semi`,
/// else `,` or `)`).  Nothing when the tokens end or a bracket closes first.
pub open spec fn type_end(ts: Seq<Tok>, i: int, d: int, semi: bool) -> Option<int>
    decreases ts.len() - i,
{
    if i < 0 || i >= ts.len() {
        None
    } else {
        match ts[i] {
            Tok::Punct(c) => {
                if d == 0 && (if semi {
                    c == ';'
                } else {
                    c == ',' || c == ')'
                }) {
                    Some(i)
                } else if is_opener(c) {
                    type_end(ts, i + 1, d + 1, semi)
                } else if is_closer(c) {
                    if d == 0 {
                        None
                    } else {
                        type_end(ts, i + 1, d - 1, semi)
                    }
                } else {
                    type_end(ts, i + 1, d, semi)
                }
            },
            _ => type_end(ts, i + 1, d, semi),
        }
    }
}

pub proof fn lemma_type_end_bounds(ts: Seq<Tok>, i: int, d: int, semi: bool)
    requires
        0 <= i <= ts.len(),
    ensures
        type_end(ts, i, d, semi) matches Some(e) ==> i <= e < ts.len(),
    decreases ts.len() - i,
{
    if i < ts.len() {
        match ts[i] {
            Tok::Punct(c) => {
                if d == 0 && (if semi {
                    c == ';'
                } else {
                    c == ',' || c == ')'
                }) {
                } else if is_opener(c) {
                    lemma_type_end_bounds(ts, i + 1, d + 1, semi);
                } else if is_closer(c) {
                    if d != 0 {
                        lemma_type_end_bounds(ts, i + 1, d - 1, semi);
                    }
                } else {
                    lemma_type_end_bounds(ts, i + 1, d, semi);
                }
            },
            _ => {
                lemma_type_end_bounds(ts, i + 1, d, semi);
            },
        }
    }
}

/// The source text of one token.
pub open spec fn tok_text(t: Tok) -> Seq<char> {
    match t {
        Tok::Ident(n) => n,
        Tok::Punct(c) => seq![c],
        Tok::Attr(a) => a,
    }
}

/// A token span rendered back to text: token texts in order, with a single
/// space between two adjacent identifiers.
pub open spec fn spec_render(ts: Seq<Tok>) -> Seq<char>
    decreases ts.len(),
{
    if ts.len() == 0 {
        Seq::empty()
    } else if ts.len() == 1 {
        tok_text(ts[0])
    } else {
        spec_render(ts.drop_last()) + (if (ts[ts.len() - 2] matches Tok::Ident(a)) && (ts[ts.len()
            - 1] matches Tok::Ident(b)) {
            " "@
        } else {
            Seq::empty()
        }) + tok_text(ts.last())
    }
}

/// Whether a declared identifier is usable.
pub fn validate_ident(s: &str) -> (r: bool)
    ensures
        r == wf_ident(s@),
{
    let n = s.unicode_len();
    if n == 0 {
        return false;
    }
    if digit_char(s.get_char(0)) {
        return false;
    }
    let mut i: usize = 0;
    while i < n
        invariant
            n == s@.len(),
            i <= n,
            forall|j: int| 0 <= j < i ==> crate::text::is_ident_char(#[trigger] s@[j]),
        decreases n - i,
    {
        if !ident_char(s.get_char(i)) {
            return false;
        }
        i = i + 1;
    }
    true
}

/// Token `i` equals the keyword `w`.
pub fn tok_is_kw(ts: &Vec<Token>, i: usize, w: &str) -> (r: bool)
    ensures
        r == is_id(toks_of(ts@), i as int, w@),
{
    if i < ts.len() {
        proof {
            assert(toks_of(ts@)[i as int] == ts@[i as int]@);
        }
        match &ts[i] {
            Token::Ident(n) => str_eq(n.as_str(), w),
            _ => false,
        }
    } else {
        false
    }
}

/// Token `i` equals the punctuation `c`.
pub fn tok_is_punct(ts: &Vec<Token>, i: usize, c: char) -> (r: bool)
    ensures
        r == is_p(toks_of(ts@), i as int, c),
{
    if i < ts.len() {
        proof {
            assert(toks_of(ts@)[i as int] == ts@[i as int]@);
        }
        match &ts[i] {
            Token::Punct(p) => *p == c,
            _ => false,
        }
    } else {
        false
    }
}

/// The identifier text of token `i`, if it is one.
pub(crate) fn tok_ident(ts: &Vec<Token>, i: usize) -> (r: Option<String>)
    requires
        i < ts@.len(),
    ensures
        match r {
            Some(n) => toks_of(ts@)[i as int] == Tok::Ident(n@),
            None => !(toks_of(ts@)[i as int] matches Tok::Ident(x)),
        },
{
    proof {
        assert(toks_of(ts@)[i as int] == ts@[i as int]@);
    }
    match &ts[i] {
        Token::Ident(n) => Some(n.clone()),
        _ => None,
    }
}

/// Renders the token span `[from, to)` back to source text.
pub fn render_toks(ts: &Vec<Token>, from: usize, to: usize) -> (r: String)
    requires
        from <= to <= ts@.len(),
    ensures
        r@ == spec_render(toks_of(ts@).subrange(from as int, to as int)),
{
    let ghost whole = toks_of(ts@).subrange(from as int, to as int);
    let mut out = String::new();
    let mut k: usize = from;
    while k < to
        invariant
            from <= k <= to <= ts@.len(),
            whole == toks_of(ts@).subrange(from as int, to as int),
            out@ == spec_render(whole.take(k - from)),
        decreases to - k,
    {
        let ghost m = k - from;
        proof {
            assert(whole.take(m + 1).drop_last() =~= whole.take(m as int));
            assert(whole.take(m + 1).last() == whole[m as int]);
            assert(whole[m as int] == toks_of(ts@)[k as int]);
            assert(toks_of(ts@)[k as int] == ts@[k as int]@);
            if m >= 1 {
                assert(whole.take(m + 1)[m - 1] == whole[m - 1]);
                assert(whole[m - 1] == toks_of(ts@)[k as int - 1]);
                assert(toks_of(ts@)[k as int - 1] == ts@[k as int - 1]@);
            }
        }
        if k > from {
            let both = match (&ts[k - 1], &ts[k]) {
                (Token::Ident(_), Token::Ident(_)) => true,
                _ => false,
            };
            if both {
                out.append(" ");
            }
        }
        match &ts[k] {
            Token::Ident(n) => out.append(n.as_str()),
            Token::Punct(c) => push_char(&mut out, *c),
            Token::Attr(a) => out.append(a.as_str()),
        }
        proof {
            assert(out@ =~= spec_render(whole.take(m + 1)));
        }
        k = k + 1;
    }
    proof {
        assert(whole.take(to - from) =~= whole);
    }
    out
}

/// Finds the end of a type span, mirroring [`type_end`].
pub fn find_type_end(ts: &Vec<Token>, i: usize, semi: bool) -> (r: Option<usize>)
    requires
        i <= ts@.len(),
    ensures
        match r {
            Some(e) => type_end(toks_of(ts@), i as int, 0, semi) == Some(e as int) && i <= e
                < ts@.len(),
            None => type_end(toks_of(ts@), i as int, 0, semi) is None,
        },
{
    let ghost tsv = toks_of(ts@);
    let mut j: usize = i;
    let mut d: usize = 0;
    while j < ts.len()
        invariant
            i <= j <= ts@.len(),
            tsv == toks_of(ts@),
            d <= j,
            type_end(tsv, i as int, 0, semi) == type_end(tsv, j as int, d as int, semi),
        decreases ts@.len() - j,
    {
        proof {
            assert(tsv[j as int] == ts@[j as int]@);
        }
        match &ts[j] {
            Token::Punct(c) => {
                let cc = *c;
                let terminator = if semi {
                    cc == ';'
                } else {
                    cc == ',' || cc == ')'
                };
                if d == 0 && terminator {
                    proof {
                        lemma_type_end_bounds(tsv, i as int, 0, semi);
                    }
                    return Some(j);
                } else if cc == '(' || cc == '[' || cc == '{' || cc == '<' {
                    d = d + 1;
                } else if cc == ')' || cc == ']' || cc == '}' || cc == '>' {
                    if d == 0 {
                        return None;
                    }
                    d = d - 1;
                }
            },
            _ => {},
        }
        j = j + 1;
    }
    None
}

/// The parsed argument list starting at token `i` (just inside the
/// parentheses): the receiver seen so far, the declared parameters, and the
/// first token after the closing parenthesis.  Fails on a missing closing
/// parenthesis, a duplicate receiver, a receiver without exclusive mutable
/// access, or a parameter that is not a single usable identifier.
pub open spec fn spec_parse_args(ts: Seq<Tok>, i: int, seen: Option<bool>) -> Option<
    (Option<bool>, Seq<ParamSchema>, int),
>
    decreases ts.len() - i,
    via spec_parse_args_dec
{
    if i < 0 || i >= ts.len() {
        None
    } else if is_p(ts, i, ')') {
        Some((seen, Seq::empty(), i + 1))
    } else if is_p(ts, i, '&') && is_id(ts, i + 1, "mut"@) && is_id(ts, i + 2, "self"@) {
        if seen is Some {
            None
        } else if is_p(ts, i + 3, ')') {
            Some((Some(true), Seq::empty(), i + 4))
        } else if is_p(ts, i + 3, ',') {
            spec_parse_args(ts, i + 4, Some(true))
        } else {
            None
        }
    } else if is_id(ts, i, "mut"@) && is_id(ts, i + 1, "self"@) {
        if seen is Some {
            None
        } else if is_p(ts, i + 2, ')') {
            Some((Some(false), Seq::empty(), i + 3))
        } else if is_p(ts, i + 2, ',') {
            spec_parse_args(ts, i + 3, Some(false))
        } else {
            None
        }
    } else if (ts[i] matches Tok::Ident(n)) && wf_ident(ts[i]->Ident_0) && ts[i]->Ident_0
        != "self"@ && ts[i]->Ident_0 != "mut"@ && ts[i]->Ident_0 != "_"@ && is_p(ts, i + 1, ':') {
        match type_end(ts, i + 2, 0, false) {
            Some(e) => {
                if e > i + 2 && spec_render(ts.subrange(i + 2, e)).len() > 0 {
                    let p = ParamSchema {
                        name: ts[i]->Ident_0,
                        ty: spec_render(ts.subrange(i + 2, e)),
                    };
                    if is_p(ts, e, ')') {
                        Some((seen, seq![p], e + 1))
                    } else {
                        match spec_parse_args(ts, e + 1, seen) {
                            Some((s2, ps, j)) => Some((s2, seq![p] + ps, j)),
                            None => None,
                        }
                    }
                } else {
                    None
                }
            },
            None => None,
        }
    } else {
        None
    }
}

#[via_fn]
proof fn spec_parse_args_dec(ts: Seq<Tok>, i: int, seen: Option<bool>) {
    if 0 <= i < ts.len() && i + 2 <= ts.len() {
        lemma_type_end_bounds(ts, i + 2, 0, false);
    }
}

pub proof fn lemma_parse_args_bounds(ts: Seq<Tok>, i: int, seen: Option<bool>)
    requires
        0 <= i <= ts.len(),
    ensures
        spec_parse_args(ts, i, seen) matches Some(t) ==> i < t.2 <= ts.len(),
    decreases ts.len() - i,
{
    if 0 <= i < ts.len() {
        if is_p(ts, i, ')') {
        } else if is_p(ts, i, '&') && is_id(ts, i + 1, "mut"@) && is_id(ts, i + 2, "self"@) {
            if seen is None && is_p(ts, i + 3, ',') {
                lemma_parse_args_bounds(ts, i + 4, Some(true));
            }
        } else if is_id(ts, i, "mut"@) && is_id(ts, i + 1, "self"@) {
            if seen is None && is_p(ts, i + 2, ',') {
                lemma_parse_args_bounds(ts, i + 3, Some(false));
            }
        } else if (ts[i] matches Tok::Ident(n)) && wf_ident(ts[i]->Ident_0) && ts[i]->Ident_0
            != "self"@ && ts[i]->Ident_0 != "mut"@ && ts[i]->Ident_0 != "_"@ && is_p(ts, i + 1, ':') {
            lemma_type_end_bounds(ts, i + 2, 0, false);
            match type_end(ts, i + 2, 0, false) {
                Some(e) => {
                    if e > i + 2 && spec_render(ts.subrange(i + 2, e)).len() > 0 && !is_p(
                        ts,
                        e,
                        ')',
                    ) {
                        lemma_parse_args_bounds(ts, e + 1, seen);
                    }
                },
                None => {},
            }
        }
    }
}

/// Every parameter of a successful argument parse is usable: identifier
/// name, nonempty type text.
pub proof fn lemma_parse_args_wf(ts: Seq<Tok>, i: int, seen: Option<bool>)
    requires
        0 <= i <= ts.len(),
    ensures
        spec_parse_args(ts, i, seen) matches Some(t) ==> forall|k: int|
            0 <= k < t.1.len() ==> wf_ident(#[trigger] t.1[k].name) && t.1[k].ty.len() > 0,
    decreases ts.len() - i,
{
    if 0 <= i < ts.len() {
        if is_p(ts, i, ')') {
        } else if is_p(ts, i, '&') && is_id(ts, i + 1, "mut"@) && is_id(ts, i + 2, "self"@) {
            if seen is None && is_p(ts, i + 3, ',') {
                lemma_parse_args_wf(ts, i + 4, Some(true));
            }
        } else if is_id(ts, i, "mut"@) && is_id(ts, i + 1, "self"@) {
            if seen is None && is_p(ts, i + 2, ',') {
                lemma_parse_args_wf(ts, i + 3, Some(false));
            }
        } else if (ts[i] matches Tok::Ident(n)) && wf_ident(ts[i]->Ident_0) && ts[i]->Ident_0
            != "self"@ && ts[i]->Ident_0 != "mut"@ && ts[i]->Ident_0 != "_"@ && is_p(ts, i + 1, ':') {
            lemma_type_end_bounds(ts, i + 2, 0, false);
            match type_end(ts, i + 2, 0, false) {
                Some(e) => {
                    if e > i + 2 && spec_render(ts.subrange(i + 2, e)).len() > 0 {
                        let p = ParamSchema {
                            name: ts[i]->Ident_0,
                            ty: spec_render(ts.subrange(i + 2, e)),
                        };
                        if is_p(ts, e, ')') {
                            assert(seq![p][0] == p);
                        } else {
                            lemma_parse_args_wf(ts, e + 1, seen);
                            match spec_parse_args(ts, e + 1, seen) {
                                Some((s2, ps, j)) => {
                                    let whole = seq![p] + ps;
                                    assert forall|k: int|
                                        0 <= k < whole.len() implies wf_ident(
                                        #[trigger] whole[k].name,
                                    ) && whole[k].ty.len() > 0 by {
                                        if k == 0 {
                                            assert(whole[0] == p);
                                        } else {
                                            assert(whole[k] == ps[k - 1]);
                                        }
                                    }
                                },
                                None => {},
                            }
                        }
                    }
                },
                None => {},
            }
        }
    }
}

/// One parsed method declaration starting at token `i`, and the first token
/// after it.
pub open spec fn spec_parse_method(ts: Seq<Tok>, i: int) -> Option<(MethodSchema, int)> {
    let (attrs, i1) = spec_parse_attrs(ts, i);
    if !is_id(ts, i1, "fn"@) {
        None
    } else if !(0 <= i1 + 1 < ts.len() && (ts[i1 + 1] matches Tok::Ident(nm)) && wf_ident(
        ts[i1 + 1]->Ident_0,
    )) {
        None
    } else if !is_p(ts, i1 + 2, '(') {
        None
    } else {
        let name = ts[i1 + 1]->Ident_0;
        match spec_parse_args(ts, i1 + 3, None) {
            Some((seen, params, i2)) => {
                match seen {
                    Some(by_ref) => {
                        if is_p(ts, i2, ';') {
                            Some(
                                (
                                    MethodSchema { attrs, name, params, ret: None, by_ref },
                                    i2 + 1,
                                ),
                            )
                        } else if is_p(ts, i2, '-') && is_p(ts, i2 + 1, '>') {
                            match type_end(ts, i2 + 2, 0, true) {
                                Some(e) => {
                                    if e > i2 + 2 && spec_render(ts.subrange(i2 + 2, e)).len()
                                        > 0 {
                                        Some(
                                            (
                                                MethodSchema {
                                                    attrs,
                                                    name,
                                                    params,
                                                    ret: Some(spec_render(ts.subrange(i2 + 2, e))),
                                                    by_ref,
                                                },
                                                e + 1,
                                            ),
                                        )
                                    } else {
                                        None
                                    }
                                },
                                None => None,
                            }
                        } else {
                            None
                        }
                    },
                    None => None,
                }
            },
            None => None,
        }
    }
}

pub proof fn lemma_parse_method_bounds(ts: Seq<Tok>, i: int)
    requires
        0 <= i <= ts.len(),
    ensures
        spec_parse_method(ts, i) matches Some(t) ==> i < t.1 <= ts.len() && wf_method(t.0),
{
    lemma_parse_attrs_bounds(ts, i);
    let (attrs, i1) = spec_parse_attrs(ts, i);
    if is_id(ts, i1, "fn"@) && 0 <= i1 + 1 < ts.len() && (ts[i1 + 1] matches Tok::Ident(nm))
        && wf_ident(ts[i1 + 1]->Ident_0) && is_p(ts, i1 + 2, '(') {
        lemma_parse_args_bounds(ts, i1 + 3, None);
        lemma_parse_args_wf(ts, i1 + 3, None);
        match spec_parse_args(ts, i1 + 3, None) {
            Some((seen, params, i2)) => {
                if seen is Some {
                    if is_p(ts, i2, ';') {
                    } else if is_p(ts, i2, '-') && is_p(ts, i2 + 1, '>') {
                        lemma_type_end_bounds(ts, i2 + 2, 0, true);
                    }
                }
            },
            None => {},
        }
    }
}

/// The methods of the interface body starting at token `i`, up to and
/// including the closing brace, and the first token after it.
pub open spec fn spec_parse_methods(ts: Seq<Tok>, i: int) -> Option<(Seq<MethodSchema>, int)>
    decreases ts.len() - i,
    via spec_parse_methods_dec
{
    if is_p(ts, i, '}') {
        Some((Seq::empty(), i + 1))
    } else {
        match spec_parse_method(ts, i) {
            Some((m, i2)) => match spec_parse_methods(ts, i2) {
                Some((ms, j)) => Some((seq![m] + ms, j)),
                None => None,
            },
            None => None,
        }
    }
}

#[via_fn]
proof fn spec_parse_methods_dec(ts: Seq<Tok>, i: int) {
    if 0 <= i <= ts.len() {
        lemma_parse_method_bounds(ts, i);
    } else {
        if !(i < 0 || i >= ts.len()) {
        }
        lemma_parse_attrs_bounds_outside(ts, i);
    }
}

proof fn lemma_parse_attrs_bounds_outside(ts: Seq<Tok>, i: int)
    requires
        i < 0 || i > ts.len(),
    ensures
        spec_parse_attrs(ts, i).1 == i,
        spec_parse_method(ts, i) is None,
{
}

pub proof fn lemma_parse_methods_bounds(ts: Seq<Tok>, i: int)
    requires
        0 <= i <= ts.len(),
    ensures
        spec_parse_methods(ts, i) matches Some(t) ==> i < t.1 <= ts.len() && forall|k: int|
            0 <= k < t.0.len() ==> wf_method(#[trigger] t.0[k]),
    decreases ts.len() - i,
{
    if is_p(ts, i, '}') {
    } else {
        lemma_parse_method_bounds(ts, i);
        match spec_parse_method(ts, i) {
            Some((m, i2)) => {
                lemma_parse_methods_bounds(ts, i2);
                match spec_parse_methods(ts, i2) {
                    Some((ms, j)) => {
                        let whole = seq![m] + ms;
                        assert forall|k: int| 0 <= k < whole.len() implies wf_method(
                            #[trigger] whole[k],
                        ) by {
                            if k == 0 {
                                assert(whole[0] == m);
                            } else {
                                assert(whole[k] == ms[k - 1]);
                            }
                        }
                    },
                    None => {},
                }
            },
            None => {},
        }
    }
}

/// No two methods share the upper-snake form of their name, so no two
/// registry constants share an identifier.
pub open spec fn collision_free(ms: Seq<MethodSchema>) -> bool {
    forall|i: int, j: int|
        0 <= i < j < ms.len() ==> shouty_snake_of(ms[i].name) != shouty_snake_of(ms[j].name)
}

/// The schema denoted by a whole token sequence, if it is a well-shaped,
/// collision-free interface declaration.
pub open spec fn spec_parse_service_toks(ts: Seq<Tok>) -> Option<ServiceSchema> {
    let (attrs, i0) = spec_parse_attrs(ts, 0);
    match spec_parse_vis(ts, i0) {
        Some((vis, i1)) => {
            if !is_id(ts, i1, "trait"@) {
                None
            } else if !(0 <= i1 + 1 < ts.len() && (ts[i1 + 1] matches Tok::Ident(x)) && wf_ident(
                ts[i1 + 1]->Ident_0,
            )) {
                None
            } else if !is_p(ts, i1 + 2, '{') {
                None
            } else {
                match spec_parse_methods(ts, i1 + 3) {
                    Some((ms, j)) => {
                        if j == ts.len() && collision_free(ms) {
                            Some(
                                ServiceSchema {
                                    attrs,
                                    vis,
                                    name: ts[i1 + 1]->Ident_0,
                                    methods: ms,
                                },
                            )
                        } else {
                            None
                        }
                    },
                    None => None,
                }
            }
        },
        None => None,
    }
}

/// The schema denoted by an interface declaration's source text.
pub open spec fn spec_parse(s: Seq<char>) -> Option<ServiceSchema> {
    match spec_tokenize(s, 0) {
        Some(ts) => spec_parse_service_toks(ts),
        None => None,
    }
}


/// The token-view list has one entry per token.
pub proof fn lemma_toks_len(ts: Seq<Token>)
    ensures
        toks_of(ts).len() == ts.len(),
{
}

/// Parameters already gathered, in front of what the rest of the argument
/// list yields.
pub open spec fn args_extend(
    pre: Seq<ParamSchema>,
    o: Option<(Option<bool>, Seq<ParamSchema>, int)>,
) -> Option<(Option<bool>, Seq<ParamSchema>, int)> {
    match o {
        Some((s, ps, e)) => Some((s, pre + ps, e)),
        None => None,
    }
}

/// Methods already gathered, in front of what the rest of the body yields.
pub open spec fn meths_extend(
    pre: Seq<MethodSchema>,
    o: Option<(Seq<MethodSchema>, int)>,
) -> Option<(Seq<MethodSchema>, int)> {
    match o {
        Some((ms, e)) => Some((pre + ms, e)),
        None => None,
    }
}

pub(crate) fn parse_attrs(ts: &Vec<Token>, start: usize) -> (r: (Vec<String>, usize))
    requires
        start <= ts@.len(),
    ensures
        r.0@.map_values(|a: String| a@) == spec_parse_attrs(toks_of(ts@), start as int).0,
        r.1 as int == spec_parse_attrs(toks_of(ts@), start as int).1,
        start <= r.1 <= ts@.len(),
{
    let ghost tsv = toks_of(ts@);
    let nlen = ts.len();
    proof {
        lemma_toks_len(ts@);
    }
    let mut acc: Vec<String> = Vec::new();
    let mut j: usize = start;
    loop
        invariant
            start <= j <= ts@.len(),
            tsv == toks_of(ts@),
            tsv.len() == ts@.len(),
            ts@.len() <= usize::MAX,
            spec_parse_attrs(tsv, start as int).0 == acc@.map_values(|a: String| a@)
                + spec_parse_attrs(tsv, j as int).0,
            spec_parse_attrs(tsv, start as int).1 == spec_parse_attrs(tsv, j as int).1,
        ensures
            start <= j <= ts@.len(),
            spec_parse_attrs(tsv, j as int).0 == Seq::<Seq<char>>::empty(),
            spec_parse_attrs(tsv, j as int).1 == j,
            spec_parse_attrs(tsv, start as int).0 == acc@.map_values(|a: String| a@)
                + spec_parse_attrs(tsv, j as int).0,
            spec_parse_attrs(tsv, start as int).1 == spec_parse_attrs(tsv, j as int).1,
        decreases ts@.len() - j,
    {
        if j >= ts.len() {
            break;
        }
        proof {
            assert(tsv[j as int] == ts@[j as int]@);
        }
        let ghost accv = acc@.map_values(|a: String| a@);
        match &ts[j] {
            Token::Attr(a) => {
                acc.push(a.clone());
                proof {
                    let (rest, _e) = spec_parse_attrs(tsv, j as int + 1);
                    assert(spec_parse_attrs(tsv, j as int).0 == seq![tsv[j as int]->Attr_0]
                        + rest);
                    assert(acc@.map_values(|a: String| a@) =~= accv.push(a@));
                    assert(accv + (seq![tsv[j as int]->Attr_0] + rest) =~= accv.push(a@) + rest);
                }
                j = j + 1;
            },
            _ => {
                break;
            },
        }
    }
    proof {
        assert(spec_parse_attrs(tsv, start as int).0 =~= acc@.map_values(|a: String| a@));
    }
    (acc, j)
}

pub(crate) fn parse_vis(ts: &Vec<Token>, i: usize) -> (r: Result<(Visibility, usize), GenError>)
    requires
        i <= ts@.len(),
    ensures
        match r {
            Ok((v, j)) => spec_parse_vis(toks_of(ts@), i as int) == Some((v, j as int)) && i <= j
                <= ts@.len(),
            Err(_) => spec_parse_vis(toks_of(ts@), i as int) is None,
        },
{
    let nlen = ts.len();
    proof {
        lemma_toks_len(ts@);
    }
    if tok_is_kw(ts, i, "pub") {
        if tok_is_punct(ts, i + 1, '(') {
            if tok_is_kw(ts, i + 2, "crate") && tok_is_punct(ts, i + 3, ')') {
                Ok((Visibility::PubCrate, i + 4))
            } else {
                Err(GenError::MalformedDeclaration)
            }
        } else {
            Ok((Visibility::Public, i + 1))
        }
    } else {
        Ok((Visibility::Private, i))
    }
}

/// Parses the argument list just inside the parentheses: receiver and
/// declared parameters.
pub(crate) fn parse_args(ts: &Vec<Token>, start: usize) -> (r: Result<
    (Option<bool>, Vec<Param>, usize),
    GenError,
>)
    requires
        start <= ts@.len(),
    ensures
        match r {
            Ok((seen, ps, j)) => spec_parse_args(toks_of(ts@), start as int, None) == Some(
                (seen, ps@.map_values(|p: Param| p@), j as int),
            ) && start < j <= ts@.len(),
            Err(_) => spec_parse_args(toks_of(ts@), start as int, None) is None,
        },
{
    let ghost tsv = toks_of(ts@);
    let nlen = ts.len();
    proof {
        lemma_toks_len(ts@);
    }
    let mut params: Vec<Param> = Vec::new();
    let mut seen: Option<bool> = None;
    let mut j: usize = start;
    loop
        invariant
            start <= j <= ts@.len(),
            tsv == toks_of(ts@),
            tsv.len() == ts@.len(),
            ts@.len() <= usize::MAX,
            spec_parse_args(tsv, start as int, None) == args_extend(
                params@.map_values(|p: Param| p@),
                spec_parse_args(tsv, j as int, seen),
            ),
        decreases ts@.len() - j,
    {
        let ghost pv = params@.map_values(|p: Param| p@);
        if j >= ts.len() {
            return Err(GenError::MalformedDeclaration);
        }
        if tok_is_punct(ts, j, ')') {
            proof {
                assert(spec_parse_args(tsv, j as int, seen) == Some(
                    (seen, Seq::<ParamSchema>::empty(), j as int + 1),
                ));
                assert(pv + Seq::<ParamSchema>::empty() =~= pv);
            }
            return Ok((seen, params, j + 1));
        }
        if tok_is_punct(ts, j, '&') && tok_is_kw(ts, j + 1, "mut") && tok_is_kw(ts, j + 2, "self")
            {
            if seen.is_some() {
                return Err(GenError::DuplicateReceiver);
            }
            if tok_is_punct(ts, j + 3, ')') {
                proof {
                    assert(pv + Seq::<ParamSchema>::empty() =~= pv);
                }
                return Ok((Some(true), params, j + 4));
            }
            if tok_is_punct(ts, j + 3, ',') {
                seen = Some(true);
                j = j + 4;
            } else {
                return Err(GenError::MalformedDeclaration);
            }
        } else if tok_is_kw(ts, j, "mut") && tok_is_kw(ts, j + 1, "self") {
            if seen.is_some() {
                return Err(GenError::DuplicateReceiver);
            }
            if tok_is_punct(ts, j + 2, ')') {
                proof {
                    assert(pv + Seq::<ParamSchema>::empty() =~= pv);
                }
                return Ok((Some(false), params, j + 3));
            }
            if tok_is_punct(ts, j + 2, ',') {
                seen = Some(false);
                j = j + 3;
            } else {
                return Err(GenError::MalformedDeclaration);
            }
        } else {
            match tok_ident(ts, j) {
                Some(n) => {
                    if str_eq(n.as_str(), "self") {
                        return Err(GenError::NonMutReceiver);
                    }
                    if str_eq(n.as_str(), "mut") || str_eq(n.as_str(), "_") {
                        return Err(GenError::PatternParameter);
                    }
                    if !validate_ident(n.as_str()) {
                        return Err(GenError::MalformedDeclaration);
                    }
                    if !tok_is_punct(ts, j + 1, ':') {
                        return Err(GenError::MalformedDeclaration);
                    }
                    match find_type_end(ts, j + 2, false) {
                        Some(e) => {
                            if e <= j + 2 {
                                return Err(GenError::MalformedDeclaration);
                            }
                            let ty = render_toks(ts, j + 2, e);
                            if ty.unicode_len() == 0 {
                                return Err(GenError::MalformedDeclaration);
                            }
                            let ghost gp = ParamSchema {
                                name: n@,
                                ty: spec_render(tsv.subrange(j as int + 2, e as int)),
                            };
                            let p = Param { name: n, ty };
                            proof {
                                assert(p@ =~= gp);
                            }
                            if tok_is_punct(ts, e, ')') {
                                params.push(p);
                                proof {
                                    assert(spec_parse_args(tsv, j as int, seen) == Some(
                                        (seen, seq![gp], e as int + 1),
                                    ));
                                    assert(params@.map_values(|p: Param| p@) =~= pv.push(gp));
                                    assert(pv + seq![gp] =~= pv.push(gp));
                                }
                                return Ok((seen, params, e + 1));
                            }
                            params.push(p);
                            proof {
                                assert(params@.map_values(|p: Param| p@) =~= pv.push(gp));
                                if spec_parse_args(tsv, e as int + 1, seen) is Some {
                                    let (s2, ps, jj) = spec_parse_args(
                                        tsv,
                                        e as int + 1,
                                        seen,
                                    )->Some_0;
                                    assert(spec_parse_args(tsv, j as int, seen) == Some(
                                        (s2, seq![gp] + ps, jj),
                                    ));
                                    assert(pv + (seq![gp] + ps) =~= pv.push(gp) + ps);
                                } else {
                                    assert(spec_parse_args(tsv, j as int, seen) is None);
                                }
                            }
                            j = e + 1;
                        },
                        None => {
                            return Err(GenError::MalformedDeclaration);
                        },
                    }
                },
                None => {
                    if tok_is_punct(ts, j, '&') {
                        return Err(GenError::NonMutReceiver);
                    }
                    return Err(GenError::PatternParameter);
                },
            }
        }
    }
}

/// Parses one method declaration.
pub fn parse_method(ts: &Vec<Token>, start: usize) -> (r: Result<
    (MethodDescriptor, usize),
    GenError,
>)
    requires
        start <= ts@.len(),
    ensures
        match r {
            Ok((m, j)) => spec_parse_method(toks_of(ts@), start as int) == Some(
                (m@, j as int),
            ) && start < j <= ts@.len() && wf_method(m@),
            Err(_) => spec_parse_method(toks_of(ts@), start as int) is None,
        },
{
    let ghost tsv = toks_of(ts@);
    let nlen = ts.len();
    proof {
        lemma_toks_len(ts@);
    }
    let (attrs, i1) = parse_attrs(ts, start);
    if !tok_is_kw(ts, i1, "fn") {
        return Err(GenError::MalformedDeclaration);
    }
    if i1 + 1 >= nlen {
        return Err(GenError::MalformedDeclaration);
    }
    let name = match tok_ident(ts, i1 + 1) {
        Some(n) => n,
        None => {
            return Err(GenError::MalformedDeclaration);
        },
    };
    if !validate_ident(name.as_str()) {
        return Err(GenError::MalformedDeclaration);
    }
    if !tok_is_punct(ts, i1 + 2, '(') {
        return Err(GenError::MalformedDeclaration);
    }
    let (seen, params, i2) = match parse_args(ts, i1 + 3) {
        Ok(t) => t,
        Err(e) => {
            return Err(e);
        },
    };
    let by_ref = match seen {
        Some(b) => b,
        None => {
            return Err(GenError::MissingReceiver);
        },
    };
    proof {
        lemma_parse_args_wf(tsv, i1 as int + 3, None);
    }
    if tok_is_punct(ts, i2, ';') {
        let m = MethodDescriptor { attrs, name, params, ret: None, by_ref };
        proof {
            let sm = spec_parse_method(tsv, start as int)->Some_0;
            assert(m@ =~= sm.0);
            assert(spec_parse_method(tsv, start as int) == Some((m@, i2 as int + 1)));
            lemma_parse_method_bounds(tsv, start as int);
        }
        return Ok((m, i2 + 1));
    }
    if tok_is_punct(ts, i2, '-') && tok_is_punct(ts, i2 + 1, '>') {
        match find_type_end(ts, i2 + 2, true) {
            Some(e) => {
                if e <= i2 + 2 {
                    return Err(GenError::MalformedDeclaration);
                }
                let ty = render_toks(ts, i2 + 2, e);
                if ty.unicode_len() == 0 {
                    return Err(GenError::MalformedDeclaration);
                }
                let m = MethodDescriptor { attrs, name, params, ret: Some(ty), by_ref };
                proof {
                    let sm = spec_parse_method(tsv, start as int)->Some_0;
                    assert(m@ =~= sm.0);
                    assert(spec_parse_method(tsv, start as int) == Some((m@, e as int + 1)));
                    lemma_parse_method_bounds(tsv, start as int);
                }
                Ok((m, e + 1))
            },
            None => Err(GenError::MalformedDeclaration),
        }
    } else {
        Err(GenError::MalformedDeclaration)
    }
}

/// Parses the brace-delimited sequence of method declarations, consuming the
/// closing brace.
fn parse_methods(ts: &Vec<Token>, start: usize) -> (r: Result<
    (Vec<MethodDescriptor>, usize),
    GenError,
>)
    requires
        start <= ts@.len(),
    ensures
        match r {
            Ok((ms, j)) => spec_parse_methods(toks_of(ts@), start as int) == Some(
                (ms@.map_values(|m: MethodDescriptor| m@), j as int),
            ) && start < j <= ts@.len(),
            Err(_) => spec_parse_methods(toks_of(ts@), start as int) is None,
        },
{
    let ghost tsv = toks_of(ts@);
    let nlen = ts.len();
    proof {
        lemma_toks_len(ts@);
    }
    let mut ms: Vec<MethodDescriptor> = Vec::new();
    let mut j: usize = start;
    loop
        invariant
            start <= j <= ts@.len(),
            tsv == toks_of(ts@),
            tsv.len() == ts@.len(),
            ts@.len() <= usize::MAX,
            spec_parse_methods(tsv, start as int) == meths_extend(
                ms@.map_values(|m: MethodDescriptor| m@),
                spec_parse_methods(tsv, j as int),
            ),
        decreases ts@.len() - j,
    {
        let ghost mv = ms@.map_values(|m: MethodDescriptor| m@);
        if tok_is_punct(ts, j, '}') {
            proof {
                assert(spec_parse_methods(tsv, j as int) == Some(
                    (Seq::<MethodSchema>::empty(), j as int + 1),
                ));
                assert(mv + Seq::<MethodSchema>::empty() =~= mv);
            }
            return Ok((ms, j + 1));
        }
        match parse_method(ts, j) {
            Ok((m, j2)) => {
                let ghost gm = m@;
                ms.push(m);
                proof {
                    assert(ms@.map_values(|m: MethodDescriptor| m@) =~= mv.push(gm));
                    if spec_parse_methods(tsv, j2 as int) is Some {
                        let (rest, jj) = spec_parse_methods(tsv, j2 as int)->Some_0;
                        assert(spec_parse_methods(tsv, j as int) == Some((seq![gm] + rest, jj)));
                        assert(mv + (seq![gm] + rest) =~= mv.push(gm) + rest);
                    } else {
                        assert(spec_parse_methods(tsv, j as int) is None);
                    }
                }
                j = j2;
            },
            Err(e) => {
                return Err(e);
            },
        }
    }
}


/// Looks for two methods whose registry constants would share one name.
fn find_collision(methods: &Vec<MethodDescriptor>) -> (r: bool)
    ensures
        r == !collision_free(methods@.map_values(|m: MethodDescriptor| m@)),
{
    let ghost msv = methods@.map_values(|m: MethodDescriptor| m@);
    let n = methods.len();
    let mut shoutys: Vec<String> = Vec::new();
    let mut k: usize = 0;
    while k < n
        invariant
            k <= n,
            n == methods@.len(),
            msv == methods@.map_values(|m: MethodDescriptor| m@),
            shoutys@.len() == k,
            forall|q: int| 0 <= q < k ==> #[trigger] shoutys@[q]@ == shouty_snake_of(msv[q].name),
        decreases n - k,
    {
        let sh = shouty_snake(methods[k].name.as_str());
        proof {
            assert(msv[k as int] == methods@[k as int]@);
        }
        shoutys.push(sh);
        k = k + 1;
    }
    let mut a: usize = 0;
    while a < n
        invariant
            a <= n,
            n == methods@.len(),
            msv == methods@.map_values(|m: MethodDescriptor| m@),
            shoutys@.len() == n,
            forall|q: int| 0 <= q < n ==> #[trigger] shoutys@[q]@ == shouty_snake_of(msv[q].name),
            forall|x: int, y: int|
                0 <= x < y < n && x < a ==> shouty_snake_of(msv[x].name) != shouty_snake_of(
                    msv[y].name,
                ),
        decreases n - a,
    {
        let mut b: usize = a + 1;
        while b < n
            invariant
                a < b <= n,
                a < n,
                n == methods@.len(),
                msv == methods@.map_values(|m: MethodDescriptor| m@),
                shoutys@.len() == n,
                forall|q: int|
                    0 <= q < n ==> #[trigger] shoutys@[q]@ == shouty_snake_of(msv[q].name),
                forall|y: int|
                    a < y < b ==> shouty_snake_of(msv[a as int].name) != shouty_snake_of(
                        msv[y].name,
                    ),
            decreases n - b,
        {
            if str_eq(shoutys[a].as_str(), shoutys[b].as_str()) {
                proof {
                    assert(shouty_snake_of(msv[a as int].name) == shouty_snake_of(
                        msv[b as int].name,
                    ));
                    assert(!collision_free(msv));
                }
                return true;
            }
            b = b + 1;
        }
        a = a + 1;
    }
    false
}

/// Parses an annotated interface declaration into its schema.  Succeeds
/// exactly when the text denotes a well-shaped, collision-free interface;
/// the result is then well-formed.
pub fn parse_service(src: &str) -> (r: Result<ServiceInterfaceDescriptor, GenError>)
    ensures
        match r {
            Ok(svc) => spec_parse(src@) == Some(svc@) && wf_service(svc@),
            Err(_) => spec_parse(src@) is None,
        },
{
    let toks = match tokenize(src) {
        Ok(t) => t,
        Err(e) => {
            return Err(e);
        },
    };
    let ghost tsv = toks_of(toks@);
    let nlen = toks.len();
    proof {
        lemma_toks_len(toks@);
    }
    let (attrs, i0) = parse_attrs(&toks, 0);
    let (vis, i1) = match parse_vis(&toks, i0) {
        Ok(t) => t,
        Err(e) => {
            return Err(e);
        },
    };
    if !tok_is_kw(&toks, i1, "trait") {
        return Err(GenError::MalformedDeclaration);
    }
    if i1 + 1 >= nlen {
        return Err(GenError::MalformedDeclaration);
    }
    let name = match tok_ident(&toks, i1 + 1) {
        Some(n) => n,
        None => {
            return Err(GenError::MalformedDeclaration);
        },
    };
    if !validate_ident(name.as_str()) {
        return Err(GenError::MalformedDeclaration);
    }
    if !tok_is_punct(&toks, i1 + 2, '{') {
        return Err(GenError::MalformedDeclaration);
    }
    let (methods, j) = match parse_methods(&toks, i1 + 3) {
        Ok(t) => t,
        Err(e) => {
            return Err(e);
        },
    };
    if j != toks.len() {
        return Err(GenError::MalformedDeclaration);
    }
    let ghost msv = methods@.map_values(|m: MethodDescriptor| m@);
    if find_collision(&methods) {
        proof {
            assert(spec_parse_service_toks(tsv) is None);
        }
        return Err(GenError::RegistryCollision);
    }
    let svc = ServiceInterfaceDescriptor { attrs, vis, name, methods };
    proof {
        assert(collision_free(msv));
        let sv = spec_parse_service_toks(tsv)->Some_0;
        assert(svc@ =~= sv);
        assert(spec_parse_service_toks(tsv) == Some(svc@));
        lemma_parse_methods_bounds(tsv, i1 as int + 3);
    }
    Ok(svc)
}

} // verus!
