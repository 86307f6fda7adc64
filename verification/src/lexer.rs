//! The declaration lexer: source text to a flat token sequence of
//! identifiers, single punctuation characters and bracketed attributes.
//! Line comments and whitespace separate tokens and are dropped.

use vstd::prelude::*;
use crate::schema::GenError;
use crate::text::{ident_char, is_ident_char, is_space, space_char};
use vstd::string::{StrSliceExecFns, StringExecFns};

verus! {

/// One token of a declaration.
pub enum Token {
    /// A maximal run of letters, digits and underscores.
    Ident(String),
    /// Any other non-space character.
    Punct(char),
    /// An outer attribute, kept as its full source text `#[...]`.
    Attr(String),
}

/// Mathematical shape of a token.
pub ghost enum Tok {
    Ident(Seq<char>),
    Punct(char),
    Attr(Seq<char>),
}

impl View for Token {
    type V = Tok;

    open spec fn view(&self) -> Tok {
        match self {
            Token::Ident(s) => Tok::Ident(s@),
            Token::Punct(c) => Tok::Punct(*c),
            Token::Attr(s) => Tok::Attr(s@),
        }
    }
}

/// The view of a token list.
pub open spec fn toks_of(ts: Seq<Token>) -> Seq<Tok> {
    ts.map_values(|t: Token| t@)
}

/// End of the identifier run starting at `i`: the first position at or after
/// `i` holding no identifier character.
pub open spec fn ident_end(s: Seq<char>, i: int) -> int
    decreases s.len() - i,
{
    if i < 0 || i >= s.len() || !is_ident_char(s[i]) {
        i
    } else {
        ident_end(s, i + 1)
    }
}

pub proof fn lemma_ident_end(s: Seq<char>, i: int)
    requires
        0 <= i <= s.len(),
    ensures
        i <= ident_end(s, i) <= s.len(),
        forall|k: int| i <= k < ident_end(s, i) ==> is_ident_char(s[k]),
        ident_end(s, i) < s.len() ==> !is_ident_char(s[ident_end(s, i)]),
    decreases s.len() - i,
{
    if i < s.len() && is_ident_char(s[i]) {
        lemma_ident_end(s, i + 1);
    }
}

/// End of a line comment starting at `i`: the position of the next newline,
/// or the end of the text.
pub open spec fn line_end(s: Seq<char>, i: int) -> int
    decreases s.len() - i,
{
    if i < 0 || i >= s.len() || s[i] == '\n' {
        i
    } else {
        line_end(s, i + 1)
    }
}

pub proof fn lemma_line_end(s: Seq<char>, i: int)
    requires
        0 <= i <= s.len(),
    ensures
        i <= line_end(s, i) <= s.len(),
        line_end(s, i) < s.len() ==> s[line_end(s, i)] == '\n',
        forall|k: int| i <= k < line_end(s, i) ==> s[k] != '\n',
    decreases s.len() - i,
{
    if i < s.len() && s[i] != '\n' {
        lemma_line_end(s, i + 1);
    }
}

/// Position of the bracket closing an attribute whose content starts at `i`
/// with `d` brackets already open, or nothing when the text ends first.
pub open spec fn attr_end(s: Seq<char>, i: int, d: int) -> Option<int>
    decreases s.len() - i,
{
    if i < 0 || i >= s.len() {
        None
    } else if s[i] == ']' {
        if d == 0 {
            Some(i)
        } else {
            attr_end(s, i + 1, d - 1)
        }
    } else if s[i] == '[' {
        attr_end(s, i + 1, d + 1)
    } else {
        attr_end(s, i + 1, d)
    }
}

pub proof fn lemma_attr_end(s: Seq<char>, i: int, d: int)
    requires
        0 <= i <= s.len(),
    ensures
        attr_end(s, i, d) matches Some(j) ==> i <= j < s.len(),
    decreases s.len() - i,
{
    if i < s.len() {
        if s[i] == ']' {
            if d != 0 {
                lemma_attr_end(s, i + 1, d - 1);
            }
        } else if s[i] == '[' {
            lemma_attr_end(s, i + 1, d + 1);
        } else {
            lemma_attr_end(s, i + 1, d);
        }
    }
}

/// The token sequence of the text from position `i` on, or nothing when an
/// attribute never closes.
pub open spec fn spec_tokenize(s: Seq<char>, i: int) -> Option<Seq<Tok>>
    decreases s.len() - i,
    via spec_tokenize_dec
{
    if i < 0 || i >= s.len() {
        Some(Seq::empty())
    } else if is_space(s[i]) {
        spec_tokenize(s, i + 1)
    } else if s[i] == '/' && i + 1 < s.len() && s[i + 1] == '/' {
        spec_tokenize(s, line_end(s, i + 2))
    } else if is_ident_char(s[i]) {
        let e = ident_end(s, i);
        match spec_tokenize(s, e) {
            Some(ts) => Some(seq![Tok::Ident(s.subrange(i, e))] + ts),
            None => None,
        }
    } else if s[i] == '#' && i + 1 < s.len() && s[i + 1] == '[' {
        match attr_end(s, i + 2, 0) {
            Some(j) => match spec_tokenize(s, j + 1) {
                Some(ts) => Some(seq![Tok::Attr(s.subrange(i, j + 1))] + ts),
                None => None,
            },
            None => None,
        }
    } else {
        match spec_tokenize(s, i + 1) {
            Some(ts) => Some(seq![Tok::Punct(s[i])] + ts),
            None => None,
        }
    }
}

#[via_fn]
proof fn spec_tokenize_dec(s: Seq<char>, i: int) {
    if 0 <= i < s.len() {
        if s[i] == '/' && i + 1 < s.len() && s[i + 1] == '/' {
            lemma_line_end(s, i + 2);
        } else if is_ident_char(s[i]) {
            lemma_ident_end(s, i);
        } else if s[i] == '#' && i + 1 < s.len() && s[i + 1] == '[' {
            lemma_attr_end(s, i + 2, 0);
        }
    }
}

/// Composition helper: the tokens already produced, in front of what the
/// rest of the text yields.
pub open spec fn tok_result(pre: Seq<Tok>, o: Option<Seq<Tok>>) -> Option<Seq<Tok>> {
    match o {
        Some(ts) => Some(pre + ts),
        None => None,
    }
}

/// Lexes a declaration into tokens.  Fails exactly when an attribute's
/// brackets never close.
pub fn tokenize(src: &str) -> (r: Result<Vec<Token>, GenError>)
    ensures
        match r {
            Ok(ts) => spec_tokenize(src@, 0) == Some(toks_of(ts@)),
            Err(e) => spec_tokenize(src@, 0) is None && e == GenError::UnterminatedAttribute,
        },
{
    let n = src.unicode_len();
    let mut out: Vec<Token> = Vec::new();
    let mut i: usize = 0;
    while i < n
        invariant
            n == src@.len(),
            i <= n,
            spec_tokenize(src@, 0) == tok_result(toks_of(out@), spec_tokenize(src@, i as int)),
        decreases n - i,
    {
        let ghost pre = toks_of(out@);
        let c = src.get_char(i);
        if space_char(c) {
            i = i + 1;
        } else if c == '/' && i + 1 < n && src.get_char(i + 1) == '/' {
            let mut j: usize = i + 2;
            while j < n && src.get_char(j) != '\n'
                invariant
                    n == src@.len(),
                    i + 2 <= j <= n,
                    line_end(src@, i as int + 2) == line_end(src@, j as int),
                decreases n - j,
            {
                j = j + 1;
            }
            proof {
                assert(line_end(src@, j as int) == j as int);
            }
            i = j;
        } else if ident_char(c) {
            let start = i;
            let mut j: usize = i;
            while j < n && ident_char(src.get_char(j))
                invariant
                    n == src@.len(),
                    start <= j <= n,
                    ident_end(src@, start as int) == ident_end(src@, j as int),
                decreases n - j,
            {
                j = j + 1;
            }
            proof {
                assert(ident_end(src@, j as int) == j as int);
            }
            let t = src.substring_char(start, j);
            out.push(Token::Ident(String::from_str(t)));
            proof {
                assert(toks_of(out@) =~= pre.push(Tok::Ident(src@.subrange(start as int, j as int))));
                if spec_tokenize(src@, j as int) is Some {
                    assert(pre + (seq![Tok::Ident(src@.subrange(start as int, j as int))]
                        + spec_tokenize(src@, j as int)->Some_0) =~= toks_of(out@)
                        + spec_tokenize(src@, j as int)->Some_0);
                }
            }
            i = j;
        } else if c == '#' && i + 1 < n && src.get_char(i + 1) == '[' {
            let start = i;
            let mut j: usize = i + 2;
            let mut d: usize = 0;
            let mut closed: bool = false;
            while j < n && !closed
                invariant
                    n == src@.len(),
                    start + 2 <= j <= n,
                    closed ==> attr_end(src@, start as int + 2, 0) == Some(j as int - 1)
                        && j >= 1,
                    d as int <= j - start - 2,
                    !closed ==> attr_end(src@, start as int + 2, 0) == attr_end(
                        src@,
                        j as int,
                        d as int,
                    ),
                decreases n - j + (if closed { 0int } else { 1int }),
            {
                let cc = src.get_char(j);
                if cc == ']' {
                    if d == 0 {
                        closed = true;
                    } else {
                        d = d - 1;
                    }
                } else if cc == '[' {
                    d = d + 1;
                }
                j = j + 1;
            }
            if !closed {
                proof {
                    assert(attr_end(src@, j as int, d as int) is None);
                }
                return Err(GenError::UnterminatedAttribute);
            }
            let t = src.substring_char(start, j);
            out.push(Token::Attr(String::from_str(t)));
            proof {
                let e = j as int;
                assert(toks_of(out@) =~= pre.push(Tok::Attr(src@.subrange(start as int, e))));
                if spec_tokenize(src@, e) is Some {
                    assert(pre + (seq![Tok::Attr(src@.subrange(start as int, e))] + spec_tokenize(
                        src@,
                        e,
                    )->Some_0) =~= toks_of(out@) + spec_tokenize(src@, e)->Some_0);
                }
            }
            i = j;
        } else {
            out.push(Token::Punct(c));
            proof {
                assert(toks_of(out@) =~= pre.push(Tok::Punct(src@[i as int])));
                if spec_tokenize(src@, i as int + 1) is Some {
                    assert(pre + (seq![Tok::Punct(src@[i as int])] + spec_tokenize(
                        src@,
                        i as int + 1,
                    )->Some_0) =~= toks_of(out@) + spec_tokenize(src@, i as int + 1)->Some_0);
                }
            }
            i = i + 1;
        }
    }
    proof {
        assert(spec_tokenize(src@, n as int) == Some(Seq::<Tok>::empty()));
        assert(toks_of(out@) + Seq::<Tok>::empty() =~= toks_of(out@));
    }
    Ok(out)
}

} // verus!
