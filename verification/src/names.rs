//! Identifier derivation: the case conversions and naming rules that give
//! every generated artifact its name, and the disjointness lemmas for the
//! registry constants.

use vstd::prelude::*;
use crate::text::{
    is_digit, is_lower, is_upper, to_lower, to_upper, digit_char, lower_char, upper_char,
    lower_of, upper_of, push_char,
};
use vstd::string::{StrSliceExecFns, StringExecFns};

verus! {

/// A word boundary inside a camel-case identifier: an upper-case letter that
/// follows a lower-case letter or a digit, or that ends a run of upper-case
/// letters immediately before a lower-case letter.
pub open spec fn word_boundary(s: Seq<char>, i: int) -> bool {
    &&& 0 < i < s.len()
    &&& is_upper(s[i])
    &&& {
        ||| is_lower(s[i - 1])
        ||| is_digit(s[i - 1])
        ||| (is_upper(s[i - 1]) && i + 1 < s.len() && is_lower(s[i + 1]))
    }
}

/// The case-folded character for one position: `up` selects upper-snake
/// (registry constants) against lower-snake (the factory function name).
pub open spec fn folded(c: char, up: bool) -> char {
    if up {
        to_upper(c)
    } else {
        to_lower(c)
    }
}

/// What position `i` of `s` contributes to the snake-case form: its folded
/// character, preceded by an underscore at a word boundary.
pub open spec fn snake_chunk(s: Seq<char>, i: int, up: bool) -> Seq<char> {
    if word_boundary(s, i) {
        seq!['_', folded(s[i], up)]
    } else {
        seq![folded(s[i], up)]
    }
}

/// The snake-case form of the first `n` characters of `s`.
pub open spec fn snake_prefix(s: Seq<char>, n: int, up: bool) -> Seq<char>
    decreases n,
{
    if n <= 0 {
        Seq::empty()
    } else {
        snake_prefix(s, n - 1, up) + snake_chunk(s, n - 1, up)
    }
}

/// Upper-snake (shouty) form of an identifier, e.g. `TestService` to
/// `TEST_SERVICE`.
pub open spec fn shouty_snake_of(s: Seq<char>) -> Seq<char> {
    snake_prefix(s, s.len() as int, true)
}

/// Lower-snake form of an identifier, e.g. `TestService` to `test_service`.
pub open spec fn snake_of(s: Seq<char>) -> Seq<char> {
    snake_prefix(s, s.len() as int, false)
}

/// The registry constant derived for one method of one service:
/// upper-snake service name, `_METHOD_`, upper-snake method name.
pub open spec fn spec_registry_const(service: Seq<char>, method: Seq<char>) -> Seq<char> {
    shouty_snake_of(service) + "_METHOD_"@ + shouty_snake_of(method)
}

fn convert_case(s: &str, up: bool) -> (r: String)
    ensures
        r@ == snake_prefix(s@, s@.len() as int, up),
{
    let n = s.unicode_len();
    let mut out = String::new();
    let mut i: usize = 0;
    while i < n
        invariant
            n == s@.len(),
            i <= n,
            out@ == snake_prefix(s@, i as int, up),
        decreases n - i,
    {
        let c = s.get_char(i);
        let boundary = if i > 0 && upper_char(c) {
            let p = s.get_char(i - 1);
            if lower_char(p) || digit_char(p) {
                true
            } else if upper_char(p) && i + 1 < n {
                lower_char(s.get_char(i + 1))
            } else {
                false
            }
        } else {
            false
        };
        proof {
            assert(boundary == word_boundary(s@, i as int));
        }
        if boundary {
            push_char(&mut out, '_');
        }
        let f = if up {
            upper_of(c)
        } else {
            lower_of(c)
        };
        push_char(&mut out, f);
        proof {
            assert(out@ =~= snake_prefix(s@, i as int, up) + snake_chunk(s@, i as int, up));
        }
        i = i + 1;
    }
    out
}

/// Upper-snake form of an identifier.
pub fn shouty_snake(s: &str) -> (r: String)
    ensures
        r@ == shouty_snake_of(s@),
{
    convert_case(s, true)
}

/// Lower-snake form of an identifier.
pub fn snake(s: &str) -> (r: String)
    ensures
        r@ == snake_of(s@),
{
    convert_case(s, false)
}

/// The registry constant name for one method of one service.
pub fn registry_const_name(service: &str, method: &str) -> (r: String)
    ensures
        r@ == spec_registry_const(service@, method@),
{
    let mut out = shouty_snake(service);
    out.append("_METHOD_");
    let m = shouty_snake(method);
    out.append(m.as_str());
    out
}

/// The transport-facing counterpart of a business method: `name` + `_grpc`.
pub fn grpc_method_name(name: &str) -> (r: String)
    ensures
        r@ == name@ + "_grpc"@,
{
    let mut out = String::from_str(name);
    out.append("_grpc");
    out
}

/// The synchronous with-options client variant: `name` + `_opt`.
pub fn opt_method_name(name: &str) -> (r: String)
    ensures
        r@ == name@ + "_opt"@,
{
    let mut out = String::from_str(name);
    out.append("_opt");
    out
}

/// The asynchronous default client variant: `name` + `_async`.
pub fn async_method_name(name: &str) -> (r: String)
    ensures
        r@ == name@ + "_async"@,
{
    let mut out = String::from_str(name);
    out.append("_async");
    out
}

/// The asynchronous with-options client variant: `name` + `_async_opt`.
pub fn async_opt_method_name(name: &str) -> (r: String)
    ensures
        r@ == name@ + "_async_opt"@,
{
    let mut out = String::from_str(name);
    out.append("_async_opt");
    out
}

/// The service factory function name: `create_` + lower-snake service name.
pub fn create_fn_name(service: &str) -> (r: String)
    ensures
        r@ == "create_"@ + snake_of(service@),
{
    let mut out = String::from_str("create_");
    let s = snake(service);
    out.append(s.as_str());
    out
}

/// The client type name: service name + `Client`.
pub fn client_type_name(service: &str) -> (r: String)
    ensures
        r@ == service@ + "Client"@,
{
    let mut out = String::from_str(service);
    out.append("Client");
    out
}

/// A common prefix cancels on both sides of a sequence equality.
pub proof fn lemma_append_cancel_left(p: Seq<char>, a: Seq<char>, b: Seq<char>)
    requires
        p + a == p + b,
    ensures
        a == b,
{
    assert((p + a).len() == p.len() + a.len());
    assert((p + b).len() == p.len() + b.len());
    assert(a.len() == b.len());
    assert forall|i: int| 0 <= i < a.len() implies a[i] == b[i] by {
        assert((p + a)[p.len() + i] == a[i]);
        assert((p + b)[p.len() + i] == b[i]);
    }
    assert(a =~= b);
}

/// A common suffix cancels on both sides of a sequence equality.
pub proof fn lemma_append_cancel_right(a: Seq<char>, b: Seq<char>, t: Seq<char>)
    requires
        a + t == b + t,
    ensures
        a == b,
{
    assert((a + t).len() == a.len() + t.len());
    assert((b + t).len() == b.len() + t.len());
    assert(a.len() == b.len());
    assert forall|i: int| 0 <= i < a.len() implies a[i] == b[i] by {
        assert((a + t)[i] == a[i]);
        assert((b + t)[i] == b[i]);
    }
    assert(a =~= b);
}

/// Within one service, methods whose upper-snake forms differ get distinct
/// registry constants.  (Two method names with one upper-snake form, such as
/// `foo_bar` and `FooBar`, still collide: the parser rejects such a pair.)
pub proof fn lemma_registry_const_distinct_methods(
    service: Seq<char>,
    m1: Seq<char>,
    m2: Seq<char>,
)
    requires
        shouty_snake_of(m1) != shouty_snake_of(m2),
    ensures
        spec_registry_const(service, m1) != spec_registry_const(service, m2),
{
    if spec_registry_const(service, m1) == spec_registry_const(service, m2) {
        lemma_append_cancel_left(
            shouty_snake_of(service) + "_METHOD_"@,
            shouty_snake_of(m1),
            shouty_snake_of(m2),
        );
    }
}

/// Two services whose upper-snake forms differ give one method name distinct
/// registry constants: the service-name prefix disambiguates.  (Two service
/// names with one upper-snake form, such as `Greeter` and `GREETER`, do not.)
pub proof fn lemma_registry_const_distinct_services(
    s1: Seq<char>,
    s2: Seq<char>,
    method: Seq<char>,
)
    requires
        shouty_snake_of(s1) != shouty_snake_of(s2),
    ensures
        spec_registry_const(s1, method) != spec_registry_const(s2, method),
{
    if spec_registry_const(s1, method) == spec_registry_const(s2, method) {
        lemma_append_cancel_right(
            shouty_snake_of(s1) + "_METHOD_"@,
            shouty_snake_of(s2) + "_METHOD_"@,
            shouty_snake_of(method),
        );
        lemma_append_cancel_right(shouty_snake_of(s1), shouty_snake_of(s2), "_METHOD_"@);
    }
}

} // verus!
