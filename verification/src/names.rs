//! Property and signal names: the name grammar and the derived method names.

use vstd::prelude::*;
use vstd::string::*;

verus! {

/// Whether `c` may start a name: an ASCII letter.
pub open spec fn is_name_start(c: char) -> bool {
    ('a' <= c && c <= 'z') || ('A' <= c && c <= 'Z')
}

/// Whether `c` may follow the first character of a name: an ASCII letter or
/// digit, `-` or `_`.
pub open spec fn is_name_continue(c: char) -> bool {
    is_name_start(c) || ('0' <= c && c <= '9') || c == '-' || c == '_'
}

/// The name grammar: a non-empty string that starts with an ASCII letter and
/// goes on with ASCII letters, digits, `-` and `_`.
pub open spec fn valid_name(s: Seq<char>) -> bool {
    &&& s.len() > 0
    &&& is_name_start(s[0])
    &&& forall|i: int| 0 < i < s.len() ==> is_name_continue(#[trigger] s[i])
}

fn name_start(c: char) -> (r: bool)
    ensures
        r == is_name_start(c),
{
    ('a' <= c && c <= 'z') || ('A' <= c && c <= 'Z')
}

fn name_continue(c: char) -> (r: bool)
    ensures
        r == is_name_continue(c),
{
    name_start(c) || ('0' <= c && c <= '9') || c == '-' || c == '_'
}

/// Tests a property or signal name against the name grammar.
pub fn is_valid_name(name: &str) -> (r: bool)
    ensures
        r == valid_name(name@),
{
    let n: usize = name.unicode_len();
    if n == 0 {
        return false;
    }
    if !name_start(name.get_char(0)) {
        return false;
    }
    let mut i: usize = 1;
    while i < n
        invariant
            1 <= i <= n,
            n == name@.len(),
            is_name_start(name@[0]),
            forall|j: int| 0 < j < i ==> is_name_continue(#[trigger] name@[j]),
        decreases n - i,
    {
        if !name_continue(name.get_char(i)) {
            return false;
        }
        i += 1;
    }
    true
}

/// The kebab-case form of `s`: its words in lower case, joined by `-`.
pub uninterp spec fn kebab_case(s: Seq<char>) -> Seq<char>;

/// The snake-case form of `s`: its words in lower case, joined by `_`.
pub uninterp spec fn snake_case(s: Seq<char>) -> Seq<char>;

/// Calls heck's `ToKebabCase::to_kebab_case` for `str`, which splits the
/// string into words, lowers their case and joins them with `-`. The result
/// depends on the characters alone.
#[verifier::external_body]
pub(crate) fn to_kebab_case(s: &str) -> (r: String)
    ensures
        r@ == kebab_case(s@),
{
    heck::ToKebabCase::to_kebab_case(s)
}

/// Calls heck's `ToSnakeCase::to_snake_case` for `str`, which splits the
/// string into words, lowers their case and joins them with `_`. The result
/// depends on the characters alone.
#[verifier::external_body]
pub(crate) fn to_snake_case(s: &str) -> (r: String)
    ensures
        r@ == snake_case(s@),
{
    heck::ToSnakeCase::to_snake_case(s)
}

/// The name of a method that belongs to a property or signal: the
/// snake-case form of the name between a prefix and a suffix.
pub open spec fn method_name_text(prefix: Seq<char>, name: Seq<char>, suffix: Seq<char>) -> Seq<
    char,
> {
    prefix + snake_case(name) + suffix
}

/// Derives the name of a method that belongs to a property or signal.
pub fn method_name(prefix: &str, name: &str, suffix: &str) -> (r: String)
    ensures
        r@ == method_name_text(prefix@, name@, suffix@),
{
    let mut r = String::from_str(prefix);
    let snake = to_snake_case(name);
    r.append(snake.as_str());
    r.append(suffix);
    r
}

} // verus!
