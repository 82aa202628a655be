//! Text helpers shared by the code generators.

use vstd::prelude::*;
use vstd::string::*;

verus! {

/// The text of a string literal whose value is `s`, quotes and escapes
/// included.
pub uninterp spec fn string_literal(s: Seq<char>) -> Seq<char>;

/// Formats a string with std's `Debug` for `str`, which writes it as a string
/// literal: between double quotes, with escapes where the language needs
/// them. The result depends on the characters alone.
#[verifier::external_body]
pub(crate) fn quoted(s: &str) -> (r: String)
    ensures
        r@ == string_literal(s@),
{
    format!("{:?}", s)
}

/// Whether two strings hold the same characters.
pub fn str_eq(a: &str, b: &str) -> (r: bool)
    ensures
        r == (a@ == b@),
{
    a.to_owned() == b.to_owned()
}

/// The decimal digit for `d`.
pub open spec fn digit_char(d: nat) -> char {
    if d == 0 {
        '0'
    } else if d == 1 {
        '1'
    } else if d == 2 {
        '2'
    } else if d == 3 {
        '3'
    } else if d == 4 {
        '4'
    } else if d == 5 {
        '5'
    } else if d == 6 {
        '6'
    } else if d == 7 {
        '7'
    } else if d == 8 {
        '8'
    } else {
        '9'
    }
}

/// The decimal notation of `n`, without leading zeros.
pub open spec fn decimal(n: nat) -> Seq<char>
    decreases n,
{
    if n < 10 {
        seq![digit_char(n)]
    } else {
        decimal(n / 10).push(digit_char(n % 10))
    }
}

fn digit_str(d: usize) -> (r: &'static str)
    requires
        d < 10,
    ensures
        r@ == seq![digit_char(d as nat)],
{
    proof {
        reveal_strlit("0");
        reveal_strlit("1");
        reveal_strlit("2");
        reveal_strlit("3");
        reveal_strlit("4");
        reveal_strlit("5");
        reveal_strlit("6");
        reveal_strlit("7");
        reveal_strlit("8");
        reveal_strlit("9");
    }
    let r = if d == 0 {
        "0"
    } else if d == 1 {
        "1"
    } else if d == 2 {
        "2"
    } else if d == 3 {
        "3"
    } else if d == 4 {
        "4"
    } else if d == 5 {
        "5"
    } else if d == 6 {
        "6"
    } else if d == 7 {
        "7"
    } else if d == 8 {
        "8"
    } else {
        "9"
    };
    assert(r@ =~= seq![digit_char(d as nat)]);
    r
}

/// Writes `n` in decimal notation.
pub fn decimal_string(n: usize) -> (r: String)
    ensures
        r@ == decimal(n as nat),
    decreases n,
{
    if n < 10 {
        String::from_str(digit_str(n))
    } else {
        let head = decimal_string(n / 10);
        let r = head.concat(digit_str(n % 10));
        assert(r@ =~= decimal(n as nat));
        r
    }
}

/// An index of type `usize` as a literal: its decimal notation, then the
/// suffix `usize`.
pub open spec fn index_literal(n: nat) -> Seq<char> {
    decimal(n) + "usize"@
}

/// Writes an index as a literal of type `usize`.
pub fn index_string(n: usize) -> (r: String)
    ensures
        r@ == index_literal(n as nat),
{
    let mut r = decimal_string(n);
    r.append("usize");
    r
}

/// The items in order, with `sep` between each two.
pub open spec fn join_with(items: Seq<Seq<char>>, sep: Seq<char>) -> Seq<char>
    decreases items.len(),
{
    if items.len() == 0 {
        Seq::empty()
    } else if items.len() == 1 {
        items[0]
    } else {
        join_with(items.drop_last(), sep) + sep + items.last()
    }
}

/// All items one after the other.
pub open spec fn concat_all(items: Seq<Seq<char>>) -> Seq<char>
    decreases items.len(),
{
    if items.len() == 0 {
        Seq::empty()
    } else {
        concat_all(items.drop_last()) + items.last()
    }
}

/// Joins the items, with `sep` between each two.
pub fn join(items: &Vec<String>, sep: &str) -> (r: String)
    ensures
        r@ == join_with(items.deep_view(), sep@),
{
    let mut r = String::new();
    let mut i: usize = 0;
    while i < items.len()
        invariant
            i <= items.len(),
            r@ == join_with(items.deep_view().take(i as int), sep@),
        decreases items.len() - i,
    {
        let ghost before = items.deep_view().take(i as int);
        let ghost after = items.deep_view().take(i + 1);
        proof {
            assert(after.drop_last() =~= before);
            assert(after.last() == items[i as int]@);
        }
        if i > 0 {
            r.append(sep);
        }
        r.append(items[i].as_str());
        proof {
            if i == 0 {
                assert(r@ =~= items[0]@);
            }
        }
        i += 1;
    }
    proof {
        assert(items.deep_view().take(items.len() as int) =~= items.deep_view());
    }
    r
}

/// Writes all items one after the other.
pub fn concat(items: &Vec<String>) -> (r: String)
    ensures
        r@ == concat_all(items.deep_view()),
{
    let mut r = String::new();
    let mut i: usize = 0;
    while i < items.len()
        invariant
            i <= items.len(),
            r@ == concat_all(items.deep_view().take(i as int)),
        decreases items.len() - i,
    {
        proof {
            assert(items.deep_view().take(i + 1).drop_last() =~= items.deep_view().take(i as int));
            assert(items.deep_view().take(i + 1).last() == items[i as int]@);
        }
        r.append(items[i].as_str());
        i += 1;
    }
    proof {
        assert(items.deep_view().take(items.len() as int) =~= items.deep_view());
    }
    r
}

/// All items one after the other, each behind `prefix`.
pub open spec fn concat_prefixed(prefix: Seq<char>, items: Seq<Seq<char>>) -> Seq<char> {
    concat_all(Seq::new(items.len(), |i: int| prefix + items[i]))
}

/// Writes all items one after the other, each behind `prefix`.
pub fn write_prefixed(prefix: &str, items: &Vec<String>) -> (r: String)
    ensures
        r@ == concat_prefixed(prefix@, items.deep_view()),
{
    let mut parts: Vec<String> = Vec::new();
    let mut i: usize = 0;
    while i < items.len()
        invariant
            i <= items.len(),
            parts.len() == i,
            forall|j: int| 0 <= j < i ==> (#[trigger] parts[j])@ == prefix@ + items[j]@,
        decreases items.len() - i,
    {
        let mut p = String::from_str(prefix);
        p.append(items[i].as_str());
        parts.push(p);
        i += 1;
    }
    assert(parts.deep_view() =~= Seq::new(
        items.deep_view().len(),
        |i: int| prefix@ + items.deep_view()[i],
    ));
    concat(&parts)
}

/// All items one after the other, each between `prefix` and `suffix`.
pub open spec fn concat_wrapped(prefix: Seq<char>, items: Seq<Seq<char>>, suffix: Seq<char>) -> Seq<
    char,
> {
    concat_all(Seq::new(items.len(), |i: int| prefix + items[i] + suffix))
}

/// Writes all items one after the other, each between `prefix` and
/// `suffix`.
pub fn write_wrapped(prefix: &str, items: &Vec<String>, suffix: &str) -> (r: String)
    ensures
        r@ == concat_wrapped(prefix@, items.deep_view(), suffix@),
{
    let mut parts: Vec<String> = Vec::new();
    let mut i: usize = 0;
    while i < items.len()
        invariant
            i <= items.len(),
            parts.len() == i,
            forall|j: int|
                0 <= j < i ==> (#[trigger] parts[j])@ == prefix@ + items[j]@ + suffix@,
        decreases items.len() - i,
    {
        let mut p = String::from_str(prefix);
        p.append(items[i].as_str());
        p.append(suffix);
        parts.push(p);
        i += 1;
    }
    assert(parts.deep_view() =~= Seq::new(
        items.deep_view().len(),
        |i: int| prefix@ + items.deep_view()[i] + suffix@,
    ));
    concat(&parts)
}

/// The items between angle brackets, separated by commas; nothing where
/// there is no item.
pub open spec fn angle_list(items: Seq<Seq<char>>) -> Seq<char> {
    if items.len() == 0 {
        Seq::empty()
    } else {
        "<"@ + join_with(items, ", "@) + ">"@
    }
}

/// Writes the items between angle brackets.
pub fn write_angle_list(items: &Vec<String>) -> (r: String)
    ensures
        r@ == angle_list(items.deep_view()),
{
    if items.len() == 0 {
        return String::new();
    }
    let mut r = String::from_str("<");
    let list = join(items, ", ");
    r.append(list.as_str());
    r.append(">");
    r
}

/// The predicates behind `where`, separated by commas; nothing where there
/// is no predicate.
pub open spec fn where_clause(predicates: Seq<Seq<char>>) -> Seq<char> {
    if predicates.len() == 0 {
        Seq::empty()
    } else {
        " where "@ + join_with(predicates, ", "@)
    }
}

/// Writes the predicates behind `where`.
pub fn write_where_clause(predicates: &Vec<String>) -> (r: String)
    ensures
        r@ == where_clause(predicates.deep_view()),
{
    if predicates.len() == 0 {
        return String::new();
    }
    let mut r = String::from_str(" where ");
    let list = join(predicates, ", ");
    r.append(list.as_str());
    r
}

/// A copy of the strings.
pub fn copy_strings(items: &Vec<String>) -> (r: Vec<String>)
    ensures
        r.deep_view() == items.deep_view(),
{
    let mut r: Vec<String> = Vec::new();
    let mut i: usize = 0;
    while i < items.len()
        invariant
            i <= items.len(),
            r.len() == i,
            forall|j: int| 0 <= j < i ==> (#[trigger] r[j])@ == items[j]@,
        decreases items.len() - i,
    {
        r.push(items[i].clone());
        i += 1;
    }
    assert(r.deep_view() =~= items.deep_view());
    r
}

} // verus!
