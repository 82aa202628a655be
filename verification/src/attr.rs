//! The attribute list of a declaration, as the builders read it: an ordered
//! list of keywords, each with an optional value.

use vstd::prelude::*;
use vstd::string::*;
use crate::diag::{Ident, Span, SpecIdent};
use crate::text::{quoted, string_literal};

verus! {

/// A literal value.
#[derive(Debug)]
pub enum Literal {
    /// A string literal, by the string it denotes.
    Str(String),
    /// Any other literal, by its text.
    Other(String),
}

/// The mathematical value of a [`Literal`].
pub ghost enum SpecLiteral {
    Str(Seq<char>),
    Other(Seq<char>),
}

impl SpecLiteral {
    /// The literal as it is written in generated code.
    pub open spec fn text(self) -> Seq<char> {
        match self {
            SpecLiteral::Str(s) => string_literal(s),
            SpecLiteral::Other(t) => t,
        }
    }
}

impl DeepView for Literal {
    type V = SpecLiteral;

    open spec fn deep_view(&self) -> SpecLiteral {
        match self {
            Literal::Str(s) => SpecLiteral::Str(s@),
            Literal::Other(t) => SpecLiteral::Other(t@),
        }
    }
}

impl View for Literal {
    type V = SpecLiteral;

    open spec fn view(&self) -> SpecLiteral {
        self.deep_view()
    }
}

impl Literal {
    /// Writes the literal as it stands in generated code.
    pub fn text(&self) -> (r: String)
        ensures
            r@ == self@.text(),
    {
        match self {
            Literal::Str(s) => quoted(s.as_str()),
            Literal::Other(t) => t.clone(),
        }
    }
}

/// One `key = literal` pair of a nested list.
#[derive(Debug)]
pub struct AttrPair {
    pub key: Ident,
    pub value: Literal,
}

/// The mathematical value of an [`AttrPair`].
pub ghost struct SpecAttrPair {
    pub key: SpecIdent,
    pub value: SpecLiteral,
}

impl DeepView for AttrPair {
    type V = SpecAttrPair;

    open spec fn deep_view(&self) -> SpecAttrPair {
        SpecAttrPair { key: self.key@, value: self.value@ }
    }
}

impl View for AttrPair {
    type V = SpecAttrPair;

    open spec fn view(&self) -> SpecAttrPair {
        self.deep_view()
    }
}

/// What follows a keyword.
#[derive(Debug)]
pub enum AttrValue {
    /// Nothing: the bare keyword.
    Bare,
    /// `= ()`.
    Unit,
    /// `=` and a single identifier, which may be `_`.
    Ident(Ident),
    /// `=` and a literal.
    Lit(Literal),
    /// `=` and any other type or expression, by its text.
    Tokens(String),
    /// A parenthesized list of `key = literal` pairs.
    List(Vec<AttrPair>),
}

/// The mathematical value of an [`AttrValue`].
pub ghost enum SpecAttrValue {
    Bare,
    Unit,
    Ident(SpecIdent),
    Lit(SpecLiteral),
    Tokens(Seq<char>),
    List(Seq<SpecAttrPair>),
}

impl DeepView for AttrValue {
    type V = SpecAttrValue;

    open spec fn deep_view(&self) -> SpecAttrValue {
        match self {
            AttrValue::Bare => SpecAttrValue::Bare,
            AttrValue::Unit => SpecAttrValue::Unit,
            AttrValue::Ident(i) => SpecAttrValue::Ident(i@),
            AttrValue::Lit(l) => SpecAttrValue::Lit(l@),
            AttrValue::Tokens(t) => SpecAttrValue::Tokens(t@),
            AttrValue::List(l) => SpecAttrValue::List(l.deep_view()),
        }
    }
}

impl View for AttrValue {
    type V = SpecAttrValue;

    open spec fn view(&self) -> SpecAttrValue {
        self.deep_view()
    }
}

impl SpecAttrValue {
    /// The string that the value denotes, where it is a string literal.
    pub open spec fn as_str(self) -> Option<Seq<char>> {
        match self {
            SpecAttrValue::Lit(SpecLiteral::Str(s)) => Some(s),
            _ => None,
        }
    }

    /// The text of the value, where it is a type: an identifier or other
    /// tokens.
    pub open spec fn as_type(self) -> Option<Seq<char>> {
        match self {
            SpecAttrValue::Ident(i) => Some(i.name),
            SpecAttrValue::Tokens(t) => Some(t),
            _ => None,
        }
    }

    /// The text of the value, where it is an expression: an identifier, a
    /// literal or other tokens.
    pub open spec fn as_expr(self) -> Option<Seq<char>> {
        match self {
            SpecAttrValue::Ident(i) => Some(i.name),
            SpecAttrValue::Lit(l) => Some(l.text()),
            SpecAttrValue::Tokens(t) => Some(t),
            _ => None,
        }
    }
}

impl AttrValue {
    /// The string that the value denotes, where it is a string literal.
    pub fn as_str(&self) -> (r: Option<String>)
        ensures
            r.deep_view() == self@.as_str(),
    {
        match self {
            AttrValue::Lit(Literal::Str(s)) => Some(s.clone()),
            _ => None,
        }
    }

    /// The text of the value, where it is a type.
    pub fn as_type(&self) -> (r: Option<String>)
        ensures
            r.deep_view() == self@.as_type(),
    {
        match self {
            AttrValue::Ident(i) => Some(i.name.clone()),
            AttrValue::Tokens(t) => Some(t.clone()),
            _ => None,
        }
    }

    /// The text of the value, where it is an expression.
    pub fn as_expr(&self) -> (r: Option<String>)
        ensures
            r.deep_view() == self@.as_expr(),
    {
        match self {
            AttrValue::Ident(i) => Some(i.name.clone()),
            AttrValue::Lit(l) => Some(l.text()),
            AttrValue::Tokens(t) => Some(t.clone()),
            _ => None,
        }
    }

    /// Whether the keyword stands alone.
    pub fn is_bare(&self) -> (r: bool)
        ensures
            r == (self@ is Bare),
    {
        match self {
            AttrValue::Bare => true,
            _ => false,
        }
    }
}

/// One entry of an attribute list: a keyword, whether `!` stands before it,
/// and what follows it.
#[derive(Debug)]
pub struct AttrEntry {
    pub negated: bool,
    pub key: Ident,
    pub value: AttrValue,
    /// Where the value stands; the keyword's place where there is none.
    pub value_span: Span,
}

/// The mathematical value of an [`AttrEntry`].
pub ghost struct SpecAttrEntry {
    pub negated: bool,
    pub key: SpecIdent,
    pub value: SpecAttrValue,
    pub value_span: Span,
}

impl DeepView for AttrEntry {
    type V = SpecAttrEntry;

    open spec fn deep_view(&self) -> SpecAttrEntry {
        SpecAttrEntry {
            negated: self.negated,
            key: self.key@,
            value: self.value@,
            value_span: self.value_span,
        }
    }
}

impl View for AttrEntry {
    type V = SpecAttrEntry;

    open spec fn view(&self) -> SpecAttrEntry {
        self.deep_view()
    }
}

/// An attribute on a declaration: its name and, where it has one, its
/// parenthesized list.
#[derive(Debug)]
pub struct Attribute {
    pub path: Ident,
    pub args: Option<Vec<AttrEntry>>,
}

/// The mathematical value of an [`Attribute`].
pub ghost struct SpecAttribute {
    pub path: SpecIdent,
    pub args: Option<Seq<SpecAttrEntry>>,
}

impl DeepView for Attribute {
    type V = SpecAttribute;

    open spec fn deep_view(&self) -> SpecAttribute {
        SpecAttribute { path: self.path@, args: self.args.deep_view() }
    }
}

impl View for Attribute {
    type V = SpecAttribute;

    open spec fn view(&self) -> SpecAttribute {
        self.deep_view()
    }
}

/// The position of the first attribute that is named `a` or `b`.
pub open spec fn first_attr(attrs: Seq<SpecAttribute>, a: Seq<char>, b: Seq<char>) -> Option<int>
    decreases attrs.len(),
{
    if attrs.len() == 0 {
        None
    } else {
        match first_attr(attrs.drop_last(), a, b) {
            Some(i) => Some(i),
            None => if attrs.last().path.name == a || attrs.last().path.name == b {
                Some(attrs.len() - 1)
            } else {
                None
            },
        }
    }
}

/// An attribute that is found in a prefix of the list is the first of the
/// whole list.
pub proof fn lemma_first_attr_prefix(attrs: Seq<SpecAttribute>, a: Seq<char>, b: Seq<char>, n: int)
    requires
        0 <= n <= attrs.len(),
        first_attr(attrs.take(n), a, b) is Some,
    ensures
        first_attr(attrs, a, b) == first_attr(attrs.take(n), a, b),
    decreases attrs.len() - n,
{
    if n < attrs.len() {
        assert(attrs.take(n + 1).drop_last() =~= attrs.take(n));
        lemma_first_attr_prefix(attrs, a, b, n + 1);
    } else {
        assert(attrs.take(n) =~= attrs);
    }
}

/// Finds the first attribute that is named `a` or `b`.
pub fn find_attr(attrs: &Vec<Attribute>, a: &str, b: &str) -> (r: Option<usize>)
    ensures
        match r {
            Some(i) => first_attr(attrs.deep_view(), a@, b@) == Some(i as int) && i < attrs.len(),
            None => first_attr(attrs.deep_view(), a@, b@) is None,
        },
{
    let mut i: usize = 0;
    assert(attrs.deep_view().take(0) =~= Seq::empty());
    while i < attrs.len()
        invariant
            i <= attrs.len(),
            first_attr(attrs.deep_view().take(i as int), a@, b@) is None,
        decreases attrs.len() - i,
    {
        proof {
            assert(attrs.deep_view().take(i + 1).drop_last() =~= attrs.deep_view().take(i as int));
            assert(attrs.deep_view().take(i + 1).last() == attrs[i as int]@);
        }
        if attrs[i].path.is(a) || attrs[i].path.is(b) {
            proof {
                assert(first_attr(attrs.deep_view().take(i + 1), a@, b@) == Some(i as int));
                lemma_first_attr_prefix(attrs.deep_view(), a@, b@, i + 1);
            }
            return Some(i);
        }
        i += 1;
    }
    assert(attrs.deep_view().take(attrs.len() as int) =~= attrs.deep_view());
    None
}

/// The entries of an attribute; none where it has no list.
pub open spec fn entries_of(attr: SpecAttribute) -> Seq<SpecAttrEntry> {
    match attr.args {
        Some(entries) => entries,
        None => Seq::empty(),
    }
}

} // verus!
