//! Source locations, located identifiers and diagnostics.

use vstd::prelude::*;
use vstd::string::*;

verus! {

/// A region of the source text, as a half-open range of positions.
#[derive(Clone, Copy, Debug, PartialEq, Eq, Structural)]
pub struct Span {
    pub start: usize,
    pub end: usize,
}

/// An identifier or keyword together with its place in the source.
#[derive(Debug)]
pub struct Ident {
    pub name: String,
    pub span: Span,
}

/// The mathematical value of an [`Ident`].
pub ghost struct SpecIdent {
    pub name: Seq<char>,
    pub span: Span,
}

impl DeepView for Ident {
    type V = SpecIdent;

    open spec fn deep_view(&self) -> SpecIdent {
        SpecIdent { name: self.name@, span: self.span }
    }
}

impl View for Ident {
    type V = SpecIdent;

    open spec fn view(&self) -> SpecIdent {
        self.deep_view()
    }
}

impl Ident {
    /// An identifier with the given name at the given place.
    pub fn new(name: &str, span: Span) -> (r: Ident)
        ensures
            r@ == (SpecIdent { name: name@, span }),
    {
        Ident { name: String::from_str(name), span }
    }

    /// A copy of the identifier.
    pub fn dup(&self) -> (r: Ident)
        ensures
            r@ == self@,
    {
        Ident { name: self.name.clone(), span: self.span }
    }

    /// Whether the identifier is spelled `s`.
    pub fn is(&self, s: &str) -> (r: bool)
        ensures
            r == (self@.name == s@),
    {
        crate::text::str_eq(self.name.as_str(), s)
    }
}

/// A string literal: the string it denotes and its place in the source.
#[derive(Debug)]
pub struct LitStr {
    pub value: String,
    pub span: Span,
}

/// The mathematical value of a [`LitStr`].
pub ghost struct SpecLitStr {
    pub value: Seq<char>,
    pub span: Span,
}

impl DeepView for LitStr {
    type V = SpecLitStr;

    open spec fn deep_view(&self) -> SpecLitStr {
        SpecLitStr { value: self.value@, span: self.span }
    }
}

impl View for LitStr {
    type V = SpecLitStr;

    open spec fn view(&self) -> SpecLitStr {
        self.deep_view()
    }
}

impl LitStr {
    /// A literal that denotes `value`, at the given place.
    pub fn new(value: &str, span: Span) -> (r: LitStr)
        ensures
            r@ == (SpecLitStr { value: value@, span }),
    {
        LitStr { value: String::from_str(value), span }
    }

    /// A copy of the literal.
    pub fn dup(&self) -> (r: LitStr)
        ensures
            r@ == self@,
    {
        LitStr { value: self.value.clone(), span: self.span }
    }
}

/// A run of tokens, such as a type or an expression: its text and its place
/// in the source.
#[derive(Debug)]
pub struct Tokens {
    pub text: String,
    pub span: Span,
}

/// The mathematical value of a [`Tokens`].
pub ghost struct SpecTokens {
    pub text: Seq<char>,
    pub span: Span,
}

impl DeepView for Tokens {
    type V = SpecTokens;

    open spec fn deep_view(&self) -> SpecTokens {
        SpecTokens { text: self.text@, span: self.span }
    }
}

impl View for Tokens {
    type V = SpecTokens;

    open spec fn view(&self) -> SpecTokens {
        self.deep_view()
    }
}

impl Tokens {
    /// The given text at the given place.
    pub fn new(text: &str, span: Span) -> (r: Tokens)
        ensures
            r@ == (SpecTokens { text: text@, span }),
    {
        Tokens { text: String::from_str(text), span }
    }

    /// A copy of the tokens.
    pub fn dup(&self) -> (r: Tokens)
        ensures
            r@ == self@,
    {
        Tokens { text: self.text.clone(), span: self.span }
    }
}

/// What went wrong in a declaration.
#[derive(Debug)]
pub enum DiagnosticKind {
    /// The attribute was given twice.
    DuplicateAttribute(String),
    /// The name does not follow the name grammar.
    InvalidName(String),
    /// Two attributes of one exclusive family were given: the earlier one,
    /// then the later one.
    ConflictingFamilyMembers(String, String),
    /// The property can neither be read nor written.
    MissingAccessor,
    /// The attribute is inherited by an override property and may not be
    /// given on it.
    IllegalOnOverride(String),
    /// The attribute says what already holds of a construct-only property.
    IllegalOnConstructOnly(String),
    /// The attribute is implied by the auto-generated setter.
    RedundantWithAutoGenerated(String),
    /// A property without storage needs accessors that the type supplies
    /// under their names.
    MissingCustomAccessorForAbstractStorage,
    /// An accumulator was declared for a signal that has no handler.
    AccumulatorWithoutHandler,
    /// The signal was declared twice.
    DuplicateSignalDefinition(String),
    /// The attribute is unknown, or not allowed where it stands.
    UnexpectedAttribute(String),
    /// The attribute has a value of the wrong form, or lacks one.
    MalformedAttribute(String),
    /// `skip` was followed by further attributes.
    ExtraTokensAfterSkip,
    /// The setter that the type supplies has the name of the generated one.
    SetterNameConflict(String),
    /// The property was declared twice.
    DuplicatePropertyDefinition(String),
    /// A signal method carries an attribute that is not its own.
    UnknownSignalAttribute(String),
    /// An accumulator does not return a value.
    AccumulatorWithoutReturnType,
    /// The signal has two accumulators.
    DuplicateAccumulator(String),
    /// A required attribute is missing.
    MissingAttribute(String),
}

/// The mathematical value of a [`DiagnosticKind`].
pub ghost enum SpecDiagnosticKind {
    DuplicateAttribute(Seq<char>),
    InvalidName(Seq<char>),
    ConflictingFamilyMembers(Seq<char>, Seq<char>),
    MissingAccessor,
    IllegalOnOverride(Seq<char>),
    IllegalOnConstructOnly(Seq<char>),
    RedundantWithAutoGenerated(Seq<char>),
    MissingCustomAccessorForAbstractStorage,
    AccumulatorWithoutHandler,
    DuplicateSignalDefinition(Seq<char>),
    UnexpectedAttribute(Seq<char>),
    MalformedAttribute(Seq<char>),
    ExtraTokensAfterSkip,
    SetterNameConflict(Seq<char>),
    DuplicatePropertyDefinition(Seq<char>),
    UnknownSignalAttribute(Seq<char>),
    AccumulatorWithoutReturnType,
    DuplicateAccumulator(Seq<char>),
    MissingAttribute(Seq<char>),
}

impl DeepView for DiagnosticKind {
    type V = SpecDiagnosticKind;

    open spec fn deep_view(&self) -> SpecDiagnosticKind {
        match self {
            DiagnosticKind::DuplicateAttribute(k) => SpecDiagnosticKind::DuplicateAttribute(k@),
            DiagnosticKind::InvalidName(k) => SpecDiagnosticKind::InvalidName(k@),
            DiagnosticKind::ConflictingFamilyMembers(a, b) => {
                SpecDiagnosticKind::ConflictingFamilyMembers(a@, b@)
            },
            DiagnosticKind::MissingAccessor => SpecDiagnosticKind::MissingAccessor,
            DiagnosticKind::IllegalOnOverride(k) => SpecDiagnosticKind::IllegalOnOverride(k@),
            DiagnosticKind::IllegalOnConstructOnly(k) => {
                SpecDiagnosticKind::IllegalOnConstructOnly(k@)
            },
            DiagnosticKind::RedundantWithAutoGenerated(k) => {
                SpecDiagnosticKind::RedundantWithAutoGenerated(k@)
            },
            DiagnosticKind::MissingCustomAccessorForAbstractStorage => {
                SpecDiagnosticKind::MissingCustomAccessorForAbstractStorage
            },
            DiagnosticKind::AccumulatorWithoutHandler => {
                SpecDiagnosticKind::AccumulatorWithoutHandler
            },
            DiagnosticKind::DuplicateSignalDefinition(k) => {
                SpecDiagnosticKind::DuplicateSignalDefinition(k@)
            },
            DiagnosticKind::UnexpectedAttribute(k) => SpecDiagnosticKind::UnexpectedAttribute(k@),
            DiagnosticKind::MalformedAttribute(k) => SpecDiagnosticKind::MalformedAttribute(k@),
            DiagnosticKind::ExtraTokensAfterSkip => SpecDiagnosticKind::ExtraTokensAfterSkip,
            DiagnosticKind::SetterNameConflict(k) => SpecDiagnosticKind::SetterNameConflict(k@),
            DiagnosticKind::DuplicatePropertyDefinition(k) => {
                SpecDiagnosticKind::DuplicatePropertyDefinition(k@)
            },
            DiagnosticKind::UnknownSignalAttribute(k) => {
                SpecDiagnosticKind::UnknownSignalAttribute(k@)
            },
            DiagnosticKind::AccumulatorWithoutReturnType => {
                SpecDiagnosticKind::AccumulatorWithoutReturnType
            },
            DiagnosticKind::DuplicateAccumulator(k) => SpecDiagnosticKind::DuplicateAccumulator(k@),
            DiagnosticKind::MissingAttribute(k) => SpecDiagnosticKind::MissingAttribute(k@),
        }
    }
}

impl View for DiagnosticKind {
    type V = SpecDiagnosticKind;

    open spec fn view(&self) -> SpecDiagnosticKind {
        self.deep_view()
    }
}

/// A message around one quoted word.
pub open spec fn around(before: Seq<char>, word: Seq<char>, after: Seq<char>) -> Seq<char> {
    before + word + after
}

fn write_around(before: &str, word: &str, after: &str) -> (r: String)
    ensures
        r@ == around(before@, word@, after@),
{
    let mut r = String::from_str(before);
    r.append(word);
    r.append(after);
    r
}

impl SpecDiagnosticKind {
    /// The message for a reader.
    pub open spec fn message(self) -> Seq<char> {
        match self {
            SpecDiagnosticKind::DuplicateAttribute(k) => around("Duplicate `"@, k, "` attribute"@),
            SpecDiagnosticKind::InvalidName(n) => around(
                "Invalid name '"@,
                n,
                "'. Names must start with an ASCII letter and only contain ASCII letters, numbers, '-' or '_'"@,
            ),
            SpecDiagnosticKind::ConflictingFamilyMembers(a, b) => around("Only one of `"@, a, "`, `"@)
                + b + "` is allowed"@,
            SpecDiagnosticKind::MissingAccessor => "Property must have at least one of `get` and `set`"@,
            SpecDiagnosticKind::IllegalOnOverride(k) => around(
                "`"@,
                k,
                "` not allowed on override property"@,
            ),
            SpecDiagnosticKind::IllegalOnConstructOnly(k) => around(
                "`!"@,
                k,
                "` is unnecessary when using `construct_only`"@,
            ),
            SpecDiagnosticKind::RedundantWithAutoGenerated(k) => around(
                "`"@,
                k,
                "` unnecessary when the setter is auto-generated"@,
            ),
            SpecDiagnosticKind::MissingCustomAccessorForAbstractStorage => "custom accessor required for property without storage"@,
            SpecDiagnosticKind::AccumulatorWithoutHandler => "No definition for the signal of this accumulator"@,
            SpecDiagnosticKind::DuplicateSignalDefinition(n) => around(
                "Duplicate definition for signal `"@,
                n,
                "`"@,
            ),
            SpecDiagnosticKind::UnexpectedAttribute(k) => around("Unexpected `"@, k, "`"@),
            SpecDiagnosticKind::MalformedAttribute(k) => around(
                "Malformed `"@,
                k,
                "` attribute"@,
            ),
            SpecDiagnosticKind::ExtraTokensAfterSkip => "Extra token(s) after `skip`"@,
            SpecDiagnosticKind::SetterNameConflict(n) => around(
                "custom setter name `"@,
                n,
                "` conflicts with trait method"@,
            ),
            SpecDiagnosticKind::DuplicatePropertyDefinition(n) => around(
                "Duplicate definition for property `"@,
                n,
                "`"@,
            ),
            SpecDiagnosticKind::UnknownSignalAttribute(k) => around(
                "Unknown attribute `"@,
                k,
                "` on signal"@,
            ),
            SpecDiagnosticKind::AccumulatorWithoutReturnType => "accumulator must have return type"@,
            SpecDiagnosticKind::DuplicateAccumulator(n) => around(
                "Duplicate definition for accumulator on signal definition `"@,
                n,
                "`"@,
            ),
            SpecDiagnosticKind::MissingAttribute(k) => around("`"@, k, "` attribute required"@),
        }
    }
}

impl DiagnosticKind {
    /// Writes the message for a reader.
    pub fn message(&self) -> (r: String)
        ensures
            r@ == self@.message(),
    {
        match self {
            DiagnosticKind::DuplicateAttribute(k) => write_around(
                "Duplicate `",
                k.as_str(),
                "` attribute",
            ),
            DiagnosticKind::InvalidName(n) => write_around(
                "Invalid name '",
                n.as_str(),
                "'. Names must start with an ASCII letter and only contain ASCII letters, numbers, '-' or '_'",
            ),
            DiagnosticKind::ConflictingFamilyMembers(a, b) => {
                let mut r = write_around("Only one of `", a.as_str(), "`, `");
                r.append(b.as_str());
                r.append("` is allowed");
                r
            },
            DiagnosticKind::MissingAccessor => String::from_str(
                "Property must have at least one of `get` and `set`",
            ),
            DiagnosticKind::IllegalOnOverride(k) => write_around(
                "`",
                k.as_str(),
                "` not allowed on override property",
            ),
            DiagnosticKind::IllegalOnConstructOnly(k) => write_around(
                "`!",
                k.as_str(),
                "` is unnecessary when using `construct_only`",
            ),
            DiagnosticKind::RedundantWithAutoGenerated(k) => write_around(
                "`",
                k.as_str(),
                "` unnecessary when the setter is auto-generated",
            ),
            DiagnosticKind::MissingCustomAccessorForAbstractStorage => String::from_str(
                "custom accessor required for property without storage",
            ),
            DiagnosticKind::AccumulatorWithoutHandler => String::from_str(
                "No definition for the signal of this accumulator",
            ),
            DiagnosticKind::DuplicateSignalDefinition(n) => write_around(
                "Duplicate definition for signal `",
                n.as_str(),
                "`",
            ),
            DiagnosticKind::UnexpectedAttribute(k) => write_around("Unexpected `", k.as_str(), "`"),
            DiagnosticKind::MalformedAttribute(k) => write_around(
                "Malformed `",
                k.as_str(),
                "` attribute",
            ),
            DiagnosticKind::ExtraTokensAfterSkip => String::from_str("Extra token(s) after `skip`"),
            DiagnosticKind::SetterNameConflict(n) => write_around(
                "custom setter name `",
                n.as_str(),
                "` conflicts with trait method",
            ),
            DiagnosticKind::DuplicatePropertyDefinition(n) => write_around(
                "Duplicate definition for property `",
                n.as_str(),
                "`",
            ),
            DiagnosticKind::UnknownSignalAttribute(k) => write_around(
                "Unknown attribute `",
                k.as_str(),
                "` on signal",
            ),
            DiagnosticKind::AccumulatorWithoutReturnType => String::from_str(
                "accumulator must have return type",
            ),
            DiagnosticKind::DuplicateAccumulator(n) => write_around(
                "Duplicate definition for accumulator on signal definition `",
                n.as_str(),
                "`",
            ),
            DiagnosticKind::MissingAttribute(k) => write_around(
                "`",
                k.as_str(),
                "` attribute required",
            ),
        }
    }
}

/// A failure of one declaration: what went wrong, and where.
#[derive(Debug)]
pub struct Diagnostic {
    pub kind: DiagnosticKind,
    pub span: Span,
}

/// The mathematical value of a [`Diagnostic`].
pub ghost struct SpecDiagnostic {
    pub kind: SpecDiagnosticKind,
    pub span: Span,
}

impl Diagnostic {
    /// Writes the message for a reader.
    pub fn message(&self) -> (r: String)
        ensures
            r@ == self@.kind.message(),
    {
        self.kind.message()
    }

    /// A diagnostic of the given kind at the given place.
    pub fn new(kind: DiagnosticKind, span: Span) -> (r: Diagnostic)
        ensures
            r@ == (SpecDiagnostic { kind: kind@, span }),
    {
        Diagnostic { kind, span }
    }
}

impl DeepView for Diagnostic {
    type V = SpecDiagnostic;

    open spec fn deep_view(&self) -> SpecDiagnostic {
        SpecDiagnostic { kind: self.kind@, span: self.span }
    }
}

impl View for Diagnostic {
    type V = SpecDiagnostic;

    open spec fn view(&self) -> SpecDiagnostic {
        self.deep_view()
    }
}

} // verus!
