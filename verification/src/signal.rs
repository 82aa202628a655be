//! The signal descriptor: what a handler method, and the accumulator that
//! goes with it, say of a signal.

use vstd::prelude::*;
use vstd::string::*;
use crate::attr::{AttrEntry, Attribute, SpecAttrEntry, SpecAttribute};
use crate::diag::{
    Diagnostic, DiagnosticKind, Ident, Span, SpecDiagnostic, SpecDiagnosticKind, SpecIdent,
};
use crate::flags::SignalFlags;
use crate::property::{Field, SpecField};

verus! {

/// What the attribute list of a signal's handler says.
#[derive(Debug)]
pub struct SignalAttrs {
    pub flags: SignalFlags,
    /// Whether a method that emits the signal is generated.
    pub emit: bool,
    /// Whether a method that connects to the signal is generated.
    pub connect: bool,
    /// The signal's name, where the list gives one.
    pub name: Option<String>,
}

/// The mathematical value of a [`SignalAttrs`].
pub ghost struct SpecSignalAttrs {
    pub flags: SignalFlags,
    pub emit: bool,
    pub connect: bool,
    pub name: Option<Seq<char>>,
}

impl DeepView for SignalAttrs {
    type V = SpecSignalAttrs;

    open spec fn deep_view(&self) -> SpecSignalAttrs {
        SpecSignalAttrs {
            flags: self.flags,
            emit: self.emit,
            connect: self.connect,
            name: self.name.deep_view(),
        }
    }
}

impl View for SignalAttrs {
    type V = SpecSignalAttrs;

    open spec fn view(&self) -> SpecSignalAttrs {
        self.deep_view()
    }
}

/// The outcome of reading a handler's attribute list.
pub type SpecSignalAttrsResult = Result<SpecSignalAttrs, SpecDiagnostic>;

/// The mathematical value of an outcome.
pub open spec fn signal_attrs_view(r: Result<SignalAttrs, Diagnostic>) -> SpecSignalAttrsResult {
    match r {
        Ok(a) => Ok(a@),
        Err(d) => Err(d@),
    }
}

impl SpecSignalAttrs {
    /// What holds of a signal whose handler has no attribute list: no flag,
    /// no name of its own, and both methods generated.
    pub open spec fn new() -> SpecSignalAttrs {
        SpecSignalAttrs { flags: SignalFlags { bits: 0 }, emit: true, connect: true, name: None }
    }

    /// The failure of the given kind at the entry's keyword.
    pub open spec fn fail(kind: SpecDiagnosticKind, e: SpecAttrEntry) -> SpecSignalAttrsResult {
        Err(SpecDiagnostic { kind, span: e.key.span })
    }

    /// One entry applied: `name` with a string, `!emit` and `!connect`,
    /// which take a generated method back, or a flag. Each may be given
    /// once.
    pub open spec fn apply(self, e: SpecAttrEntry) -> SpecSignalAttrsResult {
        let k = e.key.name;
        if e.negated {
            if k == "emit"@ {
                if !self.emit {
                    Self::fail(SpecDiagnosticKind::DuplicateAttribute(k), e)
                } else if !(e.value is Bare) {
                    Self::fail(SpecDiagnosticKind::MalformedAttribute(k), e)
                } else {
                    Ok(SpecSignalAttrs { emit: false, ..self })
                }
            } else if k == "connect"@ {
                if !self.connect {
                    Self::fail(SpecDiagnosticKind::DuplicateAttribute(k), e)
                } else if !(e.value is Bare) {
                    Self::fail(SpecDiagnosticKind::MalformedAttribute(k), e)
                } else {
                    Ok(SpecSignalAttrs { connect: false, ..self })
                }
            } else {
                Self::fail(SpecDiagnosticKind::UnexpectedAttribute(k), e)
            }
        } else if k == "name"@ {
            if self.name is Some {
                Self::fail(SpecDiagnosticKind::DuplicateAttribute(k), e)
            } else {
                match e.value.as_str() {
                    Some(s) => Ok(SpecSignalAttrs { name: Some(s), ..self }),
                    None => Self::fail(SpecDiagnosticKind::MalformedAttribute(k), e),
                }
            }
        } else {
            match SignalFlags::keyword_bits(k) {
                Some(flag) => if self.flags.has(flag) {
                    Self::fail(SpecDiagnosticKind::DuplicateAttribute(k), e)
                } else if !(e.value is Bare) {
                    Self::fail(SpecDiagnosticKind::MalformedAttribute(k), e)
                } else {
                    Ok(SpecSignalAttrs { flags: SignalFlags { bits: self.flags.bits | flag }, ..self })
                },
                None => Self::fail(SpecDiagnosticKind::UnexpectedAttribute(k), e),
            }
        }
    }

    /// The entries applied from left to right; the first failure ends it.
    pub open spec fn apply_all(self, entries: Seq<SpecAttrEntry>) -> SpecSignalAttrsResult
        decreases entries.len(),
    {
        if entries.len() == 0 {
            Ok(self)
        } else {
            match self.apply_all(entries.drop_last()) {
                Err(d) => Err(d),
                Ok(a) => a.apply(entries.last()),
            }
        }
    }

    /// What a handler's attribute list says.
    pub open spec fn parse(args: Option<Seq<SpecAttrEntry>>) -> SpecSignalAttrsResult {
        match args {
            None => Ok(Self::new()),
            Some(entries) => Self::new().apply_all(entries),
        }
    }

    /// Once a prefix of the entries fails, the whole list fails in the same
    /// way.
    pub proof fn lemma_apply_all_fails(self, entries: Seq<SpecAttrEntry>, n: int)
        requires
            0 <= n <= entries.len(),
            self.apply_all(entries.take(n)) is Err,
        ensures
            self.apply_all(entries) == self.apply_all(entries.take(n)),
        decreases entries.len() - n,
    {
        if n < entries.len() {
            assert(entries.take(n + 1).drop_last() =~= entries.take(n));
            self.lemma_apply_all_fails(entries, n + 1);
        } else {
            assert(entries.take(n) =~= entries);
        }
    }
}

fn attr_error(kind: DiagnosticKind, entry: &AttrEntry) -> (r: Diagnostic)
    ensures
        r@ == (SpecDiagnostic { kind: kind@, span: entry@.key.span }),
{
    Diagnostic::new(kind, entry.key.span)
}

impl SignalAttrs {
    /// What holds of a signal whose handler has no attribute list.
    pub fn new() -> (r: SignalAttrs)
        ensures
            r@ == SpecSignalAttrs::new(),
    {
        SignalAttrs { flags: SignalFlags::empty(), emit: true, connect: true, name: None }
    }

    /// Applies one entry of the attribute list.
    pub fn apply(self, entry: &AttrEntry) -> (r: Result<SignalAttrs, Diagnostic>)
        ensures
            signal_attrs_view(r) == self@.apply(entry@),
    {
        let mut attrs = self;
        let key = &entry.key;
        let bare = entry.value.is_bare();
        if entry.negated {
            if key.is("emit") {
                if !attrs.emit {
                    Err(attr_error(DiagnosticKind::DuplicateAttribute(key.name.clone()), entry))
                } else if !bare {
                    Err(attr_error(DiagnosticKind::MalformedAttribute(key.name.clone()), entry))
                } else {
                    attrs.emit = false;
                    Ok(attrs)
                }
            } else if key.is("connect") {
                if !attrs.connect {
                    Err(attr_error(DiagnosticKind::DuplicateAttribute(key.name.clone()), entry))
                } else if !bare {
                    Err(attr_error(DiagnosticKind::MalformedAttribute(key.name.clone()), entry))
                } else {
                    attrs.connect = false;
                    Ok(attrs)
                }
            } else {
                Err(attr_error(DiagnosticKind::UnexpectedAttribute(key.name.clone()), entry))
            }
        } else if key.is("name") {
            if attrs.name.is_some() {
                Err(attr_error(DiagnosticKind::DuplicateAttribute(key.name.clone()), entry))
            } else {
                match entry.value.as_str() {
                    Some(s) => {
                        attrs.name = Some(s);
                        Ok(attrs)
                    },
                    None => Err(
                        attr_error(DiagnosticKind::MalformedAttribute(key.name.clone()), entry),
                    ),
                }
            }
        } else {
            match SignalFlags::from_ident(key.name.as_str()) {
                Some(flag) => if attrs.flags.contains(flag) {
                    Err(attr_error(DiagnosticKind::DuplicateAttribute(key.name.clone()), entry))
                } else if !bare {
                    Err(attr_error(DiagnosticKind::MalformedAttribute(key.name.clone()), entry))
                } else {
                    attrs.flags.insert(flag);
                    Ok(attrs)
                },
                None => Err(
                    attr_error(DiagnosticKind::UnexpectedAttribute(key.name.clone()), entry),
                ),
            }
        }
    }

    /// Reads the attribute list of a signal's handler.
    pub fn parse(args: &Option<Vec<AttrEntry>>) -> (r: Result<SignalAttrs, Diagnostic>)
        ensures
            signal_attrs_view(r) == SpecSignalAttrs::parse(args.deep_view()),
    {
        let mut attrs = SignalAttrs::new();
        let entries = match args {
            None => {
                return Ok(attrs);
            },
            Some(entries) => entries,
        };
        let mut i: usize = 0;
        assert(entries.deep_view().take(0) =~= Seq::empty());
        while i < entries.len()
            invariant
                i <= entries.len(),
                args.deep_view() == Some(entries.deep_view()),
                SpecSignalAttrs::new().apply_all(entries.deep_view().take(i as int)) == Ok::<
                    SpecSignalAttrs,
                    SpecDiagnostic,
                >(attrs@),
            decreases entries.len() - i,
        {
            proof {
                assert(entries.deep_view().take(i + 1).drop_last() =~= entries.deep_view().take(
                    i as int,
                ));
                assert(entries.deep_view().take(i + 1).last() == entries[i as int]@);
            }
            let ghost before = attrs@;
            match attrs.apply(&entries[i]) {
                Err(d) => {
                    proof {
                        assert(SpecSignalAttrs::new().apply_all(entries.deep_view().take(i + 1))
                            == before.apply(entries[i as int]@));
                        SpecSignalAttrs::new().lemma_apply_all_fails(entries.deep_view(), i + 1);
                    }
                    return Err(d);
                },
                Ok(next) => {
                    attrs = next;
                },
            }
            i += 1;
        }
        assert(entries.deep_view().take(entries.len() as int) =~= entries.deep_view());
        Ok(attrs)
    }
}

/// What the attribute list of an accumulator says, where accumulators are
/// paired with their signal by name.
#[derive(Debug)]
pub struct SignalAccumulatorAttrs {
    /// The name of the signal that the accumulator belongs to.
    pub name: Option<String>,
}

/// The mathematical value of a [`SignalAccumulatorAttrs`].
pub ghost struct SpecSignalAccumulatorAttrs {
    pub name: Option<Seq<char>>,
}

impl DeepView for SignalAccumulatorAttrs {
    type V = SpecSignalAccumulatorAttrs;

    open spec fn deep_view(&self) -> SpecSignalAccumulatorAttrs {
        SpecSignalAccumulatorAttrs { name: self.name.deep_view() }
    }
}

impl View for SignalAccumulatorAttrs {
    type V = SpecSignalAccumulatorAttrs;

    open spec fn view(&self) -> SpecSignalAccumulatorAttrs {
        self.deep_view()
    }
}

/// The outcome of reading an accumulator's attribute list.
pub type SpecAccumulatorAttrsResult = Result<SpecSignalAccumulatorAttrs, SpecDiagnostic>;

/// The mathematical value of an outcome.
pub open spec fn accumulator_attrs_view(
    r: Result<SignalAccumulatorAttrs, Diagnostic>,
) -> SpecAccumulatorAttrsResult {
    match r {
        Ok(a) => Ok(a@),
        Err(d) => Err(d@),
    }
}

impl SpecSignalAccumulatorAttrs {
    /// One entry applied: only `name` with a string is known, and only
    /// once.
    pub open spec fn apply(self, e: SpecAttrEntry) -> SpecAccumulatorAttrsResult {
        let k = e.key.name;
        let kind = if e.negated || k != "name"@ {
            Some(SpecDiagnosticKind::UnexpectedAttribute(k))
        } else if self.name is Some {
            Some(SpecDiagnosticKind::DuplicateAttribute(k))
        } else if e.value.as_str() is None {
            Some(SpecDiagnosticKind::MalformedAttribute(k))
        } else {
            None
        };
        match kind {
            Some(kind) => Err(SpecDiagnostic { kind, span: e.key.span }),
            None => Ok(SpecSignalAccumulatorAttrs { name: e.value.as_str() }),
        }
    }

    /// The entries applied from left to right; the first failure ends it.
    pub open spec fn apply_all(self, entries: Seq<SpecAttrEntry>) -> SpecAccumulatorAttrsResult
        decreases entries.len(),
    {
        if entries.len() == 0 {
            Ok(self)
        } else {
            match self.apply_all(entries.drop_last()) {
                Err(d) => Err(d),
                Ok(a) => a.apply(entries.last()),
            }
        }
    }

    /// Once a prefix of the entries fails, the whole list fails in the same
    /// way.
    pub proof fn lemma_apply_all_fails(self, entries: Seq<SpecAttrEntry>, n: int)
        requires
            0 <= n <= entries.len(),
            self.apply_all(entries.take(n)) is Err,
        ensures
            self.apply_all(entries) == self.apply_all(entries.take(n)),
        decreases entries.len() - n,
    {
        if n < entries.len() {
            assert(entries.take(n + 1).drop_last() =~= entries.take(n));
            self.lemma_apply_all_fails(entries, n + 1);
        } else {
            assert(entries.take(n) =~= entries);
        }
    }
}

impl SignalAccumulatorAttrs {
    /// Reads the attribute list of an accumulator.
    pub fn parse(entries: &Vec<AttrEntry>) -> (r: Result<SignalAccumulatorAttrs, Diagnostic>)
        ensures
            accumulator_attrs_view(r) == (SpecSignalAccumulatorAttrs { name: None }).apply_all(
                entries.deep_view(),
            ),
    {
        let ghost start = SpecSignalAccumulatorAttrs { name: None };
        let mut attrs = SignalAccumulatorAttrs { name: None };
        let mut i: usize = 0;
        assert(entries.deep_view().take(0) =~= Seq::empty());
        while i < entries.len()
            invariant
                i <= entries.len(),
                start == (SpecSignalAccumulatorAttrs { name: None }),
                start.apply_all(entries.deep_view().take(i as int)) == Ok::<
                    SpecSignalAccumulatorAttrs,
                    SpecDiagnostic,
                >(attrs@),
            decreases entries.len() - i,
        {
            proof {
                assert(entries.deep_view().take(i + 1).drop_last() =~= entries.deep_view().take(
                    i as int,
                ));
                assert(entries.deep_view().take(i + 1).last() == entries[i as int]@);
            }
            let entry = &entries[i];
            let key = &entry.key;
            let failure = if entry.negated || !key.is("name") {
                Some(DiagnosticKind::UnexpectedAttribute(key.name.clone()))
            } else if attrs.name.is_some() {
                Some(DiagnosticKind::DuplicateAttribute(key.name.clone()))
            } else {
                None
            };
            match failure {
                Some(kind) => {
                    proof {
                        start.lemma_apply_all_fails(entries.deep_view(), i + 1);
                    }
                    return Err(attr_error(kind, entry));
                },
                None => {},
            }
            match entry.value.as_str() {
                None => {
                    proof {
                        start.lemma_apply_all_fails(entries.deep_view(), i + 1);
                    }
                    return Err(
                        attr_error(DiagnosticKind::MalformedAttribute(key.name.clone()), entry),
                    );
                },
                Some(s) => {
                    attrs.name = Some(s);
                },
            }
            i += 1;
        }
        assert(entries.deep_view().take(entries.len() as int) =~= entries.deep_view());
        Ok(attrs)
    }
}

/// A parameter that is written as a pattern and a type.
#[derive(Debug)]
pub struct PatType {
    /// The pattern as it is written.
    pub pat: String,
    /// The identifier that the pattern binds, where the pattern is one.
    pub ident: Option<String>,
    pub ty: String,
}

/// The mathematical value of a [`PatType`].
pub ghost struct SpecPatType {
    pub pat: Seq<char>,
    pub ident: Option<Seq<char>>,
    pub ty: Seq<char>,
}

impl DeepView for PatType {
    type V = SpecPatType;

    open spec fn deep_view(&self) -> SpecPatType {
        SpecPatType { pat: self.pat@, ident: self.ident.deep_view(), ty: self.ty@ }
    }
}

impl View for PatType {
    type V = SpecPatType;

    open spec fn view(&self) -> SpecPatType {
        self.deep_view()
    }
}

/// A parameter of a method.
#[derive(Debug)]
pub enum FnArg {
    /// The receiver, as it is written.
    Receiver(String),
    Typed(PatType),
}

/// The mathematical value of a [`FnArg`].
pub ghost enum SpecFnArg {
    Receiver(Seq<char>),
    Typed(SpecPatType),
}

impl DeepView for FnArg {
    type V = SpecFnArg;

    open spec fn deep_view(&self) -> SpecFnArg {
        match self {
            FnArg::Receiver(r) => SpecFnArg::Receiver(r@),
            FnArg::Typed(t) => SpecFnArg::Typed(t@),
        }
    }
}

impl View for FnArg {
    type V = SpecFnArg;

    open spec fn view(&self) -> SpecFnArg {
        self.deep_view()
    }
}

/// A method declaration.
#[derive(Debug)]
pub struct Method {
    pub ident: Ident,
    pub attrs: Vec<Attribute>,
    pub inputs: Vec<FnArg>,
    /// The return type, where the method returns a value.
    pub output: Option<String>,
    /// The body, braces included.
    pub block: String,
    /// Whether the body holds no statement.
    pub is_empty: bool,
}

/// The mathematical value of a [`Method`].
pub ghost struct SpecMethod {
    pub ident: SpecIdent,
    pub attrs: Seq<SpecAttribute>,
    pub inputs: Seq<SpecFnArg>,
    pub output: Option<Seq<char>>,
    pub block: Seq<char>,
    pub is_empty: bool,
}

impl DeepView for Method {
    type V = SpecMethod;

    open spec fn deep_view(&self) -> SpecMethod {
        SpecMethod {
            ident: self.ident@,
            attrs: self.attrs.deep_view(),
            inputs: self.inputs.deep_view(),
            output: self.output.deep_view(),
            block: self.block@,
            is_empty: self.is_empty,
        }
    }
}

impl View for Method {
    type V = SpecMethod;

    open spec fn view(&self) -> SpecMethod {
        self.deep_view()
    }
}

/// A `properties! { .. }` block: the members that it declares.
#[derive(Debug)]
pub struct PropertiesBlock {
    /// Whether the block stands between braces.
    pub braced: bool,
    pub fields: Vec<Field>,
    pub span: Span,
}

/// The mathematical value of a [`PropertiesBlock`].
pub ghost struct SpecPropertiesBlock {
    pub braced: bool,
    pub fields: Seq<SpecField>,
    pub span: Span,
}

impl DeepView for PropertiesBlock {
    type V = SpecPropertiesBlock;

    open spec fn deep_view(&self) -> SpecPropertiesBlock {
        SpecPropertiesBlock {
            braced: self.braced,
            fields: self.fields.deep_view(),
            span: self.span,
        }
    }
}

impl View for PropertiesBlock {
    type V = SpecPropertiesBlock;

    open spec fn view(&self) -> SpecPropertiesBlock {
        self.deep_view()
    }
}

/// An item of an implementation block.
#[derive(Debug)]
pub enum ImplItem {
    Method(Method),
    Properties(PropertiesBlock),
    /// Any other item, as it is written.
    Other(String),
}

/// The mathematical value of an [`ImplItem`].
pub ghost enum SpecImplItem {
    Method(SpecMethod),
    Properties(SpecPropertiesBlock),
    Other(Seq<char>),
}

impl DeepView for ImplItem {
    type V = SpecImplItem;

    open spec fn deep_view(&self) -> SpecImplItem {
        match self {
            ImplItem::Method(m) => SpecImplItem::Method(m@),
            ImplItem::Properties(b) => SpecImplItem::Properties(b@),
            ImplItem::Other(t) => SpecImplItem::Other(t@),
        }
    }
}

impl View for ImplItem {
    type V = SpecImplItem;

    open spec fn view(&self) -> SpecImplItem {
        self.deep_view()
    }
}

/// A signal descriptor.
#[derive(Debug)]
pub struct Signal {
    /// The identifier of the methods that declare the signal.
    pub ident: Ident,
    pub name: String,
    pub flags: SignalFlags,
    /// Whether the signal belongs to an interface.
    pub interface: bool,
    /// Whether a method that emits the signal is generated.
    pub emit: bool,
    /// Whether a method that connects to the signal is generated.
    pub connect: bool,
    pub handler: Option<Method>,
    pub accumulator: Option<Method>,
}

/// The mathematical value of a [`Signal`].
pub ghost struct SpecSignal {
    pub ident: SpecIdent,
    pub name: Seq<char>,
    pub flags: SignalFlags,
    pub interface: bool,
    pub emit: bool,
    pub connect: bool,
    pub handler: Option<SpecMethod>,
    pub accumulator: Option<SpecMethod>,
}

impl DeepView for Signal {
    type V = SpecSignal;

    open spec fn deep_view(&self) -> SpecSignal {
        SpecSignal {
            ident: self.ident@,
            name: self.name@,
            flags: self.flags,
            interface: self.interface,
            emit: self.emit,
            connect: self.connect,
            handler: self.handler.deep_view(),
            accumulator: self.accumulator.deep_view(),
        }
    }
}

impl View for Signal {
    type V = SpecSignal;

    open spec fn view(&self) -> SpecSignal {
        self.deep_view()
    }
}

impl SpecSignal {
    /// The descriptor of a signal of which nothing is declared yet.
    pub open spec fn new(ident: SpecIdent) -> SpecSignal {
        SpecSignal {
            ident,
            name: Seq::empty(),
            flags: SignalFlags { bits: 0 },
            interface: false,
            emit: true,
            connect: true,
            handler: None,
            accumulator: None,
        }
    }

    /// What holds of every signal that the builder hands out: it has a
    /// handler and a valid name.
    pub open spec fn wf(self) -> bool {
        &&& self.handler is Some
        &&& crate::names::valid_name(self.name)
    }
}

impl Signal {
    /// The descriptor of a signal of which nothing is declared yet.
    pub fn new(ident: Ident) -> (r: Signal)
        ensures
            r@ == SpecSignal::new(ident@),
    {
        Signal {
            ident,
            name: String::new(),
            flags: SignalFlags::empty(),
            interface: false,
            emit: true,
            connect: true,
            handler: None,
            accumulator: None,
        }
    }
}

} // verus!
