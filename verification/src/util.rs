//! The arguments of a type's declaration, and what an implementation block
//! declares as a whole.

use vstd::prelude::*;
use vstd::string::*;
use crate::attr::{AttrEntry, AttrValue, SpecAttrEntry, SpecAttrValue};
use crate::collections::{extend, push_back, take_at};
use crate::diag::{
    Diagnostic, DiagnosticKind, Ident, Span, SpecDiagnostic, SpecDiagnosticKind, SpecIdent,
    SpecTokens, Tokens,
};
use crate::property::{Field, Property, SpecField, SpecProperty};
use crate::property_parse::{kept_fields, read_fields};
use crate::signal::{ImplItem, Signal, SpecImplItem, SpecSignal};
use crate::signal_builder::{from_items, other_items};

verus! {

/// Whether the item is a method of the given name.
pub open spec fn is_method_named(item: SpecImplItem, method: Seq<char>) -> bool {
    match item {
        SpecImplItem::Method(m) => m.ident.name == method,
        _ => false,
    }
}

/// Whether one of the items is a method of the given name.
pub open spec fn declares_method(items: Seq<SpecImplItem>, method: Seq<char>) -> bool {
    exists|i: int| 0 <= i < items.len() && is_method_named(#[trigger] items[i], method)
}

/// The name under which a generated method stands: behind `inner_` where
/// the type has a method of that name itself.
pub open spec fn generated_method_name(items: Seq<SpecImplItem>, method: Seq<char>) -> Seq<char> {
    if declares_method(items, method) {
        "inner_"@ + method
    } else {
        method
    }
}

/// Tells whether the type has a method of the given name itself, and under
/// which name the generated method then stands.
pub fn has_method(items: &Vec<ImplItem>, method: &str) -> (r: (bool, String))
    ensures
        r.0 == declares_method(items.deep_view(), method@),
        r.1@ == generated_method_name(items.deep_view(), method@),
{
    let mut found = false;
    let mut i: usize = 0;
    while i < items.len() && !found
        invariant
            i <= items.len(),
            found ==> declares_method(items.deep_view(), method@),
            !found ==> forall|j: int|
                0 <= j < i ==> !is_method_named(#[trigger] items.deep_view()[j], method@),
        decreases items.len() - i + (if found { 0int } else { 1 }),
    {
        assert(items.deep_view()[i as int] == items[i as int]@);
        match &items[i] {
            ImplItem::Method(m) => {
                if m.ident.is(method) {
                    found = true;
                }
            },
            _ => {},
        }
        if !found {
            i += 1;
        }
    }
    if found {
        let mut name = String::from_str("inner_");
        name.append(method);
        (true, name)
    } else {
        (false, String::from_str(method))
    }
}

/// A fragment as a statement.
pub open spec fn stmt_text(tokens: Seq<char>) -> Seq<char> {
    tokens + ";"@
}

/// Makes a statement of a fragment.
pub fn make_stmt(tokens: String) -> (r: String)
    ensures
        r@ == stmt_text(tokens@),
{
    let mut r = tokens;
    r.append(";");
    r
}

/// How other types use the type that is declared.
#[derive(Debug)]
pub enum ClassInheritance {
    /// No type derives from it: the generated methods are its own.
    Final,
    /// Types derive from it: the generated methods form the trait of the
    /// given name.
    Abstract(Ident),
}

/// The mathematical value of a [`ClassInheritance`].
pub ghost enum SpecClassInheritance {
    Final,
    Abstract(SpecIdent),
}

impl SpecClassInheritance {
    /// The keyword that declares it.
    pub open spec fn keyword(self) -> Seq<char> {
        match self {
            SpecClassInheritance::Final => "final"@,
            SpecClassInheritance::Abstract(_) => "trait"@,
        }
    }
}

impl DeepView for ClassInheritance {
    type V = SpecClassInheritance;

    open spec fn deep_view(&self) -> SpecClassInheritance {
        match self {
            ClassInheritance::Final => SpecClassInheritance::Final,
            ClassInheritance::Abstract(i) => SpecClassInheritance::Abstract(i@),
        }
    }
}

impl View for ClassInheritance {
    type V = SpecClassInheritance;

    open spec fn view(&self) -> SpecClassInheritance {
        self.deep_view()
    }
}

/// The arguments of a type's declaration.
#[derive(Debug)]
pub struct Args {
    /// The type of the objects.
    pub type_: Option<Tokens>,
    pub inheritance: ClassInheritance,
    /// Whether every member is a property unless it says otherwise.
    pub pod: bool,
}

/// The mathematical value of an [`Args`].
pub ghost struct SpecArgs {
    pub type_: Option<SpecTokens>,
    pub inheritance: SpecClassInheritance,
    pub pod: bool,
}

impl DeepView for Args {
    type V = SpecArgs;

    open spec fn deep_view(&self) -> SpecArgs {
        SpecArgs { type_: self.type_.deep_view(), inheritance: self.inheritance@, pod: self.pod }
    }
}

impl View for Args {
    type V = SpecArgs;

    open spec fn view(&self) -> SpecArgs {
        self.deep_view()
    }
}

/// The arguments as far as a prefix of the list gives them.
pub ghost struct PartialArgs {
    pub type_: Option<SpecTokens>,
    pub inheritance: Option<SpecClassInheritance>,
    pub pod: bool,
}

/// The outcome of a step of reading the arguments.
pub type SpecPartialArgsResult = Result<PartialArgs, SpecDiagnostic>;

/// The outcome of reading the arguments.
pub type SpecArgsResult = Result<SpecArgs, SpecDiagnostic>;

/// The mathematical value of an outcome.
pub open spec fn args_view(r: Result<Args, Diagnostic>) -> SpecArgsResult {
    match r {
        Ok(a) => Ok(a@),
        Err(d) => Err(d@),
    }
}

impl PartialArgs {
    /// The failure of the given kind at the entry's keyword.
    pub open spec fn fail(kind: SpecDiagnosticKind, e: SpecAttrEntry) -> SpecPartialArgsResult {
        Err(SpecDiagnostic { kind, span: e.key.span })
    }

    /// One entry applied: `type` with a type, `trait` with the trait's
    /// name, `pod`, or `final`, which an interface does not take. `trait`
    /// and `final` exclude each other.
    pub open spec fn apply(self, e: SpecAttrEntry, interface: bool) -> SpecPartialArgsResult {
        let k = e.key.name;
        if e.negated {
            Self::fail(SpecDiagnosticKind::UnexpectedAttribute(k), e)
        } else if k == "type"@ {
            if self.type_ is Some {
                Self::fail(SpecDiagnosticKind::DuplicateAttribute(k), e)
            } else {
                match e.value.as_type() {
                    Some(t) => Ok(
                        PartialArgs {
                            type_: Some(SpecTokens { text: t, span: e.value_span }),
                            ..self
                        },
                    ),
                    None => Self::fail(SpecDiagnosticKind::MalformedAttribute(k), e),
                }
            }
        } else if k == "trait"@ {
            match self.inheritance {
                Some(earlier) => if interface {
                    Self::fail(SpecDiagnosticKind::DuplicateAttribute(k), e)
                } else {
                    Self::fail(
                        SpecDiagnosticKind::ConflictingFamilyMembers(earlier.keyword(), k),
                        e,
                    )
                },
                None => match e.value {
                    SpecAttrValue::Ident(i) => Ok(
                        PartialArgs {
                            inheritance: Some(SpecClassInheritance::Abstract(i)),
                            ..self
                        },
                    ),
                    _ => Self::fail(SpecDiagnosticKind::MalformedAttribute(k), e),
                },
            }
        } else if k == "pod"@ {
            if self.pod {
                Self::fail(SpecDiagnosticKind::DuplicateAttribute(k), e)
            } else if !(e.value is Bare) {
                Self::fail(SpecDiagnosticKind::MalformedAttribute(k), e)
            } else {
                Ok(PartialArgs { pod: true, ..self })
            }
        } else if !interface && k == "final"@ {
            match self.inheritance {
                Some(earlier) => Self::fail(
                    SpecDiagnosticKind::ConflictingFamilyMembers(earlier.keyword(), k),
                    e,
                ),
                None => if !(e.value is Bare) {
                    Self::fail(SpecDiagnosticKind::MalformedAttribute(k), e)
                } else {
                    Ok(PartialArgs { inheritance: Some(SpecClassInheritance::Final), ..self })
                },
            }
        } else {
            Self::fail(SpecDiagnosticKind::UnexpectedAttribute(k), e)
        }
    }

    /// The entries applied from left to right; the first failure ends it.
    pub open spec fn apply_all(self, entries: Seq<SpecAttrEntry>, interface: bool) -> SpecPartialArgsResult
        decreases entries.len(),
    {
        if entries.len() == 0 {
            Ok(self)
        } else {
            match self.apply_all(entries.drop_last(), interface) {
                Err(d) => Err(d),
                Ok(a) => a.apply(entries.last(), interface),
            }
        }
    }

    /// Once a prefix of the entries fails, the whole list fails in the same
    /// way.
    pub proof fn lemma_apply_all_fails(self, entries: Seq<SpecAttrEntry>, interface: bool, n: int)
        requires
            0 <= n <= entries.len(),
            self.apply_all(entries.take(n), interface) is Err,
        ensures
            self.apply_all(entries, interface) == self.apply_all(entries.take(n), interface),
        decreases entries.len() - n,
    {
        if n < entries.len() {
            assert(entries.take(n + 1).drop_last() =~= entries.take(n));
            self.lemma_apply_all_fails(entries, interface, n + 1);
        } else {
            assert(entries.take(n) =~= entries);
        }
    }

    /// What the arguments must give in the end: an interface and a final
    /// class their type, and every type how it is inherited from.
    pub open spec fn finish(self, interface: bool, span: Span) -> SpecArgsResult {
        if self.type_ is None && (interface || self.inheritance
            == Some(SpecClassInheritance::Final)) {
            Err(
                SpecDiagnostic { kind: SpecDiagnosticKind::MissingAttribute("type"@), span },
            )
        } else {
            match self.inheritance {
                None => Err(
                    SpecDiagnostic { kind: SpecDiagnosticKind::MissingAttribute("trait"@), span },
                ),
                Some(inheritance) => Ok(
                    SpecArgs { type_: self.type_, inheritance, pod: self.pod },
                ),
            }
        }
    }
}

impl SpecArgs {
    /// What the arguments of a declaration say; `span` is where the
    /// arguments end.
    pub open spec fn parse(entries: Seq<SpecAttrEntry>, interface: bool, span: Span) -> SpecArgsResult {
        match (PartialArgs { type_: None, inheritance: None, pod: false }).apply_all(
            entries,
            interface,
        ) {
            Err(d) => Err(d),
            Ok(a) => a.finish(interface, span),
        }
    }
}

struct ArgsBuilder {
    type_: Option<Tokens>,
    inheritance: Option<ClassInheritance>,
    pod: bool,
}

impl ArgsBuilder {
    spec fn model(&self) -> PartialArgs {
        PartialArgs {
            type_: self.type_.deep_view(),
            inheritance: self.inheritance.deep_view(),
            pod: self.pod,
        }
    }

    fn fail(kind: DiagnosticKind, entry: &AttrEntry) -> (r: Result<ArgsBuilder, Diagnostic>)
        ensures
            r matches Err(d) && d@ == (SpecDiagnostic { kind: kind@, span: entry@.key.span }),
    {
        Err(Diagnostic::new(kind, entry.key.span))
    }

    fn apply(self, entry: &AttrEntry, interface: bool) -> (r: Result<ArgsBuilder, Diagnostic>)
        ensures
            match r {
                Ok(a) => self.model().apply(entry@, interface) == Ok::<
                    PartialArgs,
                    SpecDiagnostic,
                >(a.model()),
                Err(d) => self.model().apply(entry@, interface) == Err::<
                    PartialArgs,
                    SpecDiagnostic,
                >(d@),
            },
    {
        let mut args = self;
        let key = &entry.key;
        let bare = entry.value.is_bare();
        if entry.negated {
            Self::fail(DiagnosticKind::UnexpectedAttribute(key.name.clone()), entry)
        } else if key.is("type") {
            if args.type_.is_some() {
                Self::fail(DiagnosticKind::DuplicateAttribute(key.name.clone()), entry)
            } else {
                match entry.value.as_type() {
                    Some(t) => {
                        args.type_ = Some(Tokens { text: t, span: entry.value_span });
                        Ok(args)
                    },
                    None => Self::fail(DiagnosticKind::MalformedAttribute(key.name.clone()), entry),
                }
            }
        } else if key.is("trait") {
            match &args.inheritance {
                Some(earlier) => if interface {
                    Self::fail(DiagnosticKind::DuplicateAttribute(key.name.clone()), entry)
                } else {
                    let kw = match earlier {
                        ClassInheritance::Final => String::from_str("final"),
                        ClassInheritance::Abstract(_) => String::from_str("trait"),
                    };
                    Self::fail(
                        DiagnosticKind::ConflictingFamilyMembers(kw, key.name.clone()),
                        entry,
                    )
                },
                None => match &entry.value {
                    AttrValue::Ident(i) => {
                        args.inheritance = Some(ClassInheritance::Abstract(i.dup()));
                        Ok(args)
                    },
                    _ => Self::fail(DiagnosticKind::MalformedAttribute(key.name.clone()), entry),
                },
            }
        } else if key.is("pod") {
            if args.pod {
                Self::fail(DiagnosticKind::DuplicateAttribute(key.name.clone()), entry)
            } else if !bare {
                Self::fail(DiagnosticKind::MalformedAttribute(key.name.clone()), entry)
            } else {
                args.pod = true;
                Ok(args)
            }
        } else if !interface && key.is("final") {
            match &args.inheritance {
                Some(earlier) => {
                    let kw = match earlier {
                        ClassInheritance::Final => String::from_str("final"),
                        ClassInheritance::Abstract(_) => String::from_str("trait"),
                    };
                    Self::fail(
                        DiagnosticKind::ConflictingFamilyMembers(kw, key.name.clone()),
                        entry,
                    )
                },
                None => if !bare {
                    Self::fail(DiagnosticKind::MalformedAttribute(key.name.clone()), entry)
                } else {
                    args.inheritance = Some(ClassInheritance::Final);
                    Ok(args)
                },
            }
        } else {
            Self::fail(DiagnosticKind::UnexpectedAttribute(key.name.clone()), entry)
        }
    }
}

impl Args {
    /// Reads the arguments of a type's declaration; `span` is where the
    /// arguments end.
    pub fn parse(entries: &Vec<AttrEntry>, interface: bool, span: Span) -> (r: Result<
        Args,
        Diagnostic,
    >)
        ensures
            args_view(r) == SpecArgs::parse(entries.deep_view(), interface, span),
    {
        let ghost start = PartialArgs { type_: None, inheritance: None, pod: false };
        let mut args = ArgsBuilder { type_: None, inheritance: None, pod: false };
        let mut i: usize = 0;
        assert(entries.deep_view().take(0) =~= Seq::empty());
        while i < entries.len()
            invariant
                i <= entries.len(),
                start == (PartialArgs { type_: None, inheritance: None, pod: false }),
                start.apply_all(entries.deep_view().take(i as int), interface) == Ok::<
                    PartialArgs,
                    SpecDiagnostic,
                >(args.model()),
            decreases entries.len() - i,
        {
            proof {
                assert(entries.deep_view().take(i + 1).drop_last() =~= entries.deep_view().take(
                    i as int,
                ));
                assert(entries.deep_view().take(i + 1).last() == entries[i as int]@);
            }
            let ghost before = args.model();
            match args.apply(&entries[i], interface) {
                Err(d) => {
                    proof {
                        assert(start.apply_all(entries.deep_view().take(i + 1), interface)
                            == before.apply(entries[i as int]@, interface));
                        start.lemma_apply_all_fails(entries.deep_view(), interface, i + 1);
                    }
                    return Err(d);
                },
                Ok(next) => {
                    args = next;
                },
            }
            i += 1;
        }
        assert(entries.deep_view().take(entries.len() as int) =~= entries.deep_view());
        let ArgsBuilder { type_, inheritance, pod } = args;
        let is_final = match &inheritance {
            Some(ClassInheritance::Final) => true,
            _ => false,
        };
        if type_.is_none() && (interface || is_final) {
            return Err(
                Diagnostic::new(DiagnosticKind::MissingAttribute(String::from_str("type")), span),
            );
        }
        match inheritance {
            None => Err(
                Diagnostic::new(DiagnosticKind::MissingAttribute(String::from_str("trait")), span),
            ),
            Some(inheritance) => Ok(Args { type_, inheritance, pod }),
        }
    }
}

/// What an implementation block declares: its signals and properties, and
/// what is left of it.
#[derive(Debug)]
pub struct ObjectDefinition {
    /// The items that declare neither a signal nor the properties.
    pub items: Vec<ImplItem>,
    /// The members that stay fields of the type, where the block declares
    /// properties.
    pub struct_fields: Option<Vec<Field>>,
    pub properties: Vec<Property>,
    pub signals: Vec<Signal>,
}

/// The mathematical value of an [`ObjectDefinition`].
pub ghost struct SpecObjectDefinition {
    pub items: Seq<SpecImplItem>,
    pub struct_fields: Option<Seq<SpecField>>,
    pub properties: Seq<SpecProperty>,
    pub signals: Seq<SpecSignal>,
}

impl DeepView for ObjectDefinition {
    type V = SpecObjectDefinition;

    open spec fn deep_view(&self) -> SpecObjectDefinition {
        SpecObjectDefinition {
            items: self.items.deep_view(),
            struct_fields: self.struct_fields.deep_view(),
            properties: self.properties.deep_view(),
            signals: self.signals.deep_view(),
        }
    }
}

impl View for ObjectDefinition {
    type V = SpecObjectDefinition;

    open spec fn view(&self) -> SpecObjectDefinition {
        self.deep_view()
    }
}

/// The properties of a block and the members that stay fields, as far as a
/// prefix of the items declares them, the items that stay, and the
/// diagnostics so far.
pub ghost struct PartialDefinition {
    pub items: Seq<SpecImplItem>,
    pub struct_fields: Option<Seq<SpecField>>,
    pub properties: Seq<SpecProperty>,
    pub diagnostics: Seq<SpecDiagnostic>,
}

/// The outcome of reading a block: what it declares, or the diagnostics
/// of all declarations that failed.
pub type SpecObjectDefinitionResult = Result<SpecObjectDefinition, Seq<SpecDiagnostic>>;

/// The mathematical value of an outcome.
pub open spec fn definition_view(
    r: Result<ObjectDefinition, Vec<Diagnostic>>,
) -> SpecObjectDefinitionResult {
    match r {
        Ok(d) => Ok(d@),
        Err(d) => Err(d.deep_view()),
    }
}

/// One item read: a `properties!` block, of which there is one at most
/// and which stands between braces, gives the properties and leaves the
/// block; any other item stays. What fails gives its diagnostics, and the
/// items behind it are read all the same.
pub open spec fn read_item(
    state: PartialDefinition,
    item: SpecImplItem,
    pod: bool,
    is_interface: bool,
    methods: Seq<Seq<char>>,
) -> PartialDefinition {
    match item {
        SpecImplItem::Properties(block) => if state.struct_fields is Some {
            PartialDefinition {
                diagnostics: state.diagnostics.push(
                    SpecDiagnostic {
                        kind: SpecDiagnosticKind::DuplicateAttribute("properties"@),
                        span: block.span,
                    },
                ),
                ..state
            }
        } else if !block.braced {
            PartialDefinition {
                diagnostics: state.diagnostics.push(
                    SpecDiagnostic {
                        kind: SpecDiagnosticKind::MalformedAttribute("properties"@),
                        span: block.span,
                    },
                ),
                ..state
            }
        } else {
            let read = read_fields(block.fields, pod, is_interface, methods);
            PartialDefinition {
                struct_fields: Some(kept_fields(block.fields, pod, is_interface, methods)),
                properties: if read.diagnostics.len() == 0 {
                    read.properties
                } else {
                    Seq::empty()
                },
                diagnostics: state.diagnostics + read.diagnostics,
                ..state
            }
        },
        _ => PartialDefinition { items: state.items.push(item), ..state },
    }
}

/// The items read from left to right.
pub open spec fn read_items(
    items: Seq<SpecImplItem>,
    pod: bool,
    is_interface: bool,
    methods: Seq<Seq<char>>,
) -> PartialDefinition
    decreases items.len(),
{
    if items.len() == 0 {
        PartialDefinition {
            items: Seq::empty(),
            struct_fields: None,
            properties: Seq::empty(),
            diagnostics: Seq::empty(),
        }
    } else {
        read_item(
            read_items(items.drop_last(), pod, is_interface, methods),
            items.last(),
            pod,
            is_interface,
            methods,
        )
    }
}

/// The diagnostics of an outcome; none where it has succeeded.
pub open spec fn diagnostics_of<A>(r: Result<A, Seq<SpecDiagnostic>>) -> Seq<SpecDiagnostic> {
    match r {
        Ok(_) => Seq::empty(),
        Err(d) => d,
    }
}

impl SpecObjectDefinition {
    /// Whether every signal and property of the definition can generate its
    /// code.
    pub open spec fn wf(self) -> bool {
        &&& forall|i: int| 0 <= i < self.signals.len() ==> (#[trigger] self.signals[i]).handler is Some
        &&& forall|i: int|
            0 <= i < self.properties.len() ==> (#[trigger] self.properties[i]).accessors_resolved()
    }

    /// What a block declares: first its signals, whose methods leave the
    /// block, then its properties. Where a declaration fails, the
    /// diagnostics of all that fail: those of the signals first, then those
    /// of the properties.
    pub open spec fn new(
        items: Seq<SpecImplItem>,
        pod: bool,
        is_interface: bool,
        methods: Seq<Seq<char>>,
    ) -> SpecObjectDefinitionResult {
        let signals = from_items(items, is_interface);
        let state = read_items(other_items(items), pod, is_interface, methods);
        let diagnostics = diagnostics_of(signals) + state.diagnostics;
        match signals {
            Ok(signals) => if diagnostics.len() == 0 {
                Ok(
                    SpecObjectDefinition {
                        items: state.items,
                        struct_fields: state.struct_fields,
                        properties: state.properties,
                        signals,
                    },
                )
            } else {
                Err(diagnostics)
            },
            Err(_) => Err(diagnostics),
        }
    }
}

impl ObjectDefinition {
    /// Reads what an implementation block declares, and gathers the
    /// diagnostics of all declarations that fail. `methods` holds the names
    /// of the methods that the type supplies as accessors.
    pub fn new(items: Vec<ImplItem>, pod: bool, is_interface: bool, methods: &Vec<String>) -> (r:
        Result<ObjectDefinition, Vec<Diagnostic>>)
        ensures
            definition_view(r) == SpecObjectDefinition::new(
                items.deep_view(),
                pod,
                is_interface,
                methods.deep_view(),
            ),
            r matches Ok(d) ==> d@.wf(),
    {
        let ghost given = items.deep_view();
        let mut taken = items;
        let read_signals = Signal::from_items(&mut taken, is_interface);
        let ghost signal_diagnostics = diagnostics_of(from_items(given, is_interface));
        let mut diagnostics: Vec<Diagnostic> = Vec::new();
        let mut signals: Vec<Signal> = Vec::new();
        match read_signals {
            Ok(s) => {
                signals = s;
                assert(diagnostics.deep_view() =~= signal_diagnostics);
            },
            Err(d) => {
                diagnostics = d;
            },
        }
        let ghost all = taken.deep_view();
        let n = taken.len();
        let mut kept: Vec<ImplItem> = Vec::new();
        let mut struct_fields: Option<Vec<Field>> = None;
        let mut properties: Vec<Property> = Vec::new();
        let mut i: usize = 0;
        proof {
            assert(all.take(0) =~= Seq::empty());
            assert(kept.deep_view() =~= Seq::empty());
            assert(properties.deep_view() =~= Seq::empty());
            assert(taken.deep_view().skip(0) =~= taken.deep_view());
            assert(diagnostics.deep_view() =~= signal_diagnostics + Seq::empty());
        }
        while i < n
            invariant
                i <= n,
                n == all.len(),
                taken.len() == n - i,
                taken.deep_view() == all.skip(i as int),
                read_items(all.take(i as int), pod, is_interface, methods.deep_view()).items
                    == kept.deep_view(),
                read_items(
                    all.take(i as int),
                    pod,
                    is_interface,
                    methods.deep_view(),
                ).struct_fields == struct_fields.deep_view(),
                read_items(all.take(i as int), pod, is_interface, methods.deep_view()).properties
                    == properties.deep_view(),
                diagnostics.deep_view() == signal_diagnostics + read_items(
                    all.take(i as int),
                    pod,
                    is_interface,
                    methods.deep_view(),
                ).diagnostics,
                forall|j: int|
                    0 <= j < properties.len() ==> (#[trigger] properties[j])@.accessors_resolved(),
            decreases n - i,
        {
            let ghost state = read_items(all.take(i as int), pod, is_interface, methods.deep_view());
            proof {
                assert(all.take(i + 1).drop_last() =~= all.take(i as int));
                assert(all.take(i + 1).last() == all[i as int]);
                assert(taken.deep_view()[0] == all[i as int]);
            }
            let item = take_at(&mut taken, 0);
            proof {
                assert(all.skip(i as int).remove(0) =~= all.skip(i + 1));
            }
            match item {
                ImplItem::Properties(block) => {
                    if struct_fields.is_some() {
                        let d = Diagnostic::new(
                            DiagnosticKind::DuplicateAttribute(String::from_str("properties")),
                            block.span,
                        );
                        push_back(&mut diagnostics, d);
                        proof {
                            assert(diagnostics.deep_view() =~= signal_diagnostics
                                + state.diagnostics.push(d@));
                        }
                    } else if !block.braced {
                        let d = Diagnostic::new(
                            DiagnosticKind::MalformedAttribute(String::from_str("properties")),
                            block.span,
                        );
                        push_back(&mut diagnostics, d);
                        proof {
                            assert(diagnostics.deep_view() =~= signal_diagnostics
                                + state.diagnostics.push(d@));
                        }
                    } else {
                        let mut fields = block.fields;
                        let ghost read = read_fields(
                            block@.fields,
                            pod,
                            is_interface,
                            methods.deep_view(),
                        );
                        match Property::from_struct(&mut fields, pod, is_interface, methods) {
                            Err(d) => {
                                extend(&mut diagnostics, d);
                                proof {
                                    assert(diagnostics.deep_view() =~= signal_diagnostics + (
                                    state.diagnostics + read.diagnostics));
                                }
                                properties = Vec::new();
                                proof {
                                    assert(properties.deep_view() =~= Seq::empty());
                                }
                            },
                            Ok(props) => {
                                proof {
                                    assert(read.diagnostics =~= Seq::empty());
                                    assert(diagnostics.deep_view() =~= signal_diagnostics + (
                                    state.diagnostics + read.diagnostics));
                                }
                                properties = props;
                            },
                        }
                        struct_fields = Some(fields);
                    }
                },
                other => {
                    push_back(&mut kept, other);
                },
            }
            i += 1;
        }
        proof {
            assert(all.take(n as int) =~= all);
        }
        if diagnostics.len() == 0 {
            let r = ObjectDefinition { items: kept, struct_fields, properties, signals };
            proof {
                assert forall|i: int| 0 <= i < r@.properties.len() implies (
                #[trigger] r@.properties[i]).accessors_resolved() by {
                    assert(r@.properties[i] == r.properties[i]@);
                }
                assert forall|i: int| 0 <= i < r@.signals.len() implies (
                #[trigger] r@.signals[i]).handler is Some by {
                    assert(r@.signals[i] == r.signals[i]@);
                }
            }
            Ok(r)
        } else {
            Err(diagnostics)
        }
    }
}

} // verus!
