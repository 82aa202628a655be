//! From the methods of an implementation block to signal descriptors: a
//! handler and an accumulator of one identifier make one signal.

use vstd::prelude::*;
use vstd::string::*;
use crate::attr::{find_attr, first_attr, Attribute, SpecAttribute};
use crate::collections::{lemma_remove_insert, push_back, put_at, take_at};
use crate::diag::{Diagnostic, DiagnosticKind, Span, SpecDiagnostic, SpecDiagnosticKind, SpecIdent};
use crate::names::{is_valid_name, kebab_case, method_name, method_name_text, to_kebab_case, valid_name};
use crate::signal::{
    ImplItem, Method, Signal, SignalAttrs, SpecImplItem, SpecMethod, SpecSignal, SpecSignalAttrs,
};

verus! {

/// The outcome of a step: the signals after it, or the diagnostic of the
/// method that fails.
pub type SpecSignalStep = Result<Seq<SpecSignal>, SpecDiagnostic>;

/// The outcome of reading signals: the descriptors, or the diagnostics of
/// all that failed.
pub type SpecSignals = Result<Seq<SpecSignal>, Seq<SpecDiagnostic>>;

/// The mathematical value of an outcome.
pub open spec fn signals_view(r: Result<Vec<Signal>, Vec<Diagnostic>>) -> SpecSignals {
    match r {
        Ok(signals) => Ok(signals.deep_view()),
        Err(d) => Err(d.deep_view()),
    }
}

/// The failure of the given kind at the given place.
pub open spec fn fail(kind: SpecDiagnosticKind, span: Span) -> SpecSignalStep {
    Err(SpecDiagnostic { kind, span })
}

/// The outcome of a step that has changed the signals in place, or has
/// left them and handed out a diagnostic.
pub open spec fn step_view(r: Option<Diagnostic>, after: Seq<SpecSignal>) -> SpecSignalStep {
    match r {
        None => Ok(after),
        Some(d) => Err(d@),
    }
}

/// The position of the signal that the methods of the given identifier
/// declare.
pub open spec fn find_signal(signals: Seq<SpecSignal>, ident: Seq<char>) -> Option<int>
    decreases signals.len(),
{
    if signals.len() == 0 {
        None
    } else {
        match find_signal(signals.drop_last(), ident) {
            Some(i) => Some(i),
            None => if signals.last().ident.name == ident {
                Some(signals.len() - 1)
            } else {
                None
            },
        }
    }
}

/// A signal that is found in a prefix of the list is found in the whole
/// list, at the same place.
pub proof fn lemma_find_signal_prefix(signals: Seq<SpecSignal>, ident: Seq<char>, n: int)
    requires
        0 <= n <= signals.len(),
        find_signal(signals.take(n), ident) is Some,
    ensures
        find_signal(signals, ident) == find_signal(signals.take(n), ident),
    decreases signals.len() - n,
{
    if n < signals.len() {
        assert(signals.take(n + 1).drop_last() =~= signals.take(n));
        lemma_find_signal_prefix(signals, ident, n + 1);
    } else {
        assert(signals.take(n) =~= signals);
    }
}

/// Whether a signal with a handler has the given name.
pub open spec fn has_signal_named(signals: Seq<SpecSignal>, name: Seq<char>) -> bool {
    exists|i: int|
        0 <= i < signals.len() && (#[trigger] signals[i]).handler is Some && signals[i].name
            == name
}

/// The name of a signal: the one that the attribute list gives, else the
/// kebab-case form of the handler's identifier.
pub open spec fn signal_name(attrs: SpecSignalAttrs, ident: SpecIdent) -> Seq<char> {
    match attrs.name {
        Some(n) => n,
        None => kebab_case(ident.name),
    }
}

/// The handler as it is kept: under the name of the signal's class
/// handler.
pub open spec fn class_handler(m: SpecMethod, name: Seq<char>) -> SpecMethod {
    SpecMethod {
        ident: SpecIdent {
            name: method_name_text(""@, name, "_class_handler"@),
            span: m.ident.span,
        },
        ..m
    }
}

/// The accumulator as it is kept: under a name that no method of the type
/// has.
pub open spec fn kept_accumulator(m: SpecMethod) -> SpecMethod {
    SpecMethod { ident: SpecIdent { name: "____accumulator"@, span: m.ident.span }, ..m }
}

/// The signal with what its handler declares.
pub open spec fn with_handler(
    s: SpecSignal,
    attrs: SpecSignalAttrs,
    m: SpecMethod,
    is_interface: bool,
) -> SpecSignal {
    let name = signal_name(attrs, m.ident);
    SpecSignal {
        name,
        flags: attrs.flags,
        emit: attrs.emit,
        connect: attrs.connect,
        interface: is_interface,
        handler: Some(class_handler(m, name)),
        ..s
    }
}

/// The signals after a handler: its name must be valid and new, and the
/// signal of its identifier may not have a handler yet.
pub open spec fn add_handler(
    signals: Seq<SpecSignal>,
    m: SpecMethod,
    args: Option<Seq<crate::attr::SpecAttrEntry>>,
    is_interface: bool,
) -> SpecSignalStep {
    match SpecSignalAttrs::parse(args) {
        Err(d) => Err(d),
        Ok(attrs) => {
            let name = signal_name(attrs, m.ident);
            if !valid_name(name) {
                fail(SpecDiagnosticKind::InvalidName(name), m.ident.span)
            } else if has_signal_named(signals, name) {
                fail(SpecDiagnosticKind::DuplicateSignalDefinition(name), m.ident.span)
            } else {
                match find_signal(signals, m.ident.name) {
                    Some(i) => if signals[i].handler is Some {
                        fail(
                            SpecDiagnosticKind::DuplicateSignalDefinition(m.ident.name),
                            m.ident.span,
                        )
                    } else {
                        Ok(signals.update(i, with_handler(signals[i], attrs, m, is_interface)))
                    },
                    None => Ok(
                        signals.push(
                            with_handler(SpecSignal::new(m.ident), attrs, m, is_interface),
                        ),
                    ),
                }
            }
        },
    }
}

/// The signals after an accumulator: it takes no attribute list, returns a
/// value, and is the only one of its signal.
pub open spec fn add_accumulator(
    signals: Seq<SpecSignal>,
    m: SpecMethod,
    attr: SpecAttribute,
) -> SpecSignalStep {
    if attr.args is Some {
        fail(SpecDiagnosticKind::UnexpectedAttribute(attr.path.name), attr.path.span)
    } else if m.output is None {
        fail(SpecDiagnosticKind::AccumulatorWithoutReturnType, m.ident.span)
    } else {
        match find_signal(signals, m.ident.name) {
            Some(i) => if signals[i].accumulator is Some {
                fail(SpecDiagnosticKind::DuplicateAccumulator(m.ident.name), m.ident.span)
            } else {
                Ok(
                    signals.update(
                        i,
                        SpecSignal { accumulator: Some(kept_accumulator(m)), ..signals[i] },
                    ),
                )
            },
            None => Ok(
                signals.push(
                    SpecSignal {
                        accumulator: Some(kept_accumulator(m)),
                        ..SpecSignal::new(m.ident)
                    },
                ),
            ),
        }
    }
}

/// The position of the attribute that makes a method part of a signal.
pub open spec fn signal_attr(m: SpecMethod) -> Option<int> {
    first_attr(m.attrs, "signal"@, "accumulator"@)
}

/// Whether the item declares a signal's handler or accumulator.
pub open spec fn is_signal_item(item: SpecImplItem) -> bool {
    match item {
        SpecImplItem::Method(m) => signal_attr(m) is Some,
        _ => false,
    }
}

/// The signals after a method that declares part of one. The method may
/// carry no other attribute.
pub open spec fn add_method(signals: Seq<SpecSignal>, m: SpecMethod, is_interface: bool) -> SpecSignalStep {
    let i = signal_attr(m)->0;
    let attr = m.attrs[i];
    let rest = SpecMethod { attrs: m.attrs.remove(i), ..m };
    if rest.attrs.len() > 0 {
        fail(
            SpecDiagnosticKind::UnknownSignalAttribute(rest.attrs[0].path.name),
            rest.attrs[0].path.span,
        )
    } else if attr.path.name == "signal"@ {
        add_handler(signals, rest, attr.args, is_interface)
    } else {
        add_accumulator(signals, rest, attr)
    }
}

/// What a list of items gives: the signals that it declares, and the
/// diagnostics of the methods that fail.
pub ghost struct SignalsRead {
    pub signals: Seq<SpecSignal>,
    pub diagnostics: Seq<SpecDiagnostic>,
}

/// The signals that the items declare, in the order in which their first
/// method stands. A method that fails gives its diagnostic and declares
/// nothing, and the items behind it are read all the same.
pub open spec fn collect(items: Seq<SpecImplItem>, is_interface: bool) -> SignalsRead
    decreases items.len(),
{
    if items.len() == 0 {
        SignalsRead { signals: Seq::empty(), diagnostics: Seq::empty() }
    } else {
        let read = collect(items.drop_last(), is_interface);
        match items.last() {
            SpecImplItem::Method(m) => if signal_attr(m) is Some {
                match add_method(read.signals, m, is_interface) {
                    Ok(signals) => SignalsRead { signals, ..read },
                    Err(d) => SignalsRead { diagnostics: read.diagnostics.push(d), ..read },
                }
            } else {
                read
            },
            _ => read,
        }
    }
}

/// A diagnostic for each signal that has an accumulator and no handler, in
/// the order of the signals.
pub open spec fn missing_handlers(signals: Seq<SpecSignal>) -> Seq<SpecDiagnostic>
    decreases signals.len(),
{
    if signals.len() == 0 {
        Seq::empty()
    } else if signals.last().handler is None {
        missing_handlers(signals.drop_last()).push(
            SpecDiagnostic {
                kind: SpecDiagnosticKind::AccumulatorWithoutHandler,
                span: signals.last().ident.span,
            },
        )
    } else {
        missing_handlers(signals.drop_last())
    }
}

/// The signals of an implementation block, where every method is valid and
/// every signal has a handler; else the diagnostics of all that are not:
/// those of the methods first, in their order, then those of the signals
/// without a handler.
pub open spec fn from_items(items: Seq<SpecImplItem>, is_interface: bool) -> SpecSignals {
    let read = collect(items, is_interface);
    let diagnostics = read.diagnostics + missing_handlers(read.signals);
    if diagnostics.len() == 0 {
        Ok(read.signals)
    } else {
        Err(diagnostics)
    }
}

/// The items that declare no signal, in their order.
pub open spec fn other_items(items: Seq<SpecImplItem>) -> Seq<SpecImplItem>
    decreases items.len(),
{
    if items.len() == 0 {
        Seq::empty()
    } else if is_signal_item(items.last()) {
        other_items(items.drop_last())
    } else {
        other_items(items.drop_last()).push(items.last())
    }
}


/// Where no signal lacks a handler, every signal has one.
pub proof fn lemma_all_have_handlers(signals: Seq<SpecSignal>)
    requires
        missing_handlers(signals).len() == 0,
    ensures
        forall|i: int| 0 <= i < signals.len() ==> (#[trigger] signals[i]).handler is Some,
    decreases signals.len(),
{
    if signals.len() > 0 {
        lemma_all_have_handlers(signals.drop_last());
        assert forall|i: int| 0 <= i < signals.len() implies (#[trigger] signals[i]).handler
            is Some by {
            if i < signals.len() - 1 {
                assert(signals.drop_last()[i] == signals[i]);
            }
        }
    }
}

/// Whether every signal that has a handler has a valid name.
pub open spec fn names_valid(signals: Seq<SpecSignal>) -> bool {
    forall|i: int|
        0 <= i < signals.len() && (#[trigger] signals[i]).handler is Some ==> valid_name(
            signals[i].name,
        )
}

/// What a position that is found holds.
pub proof fn lemma_find_signal_bounds(signals: Seq<SpecSignal>, ident: Seq<char>)
    ensures
        find_signal(signals, ident) matches Some(i) ==> 0 <= i < signals.len(),
    decreases signals.len(),
{
    if signals.len() > 0 {
        lemma_find_signal_bounds(signals.drop_last(), ident);
    }
}

/// The signals that a list of items declares have valid names.
pub proof fn lemma_collected_names_valid(items: Seq<SpecImplItem>, is_interface: bool)
    ensures
        names_valid(collect(items, is_interface).signals),
    decreases items.len(),
{
    if items.len() > 0 {
        lemma_collected_names_valid(items.drop_last(), is_interface);
        let before = collect(items.drop_last(), is_interface).signals;
        if let SpecImplItem::Method(m) = items.last() {
            lemma_find_signal_bounds(before, m.ident.name);
        }
    }
}

/// The signals of an implementation block are well-formed.
pub proof fn lemma_from_items_wf(items: Seq<SpecImplItem>, is_interface: bool)
    ensures
        from_items(items, is_interface) matches Ok(signals) ==> forall|i: int|
            0 <= i < signals.len() ==> (#[trigger] signals[i]).wf(),
{
    lemma_collected_names_valid(items, is_interface);
    if let Ok(signals) = from_items(items, is_interface) {
        assert(missing_handlers(signals) =~= Seq::empty());
        lemma_all_have_handlers(signals);
    }
}

fn failure(kind: DiagnosticKind, span: Span) -> (r: Option<Diagnostic>)
    ensures
        r matches Some(d) && d@ == (SpecDiagnostic { kind: kind@, span }),
{
    Some(Diagnostic::new(kind, span))
}

/// Finds the signal that the methods of the given identifier declare.
pub fn position_of(signals: &Vec<Signal>, ident: &str) -> (r: Option<usize>)
    ensures
        match r {
            Some(i) => find_signal(signals.deep_view(), ident@) == Some(i as int) && i
                < signals.len(),
            None => find_signal(signals.deep_view(), ident@) is None,
        },
{
    let mut i: usize = 0;
    assert(signals.deep_view().take(0) =~= Seq::empty());
    while i < signals.len()
        invariant
            i <= signals.len(),
            find_signal(signals.deep_view().take(i as int), ident@) is None,
        decreases signals.len() - i,
    {
        proof {
            assert(signals.deep_view().take(i + 1).drop_last() =~= signals.deep_view().take(
                i as int,
            ));
            assert(signals.deep_view().take(i + 1).last() == signals[i as int]@);
        }
        if signals[i].ident.is(ident) {
            proof {
                assert(find_signal(signals.deep_view().take(i + 1), ident@) == Some(i as int));
                lemma_find_signal_prefix(signals.deep_view(), ident@, i + 1);
            }
            return Some(i);
        }
        i += 1;
    }
    assert(signals.deep_view().take(signals.len() as int) =~= signals.deep_view());
    None
}

/// Whether a signal with a handler has the given name.
pub fn is_signal_named(signals: &Vec<Signal>, name: &str) -> (r: bool)
    ensures
        r == has_signal_named(signals.deep_view(), name@),
{
    let mut i: usize = 0;
    while i < signals.len()
        invariant
            i <= signals.len(),
            forall|j: int|
                0 <= j < i ==> !((#[trigger] signals.deep_view()[j]).handler is Some
                    && signals.deep_view()[j].name == name@),
        decreases signals.len() - i,
    {
        if signals[i].handler.is_some() && crate::text::str_eq(signals[i].name.as_str(), name) {
            assert(signals.deep_view()[i as int].handler is Some && signals.deep_view()[i as int].name
                == name@);
            return true;
        }
        i += 1;
    }
    false
}

fn with_handler_method(
    signals: &mut Vec<Signal>,
    method: Method,
    args: &Option<Vec<crate::attr::AttrEntry>>,
    is_interface: bool,
) -> (r: Option<Diagnostic>)
    ensures
        step_view(r, final(signals).deep_view()) == add_handler(
            old(signals).deep_view(),
            method@,
            args.deep_view(),
            is_interface,
        ),
        r is Some ==> final(signals).deep_view() == old(signals).deep_view(),
{
    let mut method = method;
    let ghost m = method@;
    let attrs = match SignalAttrs::parse(args) {
        Err(d) => {
            return Some(d);
        },
        Ok(attrs) => attrs,
    };
    let ghost a = attrs@;
    let SignalAttrs { flags, emit, connect, name } = attrs;
    let name = match name {
        Some(n) => n,
        None => to_kebab_case(method.ident.name.as_str()),
    };
    assert(name@ == signal_name(a, m.ident));
    if !is_valid_name(name.as_str()) {
        return failure(DiagnosticKind::InvalidName(name), method.ident.span);
    }
    if is_signal_named(signals, name.as_str()) {
        return failure(DiagnosticKind::DuplicateSignalDefinition(name), method.ident.span);
    }
    let found = position_of(signals, method.ident.name.as_str());
    let ghost before = signals.deep_view();
    match found {
        Some(i) => {
            assert(before[i as int] == signals[i as int]@);
            if signals[i].handler.is_some() {
                return failure(
                    DiagnosticKind::DuplicateSignalDefinition(method.ident.name),
                    method.ident.span,
                );
            }
            let mut signal = take_at(signals, i);
            method.ident.name = method_name("", name.as_str(), "_class_handler");
            signal.name = name;
            signal.flags = flags;
            signal.emit = emit;
            signal.connect = connect;
            signal.interface = is_interface;
            signal.handler = Some(method);
            put_at(signals, i, signal);
            proof {
                lemma_remove_insert(before, i as int, signal@);
            }
            None
        },
        None => {
            let mut signal = Signal::new(method.ident.dup());
            method.ident.name = method_name("", name.as_str(), "_class_handler");
            signal.name = name;
            signal.flags = flags;
            signal.emit = emit;
            signal.connect = connect;
            signal.interface = is_interface;
            signal.handler = Some(method);
            push_back(signals, signal);
            None
        },
    }
}

fn with_accumulator_method(signals: &mut Vec<Signal>, method: Method, attr: &Attribute) -> (r:
    Option<Diagnostic>)
    ensures
        step_view(r, final(signals).deep_view()) == add_accumulator(
            old(signals).deep_view(),
            method@,
            attr@,
        ),
        r is Some ==> final(signals).deep_view() == old(signals).deep_view(),
{
    let mut method = method;
    if attr.args.is_some() {
        return failure(
            DiagnosticKind::UnexpectedAttribute(attr.path.name.clone()),
            attr.path.span,
        );
    }
    if method.output.is_none() {
        return failure(DiagnosticKind::AccumulatorWithoutReturnType, method.ident.span);
    }
    let found = position_of(signals, method.ident.name.as_str());
    let ghost before = signals.deep_view();
    match found {
        Some(i) => {
            assert(before[i as int] == signals[i as int]@);
            if signals[i].accumulator.is_some() {
                return failure(
                    DiagnosticKind::DuplicateAccumulator(method.ident.name),
                    method.ident.span,
                );
            }
            let mut signal = take_at(signals, i);
            method.ident.name = String::from_str("____accumulator");
            signal.accumulator = Some(method);
            put_at(signals, i, signal);
            proof {
                lemma_remove_insert(before, i as int, signal@);
            }
            None
        },
        None => {
            let mut signal = Signal::new(method.ident.dup());
            method.ident.name = String::from_str("____accumulator");
            signal.accumulator = Some(method);
            push_back(signals, signal);
            None
        },
    }
}

fn with_method(signals: &mut Vec<Signal>, method: Method, pos: usize, is_interface: bool) -> (r:
    Option<Diagnostic>)
    requires
        signal_attr(method@) == Some(pos as int),
        pos < method.attrs.len(),
    ensures
        step_view(r, final(signals).deep_view()) == add_method(
            old(signals).deep_view(),
            method@,
            is_interface,
        ),
        r is Some ==> final(signals).deep_view() == old(signals).deep_view(),
{
    let mut method = method;
    let attr = take_at(&mut method.attrs, pos);
    if method.attrs.len() > 0 {
        assert(method.attrs.deep_view()[0] == method.attrs[0]@);
        return failure(
            DiagnosticKind::UnknownSignalAttribute(method.attrs[0].path.name.clone()),
            method.attrs[0].path.span,
        );
    }
    if attr.path.is("signal") {
        with_handler_method(signals, method, &attr.args, is_interface)
    } else {
        with_accumulator_method(signals, method, &attr)
    }
}

/// Appends a diagnostic for each signal that has no handler.
pub fn report_missing_handlers(signals: &Vec<Signal>, diagnostics: &mut Vec<Diagnostic>)
    ensures
        final(diagnostics).deep_view() == old(diagnostics).deep_view() + missing_handlers(
            signals.deep_view(),
        ),
{
    let ghost head = diagnostics.deep_view();
    let ghost all = signals.deep_view();
    let mut i: usize = 0;
    proof {
        assert(all.take(0) =~= Seq::empty());
        assert(diagnostics.deep_view() =~= head + missing_handlers(all.take(0)));
    }
    while i < signals.len()
        invariant
            i <= signals.len(),
            all == signals.deep_view(),
            diagnostics.deep_view() == head + missing_handlers(all.take(i as int)),
        decreases signals.len() - i,
    {
        proof {
            assert(all.take(i + 1).drop_last() =~= all.take(i as int));
            assert(all.take(i + 1).last() == signals[i as int]@);
        }
        if signals[i].handler.is_none() {
            let ghost before = missing_handlers(all.take(i as int));
            let d = Diagnostic::new(
                DiagnosticKind::AccumulatorWithoutHandler,
                signals[i].ident.span,
            );
            push_back(diagnostics, d);
            proof {
                assert(diagnostics.deep_view() =~= head + before.push(d@));
            }
        }
        i += 1;
    }
    proof {
        assert(all.take(signals.len() as int) =~= all);
    }
}

impl Signal {
    /// Reads the signals that the methods of an implementation block
    /// declare, gathers the diagnostics of all that fail, and takes those
    /// methods out of the block.
    pub fn from_items(items: &mut Vec<ImplItem>, is_interface: bool) -> (r: Result<
        Vec<Signal>,
        Vec<Diagnostic>,
    >)
        ensures
            signals_view(r) == from_items(old(items).deep_view(), is_interface),
            final(items).deep_view() == other_items(old(items).deep_view()),
            r matches Ok(signals) ==> forall|i: int|
                0 <= i < signals.len() ==> (#[trigger] signals[i])@.wf(),
    {
        let ghost all = items.deep_view();
        let mut taken: Vec<ImplItem> = Vec::new();
        std::mem::swap(items, &mut taken);
        let n = taken.len();
        let mut kept: Vec<ImplItem> = Vec::new();
        let mut signals: Vec<Signal> = Vec::new();
        let mut diagnostics: Vec<Diagnostic> = Vec::new();
        let mut i: usize = 0;
        proof {
            assert(all.take(0) =~= Seq::empty());
            assert(kept.deep_view() =~= Seq::empty());
            assert(signals.deep_view() =~= Seq::empty());
            assert(diagnostics.deep_view() =~= Seq::empty());
            assert(taken.deep_view().skip(0) =~= taken.deep_view());
        }
        while i < n
            invariant
                i <= n,
                n == all.len(),
                all == old(items).deep_view(),
                taken.len() == n - i,
                taken.deep_view() == all.skip(i as int),
                collect(all.take(i as int), is_interface) == (SignalsRead {
                    signals: signals.deep_view(),
                    diagnostics: diagnostics.deep_view(),
                }),
                kept.deep_view() == other_items(all.take(i as int)),
            decreases n - i,
        {
            proof {
                assert(all.take(i + 1).drop_last() =~= all.take(i as int));
                assert(all.take(i + 1).last() == all[i as int]);
                assert(taken.deep_view()[0] == all[i as int]);
            }
            let item = take_at(&mut taken, 0);
            proof {
                assert(all.skip(i as int).remove(0) =~= all.skip(i + 1));
            }
            match item {
                ImplItem::Method(method) => {
                    match find_attr(&method.attrs, "signal", "accumulator") {
                        Some(pos) => {
                            match with_method(&mut signals, method, pos, is_interface) {
                                Some(d) => {
                                    push_back(&mut diagnostics, d);
                                },
                                None => {},
                            }
                        },
                        None => {
                            push_back(&mut kept, ImplItem::Method(method));
                        },
                    }
                },
                other => {
                    push_back(&mut kept, other);
                },
            }
            i += 1;
        }
        proof {
            assert(all.take(n as int) =~= all);
        }
        report_missing_handlers(&signals, &mut diagnostics);
        proof {
            lemma_from_items_wf(all, is_interface);
            if diagnostics.len() == 0 {
                assert(diagnostics.deep_view().len() == 0);
                assert(from_items(all, is_interface) == Ok::<Seq<SpecSignal>, Seq<SpecDiagnostic>>(
                    signals.deep_view(),
                ));
                let read = signals.deep_view();
                lemma_from_items_wf(all, is_interface);
                assert(read.len() == signals.len());
                assert(from_items(all, is_interface)->Ok_0 == read);
                assert(forall|i: int| 0 <= i < read.len() ==> (#[trigger] read[i]).wf());
                assert forall|i: int| 0 <= i < signals.len() implies (#[trigger] signals[i])@.wf() by {
                    assert(read[i] == signals[i]@);
                    assert(read[i].wf());
                }
            }
        }
        *items = kept;
        if diagnostics.len() == 0 {
            Ok(signals)
        } else {
            Err(diagnostics)
        }
    }
}

} // verus!
