//! The fragments that a type's signals and properties generate, gathered
//! in the order of their declaration.

use vstd::prelude::*;
use vstd::string::*;
use crate::collections::{extend, opt_seq, push_back, push_some};
use crate::property::{Property, SpecProperty};
use crate::signal::{ImplItem, Signal, SpecImplItem, SpecSignal};
use crate::text::{
    angle_list, concat_wrapped, copy_strings, join, join_with, where_clause, write_angle_list,
    write_where_clause, write_wrapped,
};
use crate::util::{
    generated_method_name, has_method, make_stmt, stmt_text, ClassInheritance, ObjectDefinition,
    SpecClassInheritance, SpecObjectDefinition,
};

verus! {

/// An optional fragment as a list of statements.
pub open spec fn opt_stmt(o: Option<Seq<char>>) -> Seq<Seq<char>> {
    match o {
        Some(t) => seq![stmt_text(t)],
        None => Seq::empty(),
    }
}

/// The library's own items under the given alias.
pub open spec fn glib_path(go: Seq<char>) -> Seq<char> {
    go + "::glib"@
}

impl SpecSignal {
    /// The headers of the methods that the signal generates: the one that
    /// returns its entry, then those that emit it and connect to it where
    /// they are wanted.
    pub open spec fn prototypes(self, glib: Seq<char>) -> Seq<Seq<char>> {
        seq![stmt_text(self.signal_prototype(glib))] + (if self.emit {
            seq![stmt_text(self.emit_prototype(glib))]
        } else {
            seq![]
        }) + (if self.connect {
            seq![stmt_text(self.connect_prototype(glib))]
        } else {
            seq![]
        })
    }

    /// The methods that the signal generates, in the order of their
    /// headers.
    pub open spec fn methods(self, index: nat, signals_path: Seq<char>, glib: Seq<char>) -> Seq<
        Seq<char>,
    > {
        seq![self.signal_definition(index, signals_path, glib)] + (if self.emit {
            seq![self.emit_definition(index, signals_path, glib)]
        } else {
            seq![]
        }) + (if self.connect {
            seq![self.connect_definition(index, signals_path, glib)]
        } else {
            seq![]
        })
    }
}

impl SpecProperty {
    /// The headers of the methods that the property generates: for its
    /// entry, its notifier, its connect-notifier, its getter and its
    /// setter, as far as each is generated.
    pub open spec fn prototypes(self, go: Seq<char>) -> Seq<Seq<char>> {
        opt_stmt(self.pspec_prototype(glib_path(go))) + opt_stmt(self.notify_prototype())
            + opt_stmt(self.connect_prototype(glib_path(go))) + opt_stmt(
            self.getter_prototype(go),
        ) + opt_stmt(self.setter_prototype(go))
    }

    /// The methods that the property generates, in the order of their
    /// headers.
    pub open spec fn methods(
        self,
        index: nat,
        object_type: Seq<char>,
        properties_path: Seq<char>,
        go: Seq<char>,
    ) -> Seq<Seq<char>> {
        opt_seq(self.pspec_definition(index, properties_path, glib_path(go))) + opt_seq(
            self.notify_definition(index, properties_path, glib_path(go)),
        ) + opt_seq(self.connect_definition(glib_path(go))) + opt_seq(
            self.getter_definition(object_type, go),
        ) + opt_seq(self.setter_definition(index, object_type, properties_path, go))
    }
}

/// The headers of the methods of all signals.
pub open spec fn signal_prototypes(signals: Seq<SpecSignal>, glib: Seq<char>) -> Seq<Seq<char>>
    decreases signals.len(),
{
    if signals.len() == 0 {
        Seq::empty()
    } else {
        signal_prototypes(signals.drop_last(), glib) + signals.last().prototypes(glib)
    }
}

/// The methods of all signals; each signal is addressed by its position.
pub open spec fn signal_methods(signals: Seq<SpecSignal>, signals_path: Seq<char>, glib: Seq<char>) -> Seq<
    Seq<char>,
>
    decreases signals.len(),
{
    if signals.len() == 0 {
        Seq::empty()
    } else {
        signal_methods(signals.drop_last(), signals_path, glib) + signals.last().methods(
            (signals.len() - 1) as nat,
            signals_path,
            glib,
        )
    }
}

/// The class handlers of all signals that have one.
pub open spec fn handler_definitions(signals: Seq<SpecSignal>) -> Seq<Seq<char>>
    decreases signals.len(),
{
    if signals.len() == 0 {
        Seq::empty()
    } else {
        handler_definitions(signals.drop_last()) + opt_seq(signals.last().handler_definition())
    }
}

/// The entries of all signals in the registration table.
pub open spec fn signal_entries(
    signals: Seq<SpecSignal>,
    impl_type: Seq<char>,
    object_type: Option<Seq<char>>,
    glib: Seq<char>,
) -> Seq<Seq<char>> {
    Seq::new(signals.len(), |i: int| signals[i].create(impl_type, object_type, glib))
}

/// The entries of all properties in the registration table, in the order
/// of the declarations.
pub open spec fn property_entries(props: Seq<SpecProperty>, go: Seq<char>) -> Seq<Seq<char>>
    decreases props.len(),
{
    if props.len() == 0 {
        Seq::empty()
    } else {
        property_entries(props.drop_last(), go) + (if props.last().skip {
            seq![]
        } else {
            seq![props.last().create(go)]
        })
    }
}

/// The arms of the dispatch of writes by index. A property's index is its
/// position in the registration table, counted from one.
pub open spec fn property_set_impls(props: Seq<SpecProperty>, go: Seq<char>) -> Seq<Seq<char>>
    decreases props.len(),
{
    if props.len() == 0 {
        Seq::empty()
    } else {
        property_set_impls(props.drop_last(), go) + (if props.last().skip {
            seq![]
        } else {
            opt_seq(props.last().set_impl(property_entries(props.drop_last(), go).len() + 1, go))
        })
    }
}

/// The arms of the dispatch of reads by index.
pub open spec fn property_get_impls(props: Seq<SpecProperty>, go: Seq<char>) -> Seq<Seq<char>>
    decreases props.len(),
{
    if props.len() == 0 {
        Seq::empty()
    } else {
        property_get_impls(props.drop_last(), go) + (if props.last().skip {
            seq![]
        } else {
            opt_seq(props.last().get_impl(property_entries(props.drop_last(), go).len() + 1, go))
        })
    }
}

/// The headers of the methods of all properties.
pub open spec fn property_prototypes(props: Seq<SpecProperty>, go: Seq<char>) -> Seq<Seq<char>>
    decreases props.len(),
{
    if props.len() == 0 {
        Seq::empty()
    } else {
        property_prototypes(props.drop_last(), go) + (if props.last().skip {
            seq![]
        } else {
            props.last().prototypes(go)
        })
    }
}

/// The methods of all properties; each property is addressed by its
/// position among the declarations.
pub open spec fn property_methods(
    props: Seq<SpecProperty>,
    object_type: Seq<char>,
    properties_path: Seq<char>,
    go: Seq<char>,
) -> Seq<Seq<char>>
    decreases props.len(),
{
    if props.len() == 0 {
        Seq::empty()
    } else {
        property_methods(props.drop_last(), object_type, properties_path, go) + (if props.last().skip {
            seq![]
        } else {
            props.last().methods((props.len() - 1) as nat, object_type, properties_path, go)
        })
    }
}

/// The generic parameters of the type that is implemented.
#[derive(Debug)]
pub struct Generics {
    /// The parameters as they are declared.
    pub params: Vec<String>,
    /// The parameters as they are used.
    pub args: Vec<String>,
    /// The predicates of the `where` clause.
    pub predicates: Vec<String>,
}

/// The mathematical value of a [`Generics`].
pub ghost struct SpecGenerics {
    pub params: Seq<Seq<char>>,
    pub args: Seq<Seq<char>>,
    pub predicates: Seq<Seq<char>>,
}

impl DeepView for Generics {
    type V = SpecGenerics;

    open spec fn deep_view(&self) -> SpecGenerics {
        SpecGenerics {
            params: self.params.deep_view(),
            args: self.args.deep_view(),
            predicates: self.predicates.deep_view(),
        }
    }
}

impl View for Generics {
    type V = SpecGenerics;

    open spec fn view(&self) -> SpecGenerics {
        self.deep_view()
    }
}

/// The expression that builds a list of entries.
pub open spec fn entries_vec(entries: Seq<Seq<char>>) -> Seq<char> {
    "vec!["@ + join_with(entries, ", "@) + "]"@
}

/// The body of the function that returns a registration table: the table is
/// built once and kept.
pub open spec fn static_table(
    name: Seq<char>,
    item: Seq<char>,
    entries: Seq<Seq<char>>,
    glib: Seq<char>,
) -> Seq<char> {
    "static "@ + name + ": "@ + glib + "::once_cell::sync::Lazy<::std::vec::Vec<"@ + glib + "::"@
        + item + ">> = "@ + glib + "::once_cell::sync::Lazy::new(|| { "@ + entries_vec(entries)
        + " }); ::core::convert::AsRef::as_ref(::std::ops::Deref::deref(&"@ + name + "))"@
}

/// The function that returns the signals, where the type has a function
/// `signals` of its own: it builds the list at each call.
pub open spec fn inner_signals_fn(name: Seq<char>, entries: Seq<Seq<char>>, glib: Seq<char>) -> Seq<
    char,
> {
    "fn "@ + name + "() -> Vec<"@ + glib + "::subclass::Signal> { "@ + entries_vec(entries)
        + " }"@
}

/// The function `signals` of the type.
pub open spec fn signals_fn(name: Seq<char>, entries: Seq<Seq<char>>, glib: Seq<char>) -> Seq<
    char,
> {
    "fn "@ + name + "() -> &'static ["@ + glib + "::subclass::Signal] { "@ + static_table(
        "SIGNALS"@,
        "subclass::Signal"@,
        entries,
        glib,
    ) + " }"@
}

/// The type of the objects: the declared one, else the one that the
/// implemented type names.
pub open spec fn object_type_text(
    object_type: Option<Seq<char>>,
    impl_type: Seq<char>,
    glib: Seq<char>,
) -> Seq<char> {
    match object_type {
        Some(t) => t,
        None => "<"@ + impl_type + " as "@ + glib + "::subclass::types::ObjectSubclass>::Type"@,
    }
}

/// The generated methods as the public interface of the type: the methods
/// of a final class are its own; those of any other type form a trait that
/// every type derived from it implements.
pub open spec fn public_methods(
    inheritance: SpecClassInheritance,
    prototypes: Seq<Seq<char>>,
    methods: Seq<Seq<char>>,
    object_type: Seq<char>,
    generics: SpecGenerics,
    glib: Seq<char>,
) -> Seq<char> {
    match inheritance {
        SpecClassInheritance::Final => "impl"@ + angle_list(generics.params) + " "@ + object_type
            + angle_list(generics.args) + where_clause(generics.predicates) + " { "@
            + concat_wrapped("pub "@, methods, " "@) + "}"@,
        SpecClassInheritance::Abstract(name) => "pub trait "@ + name.name + ": 'static { "@
            + concat_wrapped(""@, prototypes, " "@) + "} impl"@ + angle_list(
            generics.params.push("____Object"@),
        ) + " "@ + name.name + " for ____Object"@ + angle_list(generics.args) + where_clause(
            generics.predicates.push("____Object: "@ + glib + "::IsA<"@ + object_type + ">"@),
        ) + " { "@ + concat_wrapped(""@, methods, " "@) + "}"@,
    }
}

/// What a type's declarations generate.
#[derive(Debug)]
pub struct Output {
    /// The methods that are added to the type's own implementation.
    pub private_impl_methods: Vec<String>,
    /// The arms of the dispatch of writes by index.
    pub prop_set_impls: Vec<String>,
    /// The arms of the dispatch of reads by index.
    pub prop_get_impls: Vec<String>,
    /// The body of the function that returns the properties' registration
    /// table; none where the type declares no property.
    pub prop_defs: Option<String>,
    /// The public interface.
    pub public_methods: String,
}

/// The mathematical value of an [`Output`].
pub ghost struct SpecOutput {
    pub private_impl_methods: Seq<Seq<char>>,
    pub prop_set_impls: Seq<Seq<char>>,
    pub prop_get_impls: Seq<Seq<char>>,
    pub prop_defs: Option<Seq<char>>,
    pub public_methods: Seq<char>,
}

impl DeepView for Output {
    type V = SpecOutput;

    open spec fn deep_view(&self) -> SpecOutput {
        SpecOutput {
            private_impl_methods: self.private_impl_methods.deep_view(),
            prop_set_impls: self.prop_set_impls.deep_view(),
            prop_get_impls: self.prop_get_impls.deep_view(),
            prop_defs: self.prop_defs.deep_view(),
            public_methods: self.public_methods@,
        }
    }
}

impl View for Output {
    type V = SpecOutput;

    open spec fn view(&self) -> SpecOutput {
        self.deep_view()
    }
}

impl SpecObjectDefinition {
    /// The function `signals` as an item of the type's implementation;
    /// none where there is no signal, or where the type has a function of
    /// that name itself.
    pub open spec fn signals_item(
        self,
        impl_type: Seq<char>,
        object_type: Option<Seq<char>>,
        glib: Seq<char>,
    ) -> Seq<SpecImplItem> {
        if self.signals.len() > 0 && !crate::util::declares_method(self.items, "signals"@) {
            seq![
                SpecImplItem::Other(
                    signals_fn(
                        generated_method_name(self.items, "signals"@),
                        signal_entries(self.signals, impl_type, object_type, glib),
                        glib,
                    ),
                ),
            ]
        } else {
            seq![]
        }
    }

    /// The function that returns the signals as a private method; none
    /// where there is no signal, or where the type has no function
    /// `signals` itself.
    pub open spec fn inner_signals(
        self,
        impl_type: Seq<char>,
        object_type: Option<Seq<char>>,
        glib: Seq<char>,
    ) -> Seq<Seq<char>> {
        if self.signals.len() > 0 && crate::util::declares_method(self.items, "signals"@) {
            seq![
                inner_signals_fn(
                    generated_method_name(self.items, "signals"@),
                    signal_entries(self.signals, impl_type, object_type, glib),
                    glib,
                ),
            ]
        } else {
            seq![]
        }
    }

    /// What the definition generates.
    pub open spec fn output(
        self,
        impl_type: Seq<char>,
        generics: SpecGenerics,
        object_type: Option<Seq<char>>,
        inheritance: SpecClassInheritance,
        signals_path: Seq<char>,
        properties_path: Seq<char>,
        go: Seq<char>,
    ) -> SpecOutput {
        let glib = glib_path(go);
        let object = object_type_text(object_type, impl_type, glib);
        let entries = property_entries(self.properties, go);
        SpecOutput {
            private_impl_methods: self.inner_signals(impl_type, object_type, glib)
                + handler_definitions(self.signals),
            prop_set_impls: property_set_impls(self.properties, go),
            prop_get_impls: property_get_impls(self.properties, go),
            prop_defs: if entries.len() == 0 {
                None
            } else {
                Some(static_table("PROPS"@, "ParamSpec"@, entries, glib))
            },
            public_methods: public_methods(
                inheritance,
                signal_prototypes(self.signals, glib) + property_prototypes(self.properties, go),
                signal_methods(self.signals, signals_path, glib) + property_methods(
                    self.properties,
                    object,
                    properties_path,
                    go,
                ),
                object,
                generics,
                glib,
            ),
        }
    }
}

fn write_entries_vec(entries: &Vec<String>) -> (r: String)
    ensures
        r@ == entries_vec(entries.deep_view()),
{
    let mut r = String::from_str("vec![");
    let list = join(entries, ", ");
    r.append(list.as_str());
    r.append("]");
    r
}

fn write_static_table(name: &str, item: &str, entries: &Vec<String>, glib: &str) -> (r: String)
    ensures
        r@ == static_table(name@, item@, entries.deep_view(), glib@),
{
    let mut r = String::from_str("static ");
    r.append(name);
    r.append(": ");
    r.append(glib);
    r.append("::once_cell::sync::Lazy<::std::vec::Vec<");
    r.append(glib);
    r.append("::");
    r.append(item);
    r.append(">> = ");
    r.append(glib);
    r.append("::once_cell::sync::Lazy::new(|| { ");
    let v = write_entries_vec(entries);
    r.append(v.as_str());
    r.append(" }); ::core::convert::AsRef::as_ref(::std::ops::Deref::deref(&");
    r.append(name);
    r.append("))");
    r
}

impl Signal {
    /// The headers of the methods that the signal generates.
    pub fn prototypes(&self, glib: &str) -> (r: Vec<String>)
        requires
            self@.handler is Some,
        ensures
            r.deep_view() == self@.prototypes(glib@),
    {
        let mut r: Vec<String> = Vec::new();
        r.push(make_stmt(self.signal_prototype(glib)));
        if self.emit {
            r.push(make_stmt(self.emit_prototype(glib)));
        }
        if self.connect {
            r.push(make_stmt(self.connect_prototype(glib)));
        }
        assert(r.deep_view() =~= self@.prototypes(glib@));
        r
    }

    /// The methods that the signal generates.
    pub fn methods(&self, index: usize, signals_path: &str, glib: &str) -> (r: Vec<String>)
        requires
            self@.handler is Some,
        ensures
            r.deep_view() == self@.methods(index as nat, signals_path@, glib@),
    {
        let mut r: Vec<String> = Vec::new();
        r.push(self.signal_definition(index, signals_path, glib));
        if self.emit {
            r.push(self.emit_definition(index, signals_path, glib));
        }
        if self.connect {
            r.push(self.connect_definition(index, signals_path, glib));
        }
        assert(r.deep_view() =~= self@.methods(index as nat, signals_path@, glib@));
        r
    }
}

fn stmt_of(o: Option<String>) -> (r: Option<String>)
    ensures
        opt_seq(r.deep_view()) == opt_stmt(o.deep_view()),
{
    match o {
        Some(t) => Some(make_stmt(t)),
        None => None,
    }
}

impl Property {
    /// The headers of the methods that the property generates.
    pub fn prototypes(&self, go: &str) -> (r: Vec<String>)
        ensures
            r.deep_view() == self@.prototypes(go@),
    {
        let mut glib = String::from_str(go);
        glib.append("::glib");
        let mut r: Vec<String> = Vec::new();
        assert(r.deep_view() =~= Seq::empty());
        push_some(&mut r, stmt_of(self.pspec_prototype(glib.as_str())));
        push_some(&mut r, stmt_of(self.notify_prototype()));
        push_some(&mut r, stmt_of(self.connect_prototype(glib.as_str())));
        push_some(&mut r, stmt_of(self.getter_prototype(go)));
        push_some(&mut r, stmt_of(self.setter_prototype(go)));
        assert(r.deep_view() =~= self@.prototypes(go@));
        r
    }

    /// The methods that the property generates.
    pub fn methods(&self, index: usize, object_type: &str, properties_path: &str, go: &str) -> (r:
        Vec<String>)
        requires
            self@.accessors_resolved(),
        ensures
            r.deep_view() == self@.methods(index as nat, object_type@, properties_path@, go@),
    {
        let mut glib = String::from_str(go);
        glib.append("::glib");
        let mut r: Vec<String> = Vec::new();
        assert(r.deep_view() =~= Seq::empty());
        push_some(&mut r, self.pspec_definition(index, properties_path, glib.as_str()));
        push_some(&mut r, self.notify_definition(index, properties_path, glib.as_str()));
        push_some(&mut r, self.connect_definition(glib.as_str()));
        push_some(&mut r, self.getter_definition(object_type, go));
        push_some(&mut r, self.setter_definition(index, object_type, properties_path, go));
        assert(r.deep_view() =~= self@.methods(
            index as nat,
            object_type@,
            properties_path@,
            go@,
        ));
        r
    }
}

/// Writes the generated methods as the public interface of the type.
pub fn write_public_methods(
    inheritance: &ClassInheritance,
    prototypes: &Vec<String>,
    methods: &Vec<String>,
    object_type: &str,
    generics: &Generics,
    glib: &str,
) -> (r: String)
    ensures
        r@ == public_methods(
            inheritance@,
            prototypes.deep_view(),
            methods.deep_view(),
            object_type@,
            generics@,
            glib@,
        ),
{
    match inheritance {
        ClassInheritance::Final => {
            let mut r = String::from_str("impl");
            let params = write_angle_list(&generics.params);
            r.append(params.as_str());
            r.append(" ");
            r.append(object_type);
            let args = write_angle_list(&generics.args);
            r.append(args.as_str());
            let clause = write_where_clause(&generics.predicates);
            r.append(clause.as_str());
            r.append(" { ");
            let body = write_wrapped("pub ", methods, " ");
            r.append(body.as_str());
            r.append("}");
            r
        },
        ClassInheritance::Abstract(name) => {
            let mut r = String::from_str("pub trait ");
            r.append(name.name.as_str());
            r.append(": 'static { ");
            let protos = write_wrapped("", prototypes, " ");
            r.append(protos.as_str());
            r.append("} impl");
            let mut params = copy_strings(&generics.params);
            push_back(&mut params, String::from_str("____Object"));
            let params = write_angle_list(&params);
            r.append(params.as_str());
            r.append(" ");
            r.append(name.name.as_str());
            r.append(" for ____Object");
            let args = write_angle_list(&generics.args);
            r.append(args.as_str());
            let mut predicate = String::from_str("____Object: ");
            predicate.append(glib);
            predicate.append("::IsA<");
            predicate.append(object_type);
            predicate.append(">");
            let mut predicates = copy_strings(&generics.predicates);
            push_back(&mut predicates, predicate);
            let clause = write_where_clause(&predicates);
            r.append(clause.as_str());
            r.append(" { ");
            let body = write_wrapped("", methods, " ");
            r.append(body.as_str());
            r.append("}");
            r
        },
    }
}

/// Writes the entries of all signals in the registration table.
pub fn write_signal_entries(
    signals: &Vec<Signal>,
    impl_type: &str,
    object_type: Option<&str>,
    glib: &str,
) -> (r: Vec<String>)
    requires
        forall|i: int| 0 <= i < signals.len() ==> (#[trigger] signals[i])@.handler is Some,
    ensures
        r.deep_view() == signal_entries(
            signals.deep_view(),
            impl_type@,
            object_type.deep_view(),
            glib@,
        ),
{
    let mut entries: Vec<String> = Vec::new();
    let mut i: usize = 0;
    while i < signals.len()
        invariant
            i <= signals.len(),
            forall|i: int| 0 <= i < signals.len() ==> (#[trigger] signals[i])@.handler is Some,
            entries.len() == i,
            forall|j: int|
                0 <= j < i ==> (#[trigger] entries[j])@ == signals[j]@.create(
                    impl_type@,
                    object_type.deep_view(),
                    glib@,
                ),
        decreases signals.len() - i,
    {
        entries.push(signals[i].create(impl_type, object_type, glib));
        i += 1;
    }
    assert(entries.deep_view() =~= signal_entries(
        signals.deep_view(),
        impl_type@,
        object_type.deep_view(),
        glib@,
    ));
    entries
}

/// The fragments that the signals generate.
pub struct SignalFragments {
    pub prototypes: Vec<String>,
    pub methods: Vec<String>,
    pub handlers: Vec<String>,
}

/// Gathers the fragments that the signals generate.
pub fn signal_fragments(signals: &Vec<Signal>, signals_path: &str, glib: &str) -> (r:
    SignalFragments)
    requires
        forall|i: int| 0 <= i < signals.len() ==> (#[trigger] signals[i])@.handler is Some,
    ensures
        r.prototypes.deep_view() == signal_prototypes(signals.deep_view(), glib@),
        r.methods.deep_view() == signal_methods(signals.deep_view(), signals_path@, glib@),
        r.handlers.deep_view() == handler_definitions(signals.deep_view()),
{
    let ghost all = signals.deep_view();
    let mut prototypes: Vec<String> = Vec::new();
    let mut methods: Vec<String> = Vec::new();
    let mut handlers: Vec<String> = Vec::new();
    proof {
        assert(handlers.deep_view() =~= Seq::empty());
        assert(prototypes.deep_view() =~= Seq::empty());
        assert(methods.deep_view() =~= Seq::empty());
        assert(all.take(0) =~= Seq::empty());
    }
    let mut i: usize = 0;
    while i < signals.len()
        invariant
            i <= signals.len(),
            all == signals.deep_view(),
            forall|i: int| 0 <= i < signals.len() ==> (#[trigger] signals[i])@.handler is Some,
            prototypes.deep_view() == signal_prototypes(all.take(i as int), glib@),
            methods.deep_view() == signal_methods(all.take(i as int), signals_path@, glib@),
            handlers.deep_view() == handler_definitions(all.take(i as int)),
        decreases signals.len() - i,
    {
        proof {
            assert(all.take(i + 1).drop_last() =~= all.take(i as int));
            assert(all.take(i + 1).last() == all[i as int]);
            assert(all[i as int] == signals[i as int]@);
        }
        let signal = &signals[i];
        extend(&mut prototypes, signal.prototypes(glib));
        extend(&mut methods, signal.methods(i, signals_path, glib));
        push_some(&mut handlers, signal.handler_definition());
        i += 1;
    }
    proof {
        assert(all.take(signals.len() as int) =~= all);
    }
    SignalFragments { prototypes, methods, handlers }
}

/// The fragments that the properties generate.
pub struct PropertyFragments {
    pub entries: Vec<String>,
    pub set_impls: Vec<String>,
    pub get_impls: Vec<String>,
    pub prototypes: Vec<String>,
    pub methods: Vec<String>,
}

/// Gathers the fragments that the properties generate.
pub fn property_fragments(
    props: &Vec<Property>,
    object_type: &str,
    properties_path: &str,
    go: &str,
) -> (r: PropertyFragments)
    requires
        forall|i: int| 0 <= i < props.len() ==> (#[trigger] props[i])@.accessors_resolved(),
    ensures
        r.entries.deep_view() == property_entries(props.deep_view(), go@),
        r.set_impls.deep_view() == property_set_impls(props.deep_view(), go@),
        r.get_impls.deep_view() == property_get_impls(props.deep_view(), go@),
        r.prototypes.deep_view() == property_prototypes(props.deep_view(), go@),
        r.methods.deep_view() == property_methods(
            props.deep_view(),
            object_type@,
            properties_path@,
            go@,
        ),
{
    let ghost all = props.deep_view();
    let mut entries: Vec<String> = Vec::new();
    let mut set_impls: Vec<String> = Vec::new();
    let mut get_impls: Vec<String> = Vec::new();
    let mut prototypes: Vec<String> = Vec::new();
    let mut methods: Vec<String> = Vec::new();
    let mut i: usize = 0;
    proof {
        assert(all.take(0) =~= Seq::empty());
        assert(entries.deep_view() =~= Seq::empty());
        assert(set_impls.deep_view() =~= Seq::empty());
        assert(get_impls.deep_view() =~= Seq::empty());
        assert(prototypes.deep_view() =~= Seq::empty());
        assert(methods.deep_view() =~= Seq::empty());
    }
    while i < props.len()
        invariant
            i <= props.len(),
            all == props.deep_view(),
            forall|i: int| 0 <= i < props.len() ==> (#[trigger] props[i])@.accessors_resolved(),
            entries.len() <= i,
            entries.deep_view() == property_entries(all.take(i as int), go@),
            set_impls.deep_view() == property_set_impls(all.take(i as int), go@),
            get_impls.deep_view() == property_get_impls(all.take(i as int), go@),
            prototypes.deep_view() == property_prototypes(all.take(i as int), go@),
            methods.deep_view() == property_methods(
                all.take(i as int),
                object_type@,
                properties_path@,
                go@,
            ),
        decreases props.len() - i,
    {
        proof {
            assert(all.take(i + 1).drop_last() =~= all.take(i as int));
            assert(all.take(i + 1).last() == all[i as int]);
            assert(all[i as int] == props[i as int]@);
        }
        let prop = &props[i];
        let ghost e0 = entries.deep_view();
        let ghost s0 = set_impls.deep_view();
        let ghost g0 = get_impls.deep_view();
        let ghost p0 = prototypes.deep_view();
        let ghost m0 = methods.deep_view();
        if !prop.skip {
            let index = entries.len() + 1;
            assert(index == e0.len() + 1);
            push_some(&mut set_impls, prop.set_impl(index, go));
            push_some(&mut get_impls, prop.get_impl(index, go));
            push_back(&mut entries, prop.create(go));
            extend(&mut prototypes, prop.prototypes(go));
            extend(&mut methods, prop.methods(i, object_type, properties_path, go));
            proof {
                assert(entries.deep_view() =~= e0 + seq![prop@.create(go@)]);
            }
        } else {
            proof {
                assert(entries.deep_view() =~= e0 + Seq::empty());
                assert(set_impls.deep_view() =~= s0 + Seq::empty());
                assert(get_impls.deep_view() =~= g0 + Seq::empty());
                assert(prototypes.deep_view() =~= p0 + Seq::empty());
                assert(methods.deep_view() =~= m0 + Seq::empty());
            }
        }
        i += 1;
    }
    proof {
        assert(all.take(props.len() as int) =~= all);
    }
    PropertyFragments { entries, set_impls, get_impls, prototypes, methods }
}

/// Writes the function that returns the signals.
pub fn write_signals_fn(private: bool, name: &str, entries: &Vec<String>, glib: &str) -> (r: String)
    ensures
        r@ == if private {
            inner_signals_fn(name@, entries.deep_view(), glib@)
        } else {
            signals_fn(name@, entries.deep_view(), glib@)
        },
{
    let mut f = String::from_str("fn ");
    f.append(name);
    if private {
        f.append("() -> Vec<");
        f.append(glib);
        f.append("::subclass::Signal> { ");
        let v = write_entries_vec(entries);
        f.append(v.as_str());
        f.append(" }");
    } else {
        f.append("() -> &'static [");
        f.append(glib);
        f.append("::subclass::Signal] { ");
        let t = write_static_table("SIGNALS", "subclass::Signal", entries, glib);
        f.append(t.as_str());
        f.append(" }");
    }
    f
}

impl Output {
    /// Gathers what a type's signals and properties generate. Where the
    /// type declares signals and has no function `signals` of its own, that
    /// function is added to the items of the definition.
    pub fn new(
        definition: &mut ObjectDefinition,
        impl_type: &str,
        generics: &Generics,
        object_type: Option<&str>,
        inheritance: &ClassInheritance,
        signals_path: &str,
        properties_path: &str,
        go: &str,
    ) -> (r: Output)
        requires
            old(definition)@.wf(),
        ensures
            r@ == old(definition)@.output(
                impl_type@,
                generics@,
                object_type.deep_view(),
                inheritance@,
                signals_path@,
                properties_path@,
                go@,
            ),
            final(definition)@ == (SpecObjectDefinition {
                items: old(definition)@.items + old(definition)@.signals_item(
                    impl_type@,
                    object_type.deep_view(),
                    glib_path(go@),
                ),
                ..old(definition)@
            }),
    {
        let mut glib_s = String::from_str(go);
        glib_s.append("::glib");
        let glib = glib_s.as_str();
        let object = match object_type {
            Some(t) => String::from_str(t),
            None => {
                let mut s = String::from_str("<");
                s.append(impl_type);
                s.append(" as ");
                s.append(glib);
                s.append("::subclass::types::ObjectSubclass>::Type");
                s
            },
        };
        let ghost def = definition@;
        proof {
            assert forall|i: int| 0 <= i < definition.signals.len() implies (
            #[trigger] definition.signals[i])@.handler is Some by {
                assert(def.signals[i] == definition.signals[i]@);
            }
            assert forall|i: int| 0 <= i < definition.properties.len() implies (
            #[trigger] definition.properties[i])@.accessors_resolved() by {
                assert(def.properties[i] == definition.properties[i]@);
            }
        }
        let mut private_impl_methods: Vec<String> = Vec::new();
        assert(private_impl_methods.deep_view() =~= Seq::empty());
        if definition.signals.len() > 0 {
            let entries = write_signal_entries(&definition.signals, impl_type, object_type, glib);
            let (has_signals, signals_ident) = has_method(&definition.items, "signals");
            let f = write_signals_fn(has_signals, signals_ident.as_str(), &entries, glib);
            if has_signals {
                push_back(&mut private_impl_methods, f);
            } else {
                push_back(&mut definition.items, ImplItem::Other(f));
            }
        }
        proof {
            assert(private_impl_methods.deep_view() =~= def.inner_signals(
                impl_type@,
                object_type.deep_view(),
                glib@,
            ));
            assert(definition.items.deep_view() =~= def.items + def.signals_item(
                impl_type@,
                object_type.deep_view(),
                glib@,
            ));
        }
        let SignalFragments { prototypes, methods, handlers } = signal_fragments(
            &definition.signals,
            signals_path,
            glib,
        );
        let props = property_fragments(&definition.properties, object.as_str(), properties_path, go);
        extend(&mut private_impl_methods, handlers);
        let mut prototypes = prototypes;
        let mut methods = methods;
        extend(&mut prototypes, props.prototypes);
        extend(&mut methods, props.methods);
        let prop_defs = if props.entries.len() == 0 {
            None
        } else {
            Some(write_static_table("PROPS", "ParamSpec", &props.entries, glib))
        };
        let public_methods = write_public_methods(
            inheritance,
            &prototypes,
            &methods,
            object.as_str(),
            generics,
            glib,
        );
        Output {
            private_impl_methods,
            prop_set_impls: props.set_impls,
            prop_get_impls: props.get_impls,
            prop_defs,
            public_methods,
        }
    }
}

/// The last arm of a dispatch by index: an index that belongs to no
/// property aborts, and says which index, property, type and object it was
/// asked for.
pub open spec fn default_arm(glib: Seq<char>) -> Seq<char> {
    "_ => unimplemented!(\"invalid property id {} for \\\"{}\\\" of type '{}' in '{}'\", id, pspec.name(), pspec.type_().name(), <<Self as "@
        + glib + "::subclass::types::ObjectSubclass>::Type as "@ + glib
        + "::object::ObjectExt>::type_(obj).name())"@
}

/// The function that writes a property by its index.
pub open spec fn set_property_fn(name: Seq<char>, arms: Seq<Seq<char>>, glib: Seq<char>) -> Seq<
    char,
> {
    "fn "@ + name + "(&self, obj: &<Self as "@ + glib
        + "::subclass::types::ObjectSubclass>::Type, id: usize, value: &"@ + glib
        + "::Value, pspec: &"@ + glib + "::ParamSpec) { match id { "@ + concat_wrapped(
        ""@,
        arms,
        " "@,
    ) + default_arm(glib) + " } }"@
}

/// The function that reads a property by its index.
pub open spec fn property_fn(name: Seq<char>, arms: Seq<Seq<char>>, glib: Seq<char>) -> Seq<char> {
    "fn "@ + name + "(&self, obj: &<Self as "@ + glib
        + "::subclass::types::ObjectSubclass>::Type, id: usize, pspec: &"@ + glib
        + "::ParamSpec) -> "@ + glib + "::Value { match id { "@ + concat_wrapped(
        ""@,
        arms,
        " "@,
    ) + default_arm(glib) + " } }"@
}

/// The function that returns the properties' registration table.
pub open spec fn properties_fn(name: Seq<char>, table: Seq<char>, glib: Seq<char>) -> Seq<char> {
    "fn "@ + name + "() -> &'static ["@ + glib + "::ParamSpec] { "@ + table + " }"@
}

/// Where a generated function goes: among the items of the type's
/// implementation, or, where the type has a function of that name itself,
/// among the private methods.
pub ghost struct Placed {
    pub items: Seq<SpecImplItem>,
    pub private: Seq<Seq<char>>,
}

/// A generated function placed after those that are placed already.
pub open spec fn place(
    placed: Placed,
    own: Seq<SpecImplItem>,
    name: Seq<char>,
    text: Seq<char>,
) -> Placed {
    if crate::util::declares_method(own, name) {
        Placed { private: placed.private.push(text), ..placed }
    } else {
        Placed { items: placed.items.push(SpecImplItem::Other(text)), ..placed }
    }
}

impl SpecOutput {
    /// The functions of the type that serve its properties, placed: the one
    /// that returns the registration table, the one that writes by index
    /// and the one that reads by index. None where the type declares no
    /// property.
    pub open spec fn property_functions(self, items: Seq<SpecImplItem>, glib: Seq<char>) -> Placed {
        let start = Placed { items, private: self.private_impl_methods };
        match self.prop_defs {
            None => start,
            Some(table) => {
                let a = place(
                    start,
                    items,
                    "properties"@,
                    properties_fn(generated_method_name(items, "properties"@), table, glib),
                );
                let b = place(
                    a,
                    items,
                    "set_property"@,
                    set_property_fn(
                        generated_method_name(items, "set_property"@),
                        self.prop_set_impls,
                        glib,
                    ),
                );
                place(
                    b,
                    items,
                    "property"@,
                    property_fn(
                        generated_method_name(items, "property"@),
                        self.prop_get_impls,
                        glib,
                    ),
                )
            },
        }
    }
}

fn write_default_arm(glib: &str) -> (r: String)
    ensures
        r@ == default_arm(glib@),
{
    let mut r = String::from_str(
        "_ => unimplemented!(\"invalid property id {} for \\\"{}\\\" of type '{}' in '{}'\", id, pspec.name(), pspec.type_().name(), <<Self as ",
    );
    r.append(glib);
    r.append("::subclass::types::ObjectSubclass>::Type as ");
    r.append(glib);
    r.append("::object::ObjectExt>::type_(obj).name())");
    r
}

/// Writes the function that writes a property by its index.
pub fn write_set_property_fn(name: &str, arms: &Vec<String>, glib: &str) -> (r: String)
    ensures
        r@ == set_property_fn(name@, arms.deep_view(), glib@),
{
    let mut r = String::from_str("fn ");
    r.append(name);
    r.append("(&self, obj: &<Self as ");
    r.append(glib);
    r.append("::subclass::types::ObjectSubclass>::Type, id: usize, value: &");
    r.append(glib);
    r.append("::Value, pspec: &");
    r.append(glib);
    r.append("::ParamSpec) { match id { ");
    let body = write_wrapped("", arms, " ");
    r.append(body.as_str());
    let last = write_default_arm(glib);
    r.append(last.as_str());
    r.append(" } }");
    r
}

/// Writes the function that reads a property by its index.
pub fn write_property_fn(name: &str, arms: &Vec<String>, glib: &str) -> (r: String)
    ensures
        r@ == property_fn(name@, arms.deep_view(), glib@),
{
    let mut r = String::from_str("fn ");
    r.append(name);
    r.append("(&self, obj: &<Self as ");
    r.append(glib);
    r.append("::subclass::types::ObjectSubclass>::Type, id: usize, pspec: &");
    r.append(glib);
    r.append("::ParamSpec) -> ");
    r.append(glib);
    r.append("::Value { match id { ");
    let body = write_wrapped("", arms, " ");
    r.append(body.as_str());
    let last = write_default_arm(glib);
    r.append(last.as_str());
    r.append(" } }");
    r
}

/// Writes the function that returns the properties' registration table.
pub fn write_properties_fn(name: &str, table: &str, glib: &str) -> (r: String)
    ensures
        r@ == properties_fn(name@, table@, glib@),
{
    let mut r = String::from_str("fn ");
    r.append(name);
    r.append("() -> &'static [");
    r.append(glib);
    r.append("::ParamSpec] { ");
    r.append(table);
    r.append(" }");
    r
}

impl Output {
    /// Adds the functions of the type that serve its properties: each to
    /// the items of the definition, or, where the type has a function of
    /// that name itself, to the private methods.
    pub fn add_property_functions(&mut self, definition: &mut ObjectDefinition, glib: &str)
        ensures
            final(definition)@ == (SpecObjectDefinition {
                items: old(self)@.property_functions(old(definition)@.items, glib@).items,
                ..old(definition)@
            }),
            final(self)@ == (SpecOutput {
                private_impl_methods: old(self)@.property_functions(
                    old(definition)@.items,
                    glib@,
                ).private,
                ..old(self)@
            }),
    {
        let table = match &self.prop_defs {
            None => {
                return ;
            },
            Some(table) => table.clone(),
        };
        let (own_properties, properties_name) = has_method(&definition.items, "properties");
        let (own_set, set_name) = has_method(&definition.items, "set_property");
        let (own_get, get_name) = has_method(&definition.items, "property");
        let properties = write_properties_fn(properties_name.as_str(), table.as_str(), glib);
        let set = write_set_property_fn(set_name.as_str(), &self.prop_set_impls, glib);
        let get = write_property_fn(get_name.as_str(), &self.prop_get_impls, glib);
        if own_properties {
            push_back(&mut self.private_impl_methods, properties);
        } else {
            push_back(&mut definition.items, ImplItem::Other(properties));
        }
        if own_set {
            push_back(&mut self.private_impl_methods, set);
        } else {
            push_back(&mut definition.items, ImplItem::Other(set));
        }
        if own_get {
            push_back(&mut self.private_impl_methods, get);
        } else {
            push_back(&mut definition.items, ImplItem::Other(get));
        }
    }
}

} // verus!
