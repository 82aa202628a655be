use gobject_impl_macros::attr::{AttrEntry, AttrValue, Attribute, Literal};
use gobject_impl_macros::diag::{Diagnostic, DiagnosticKind, Ident, Span};
use gobject_impl_macros::flags::SignalFlags;
use gobject_impl_macros::signal::{
    FnArg, ImplItem, Method, PatType, Signal, SignalAccumulatorAttrs, SignalAttrs,
};
use std::str::FromStr;

fn at(n: usize) -> Span {
    Span { start: n, end: n + 1 }
}

fn ident(name: &str, n: usize) -> Ident {
    Ident { name: name.to_string(), span: at(n) }
}

fn bare(key: &str, n: usize) -> AttrEntry {
    AttrEntry { negated: false, key: ident(key, n), value: AttrValue::Bare, value_span: at(n) }
}

fn not(key: &str, n: usize) -> AttrEntry {
    AttrEntry { negated: true, key: ident(key, n), value: AttrValue::Bare, value_span: at(n) }
}

fn string(key: &str, value: &str, n: usize) -> AttrEntry {
    AttrEntry {
        negated: false,
        key: ident(key, n),
        value: AttrValue::Lit(Literal::Str(value.to_string())),
        value_span: at(n + 100),
    }
}

fn recv() -> FnArg {
    FnArg::Receiver("&self".to_string())
}

fn arg(name: &str, ty: &str) -> FnArg {
    FnArg::Typed(PatType { pat: name.to_string(), ident: Some(name.to_string()), ty: ty.to_string() })
}

fn pattern(pat: &str, ty: &str) -> FnArg {
    FnArg::Typed(PatType { pat: pat.to_string(), ident: None, ty: ty.to_string() })
}

fn method(
    attr: &str,
    args: Option<Vec<AttrEntry>>,
    name: &str,
    n: usize,
    inputs: Vec<FnArg>,
    output: Option<&str>,
    body: &str,
) -> ImplItem {
    ImplItem::Method(Method {
        ident: ident(name, n),
        attrs: vec![Attribute { path: ident(attr, n + 500), args }],
        inputs,
        output: output.map(|s| s.to_string()),
        block: format!("{{ {} }}", body),
        is_empty: body.is_empty(),
    })
}

fn plain_method(name: &str) -> ImplItem {
    ImplItem::Method(Method {
        ident: ident(name, 0),
        attrs: vec![],
        inputs: vec![recv()],
        output: None,
        block: "{ }".to_string(),
        is_empty: true,
    })
}

fn signal(args: Option<Vec<AttrEntry>>, name: &str, n: usize, inputs: Vec<FnArg>, output: Option<&str>, body: &str) -> ImplItem {
    method("signal", args, name, n, inputs, output, body)
}

fn accumulator(name: &str, n: usize, inputs: Vec<FnArg>, output: Option<&str>, body: &str) -> ImplItem {
    method("accumulator", None, name, n, inputs, output, body)
}

fn norm(text: &str) -> String {
    proc_macro2::TokenStream::from_str(text).expect("tokens").to_string()
}

fn same_tokens(actual: &str, expected: &str) {
    assert_eq!(norm(actual), norm(expected), "\nactual:   {}\nexpected: {}", actual, expected);
}

fn only(r: Result<Vec<Signal>, Vec<Diagnostic>>) -> Diagnostic {
    match r {
        Ok(s) => panic!("expected a diagnostic, got {:?}", s),
        Err(mut d) => {
            assert_eq!(d.len(), 1, "{:?}", d);
            d.remove(0)
        }
    }
}

fn kind(r: Result<Vec<Signal>, Vec<Diagnostic>>) -> DiagnosticKind {
    only(r).kind
}

fn the_signals() -> Vec<ImplItem> {
    vec![
        signal(None, "noparam", 1, vec![recv()], None, ""),
        plain_method("constructed"),
        signal(None, "param", 2, vec![recv(), arg("hello", "i32")], None, ""),
        signal(
            Some(vec![bare("run_last", 30)]),
            "with_handler",
            3,
            vec![recv(), arg("_hello", "i32"), arg("world", "String")],
            None,
            "self.append(&(world + \" last\"));",
        ),
        signal(Some(vec![bare("run_first", 40)]), "with_retval", 4, vec![recv(), arg("val", "i32")], Some("i32"), "val + 5"),
        signal(
            Some(vec![bare("run_first", 50)]),
            "with_accumulator",
            5,
            vec![recv(), arg("val", "i32")],
            Some("i32"),
            "val + 10",
        ),
        accumulator(
            "with_accumulator",
            6,
            vec![pattern("accu", "&mut i32"), arg("val", "i32")],
            Some("bool"),
            "*accu += val; true",
        ),
        ImplItem::Other("const X: u8 = 1;".to_string()),
        signal(
            Some(vec![bare("detailed", 70), bare("run_cleanup", 71)]),
            "has_detail",
            7,
            vec![recv(), arg("val", "u32")],
            Some("u32"),
            "val + 7",
        ),
        accumulator(
            "has_detail",
            8,
            vec![
                arg("hint", "&glib::subclass::signal::SignalInvocationHint"),
                arg("accu", "&mut u32"),
                arg("val", "u32"),
            ],
            Some("glib::Continue"),
            "*accu += val; glib::Continue(true)",
        ),
    ]
}

#[test]
fn signals_of_a_block() {
    let mut items = the_signals();
    let signals = Signal::from_items(&mut items, false).unwrap();
    let names: Vec<&str> = signals.iter().map(|s| s.name.as_str()).collect();
    assert_eq!(names, ["noparam", "param", "with-handler", "with-retval", "with-accumulator", "has-detail"]);
    assert_eq!(items.len(), 2);
    assert!(matches!(&items[0], ImplItem::Method(m) if m.ident.name == "constructed"));
    assert!(matches!(&items[1], ImplItem::Other(t) if t == "const X: u8 = 1;"));
    assert_eq!(signals[2].flags.bits(), SignalFlags::RUN_LAST);
    assert_eq!(signals[5].flags.bits(), SignalFlags::DETAILED | SignalFlags::RUN_CLEANUP);
    assert!(signals[5].detailed());
    assert!(!signals[4].detailed());
    assert_eq!(signals[4].ident.name, "with_accumulator");
    assert_eq!(signals[4].handler.as_ref().unwrap().ident.name, "with_accumulator_class_handler");
    assert_eq!(signals[4].accumulator.as_ref().unwrap().ident.name, "____accumulator");
    assert!(signals[0].accumulator.is_none());
    assert!(signals.iter().all(|s| s.emit && s.connect && !s.interface));
}

#[test]
fn accumulated_signal() {
    let mut items = the_signals();
    let signals = Signal::from_items(&mut items, false).unwrap();
    let s = &signals[4];
    same_tokens(&s.emit_prototype("G"), "fn emit_with_accumulator(&self, val: i32) -> i32");
    same_tokens(
        &s.emit_definition(4, "Self::signals", "G"),
        "#[inline] fn emit_with_accumulator(&self, val: i32) -> i32 { \
         let ret = <Self as G::object::ObjectExt>::emit(self, Self::signals()[4usize].signal_id(), &[&val]); \
         let ret = G::closure::TryFromClosureReturnValue::try_from_closure_return_value(ret).unwrap(); ret }",
    );
    let create = s.create("Priv", None, "G");
    same_tokens(
        &create,
        "{ let param_types = [<G::subclass::SignalType as ::core::convert::From<G::Type>>::from(\
         <i32 as G::types::StaticType>::static_type())]; \
         let builder = G::subclass::Signal::builder(\"with-accumulator\", &param_types, \
         <G::subclass::SignalType as ::core::convert::From<G::Type>>::from(<i32 as G::types::StaticType>::static_type())); \
         let builder = builder.flags(G::SignalFlags::RUN_FIRST); \
         let builder = builder.class_handler(|_, args| { \
         let arg0 = args[0usize].get::<<Priv as G::subclass::types::ObjectSubclass>::Type>()\
         .unwrap_or_else(|e| { panic!(\"Wrong type for argument 0: {:?}\", e) }); \
         let arg0 = G::subclass::prelude::ObjectSubclassIsExt::imp(&arg0); \
         let arg1 = args[1usize].get::<i32>().unwrap_or_else(|e| { panic!(\"Wrong type for argument 1: {:?}\", e) }); \
         let ret = Priv::with_accumulator_class_handler(arg0, arg1); \
         G::closure::ToClosureReturnValue::to_closure_return_value(&ret) }); \
         let builder = builder.accumulator(|hint, acc, value| { \
         fn ____accumulator(accu: &mut i32, val: i32) -> bool { *accu += val; true } \
         ____accumulator(acc, value) }); \
         builder.build() }",
    );
    syn::parse_str::<syn::Expr>(&create).unwrap();
    same_tokens(
        &s.handler_definition().unwrap(),
        "fn with_accumulator_class_handler(&self, val: i32) -> i32 { val + 10 }",
    );
    let with_hint = signals[5].create("Priv", Some("Obj"), "G");
    assert!(with_hint.contains("____accumulator(hint, acc, value)"));
    assert!(with_hint.contains("args[0usize].get::<Obj>()"));
    assert!(with_hint.contains("G::SignalFlags::RUN_CLEANUP | G::SignalFlags::DETAILED"));
    syn::parse_str::<syn::Expr>(&with_hint).unwrap();
}

#[test]
fn detail_is_the_first_extra_parameter() {
    let mut items = the_signals();
    let signals = Signal::from_items(&mut items, false).unwrap();
    let detailed = &signals[5];
    assert_eq!(detailed.emit_params("G")[0], "signal_details: ::std::option::Option<G::Quark>");
    assert_eq!(detailed.emit_params("G").len(), 2);
    assert_eq!(detailed.connect_params("G"), ["details: ::std::option::Option<G::Quark>", "f: F"]);
    same_tokens(
        &detailed.emit_prototype("G"),
        "fn emit_has_detail(&self, signal_details: ::std::option::Option<G::Quark>, val: u32) -> u32",
    );
    same_tokens(
        &detailed.connect_prototype("G"),
        "fn connect_has_detail<F: Fn(&Self, u32) -> u32 + 'static>(&self, \
         details: ::std::option::Option<G::Quark>, f: F) -> G::SignalHandlerId",
    );
    same_tokens(
        &detailed.emit_definition(5, "P", "G"),
        "#[inline] fn emit_has_detail(&self, signal_details: ::std::option::Option<G::Quark>, val: u32) -> u32 { \
         let ret = if let Some(signal_details) = signal_details { \
         <Self as G::object::ObjectExt>::emit_with_details(self, P()[5usize].signal_id(), signal_details, &[&val]) \
         } else { <Self as G::object::ObjectExt>::emit(self, P()[5usize].signal_id(), &[&val]) }; \
         let ret = G::closure::TryFromClosureReturnValue::try_from_closure_return_value(ret).unwrap(); ret }",
    );
    let connect = detailed.connect_definition(5, "P", "G");
    assert!(connect.contains("P()[5usize].signal_id(), details, false"));
    let plain = &signals[3];
    assert_eq!(plain.emit_params("G"), ["val: i32"]);
    assert_eq!(plain.emit_params("G"), plain.emit_arg_defs());
    assert_eq!(plain.connect_params("G"), ["f: F"]);
    assert!(!plain.emit_prototype("G").contains("Quark"));
    assert!(!plain.connect_prototype("G").contains("Quark"));
    assert!(plain.connect_definition(3, "P", "G").contains("signal_id(), ::std::option::Option::None, false"));
}

#[test]
fn generated_signal_code_is_well_formed() {
    let mut items = the_signals();
    let signals = Signal::from_items(&mut items, false).unwrap();
    for (i, s) in signals.iter().enumerate() {
        syn::parse_str::<syn::Expr>(&s.create("Priv", None, "go::glib")).unwrap();
        syn::parse_str::<syn::TraitItemMethod>(&format!("{};", s.signal_prototype("go::glib"))).unwrap();
        syn::parse_str::<syn::TraitItemMethod>(&format!("{};", s.emit_prototype("go::glib"))).unwrap();
        syn::parse_str::<syn::TraitItemMethod>(&format!("{};", s.connect_prototype("go::glib"))).unwrap();
        syn::parse_str::<syn::ImplItemMethod>(&s.signal_definition(i, "Self::signals", "go::glib")).unwrap();
        syn::parse_str::<syn::ImplItemMethod>(&s.emit_definition(i, "Self::signals", "go::glib")).unwrap();
        syn::parse_str::<syn::ImplItemMethod>(&s.connect_definition(i, "Self::signals", "go::glib")).unwrap();
        if let Some(h) = s.handler_definition() {
            syn::parse_str::<syn::ImplItemMethod>(&h).unwrap();
        }
    }
    assert_eq!(signals[0].handler_definition(), None);
    assert!(!signals[0].create("Priv", None, "G").contains("class_handler"));
    assert!(!signals[0].create("Priv", None, "G").contains("builder.flags"));
}

#[test]
fn simple_signal_methods() {
    let mut items = vec![signal(None, "twoparams", 1, vec![recv(), arg("hello", "i32"), pattern("(a, b)", "(u8, u8)")], None, "")];
    let signals = Signal::from_items(&mut items, true).unwrap();
    let s = &signals[0];
    assert!(s.interface);
    same_tokens(&s.signal_prototype("G"), "fn signal_twoparams() -> &'static G::subclass::Signal");
    same_tokens(
        &s.signal_definition(0, "Self::signals", "G"),
        "#[inline] fn signal_twoparams() -> &'static G::subclass::Signal { &Self::signals()[0usize] }",
    );
    same_tokens(&s.emit_prototype("G"), "fn emit_twoparams(&self, hello: i32, arg1: (u8, u8))");
    assert_eq!(s.emit_arg_names(), ["hello", "arg1"]);
    assert_eq!(s.arg_names(0), ["arg0", "arg1", "arg2"]);
    assert_eq!(s.arg_names(1), ["arg1", "arg2"]);
    same_tokens(
        &s.emit_definition(0, "P", "G"),
        "#[inline] fn emit_twoparams(&self, hello: i32, arg1: (u8, u8)) { \
         let ret = <Self as G::object::ObjectExt>::emit(self, P()[0usize].signal_id(), &[&hello, &arg1]); ret }",
    );
    same_tokens(
        &s.connect_definition(0, "P", "G"),
        "#[inline] fn connect_twoparams<F: Fn(&Self, i32, (u8, u8)) + 'static>(&self, f: F) -> G::SignalHandlerId { \
         <Self as G::object::ObjectExt>::connect_local_id(self, P()[0usize].signal_id(), \
         ::std::option::Option::None, false, move |args| { \
         let recv = args[0].get::<Self>().unwrap(); \
         let arg1 = args[1usize].get::<i32>().unwrap_or_else(|e| { panic!(\"Wrong type for argument 1: {:?}\", e) }); \
         let arg2 = args[2usize].get::<(u8, u8)>().unwrap_or_else(|e| { panic!(\"Wrong type for argument 2: {:?}\", e) }); \
         let ret = f(&recv, arg1, arg2); ::core::option::Option::None }) }",
    );
    same_tokens(
        &s.args_unwrap(0, None, None, false, "G"),
        "let arg0 = args[0usize].get::<Self>().unwrap_or_else(|e| { panic!(\"Wrong type for argument 0: {:?}\", e) }); \
         let arg0 = G::subclass::prelude::ObjectSubclassIsExt::imp(&arg0); \
         let arg1 = args[1usize].get::<i32>().unwrap_or_else(|e| { panic!(\"Wrong type for argument 1: {:?}\", e) }); \
         let arg2 = args[2usize].get::<(u8, u8)>().unwrap_or_else(|e| { panic!(\"Wrong type for argument 2: {:?}\", e) });",
    );
}

#[test]
fn signal_names() {
    let mut items = vec![signal(Some(vec![string("name", "Custom_name", 10)]), "renamed", 1, vec![recv()], None, "")];
    let signals = Signal::from_items(&mut items, false).unwrap();
    assert_eq!(signals[0].name, "Custom_name");
    assert_eq!(signals[0].handler.as_ref().unwrap().ident.name, "custom_name_class_handler");
    same_tokens(&signals[0].emit_prototype("G"), "fn emit_custom_name(&self)");
    let mut items = vec![signal(Some(vec![string("name", "no good", 10)]), "renamed", 1, vec![recv()], None, "")];
    {
        let d = only(Signal::from_items(&mut items, false));
            assert!(matches!(d.kind, DiagnosticKind::InvalidName(n) if n == "no good"));
            assert_eq!(d.span, at(1));
    }
    assert!(items.is_empty());
    let mut items = vec![signal(None, "_9lives", 1, vec![recv()], None, "")];
    let r = Signal::from_items(&mut items, false);
    assert!(matches!(kind(r), DiagnosticKind::InvalidName(n) if n == "9lives"));
    let mut items = vec![signal(None, "_hidden", 1, vec![recv()], None, "")];
    assert_eq!(Signal::from_items(&mut items, false).unwrap()[0].name, "hidden");
}

#[test]
fn duplicate_signals() {
    let mut items = vec![
        signal(None, "changed", 1, vec![recv()], None, ""),
        signal(Some(vec![string("name", "changed", 10)]), "other", 2, vec![recv()], None, ""),
    ];
    {
        let d = only(Signal::from_items(&mut items, false));
            assert!(matches!(d.kind, DiagnosticKind::DuplicateSignalDefinition(n) if n == "changed"));
            assert_eq!(d.span, at(2));
    }
    let mut items = vec![
        signal(None, "changed", 1, vec![recv()], None, ""),
        signal(None, "changed", 2, vec![recv()], None, ""),
    ];
    assert!(matches!(kind(Signal::from_items(&mut items, false)), DiagnosticKind::DuplicateSignalDefinition(n) if n == "changed"));
    let mut items = vec![
        signal(None, "changed", 1, vec![recv()], None, ""),
        signal(Some(vec![string("name", "other", 10)]), "changed", 2, vec![recv()], None, ""),
    ];
    assert!(matches!(kind(Signal::from_items(&mut items, false)), DiagnosticKind::DuplicateSignalDefinition(n) if n == "changed"));
}

#[test]
fn accumulator_rules() {
    let mut items = vec![accumulator("lonely", 1, vec![arg("a", "&mut i32"), arg("v", "i32")], Some("bool"), "true")];
    {
        let d = only(Signal::from_items(&mut items, false));
            assert!(matches!(d.kind, DiagnosticKind::AccumulatorWithoutHandler));
            assert_eq!(d.span, at(1));
    }
    let mut items = vec![
        accumulator("sum", 1, vec![arg("a", "&mut i32"), arg("v", "i32")], Some("bool"), "true"),
        signal(None, "sum", 2, vec![recv(), arg("v", "i32")], Some("i32"), "v"),
    ];
    let signals = Signal::from_items(&mut items, false).unwrap();
    assert_eq!(signals.len(), 1);
    assert!(signals[0].accumulator.is_some() && signals[0].handler.is_some());
    let mut items = vec![
        signal(None, "sum", 2, vec![recv(), arg("v", "i32")], Some("i32"), "v"),
        accumulator("sum", 1, vec![arg("a", "&mut i32"), arg("v", "i32")], Some("bool"), "true"),
        accumulator("sum", 3, vec![arg("a", "&mut i32"), arg("v", "i32")], Some("bool"), "true"),
    ];
    assert!(matches!(kind(Signal::from_items(&mut items, false)), DiagnosticKind::DuplicateAccumulator(n) if n == "sum"));
    let mut items = vec![accumulator("sum", 1, vec![arg("a", "&mut i32"), arg("v", "i32")], None, "")];
    assert!(matches!(kind(Signal::from_items(&mut items, false)), DiagnosticKind::AccumulatorWithoutReturnType));
    let mut items = vec![method("accumulator", Some(vec![]), "sum", 1, vec![], Some("bool"), "true")];
    {
        let d = only(Signal::from_items(&mut items, false));
            assert!(matches!(d.kind, DiagnosticKind::UnexpectedAttribute(n) if n == "accumulator"));
            assert_eq!(d.span, at(501));
    }
}

#[test]
fn diagnostics_of_all_signals_are_gathered() {
    let mut items = vec![
        signal(Some(vec![bare("bogus", 10)]), "first", 1, vec![recv()], None, ""),
        plain_method("kept"),
        signal(None, "fine", 2, vec![recv()], None, ""),
        accumulator("lonely", 3, vec![arg("a", "&mut i32"), arg("v", "i32")], Some("bool"), "true"),
        signal(Some(vec![string("name", "fine", 11)]), "second", 4, vec![recv()], None, ""),
        accumulator("unpaired", 5, vec![arg("a", "&mut i32"), arg("v", "i32")], Some("bool"), "true"),
    ];
    let diagnostics = Signal::from_items(&mut items, false).unwrap_err();
    assert_eq!(diagnostics.len(), 4);
    assert!(matches!(&diagnostics[0].kind, DiagnosticKind::UnexpectedAttribute(k) if k == "bogus"));
    assert!(matches!(&diagnostics[1].kind, DiagnosticKind::DuplicateSignalDefinition(n) if n == "fine"));
    assert_eq!(diagnostics[1].span, at(4));
    assert!(matches!(&diagnostics[2].kind, DiagnosticKind::AccumulatorWithoutHandler));
    assert_eq!(diagnostics[2].span, at(3));
    assert!(matches!(&diagnostics[3].kind, DiagnosticKind::AccumulatorWithoutHandler));
    assert_eq!(diagnostics[3].span, at(5));
    assert_eq!(items.len(), 1);
}

#[test]
fn other_attributes_on_a_signal() {
    let mut m = match signal(None, "changed", 1, vec![recv()], None, "") {
        ImplItem::Method(m) => m,
        _ => unreachable!(),
    };
    m.attrs.insert(0, Attribute { path: ident("inline", 77), args: None });
    let mut items = vec![ImplItem::Method(m)];
    {
        let d = only(Signal::from_items(&mut items, false));
            assert!(matches!(d.kind, DiagnosticKind::UnknownSignalAttribute(n) if n == "inline"));
            assert_eq!(d.span, at(77));
    }
}

#[test]
fn handler_attributes() {
    let a = SignalAttrs::parse(&None).unwrap();
    assert!(a.emit && a.connect && a.name.is_none() && a.flags.is_empty());
    let a = SignalAttrs::parse(&Some(vec![])).unwrap();
    assert!(a.emit && a.connect && a.name.is_none() && a.flags.is_empty());
    let a = SignalAttrs::parse(&Some(vec![
        not("emit", 1),
        bare("action", 2),
        string("name", "my-signal", 3),
        bare("no_hooks", 4),
        not("connect", 5),
        bare("accumulator_first_run", 6),
        bare("must_collect", 7),
        bare("no_recurse", 8),
        bare("deprecated", 9),
    ]))
    .unwrap();
    assert!(!a.emit && !a.connect);
    assert_eq!(a.name.as_deref(), Some("my-signal"));
    assert_eq!(a.flags.bits(), 0x20 | 0x40 | 0x2_0000 | 0x80 | 0x8 | 0x100);
    same_tokens(
        &a.flags.tokens("G"),
        "G::SignalFlags::NO_RECURSE | G::SignalFlags::ACTION | G::SignalFlags::NO_HOOKS | \
         G::SignalFlags::MUST_COLLECT | G::SignalFlags::DEPRECATED | G::SignalFlags::ACCUMULATOR_FIRST_RUN",
    );
    let k = |entries: Vec<AttrEntry>| SignalAttrs::parse(&Some(entries)).unwrap_err().kind;
    assert!(matches!(k(vec![not("emit", 1), not("emit", 2)]), DiagnosticKind::DuplicateAttribute(n) if n == "emit"));
    assert!(matches!(k(vec![not("connect", 1), not("connect", 2)]), DiagnosticKind::DuplicateAttribute(n) if n == "connect"));
    assert!(matches!(k(vec![bare("detailed", 1), bare("detailed", 2)]), DiagnosticKind::DuplicateAttribute(n) if n == "detailed"));
    assert!(matches!(k(vec![string("name", "a", 1), string("name", "b", 2)]), DiagnosticKind::DuplicateAttribute(n) if n == "name"));
    assert!(matches!(k(vec![bare("emit", 1)]), DiagnosticKind::UnexpectedAttribute(n) if n == "emit"));
    assert!(matches!(k(vec![not("detailed", 1)]), DiagnosticKind::UnexpectedAttribute(n) if n == "detailed"));
    assert!(matches!(k(vec![bare("construct", 1)]), DiagnosticKind::UnexpectedAttribute(n) if n == "construct"));
    assert!(matches!(k(vec![bare("name", 1)]), DiagnosticKind::MalformedAttribute(n) if n == "name"));
    assert!(matches!(k(vec![string("run_first", "x", 1)]), DiagnosticKind::MalformedAttribute(n) if n == "run_first"));
    let d = SignalAttrs::parse(&Some(vec![bare("run_first", 1), bare("bogus", 2), bare("run_first", 3)])).unwrap_err();
    assert_eq!(d.span, at(2));
}

#[test]
fn accumulator_attributes() {
    assert!(SignalAccumulatorAttrs::parse(&vec![]).unwrap().name.is_none());
    let a = SignalAccumulatorAttrs::parse(&vec![string("name", "sum", 1)]).unwrap();
    assert_eq!(a.name.as_deref(), Some("sum"));
    let k = |entries: Vec<AttrEntry>| SignalAccumulatorAttrs::parse(&entries).unwrap_err().kind;
    assert!(matches!(k(vec![string("name", "a", 1), string("name", "b", 2)]), DiagnosticKind::DuplicateAttribute(n) if n == "name"));
    assert!(matches!(k(vec![bare("run_first", 1)]), DiagnosticKind::UnexpectedAttribute(n) if n == "run_first"));
    assert!(matches!(k(vec![not("name", 1)]), DiagnosticKind::UnexpectedAttribute(n) if n == "name"));
    assert!(matches!(k(vec![bare("name", 1)]), DiagnosticKind::MalformedAttribute(n) if n == "name"));
}

#[test]
fn empty_signal_flags() {
    assert_eq!(SignalFlags::empty().tokens("G"), "G::SignalFlags::empty()");
    assert_eq!(SignalFlags::from_ident("run_last"), Some(SignalFlags::RUN_LAST));
    assert_eq!(SignalFlags::from_ident("construct"), None);
    let mut f = SignalFlags::empty();
    f.insert(SignalFlags::DETAILED);
    assert!(f.contains(SignalFlags::DETAILED));
    assert!(!f.contains(SignalFlags::ACTION));
    assert!(!f.is_empty());
}
