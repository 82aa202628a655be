use gobject_impl_macros::attr::{AttrEntry, AttrValue, Attribute, Literal};
use gobject_impl_macros::diag::{Diagnostic, DiagnosticKind, Ident, Span, Tokens};
use gobject_impl_macros::flags::PropertyFlags;
use gobject_impl_macros::output::{Generics, Output};
use gobject_impl_macros::property::Field;
use gobject_impl_macros::signal::{FnArg, ImplItem, Method, PatType, PropertiesBlock};
use gobject_impl_macros::text::{decimal_string, index_string, join, str_eq};
use gobject_impl_macros::util::{has_method, make_stmt, Args, ClassInheritance, ObjectDefinition};
use std::str::FromStr;

fn at(n: usize) -> Span {
    Span { start: n, end: n + 1 }
}

fn ident(name: &str, n: usize) -> Ident {
    Ident { name: name.to_string(), span: at(n) }
}

fn entry(key: &str, value: AttrValue, n: usize) -> AttrEntry {
    AttrEntry { negated: false, key: ident(key, n), value, value_span: at(n + 100) }
}

fn bare(key: &str, n: usize) -> AttrEntry {
    entry(key, AttrValue::Bare, n)
}

fn named(key: &str, value: &str, n: usize) -> AttrEntry {
    entry(key, AttrValue::Ident(ident(value, n + 100)), n)
}

fn field(name: &str, ty: &str, entries: Option<Vec<AttrEntry>>) -> Field {
    let attrs = match entries {
        Some(entries) => vec![Attribute { path: ident("property", 900), args: Some(entries) }],
        None => vec![],
    };
    Field { ident: ident(name, 1000), ty: Tokens { text: ty.to_string(), span: at(1001) }, attrs, span: at(1002) }
}

fn method(attr: Option<&str>, name: &str, inputs: Vec<FnArg>, output: Option<&str>, body: &str) -> ImplItem {
    ImplItem::Method(Method {
        ident: ident(name, 5),
        attrs: attr.map(|a| Attribute { path: ident(a, 6), args: None }).into_iter().collect(),
        inputs,
        output: output.map(|s| s.to_string()),
        block: format!("{{ {} }}", body),
        is_empty: body.is_empty(),
    })
}

fn recv() -> FnArg {
    FnArg::Receiver("&self".to_string())
}

fn arg(name: &str, ty: &str) -> FnArg {
    FnArg::Typed(PatType { pat: name.to_string(), ident: Some(name.to_string()), ty: ty.to_string() })
}

fn block(braced: bool, fields: Vec<Field>, n: usize) -> ImplItem {
    ImplItem::Properties(PropertiesBlock { braced, fields, span: at(n) })
}

fn norm(text: &str) -> String {
    proc_macro2::TokenStream::from_str(text).expect("tokens").to_string()
}

fn same_tokens(actual: &str, expected: &str) {
    assert_eq!(norm(actual), norm(expected), "\nactual:   {}\nexpected: {}", actual, expected);
}

fn args_kind(r: Result<Args, Diagnostic>) -> DiagnosticKind {
    match r {
        Ok(a) => panic!("accepted {:?}", a),
        Err(d) => d.kind,
    }
}

#[test]
fn decimal_notation() {
    assert_eq!(decimal_string(0), "0");
    assert_eq!(decimal_string(7), "7");
    assert_eq!(decimal_string(10), "10");
    assert_eq!(decimal_string(1905), "1905");
    assert_eq!(decimal_string(usize::MAX), usize::MAX.to_string());
    assert_eq!(index_string(42), "42usize");
}

#[test]
fn joined_text() {
    assert_eq!(join(&vec![], ", "), "");
    assert_eq!(join(&vec!["a".to_string()], ", "), "a");
    assert_eq!(join(&vec!["a".to_string(), "b".to_string(), "c".to_string()], " | "), "a | b | c");
    assert!(str_eq("abc", "abc"));
    assert!(!str_eq("abc", "abd"));
    assert!(!str_eq("abc", "ab"));
    assert_eq!(make_stmt("fn f()".to_string()), "fn f();");
}

#[test]
fn property_flag_sets() {
    let mut f = PropertyFlags::empty();
    assert!(f.is_empty());
    assert_eq!(f.tokens("G", false, false), "G::ParamFlags::empty()");
    assert_eq!(f.tokens("G", true, false), "G::ParamFlags::READABLE");
    f.insert(PropertyFlags::DEPRECATED);
    f.insert(PropertyFlags::CONSTRUCT_ONLY);
    assert!(f.contains(PropertyFlags::DEPRECATED));
    assert!(f.contains(PropertyFlags::CONSTRUCT_ONLY));
    assert!(!f.contains(PropertyFlags::CONSTRUCT));
    assert_eq!(f.bits(), 0x8000_0008);
    assert_eq!(
        f.tokens("G", true, true),
        "G::ParamFlags::READABLE | G::ParamFlags::WRITABLE | G::ParamFlags::CONSTRUCT_ONLY | G::ParamFlags::DEPRECATED"
    );
    assert_eq!(PropertyFlags::from_ident("construct"), Some(4));
    assert_eq!(PropertyFlags::from_ident("construct_only"), Some(8));
    assert_eq!(PropertyFlags::from_ident("lax_validation"), Some(16));
    assert_eq!(PropertyFlags::from_ident("explicit_notify"), Some(1 << 30));
    assert_eq!(PropertyFlags::from_ident("deprecated"), Some(1 << 31));
    assert_eq!(PropertyFlags::from_ident("readable"), None);
}

#[test]
fn messages() {
    let m = |k: DiagnosticKind| Diagnostic { kind: k, span: at(0) }.message();
    assert_eq!(m(DiagnosticKind::DuplicateAttribute("get".into())), "Duplicate `get` attribute");
    assert_eq!(
        m(DiagnosticKind::InvalidName("9".into())),
        "Invalid name '9'. Names must start with an ASCII letter and only contain ASCII letters, numbers, '-' or '_'"
    );
    assert_eq!(
        m(DiagnosticKind::ConflictingFamilyMembers("enum".into(), "flags".into())),
        "Only one of `enum`, `flags` is allowed"
    );
    assert_eq!(m(DiagnosticKind::MissingAccessor), "Property must have at least one of `get` and `set`");
    assert_eq!(m(DiagnosticKind::IllegalOnOverride("nick".into())), "`nick` not allowed on override property");
    assert_eq!(
        m(DiagnosticKind::IllegalOnConstructOnly("notify_func".into())),
        "`!notify_func` is unnecessary when using `construct_only`"
    );
    assert_eq!(
        m(DiagnosticKind::RedundantWithAutoGenerated("lax_validation".into())),
        "`lax_validation` unnecessary when the setter is auto-generated"
    );
    assert_eq!(
        m(DiagnosticKind::MissingCustomAccessorForAbstractStorage),
        "custom accessor required for property without storage"
    );
    assert_eq!(m(DiagnosticKind::AccumulatorWithoutHandler), "No definition for the signal of this accumulator");
    assert_eq!(m(DiagnosticKind::DuplicateSignalDefinition("a".into())), "Duplicate definition for signal `a`");
    assert_eq!(m(DiagnosticKind::UnexpectedAttribute("a".into())), "Unexpected `a`");
    assert_eq!(m(DiagnosticKind::MalformedAttribute("a".into())), "Malformed `a` attribute");
    assert_eq!(m(DiagnosticKind::ExtraTokensAfterSkip), "Extra token(s) after `skip`");
    assert_eq!(
        m(DiagnosticKind::SetterNameConflict("set_a".into())),
        "custom setter name `set_a` conflicts with trait method"
    );
    assert_eq!(m(DiagnosticKind::DuplicatePropertyDefinition("a".into())), "Duplicate definition for property `a`");
    assert_eq!(m(DiagnosticKind::UnknownSignalAttribute("inline".into())), "Unknown attribute `inline` on signal");
    assert_eq!(m(DiagnosticKind::AccumulatorWithoutReturnType), "accumulator must have return type");
    assert_eq!(
        m(DiagnosticKind::DuplicateAccumulator("a".into())),
        "Duplicate definition for accumulator on signal definition `a`"
    );
    assert_eq!(m(DiagnosticKind::MissingAttribute("type".into())), "`type` attribute required");
}

#[test]
fn methods_of_the_type() {
    let items = vec![
        ImplItem::Other("const A: u8 = 0;".to_string()),
        method(None, "signals", vec![], None, ""),
    ];
    assert_eq!(has_method(&items, "signals"), (true, "inner_signals".to_string()));
    assert_eq!(has_method(&items, "properties"), (false, "properties".to_string()));
    assert_eq!(has_method(&vec![], "signals"), (false, "signals".to_string()));
}

#[test]
fn declaration_arguments() {
    let a = Args::parse(&vec![named("trait", "BasicPropsExt", 1)], false, at(9)).unwrap();
    assert!(matches!(&a.inheritance, ClassInheritance::Abstract(i) if i.name == "BasicPropsExt"));
    assert!(a.type_.is_none() && !a.pod);
    let a = Args::parse(&vec![bare("final", 1), bare("pod", 2), named("type", "Pod", 3)], false, at(9)).unwrap();
    assert!(matches!(a.inheritance, ClassInheritance::Final));
    assert!(a.pod);
    assert_eq!(a.type_.unwrap().text, "Pod");
    let a = Args::parse(&vec![named("type", "Dummy", 1), named("trait", "DummyExt", 2)], true, at(9)).unwrap();
    assert_eq!(a.type_.unwrap().text, "Dummy");

    let k = |entries: Vec<AttrEntry>, iface: bool| args_kind(Args::parse(&entries, iface, at(9)));
    assert!(matches!(k(vec![], false), DiagnosticKind::MissingAttribute(n) if n == "trait"));
    assert!(matches!(k(vec![bare("final", 1)], false), DiagnosticKind::MissingAttribute(n) if n == "type"));
    assert!(matches!(k(vec![named("trait", "T", 1)], true), DiagnosticKind::MissingAttribute(n) if n == "type"));
    assert!(matches!(k(vec![named("type", "T", 1)], true), DiagnosticKind::MissingAttribute(n) if n == "trait"));
    assert!(matches!(k(vec![bare("final", 1)], true), DiagnosticKind::UnexpectedAttribute(n) if n == "final"));
    assert!(matches!(k(vec![bare("pod", 1), bare("pod", 2)], false), DiagnosticKind::DuplicateAttribute(n) if n == "pod"));
    assert!(matches!(
        k(vec![named("type", "A", 1), named("type", "B", 2)], false),
        DiagnosticKind::DuplicateAttribute(n) if n == "type"
    ));
    assert!(matches!(
        k(vec![named("trait", "A", 1), named("trait", "B", 2)], true),
        DiagnosticKind::DuplicateAttribute(n) if n == "trait"
    ));
    assert!(matches!(
        k(vec![named("trait", "A", 1), named("trait", "B", 2)], false),
        DiagnosticKind::ConflictingFamilyMembers(a, b) if a == "trait" && b == "trait"
    ));
    assert!(matches!(
        k(vec![bare("final", 1), named("trait", "B", 2)], false),
        DiagnosticKind::ConflictingFamilyMembers(a, b) if a == "final" && b == "trait"
    ));
    assert!(matches!(
        k(vec![named("trait", "B", 1), bare("final", 2)], false),
        DiagnosticKind::ConflictingFamilyMembers(a, b) if a == "trait" && b == "final"
    ));
    assert!(matches!(k(vec![bare("trait", 1)], false), DiagnosticKind::MalformedAttribute(n) if n == "trait"));
    assert!(matches!(k(vec![bare("type", 1)], false), DiagnosticKind::MalformedAttribute(n) if n == "type"));
    assert!(matches!(k(vec![named("pod", "x", 1)], false), DiagnosticKind::MalformedAttribute(n) if n == "pod"));
    assert!(matches!(k(vec![bare("other", 1)], false), DiagnosticKind::UnexpectedAttribute(n) if n == "other"));
    let d = Args::parse(&vec![], false, at(9)).unwrap_err();
    assert_eq!(d.span, at(9));
    let mut e = bare("pod", 1);
    e.negated = true;
    assert!(matches!(k(vec![e], false), DiagnosticKind::UnexpectedAttribute(n) if n == "pod"));
    let lit = entry("type", AttrValue::Lit(Literal::Other("5".to_string())), 1);
    assert!(matches!(k(vec![lit], false), DiagnosticKind::MalformedAttribute(n) if n == "type"));
}

fn the_items() -> Vec<ImplItem> {
    vec![
        method(Some("signal"), "changed", vec![recv(), arg("value", "i32")], None, "self.log(value);"),
        block(
            true,
            vec![
                field("my_i32", "Cell<i32>", Some(vec![bare("get", 1), bare("set", 2)])),
                field("inner", "Inner", None),
                field("total", "u64", Some(vec![bare("computed", 1), named("get", "_", 2)])),
            ],
            50,
        ),
        method(None, "constructed", vec![recv(), arg("obj", "&Self::Type")], None, "self.parent_constructed(obj);"),
    ]
}

#[test]
fn definition_of_a_block() {
    let def = ObjectDefinition::new(the_items(), false, false, &vec![]).unwrap();
    assert_eq!(def.signals.len(), 1);
    assert_eq!(def.properties.len(), 2);
    assert_eq!(def.items.len(), 1);
    let fields: Vec<&str> = def.struct_fields.as_ref().unwrap().iter().map(|f| f.ident.name.as_str()).collect();
    assert_eq!(fields, ["my_i32", "inner"]);
    let none = ObjectDefinition::new(vec![], false, false, &vec![]).unwrap();
    assert!(none.struct_fields.is_none() && none.properties.is_empty() && none.signals.is_empty());
}

#[test]
fn definition_failures() {
    let k = |items: Vec<ImplItem>| ObjectDefinition::new(items, false, false, &vec![]).unwrap_err();
    let d = k(vec![block(true, vec![], 1), block(true, vec![], 2)]);
    assert_eq!(d.len(), 1);
    assert!(matches!(&d[0].kind, DiagnosticKind::DuplicateAttribute(n) if n == "properties"));
    assert_eq!(d[0].span, at(2));
    let d = k(vec![block(false, vec![], 1)]);
    assert!(matches!(&d[0].kind, DiagnosticKind::MalformedAttribute(n) if n == "properties"));
    let d = k(vec![block(true, vec![field("a", "u8", Some(vec![]))], 1)]);
    assert!(matches!(&d[0].kind, DiagnosticKind::MissingAccessor));
    let d = k(vec![
        block(true, vec![field("a", "u8", Some(vec![])), field("b", "u8", Some(vec![bare("nope", 3)]))], 1),
        method(Some("accumulator"), "sum", vec![], Some("bool"), "true"),
        block(true, vec![], 2),
    ]);
    assert_eq!(d.len(), 4);
    assert!(matches!(&d[0].kind, DiagnosticKind::AccumulatorWithoutHandler));
    assert!(matches!(&d[1].kind, DiagnosticKind::MissingAccessor));
    assert!(matches!(&d[2].kind, DiagnosticKind::UnexpectedAttribute(n) if n == "nope"));
    assert!(matches!(&d[3].kind, DiagnosticKind::DuplicateAttribute(n) if n == "properties"));
}

fn no_generics() -> Generics {
    Generics { params: vec![], args: vec![], predicates: vec![] }
}

#[test]
fn output_of_an_abstract_type() {
    let mut def = ObjectDefinition::new(the_items(), false, false, &vec![]).unwrap();
    let out = Output::new(
        &mut def,
        "Priv",
        &no_generics(),
        None,
        &ClassInheritance::Abstract(ident("PrivExt", 1)),
        "Priv::signals",
        "Priv::properties",
        "go",
    );
    assert_eq!(def.items.len(), 2);
    match &def.items[1] {
        ImplItem::Other(text) => {
            assert!(text.starts_with("fn signals() -> &'static [go::glib::subclass::Signal] { static SIGNALS: "));
            syn::parse_str::<syn::ImplItemMethod>(text).unwrap();
        }
        other => panic!("unexpected {:?}", other),
    }
    assert_eq!(out.private_impl_methods.len(), 1);
    same_tokens(&out.private_impl_methods[0], "fn changed_class_handler(&self, value: i32) { self.log(value); }");
    assert_eq!(out.prop_set_impls.len(), 1);
    assert!(out.prop_set_impls[0].starts_with("1usize => "));
    assert_eq!(out.prop_get_impls.len(), 2);
    assert!(out.prop_get_impls[0].starts_with("1usize => "));
    same_tokens(&out.prop_get_impls[1], "2usize => { go::glib::ToValue::to_value(&obj.total()) }");
    let props = out.prop_defs.unwrap();
    assert!(props.starts_with("static PROPS: go::glib::once_cell::sync::Lazy<::std::vec::Vec<go::glib::ParamSpec>> = "));
    assert!(props.contains(".build(\"my-i32\", "));
    assert!(props.contains(".build(\"total\", "));
    let file = syn::parse_str::<syn::File>(&out.public_methods).unwrap();
    assert_eq!(file.items.len(), 2);
    match (&file.items[0], &file.items[1]) {
        (syn::Item::Trait(t), syn::Item::Impl(i)) => {
            assert_eq!(t.ident, "PrivExt");
            assert_eq!(t.items.len(), i.items.len());
            let names: Vec<String> = t
                .items
                .iter()
                .map(|i| match i {
                    syn::TraitItem::Method(m) => m.sig.ident.to_string(),
                    _ => panic!("not a method"),
                })
                .collect();
            assert_eq!(
                names,
                [
                    "signal_changed",
                    "emit_changed",
                    "connect_changed",
                    "pspec_my_i32",
                    "notify_my_i32",
                    "connect_my_i32_notify",
                    "my_i32",
                    "set_my_i32",
                    "pspec_total",
                    "notify_total",
                    "connect_total_notify",
                ]
            );
        }
        _ => panic!("unexpected items"),
    }
    assert!(out.public_methods.contains(
        "impl<____Object> PrivExt for ____Object where ____Object: go::glib::IsA<<Priv as go::glib::subclass::types::ObjectSubclass>::Type> {"
    ));
    assert!(out.public_methods.contains("&Priv::properties()[1usize]"));
}

#[test]
fn dispatch_functions() {
    let mut def = ObjectDefinition::new(the_items(), false, false, &vec![]).unwrap();
    let mut out = Output::new(
        &mut def,
        "Priv",
        &no_generics(),
        None,
        &ClassInheritance::Abstract(ident("PrivExt", 1)),
        "Priv::signals",
        "Priv::properties",
        "go",
    );
    out.add_property_functions(&mut def, "go::glib");
    assert_eq!(out.private_impl_methods.len(), 1);
    assert_eq!(def.items.len(), 5);
    let text = |i: usize| match &def.items[i] {
        ImplItem::Other(t) => t.clone(),
        other => panic!("unexpected {:?}", other),
    };
    assert!(text(2).starts_with("fn properties() -> &'static [go::glib::ParamSpec] { static PROPS: "));
    same_tokens(
        &text(4),
        "fn property(&self, obj: &<Self as go::glib::subclass::types::ObjectSubclass>::Type, id: usize,          pspec: &go::glib::ParamSpec) -> go::glib::Value { match id {          1usize => { go::ParamStoreRead::get_value(&self.my_i32) }          2usize => { go::glib::ToValue::to_value(&obj.total()) }          _ => unimplemented!(\"invalid property id {} for \\\"{}\\\" of type '{}' in '{}'\", id, pspec.name(),          pspec.type_().name(),          <<Self as go::glib::subclass::types::ObjectSubclass>::Type as go::glib::object::ObjectExt>::type_(obj).name()) } }",
    );
    assert!(text(3).starts_with("fn set_property(&self, obj: &<Self as go::glib::subclass::types::ObjectSubclass>::Type, id: usize, value: &go::glib::Value, pspec: &go::glib::ParamSpec) { match id { 1usize => "));
    for i in 2..5 {
        syn::parse_str::<syn::ImplItemMethod>(&text(i)).unwrap();
    }

    let mut items = the_items();
    items.push(method(None, "set_property", vec![recv()], None, ""));
    let mut def = ObjectDefinition::new(items, false, false, &vec![]).unwrap();
    let mut out = Output::new(
        &mut def,
        "Priv",
        &no_generics(),
        Some("Obj"),
        &ClassInheritance::Final,
        "Priv::signals",
        "Priv::properties",
        "go",
    );
    out.add_property_functions(&mut def, "go::glib");
    assert_eq!(out.private_impl_methods.len(), 2);
    assert!(out.private_impl_methods[1].starts_with("fn inner_set_property(&self, "));
    assert_eq!(def.items.len(), 5);

    let mut def = ObjectDefinition::new(vec![], false, false, &vec![]).unwrap();
    let mut out = Output::new(&mut def, "P", &no_generics(), Some("O"), &ClassInheritance::Final, "s", "p", "go");
    out.add_property_functions(&mut def, "go::glib");
    assert!(def.items.is_empty() && out.private_impl_methods.is_empty());
}

#[test]
fn output_of_a_final_type() {
    let mut items = the_items();
    items.push(method(None, "signals", vec![], Some("&'static [Signal]"), "Self::inner_signals()"));
    let mut def = ObjectDefinition::new(items, false, false, &vec![]).unwrap();
    let generics = Generics {
        params: vec!["T: Clone".to_string(), "U".to_string()],
        args: vec!["T".to_string(), "U".to_string()],
        predicates: vec!["U: Default".to_string()],
    };
    let out = Output::new(
        &mut def,
        "Priv<T, U>",
        &generics,
        Some("Obj"),
        &ClassInheritance::Final,
        "Priv::inner_signals",
        "Priv::properties",
        "go",
    );
    assert_eq!(def.items.len(), 2);
    assert_eq!(out.private_impl_methods.len(), 2);
    assert!(out.private_impl_methods[0].starts_with("fn inner_signals() -> Vec<go::glib::subclass::Signal> { vec!["));
    assert!(out.public_methods.starts_with("impl<T: Clone, U> Obj<T, U> where U: Default { pub #[inline] fn signal_changed()"));
    assert!(out.public_methods.contains("go::glib::Cast::upcast_ref::<Obj>(self)"));
}

#[test]
fn output_of_nothing() {
    let mut def = ObjectDefinition::new(vec![], false, false, &vec![]).unwrap();
    let out = Output::new(&mut def, "Priv", &no_generics(), Some("Obj"), &ClassInheritance::Final, "s", "p", "go");
    assert!(def.items.is_empty());
    assert!(out.private_impl_methods.is_empty());
    assert!(out.prop_set_impls.is_empty() && out.prop_get_impls.is_empty());
    assert_eq!(out.prop_defs, None);
    assert_eq!(out.public_methods, "impl Obj { }");
}
