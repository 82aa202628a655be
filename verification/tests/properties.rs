use gobject_impl_macros::attr::{AttrEntry, AttrPair, AttrValue, Attribute, Literal};
use gobject_impl_macros::diag::{Diagnostic, DiagnosticKind, Ident, Span, Tokens};
use gobject_impl_macros::flags::PropertyFlags;
use gobject_impl_macros::property::{
    Field, Property, PropertyName, PropertyOverride, PropertyPermission, PropertyStorage,
    PropertyType,
};
use std::str::FromStr;

fn at(n: usize) -> Span {
    Span { start: n, end: n + 1 }
}

fn ident(name: &str, n: usize) -> Ident {
    Ident { name: name.to_string(), span: at(n) }
}

fn entry(negated: bool, key: &str, value: AttrValue, n: usize) -> AttrEntry {
    AttrEntry { negated, key: ident(key, n), value, value_span: at(n + 100) }
}

fn bare(key: &str, n: usize) -> AttrEntry {
    entry(false, key, AttrValue::Bare, n)
}

fn not(key: &str, n: usize) -> AttrEntry {
    entry(true, key, AttrValue::Bare, n)
}

fn string(key: &str, value: &str, n: usize) -> AttrEntry {
    entry(false, key, AttrValue::Lit(Literal::Str(value.to_string())), n)
}

fn lit(key: &str, text: &str, n: usize) -> AttrEntry {
    entry(false, key, AttrValue::Lit(Literal::Other(text.to_string())), n)
}

fn named(key: &str, value: &str, n: usize) -> AttrEntry {
    entry(false, key, AttrValue::Ident(ident(value, n + 100)), n)
}

fn tokens(key: &str, text: &str, n: usize) -> AttrEntry {
    entry(false, key, AttrValue::Tokens(text.to_string()), n)
}

fn unit(key: &str, n: usize) -> AttrEntry {
    entry(false, key, AttrValue::Unit, n)
}

fn field(name: &str, ty: &str, entries: Option<Vec<AttrEntry>>) -> Field {
    let attrs = match entries {
        Some(entries) => vec![Attribute { path: ident("property", 900), args: Some(entries) }],
        None => vec![],
    };
    Field {
        ident: ident(name, 1000),
        ty: Tokens { text: ty.to_string(), span: at(1001) },
        attrs,
        span: at(1002),
    }
}

fn build(name: &str, ty: &str, entries: Vec<AttrEntry>, pod: bool, iface: bool) -> Result<Property, Diagnostic> {
    let mut f = field(name, ty, Some(entries));
    Property::parse(&mut f, pod, iface, &vec![])
}

fn kind(r: Result<Property, Diagnostic>) -> DiagnosticKind {
    match r {
        Ok(p) => panic!("expected a diagnostic, got {:?}", p),
        Err(d) => d.kind,
    }
}

fn norm(text: &str) -> String {
    proc_macro2::TokenStream::from_str(text).expect("tokens").to_string()
}

fn same_tokens(actual: &str, expected: &str) {
    assert_eq!(norm(actual), norm(expected), "\nactual:   {}\nexpected: {}", actual, expected);
}

#[test]
fn attributed_u8_registration_entry() {
    let p = build(
        "my_u8",
        "Cell<u8>",
        vec![
            bare("get", 1),
            bare("set", 2),
            bare("construct", 3),
            lit("minimum", "5", 4),
            lit("maximum", "20", 5),
            lit("default", "19", 6),
        ],
        false,
        false,
    )
    .unwrap();
    assert_eq!(p.name(), "my-u8");
    assert!(p.flags.contains(PropertyFlags::CONSTRUCT));
    assert_eq!(p.flags.bits(), PropertyFlags::CONSTRUCT);
    assert_eq!(p.find_buildable_prop("default"), Some(&"19".to_string()));
    assert_eq!(p.find_buildable_prop("minimum"), Some(&"5".to_string()));
    assert_eq!(p.find_buildable_prop("maximum"), Some(&"20".to_string()));
    same_tokens(
        &p.create("go"),
        "<<Cell<u8> as go::ParamStore>::Type as go::ParamSpecBuildable>::builder()\
         .minimum(5).maximum(20).default(19)\
         .build(\"my-u8\", \"my-u8\", \"my-u8\", \
         go::glib::ParamFlags::READABLE | go::glib::ParamFlags::WRITABLE | go::glib::ParamFlags::CONSTRUCT)",
    );
    let setter = p.setter_definition(0, "super::MyObject", "Self::properties", "go").unwrap();
    assert!(!setter.contains("assert!"));
    same_tokens(
        &setter,
        "fn set_my_u8(&self, value: <Cell<u8> as go::ParamStore>::Type) { #![inline] \
         <Self as go::glib::object::ObjectExt>::set_property(self, \"my-u8\", value); }",
    );
    syn::parse_str::<syn::Expr>(&p.create("go")).unwrap();
    syn::parse_str::<syn::ImplItemMethod>(&setter).unwrap();
}

#[test]
fn nick_and_blurb_are_written() {
    let p = build(
        "my_attributed",
        "Cell<u8>",
        vec![
            bare("get", 1),
            string("name", "my-u8", 2),
            string("nick", "My U8", 3),
            string("blurb", "A \"uint8\"", 4),
        ],
        false,
        false,
    )
    .unwrap();
    assert_eq!(p.name(), "my-u8");
    assert_eq!(p.name_span(), at(102));
    same_tokens(
        &p.create("go"),
        "<<Cell<u8> as go::ParamStore>::Type as go::ParamSpecBuildable>::builder()\
         .build(\"my-u8\", \"My U8\", \"A \\\"uint8\\\"\", go::glib::ParamFlags::READABLE)",
    );
}

#[test]
fn computed_needs_methods_of_the_type() {
    let entries = || vec![bare("computed", 1), bare("get", 2), bare("set", 3), bare("explicit_notify", 4)];
    let mut f = field("my_computed_prop", "i32", Some(entries()));
    let r = Property::parse(&mut f, false, false, &vec![]);
    match r {
        Err(d) => {
            assert!(matches!(d.kind, DiagnosticKind::MissingCustomAccessorForAbstractStorage));
            assert_eq!(d.span, at(1));
        }
        Ok(p) => panic!("accepted: {:?}", p),
    }
    let mut f = field("my_computed_prop", "i32", Some(entries()));
    let r = Property::parse(&mut f, false, false, &vec!["my_computed_prop".to_string()]);
    assert!(matches!(kind(r), DiagnosticKind::MissingCustomAccessorForAbstractStorage));
    let mut f = field("my_computed_prop", "i32", Some(entries()));
    let methods = vec!["my_computed_prop".to_string(), "_set_my_computed_prop".to_string()];
    let p = Property::parse(&mut f, false, false, &methods).unwrap();
    assert!(matches!(&p.get, PropertyPermission::AllowCustom(m) if m.name == "my_computed_prop"));
    assert!(matches!(&p.set, PropertyPermission::AllowCustom(m) if m.name == "_set_my_computed_prop"));
    assert!(p.flags.contains(PropertyFlags::EXPLICIT_NOTIFY));
    same_tokens(
        &p.get_impl(3, "go").unwrap(),
        "3usize => { go::glib::ToValue::to_value(&obj.my_computed_prop()) }",
    );
    same_tokens(
        &p.set_impl(3, "go").unwrap(),
        "3usize => { obj._set_my_computed_prop(value.get::<i32>().unwrap()); }",
    );
    same_tokens(
        &p.setter_definition(2, "Obj", "Self::properties", "go").unwrap(),
        "fn set_my_computed_prop(&self, value: i32) { #![inline] \
         <Self as go::glib::object::ObjectExt>::set_property(self, \"my-computed-prop\", value); }",
    );
    assert_eq!(p.getter_prototype("go"), None);
}

#[test]
fn get_set_on_a_field_generates_everything() {
    let p = build("my_i32", "Cell<i32>", vec![bare("get", 1), bare("set", 2)], false, false).unwrap();
    assert!(matches!(p.storage, PropertyStorage::Field(_)));
    let getter = p.getter_definition("Obj", "go").unwrap();
    let setter = p.setter_definition(1, "Obj", "Self::properties", "go").unwrap();
    let notify = p.notify_definition(1, "Self::properties", "go::glib").unwrap();
    let connect = p.connect_definition("go::glib").unwrap();
    let pspec = p.pspec_definition(1, "Self::properties", "go::glib").unwrap();
    let get_arm = p.get_impl(2, "go").unwrap();
    let set_arm = p.set_impl(2, "go").unwrap();
    same_tokens(
        &getter,
        "fn my_i32(&self) -> <Cell<i32> as go::ParamStoreRead<'_>>::BorrowOrGetType { #![inline] \
         go::ParamStoreRead::borrow_or_get(&go::glib::subclass::prelude::ObjectSubclassIsExt::imp(\
         go::glib::Cast::upcast_ref::<Obj>(self)).my_i32) }",
    );
    same_tokens(
        &setter,
        "fn set_my_i32(&self, value: <Cell<i32> as go::ParamStore>::Type) { #![inline] \
         <Self as go::glib::object::ObjectExt>::set_property(self, \"my-i32\", value); }",
    );
    same_tokens(
        &notify,
        "fn notify_my_i32(&self) { #![inline] \
         <Self as go::glib::object::ObjectExt>::notify_by_pspec(self, &Self::properties()[1usize]); }",
    );
    same_tokens(
        &connect,
        "fn connect_my_i32_notify<F: Fn(&Self) + 'static>(&self, f: F) -> go::glib::SignalHandlerId \
         { #![inline] <Self as go::glib::object::ObjectExt>::connect_notify_local(self, Some(\"my-i32\"), \
         move |recv, _| f(recv)) }",
    );
    same_tokens(
        &pspec,
        "fn pspec_my_i32() -> &'static go::glib::ParamSpec { #![inline] &Self::properties()[1usize] }",
    );
    same_tokens(&get_arm, "2usize => { go::ParamStoreRead::get_value(&self.my_i32) }");
    same_tokens(&set_arm, "2usize => { go::ParamStoreWrite::set_value(&self.my_i32, &value); }");
    for def in [&getter, &setter, &notify, &connect, &pspec] {
        syn::parse_str::<syn::ImplItemMethod>(def).unwrap();
    }
    for arm in [&get_arm, &set_arm] {
        syn::parse_str::<syn::Arm>(arm).unwrap();
    }
    for proto in [
        p.getter_prototype("go").unwrap(),
        p.setter_prototype("go").unwrap(),
        p.notify_prototype().unwrap(),
        p.connect_prototype("go::glib").unwrap(),
        p.pspec_prototype("go::glib").unwrap(),
    ] {
        syn::parse_str::<syn::TraitItemMethod>(&format!("{};", proto)).unwrap();
    }
}

#[test]
fn class_override_reuses_the_parent_entry() {
    let p = build(
        "renamed_string",
        "RefCell<String>",
        vec![bare("get", 1), bare("set", 2), named("override_class", "BaseObject", 3)],
        false,
        false,
    )
    .unwrap();
    assert!(matches!(&p.override_, Some(PropertyOverride::Class(t)) if t.text == "BaseObject"));
    same_tokens(
        &p.create("go"),
        "go::glib::ParamSpecOverride::for_class::<BaseObject>(\"renamed-string\")",
    );
    assert_eq!(p.getter_prototype("go"), None);
    assert_eq!(p.setter_prototype("go"), None);
    assert_eq!(p.notify_prototype(), None);
    assert_eq!(p.connect_prototype("go::glib"), None);
    assert!(p.get_impl(1, "go").is_some());
    assert!(p.set_impl(1, "go").is_some());
}

#[test]
fn interface_override_names_the_interface() {
    let p = build(
        "title",
        "RefCell<String>",
        vec![bare("get", 1), tokens("override_iface", "gtk::Buildable<T, U>", 3), not("notify_func", 4)],
        false,
        false,
    )
    .unwrap();
    same_tokens(
        &p.create("go"),
        "go::glib::ParamSpecOverride::for_interface::<gtk::Buildable<T, U>>(\"title\")",
    );
    assert_eq!(p.notify_prototype(), None);
    assert_eq!(p.connect_prototype("G").unwrap(), "fn connect_title_notify<F: Fn(&Self) + 'static>(&self, f: F) -> G::SignalHandlerId");
    assert_eq!(p.getter_prototype("go"), None);
    let q = build("title", "RefCell<String>", vec![bare("get", 1), named("override_iface", "Titled", 3)], false, false)
        .unwrap();
    assert_eq!(q.notify_prototype().unwrap(), "fn notify_title(&self)");
}

#[test]
fn override_forbids_metadata() {
    let o = |extra: AttrEntry| {
        kind(build(
            "a",
            "Cell<u8>",
            vec![bare("get", 1), named("override_class", "Base", 2), extra],
            false,
            false,
        ))
    };
    assert!(matches!(o(string("nick", "n", 3)), DiagnosticKind::IllegalOnOverride(k) if k == "nick"));
    assert!(matches!(o(string("blurb", "n", 3)), DiagnosticKind::IllegalOnOverride(k) if k == "blurb"));
    assert!(matches!(o(lit("minimum", "1", 3)), DiagnosticKind::IllegalOnOverride(k) if k == "minimum"));
    assert!(matches!(o(named("subtype", "T", 3)), DiagnosticKind::IllegalOnOverride(k) if k == "subtype"));
    assert!(matches!(o(bare("construct", 3)), DiagnosticKind::IllegalOnOverride(k) if k == "construct"));
    assert!(matches!(o(bare("boxed", 3)), DiagnosticKind::IllegalOnOverride(k) if k == "boxed"));
    assert!(matches!(o(not("notify_func", 3)), DiagnosticKind::IllegalOnOverride(k) if k == "notify_func"));
    assert!(matches!(
        o(not("connect_notify_func", 3)),
        DiagnosticKind::IllegalOnOverride(k) if k == "connect_notify_func"
    ));
    let d = build(
        "a",
        "Cell<u8>",
        vec![bare("get", 1), named("override_class", "Base", 2), string("nick", "n", 3)],
        false,
        false,
    )
    .unwrap_err();
    assert_eq!(d.span, at(103));
}

#[test]
fn auto_generated_setter_implies_flags() {
    let mut f = field("int_prop", "Cell<i32>", None);
    let p = Property::parse(&mut f, true, false, &vec![]).unwrap();
    assert!(!p.skip);
    assert!(p.set_inline.is_some());
    assert!(p.flags.contains(PropertyFlags::EXPLICIT_NOTIFY));
    assert!(p.flags.contains(PropertyFlags::LAX_VALIDATION));
    assert_eq!(p.flags.bits(), 0x4000_0010);
    let p = build("a", "Cell<u8>", vec![bare("get", 1), bare("set", 2), bare("set_inline", 3)], false, false)
        .unwrap();
    assert_eq!(p.flags.bits(), PropertyFlags::EXPLICIT_NOTIFY | PropertyFlags::LAX_VALIDATION);
    let p = build("a", "Cell<u8>", vec![bare("get", 1), bare("set", 2)], false, false).unwrap();
    assert_eq!(p.flags.bits(), 0);
    assert!(p.flags.is_empty());
}

#[test]
fn implied_flags_may_not_be_redeclared() {
    let r = build("a", "Cell<u8>", vec![bare("explicit_notify", 7)], true, false);
    match r {
        Err(d) => {
            assert!(matches!(d.kind, DiagnosticKind::RedundantWithAutoGenerated(k) if k == "explicit_notify"));
            assert_eq!(d.span, at(7));
        }
        Ok(p) => panic!("accepted: {:?}", p),
    }
    let r = build(
        "a",
        "Cell<u8>",
        vec![bare("get", 1), bare("set_inline", 2), bare("deprecated", 3), bare("lax_validation", 4)],
        false,
        false,
    );
    assert!(matches!(kind(r), DiagnosticKind::RedundantWithAutoGenerated(k) if k == "lax_validation"));
    let ok = build(
        "a",
        "Cell<u8>",
        vec![bare("get", 1), bare("set", 2), bare("explicit_notify", 3), bare("lax_validation", 4)],
        false,
        false,
    )
    .unwrap();
    assert_eq!(ok.flags.bits(), 0x4000_0010);
}

#[test]
fn names_are_derived_in_kebab_case() {
    let a = build("myLongName", "Cell<u8>", vec![bare("get", 1)], false, false).unwrap();
    let b = build("myLongName", "Cell<i64>", vec![bare("set", 1)], false, false).unwrap();
    assert_eq!(a.name(), "my-long-name");
    assert_eq!(a.name(), b.name());
    assert_eq!(a.name(), a.name());
    assert_eq!(a.name_span(), at(1000));
    assert!(matches!(a.name, PropertyName::Field(_)));
    let c = build(
        "my_long_name",
        "Cell<u8>",
        vec![bare("get", 1), string("name", "Other_Name", 2)],
        false,
        false,
    )
    .unwrap();
    assert_eq!(c.name(), "Other_Name");
    assert_eq!(c.getter_name(), "other_name");
    assert_eq!(c.setter_name(), "set_other_name");
}

#[test]
fn invalid_names_are_refused() {
    let r = build("a", "Cell<u8>", vec![bare("get", 1), string("name", "9-lives", 2)], false, false);
    match r {
        Err(d) => {
            assert!(matches!(d.kind, DiagnosticKind::InvalidName(n) if n == "9-lives"));
            assert_eq!(d.span, at(102));
        }
        Ok(p) => panic!("accepted: {:?}", p),
    }
    let r = build("a", "Cell<u8>", vec![bare("get", 1), string("name", "", 2)], false, false);
    assert!(matches!(kind(r), DiagnosticKind::InvalidName(n) if n.is_empty()));
}

#[test]
fn a_property_needs_an_accessor() {
    let r = build("a", "Cell<u8>", vec![bare("construct", 1)], false, false);
    match r {
        Err(d) => {
            assert!(matches!(d.kind, DiagnosticKind::MissingAccessor));
            assert_eq!(d.span, at(1002));
        }
        Ok(p) => panic!("accepted: {:?}", p),
    }
    let r = build("a", "Cell<u8>", vec![not("get", 1), not("set", 2)], true, false);
    assert!(matches!(kind(r), DiagnosticKind::MissingAccessor));
    let r = build("a", "Cell<u8>", vec![], false, false);
    assert!(matches!(kind(r), DiagnosticKind::MissingAccessor));
}

#[test]
fn duplicate_keys_are_refused() {
    let dup = |entries: Vec<AttrEntry>, pod: bool| match kind(build("a", "Cell<u8>", entries, pod, false)) {
        DiagnosticKind::DuplicateAttribute(k) => k,
        other => panic!("unexpected {:?}", other),
    };
    assert_eq!(dup(vec![bare("get", 1), bare("get", 2)], false), "get");
    assert_eq!(dup(vec![bare("set", 1), named("set", "x", 2)], false), "set");
    assert_eq!(dup(vec![named("get", "x", 1), not("get", 2)], true), "get");
    assert_eq!(dup(vec![not("set", 1), not("set_inline", 2)], true), "set_inline");
    assert_eq!(dup(vec![bare("set_inline", 1), bare("set_inline", 2)], false), "set_inline");
    assert_eq!(dup(vec![string("name", "a", 1), string("name", "b", 2)], false), "name");
    assert_eq!(dup(vec![string("nick", "a", 1), string("nick", "b", 2)], false), "nick");
    assert_eq!(dup(vec![string("blurb", "a", 1), string("blurb", "b", 2)], false), "blurb");
    assert_eq!(dup(vec![lit("minimum", "1", 1), lit("minimum", "2", 2)], false), "minimum");
    assert_eq!(dup(vec![named("subtype", "A", 1), named("subtype", "B", 2)], false), "subtype");
    assert_eq!(dup(vec![bare("construct", 1), bare("construct", 2)], false), "construct");
    assert_eq!(dup(vec![not("notify_func", 1), not("notify_func", 2)], false), "notify_func");
    assert_eq!(
        dup(vec![not("connect_notify_func", 1), not("connect_notify_func", 2)], false),
        "connect_notify_func"
    );
    let pairs = AttrValue::List(vec![
        AttrPair { key: ident("step", 5), value: Literal::Other("2".to_string()) },
        AttrPair { key: ident("minimum", 6), value: Literal::Other("3".to_string()) },
    ]);
    assert_eq!(dup(vec![lit("minimum", "1", 1), entry(false, "custom", pairs, 2)], false), "minimum");
}

#[test]
fn exclusive_families() {
    let conflict = |entries: Vec<AttrEntry>| match kind(build("a", "Cell<u8>", entries, false, false)) {
        DiagnosticKind::ConflictingFamilyMembers(a, b) => (a, b),
        other => panic!("unexpected {:?}", other),
    };
    let pair = |a: &str, b: &str| (a.to_string(), b.to_string());
    assert_eq!(conflict(vec![bare("enum", 1), bare("flags", 2)]), pair("enum", "flags"));
    assert_eq!(conflict(vec![bare("boxed", 1), bare("object", 2)]), pair("boxed", "object"));
    assert_eq!(conflict(vec![bare("object", 1), string("variant", "i", 2)]), pair("object", "variant"));
    assert_eq!(conflict(vec![string("variant", "i", 1), bare("enum", 2)]), pair("variant", "enum"));
    assert_eq!(conflict(vec![bare("enum", 1), bare("enum", 2)]), pair("enum", "enum"));
    assert_eq!(conflict(vec![bare("computed", 1), bare("abstract", 2)]), pair("computed", "abstract"));
    assert_eq!(conflict(vec![bare("virtual", 1), named("storage", "x", 2)]), pair("virtual", "storage"));
    assert_eq!(
        conflict(vec![named("storage", "x", 1), named("override_class", "T", 2)]),
        pair("storage", "override_class")
    );
    assert_eq!(
        conflict(vec![named("override_iface", "T", 1), bare("computed", 2)]),
        pair("override_iface", "computed")
    );
    assert_eq!(
        conflict(vec![named("override_class", "T", 1), named("override_iface", "T", 2)]),
        pair("override_class", "override_iface")
    );
}

#[test]
fn construct_only_never_notifies() {
    let r = build(
        "a",
        "Cell<u8>",
        vec![bare("get", 1), bare("set", 2), bare("construct_only", 3), not("notify_func", 4)],
        false,
        false,
    );
    assert!(matches!(kind(r), DiagnosticKind::IllegalOnConstructOnly(k) if k == "notify_func"));
    let r = build(
        "a",
        "Cell<u8>",
        vec![bare("get", 1), not("connect_notify_func", 2), bare("construct_only", 3)],
        false,
        false,
    );
    assert!(matches!(kind(r), DiagnosticKind::IllegalOnConstructOnly(k) if k == "connect_notify_func"));
    let p = build("a", "Cell<u8>", vec![bare("get", 1), bare("set", 2), bare("construct_only", 3)], false, false)
        .unwrap();
    assert_eq!(p.notify_prototype(), None);
    assert_eq!(p.connect_prototype("g"), None);
    assert_eq!(p.setter_prototype("go"), None);
    assert!(p.getter_prototype("go").is_some());
}

#[test]
fn custom_setter_may_not_shadow_the_generated_one() {
    let r = build("my_prop", "Cell<u8>", vec![named("set", "set_my_prop", 1)], false, false);
    match r {
        Err(d) => {
            assert!(matches!(d.kind, DiagnosticKind::SetterNameConflict(k) if k == "set_my_prop"));
            assert_eq!(d.span, at(101));
        }
        Ok(p) => panic!("accepted: {:?}", p),
    }
    let p = build("my_prop", "Cell<u8>", vec![named("set", "store", 1)], false, false).unwrap();
    same_tokens(
        &p.set_impl(1, "go").unwrap(),
        "1usize => { obj.store(value.get::<<Cell<u8> as go::ParamStore>::Type>().unwrap()); }",
    );
    let p = build(
        "my_prop",
        "Cell<u8>",
        vec![named("set", "set_my_prop", 1), bare("set_inline", 2)],
        false,
        false,
    )
    .unwrap();
    assert_eq!(p.setter_prototype("go"), None);
}

#[test]
fn custom_getter_under_another_name() {
    let p = build("value", "Cell<u8>", vec![named("get", "fetch_value", 1)], false, false).unwrap();
    same_tokens(
        &p.getter_definition("Obj", "go").unwrap(),
        "fn value(&self) -> <Cell<u8> as go::ParamStore>::Type { #![inline] \
         <Self as go::glib::object::ObjectExt>::property(self, \"value\") }",
    );
    same_tokens(&p.get_impl(1, "go").unwrap(), "1usize => { go::glib::ToValue::to_value(&obj.fetch_value()) }");
    assert!(p.has_getter() && p.reads_by_name());
    let q = build("value", "Cell<u8>", vec![named("get", "value", 1)], false, false).unwrap();
    assert_eq!(q.getter_prototype("go"), None);
    assert!(!q.has_getter());
    let r = build("value", "Cell<u8>", vec![bare("get", 1)], false, false).unwrap();
    assert!(r.has_getter() && !r.reads_by_name());
}

#[test]
fn placeholder_accessors_follow_the_convention() {
    let p = build(
        "my_custom_accessors",
        "RefCell<String>",
        vec![named("get", "_", 1), named("set", "_", 2), bare("set_inline", 3)],
        false,
        false,
    )
    .unwrap();
    assert!(matches!(&p.get, PropertyPermission::AllowCustom(m) if m.name == "my_custom_accessors"));
    assert!(matches!(&p.set, PropertyPermission::AllowCustom(m) if m.name == "set_my_custom_accessors"));
    let p = build("my_prop", "Cell<u8>", vec![named("set", "_", 2)], false, false).unwrap();
    assert!(matches!(&p.set, PropertyPermission::AllowCustom(m) if m.name == "_set_my_prop" && m.span == at(102)));
    assert_eq!(p.custom_setter_name(), "_set_my_prop");
}

#[test]
fn unknown_and_malformed_keys() {
    let k = |entries: Vec<AttrEntry>, pod: bool, iface: bool| kind(build("a", "Cell<u8>", entries, pod, iface));
    assert!(matches!(k(vec![bare("frobnicate", 1)], false, false), DiagnosticKind::UnexpectedAttribute(n) if n == "frobnicate"));
    assert!(matches!(k(vec![bare("skip", 1)], false, false), DiagnosticKind::UnexpectedAttribute(n) if n == "skip"));
    assert!(matches!(k(vec![bare("get", 1), bare("skip", 2)], true, false), DiagnosticKind::DuplicateAttribute(_) | DiagnosticKind::MalformedAttribute(_)));
    assert!(matches!(k(vec![not("get", 1)], false, false), DiagnosticKind::UnexpectedAttribute(n) if n == "get"));
    assert!(matches!(k(vec![bare("set_inline", 1)], true, false), DiagnosticKind::UnexpectedAttribute(n) if n == "set_inline"));
    assert!(matches!(k(vec![bare("computed", 1)], false, true), DiagnosticKind::UnexpectedAttribute(n) if n == "computed"));
    assert!(matches!(k(vec![not("construct", 1)], false, false), DiagnosticKind::UnexpectedAttribute(n) if n == "construct"));
    assert!(matches!(k(vec![bare("name", 1)], false, false), DiagnosticKind::MalformedAttribute(n) if n == "name"));
    assert!(matches!(k(vec![lit("nick", "5", 1)], false, false), DiagnosticKind::MalformedAttribute(n) if n == "nick"));
    assert!(matches!(k(vec![string("construct", "x", 1)], false, false), DiagnosticKind::MalformedAttribute(n) if n == "construct"));
    assert!(matches!(k(vec![bare("get", 1)], true, false), DiagnosticKind::MalformedAttribute(n) if n == "get"));
    assert!(matches!(k(vec![named("get", "x", 1)], false, true), DiagnosticKind::MalformedAttribute(n) if n == "get"));
    assert!(matches!(k(vec![bare("minimum", 1)], false, false), DiagnosticKind::MalformedAttribute(n) if n == "minimum"));
    assert!(matches!(k(vec![bare("storage", 1)], false, false), DiagnosticKind::MalformedAttribute(n) if n == "storage"));
    assert!(matches!(k(vec![bare("variant", 1)], false, false), DiagnosticKind::MalformedAttribute(n) if n == "variant"));
    assert!(matches!(k(vec![bare("custom", 1)], false, false), DiagnosticKind::MalformedAttribute(n) if n == "custom"));
    assert!(matches!(k(vec![string("enum", "x", 1)], false, false), DiagnosticKind::MalformedAttribute(n) if n == "enum"));
}

#[test]
fn skip_stands_alone() {
    let mut f = field("skipped_field", "Vec<(i32, bool)>", Some(vec![bare("skip", 1)]));
    let p = Property::parse(&mut f, true, false, &vec![]).unwrap();
    assert!(p.skip);
    assert!(f.attrs.is_empty());
    let r = build("a", "Cell<u8>", vec![bare("skip", 1), bare("construct", 2)], true, false);
    match r {
        Err(d) => {
            assert!(matches!(d.kind, DiagnosticKind::ExtraTokensAfterSkip));
            assert_eq!(d.span, at(2));
        }
        Ok(p) => panic!("accepted: {:?}", p),
    }
    let r = build("a", "Cell<u8>", vec![string("skip", "x", 1)], true, false);
    assert!(matches!(kind(r), DiagnosticKind::MalformedAttribute(n) if n == "skip"));
}

#[test]
fn members_without_attribute() {
    let mut f = field("plain", "u8", None);
    let p = Property::parse(&mut f, false, false, &vec![]).unwrap();
    assert!(p.skip);
    assert!(matches!(p.get, PropertyPermission::Deny));
    assert!(matches!(p.set, PropertyPermission::Deny));
    let q = Property::new(&field("plain", "u8", None), true, true);
    assert!(!q.skip);
    assert!(matches!(q.storage, PropertyStorage::InterfaceAbstract));
    assert!(matches!(q.get, PropertyPermission::Allow));
    assert!(matches!(q.special_type, PropertyType::Unspecified));
    assert_eq!(q.ty, "u8");
    assert!(q.is_abstract());
    assert!(!q.is_inherited());
}

#[test]
fn auto_generated_setter_compares_and_notifies() {
    let p = build(
        "level",
        "Cell<u8>",
        vec![bare("get", 1), bare("set", 2), bare("set_inline", 3), lit("minimum", "5", 4), lit("maximum", "20", 5)],
        false,
        false,
    )
    .unwrap();
    let setter = p.setter_definition(4, "Obj", "Self::properties", "go").unwrap();
    same_tokens(
        &setter,
        "fn set_level(&self, value: <Cell<u8> as go::ParamStore>::Type) { #![inline] \
         assert!(value >= 5); assert!(value <= 20); \
         if go::ParamStoreWriteChanged::set_owned_checked(\
         &go::glib::subclass::prelude::ObjectSubclassIsExt::imp(go::glib::Cast::upcast_ref::<Obj>(self)).level, value) \
         { <Self as go::glib::object::ObjectExt>::notify_by_pspec(self, &Self::properties()[4usize]); } }",
    );
    syn::parse_str::<syn::ImplItemMethod>(&setter).unwrap();
    same_tokens(
        &p.set_impl(5, "go").unwrap(),
        "5usize => { let value = value.get::<<Cell<u8> as go::ParamStore>::Type>().unwrap(); \
         assert!(value >= 5); assert!(value <= 20); \
         if go::ParamStoreWriteChanged::set_owned_checked(&self.level, value) \
         { <<Self as go::glib::subclass::types::ObjectSubclass>::Type as go::glib::object::ObjectExt>::notify_by_pspec(obj, pspec); } }",
    );
    let write_only = build("level", "Cell<u8>", vec![bare("set", 2), bare("set_inline", 3)], false, false).unwrap();
    same_tokens(
        &write_only.inline_set_impl(None, "notify();", "go"),
        "go::ParamStoreWrite::set_owned(&self.level, value);",
    );
}

#[test]
fn special_types_select_the_builder() {
    let create = |key: AttrEntry| {
        build("animal", "Cell<Animal>", vec![bare("get", 1), key], false, false).unwrap().create("go")
    };
    same_tokens(
        &create(bare("enum", 2)),
        "<go::ParamSpecEnumBuilder as ::core::default::Default>::default()\
         .type_::<<<Cell<Animal> as go::ParamStore>::Type as go::glib::value::ValueType>::Type>()\
         .build(\"animal\", \"animal\", \"animal\", go::glib::ParamFlags::READABLE)",
    );
    assert!(create(bare("flags", 2)).starts_with("<go::ParamSpecFlagsBuilder as"));
    assert!(create(bare("boxed", 2)).starts_with("<go::ParamSpecBoxedBuilder as"));
    assert!(create(bare("object", 2)).starts_with("<go::ParamSpecObjectBuilder as"));
    same_tokens(
        &create(string("variant", "i", 2)),
        "<<Cell<Animal> as go::ParamStore>::Type as go::ParamSpecBuildable>::builder()\
         .variant(\"i\").build(\"animal\", \"animal\", \"animal\", go::glib::ParamFlags::READABLE)",
    );
    same_tokens(
        &create(tokens("subtype", "glib::Object", 2)),
        "<<Cell<Animal> as go::ParamStore>::Type as go::ParamSpecBuildable>::builder()\
         .subtype::<<glib::Object as go::glib::value::ValueType>::Type>()\
         .build(\"animal\", \"animal\", \"animal\", go::glib::ParamFlags::READABLE)",
    );
    let write_only = build("animal", "Cell<Animal>", vec![bare("set", 1), bare("deprecated", 2)], false, false)
        .unwrap()
        .create("go");
    assert!(write_only.ends_with("go::glib::ParamFlags::WRITABLE | go::glib::ParamFlags::DEPRECATED)"));
}

#[test]
fn custom_pairs_become_builder_arguments() {
    let pairs = AttrValue::List(vec![
        AttrPair { key: ident("step", 5), value: Literal::Other("2".to_string()) },
        AttrPair { key: ident("label", 6), value: Literal::Str("a b".to_string()) },
    ]);
    let p = build(
        "a",
        "Cell<u8>",
        vec![bare("get", 1), lit("default", "-3", 2), entry(false, "custom", pairs, 3)],
        false,
        false,
    )
    .unwrap();
    assert_eq!(p.buildable_props.len(), 3);
    assert!(p.has_buildable_prop("step"));
    assert!(!p.has_buildable_prop("maximum"));
    assert_eq!(p.find_buildable_prop("maximum"), None);
    assert!(p.create("go").contains(".default(-3).step(2).label(\"a b\").build("));
}

#[test]
fn delegated_storage() {
    let p = build(
        "my_delegate",
        "Cell<bool>",
        vec![bare("get", 1), bare("set", 2), tokens("storage", "inner.my_bool", 3)],
        false,
        false,
    )
    .unwrap();
    assert!(matches!(&p.storage, PropertyStorage::Delegate(_, path) if path == "inner.my_bool"));
    assert_eq!(p.field_storage(None, "go"), "self.inner.my_bool");
    same_tokens(&p.get_impl(1, "go").unwrap(), "1usize => { go::ParamStoreRead::get_value(&self.inner.my_bool) }");
    assert_eq!(p.inner_type("go"), "<Cell<bool> as go::ParamStore>::Type");
}

#[test]
fn interface_properties_are_abstract() {
    let p = build("title", "String", vec![bare("get", 1), unit("set", 2)], false, true).unwrap();
    assert!(matches!(p.set, PropertyPermission::AllowNoMethod(_)));
    assert_eq!(p.get_impl(1, "go"), None);
    assert_eq!(p.set_impl(1, "go"), None);
    assert_eq!(p.setter_prototype("go"), None);
    same_tokens(
        &p.getter_definition("Obj", "go").unwrap(),
        "fn title(&self) -> String { #![inline] <Self as go::glib::object::ObjectExt>::property(self, \"title\") }",
    );
    assert_eq!(p.inner_type("go"), "String");
}

#[test]
fn no_method_accessors_need_storage() {
    let r = build("a", "u8", vec![bare("abstract", 1), unit("get", 2)], false, false);
    assert!(matches!(kind(r), DiagnosticKind::MissingCustomAccessorForAbstractStorage));
    let p = build("a", "Cell<u8>", vec![unit("get", 2)], false, false).unwrap();
    assert_eq!(p.getter_prototype("go"), None);
    assert!(p.get_impl(1, "go").is_some());
    assert!(p.notify_prototype().is_some());
}

#[test]
fn suppressed_helpers() {
    let p = build(
        "my_no_defaults",
        "Cell<u64>",
        vec![bare("get", 1), bare("set", 2), not("notify_func", 3), not("connect_notify_func", 4)],
        false,
        false,
    )
    .unwrap();
    assert_eq!(p.notify_prototype(), None);
    assert_eq!(p.notify_definition(1, "p", "g"), None);
    assert_eq!(p.connect_prototype("g"), None);
    assert_eq!(p.connect_definition("g"), None);
    assert!(p.notifies());
    assert!(p.pspec_prototype("g").is_some());
}

#[test]
fn struct_members_in_order() {
    let mut fields = vec![
        field("readable_i32", "Cell<i32>", Some(vec![bare("get", 1)])),
        field("inner", "Inner", None),
        field("my_computed", "i32", Some(vec![bare("computed", 1), named("get", "_", 2)])),
        field("my_delegate", "Cell<bool>", Some(vec![bare("get", 1), tokens("storage", "inner.b", 2)])),
        field("writable", "Cell<i32>", Some(vec![bare("set", 1)])),
    ];
    let props = Property::from_struct(&mut fields, false, false, &vec![]).unwrap();
    let names: Vec<String> = props.iter().map(|p| p.name()).collect();
    assert_eq!(names, ["readable-i32", "my-computed", "my-delegate", "writable"]);
    let kept: Vec<&str> = fields.iter().map(|f| f.ident.name.as_str()).collect();
    assert_eq!(kept, ["readable_i32", "inner", "writable"]);
    assert!(fields.iter().all(|f| f.attrs.is_empty()));
}

#[test]
fn struct_members_with_one_name() {
    let mut fields = vec![
        field("a", "Cell<i32>", Some(vec![bare("get", 1)])),
        field("b", "Cell<i32>", Some(vec![bare("get", 1), string("name", "a", 2)])),
    ];
    match Property::from_struct(&mut fields, false, false, &vec![]) {
        Err(d) => {
            assert_eq!(d.len(), 1);
            assert!(matches!(&d[0].kind, DiagnosticKind::DuplicatePropertyDefinition(n) if n == "a"));
            assert_eq!(d[0].span, at(102));
        }
        Ok(p) => panic!("accepted: {:?}", p),
    }
    assert_eq!(fields.len(), 2);
}

#[test]
fn diagnostics_of_all_members_are_gathered() {
    let mut fields = vec![
        field("first", "Cell<i32>", Some(vec![bare("get", 1), bare("get", 2)])),
        field("fine", "Cell<i32>", Some(vec![bare("get", 3)])),
        field("second", "Cell<i32>", Some(vec![bare("construct", 4)])),
        field("third", "u8", Some(vec![bare("computed", 5), bare("get", 6)])),
        field("fourth", "Cell<i32>", Some(vec![bare("get", 7), string("name", "fine", 8)])),
    ];
    let diagnostics = Property::from_struct(&mut fields, false, false, &vec![]).unwrap_err();
    assert_eq!(diagnostics.len(), 4);
    assert!(matches!(&diagnostics[0].kind, DiagnosticKind::DuplicateAttribute(k) if k == "get"));
    assert_eq!(diagnostics[0].span, at(2));
    assert!(matches!(&diagnostics[1].kind, DiagnosticKind::MissingAccessor));
    assert!(matches!(&diagnostics[2].kind, DiagnosticKind::MissingCustomAccessorForAbstractStorage));
    assert_eq!(diagnostics[2].span, at(5));
    assert!(matches!(&diagnostics[3].kind, DiagnosticKind::DuplicatePropertyDefinition(n) if n == "fine"));
    let kept: Vec<&str> = fields.iter().map(|f| f.ident.name.as_str()).collect();
    assert_eq!(kept, ["first", "fine", "second", "third", "fourth"]);
}

#[test]
fn plain_data_members() {
    let mut fields = vec![
        field("int_prop", "Cell<i32>", None),
        field("string_prop", "RefCell<String>", None),
        field("skipped_field", "Vec<(i32, bool)>", Some(vec![bare("skip", 1)])),
        field("read_only", "Cell<u8>", Some(vec![not("set", 1)])),
        field("plain_setter", "Cell<u8>", Some(vec![not("set_inline", 1)])),
    ];
    let props = Property::from_struct(&mut fields, true, false, &vec![]).unwrap();
    assert_eq!(props.len(), 4);
    assert_eq!(fields.len(), 5);
    assert!(matches!(props[2].set, PropertyPermission::Deny));
    assert!(props[2].set_inline.is_none());
    assert_eq!(props[2].flags.bits(), 0);
    assert!(matches!(props[3].set, PropertyPermission::Allow));
    assert!(props[3].set_inline.is_none());
    same_tokens(
        &props[0].setter_definition(0, "Pod", "Self::properties", "go").unwrap(),
        "fn set_int_prop(&self, value: <Cell<i32> as go::ParamStore>::Type) { #![inline] \
         if go::ParamStoreWriteChanged::set_owned_checked(\
         &go::glib::subclass::prelude::ObjectSubclassIsExt::imp(go::glib::Cast::upcast_ref::<Pod>(self)).int_prop, value) \
         { <Self as go::glib::object::ObjectExt>::notify_by_pspec(self, &Self::properties()[0usize]); } }",
    );
}

#[test]
fn basic_property_declarations() {
    let mut fields = vec![
        field("readable_i32", "Cell<i32>", Some(vec![bare("get", 1)])),
        field("writable_i32", "Cell<i32>", Some(vec![bare("set", 1)])),
        field("my_i32", "Cell<i32>", Some(vec![bare("get", 1), bare("set", 2)])),
        field("my_str", "RefCell<String>", Some(vec![bare("get", 1), bare("set", 2)])),
        field("my_mutex", "Mutex<i32>", Some(vec![bare("get", 1), bare("set", 2)])),
        field("my_rw_lock", "RwLock<String>", Some(vec![bare("get", 1), bare("set", 2)])),
        field(
            "my_attributed",
            "Cell<u8>",
            Some(vec![
                bare("get", 1),
                bare("set", 2),
                bare("construct", 3),
                string("name", "my-u8", 4),
                string("nick", "My U8", 5),
                string("blurb", "A uint8", 6),
                lit("minimum", "5", 7),
                lit("maximum", "20", 8),
                lit("default", "19", 9),
            ]),
        ),
        field(
            "my_construct_only",
            "Cell<f64>",
            Some(vec![bare("get", 1), bare("set", 2), bare("construct_only", 3), lit("default", "100.0", 4)]),
        ),
        field(
            "my_explicit",
            "Cell<u64>",
            Some(vec![bare("get", 1), bare("set", 2), bare("explicit_notify", 3), bare("lax_validation", 4)]),
        ),
        field("my_auto_set", "OnceCell<f32>", Some(vec![bare("get", 1), bare("set", 2), bare("set_inline", 3)])),
        field(
            "my_auto_set_co",
            "OnceCell<f32>",
            Some(vec![bare("get", 1), bare("set", 2), bare("set_inline", 3), bare("construct_only", 4)]),
        ),
        field(
            "my_custom_accessors",
            "RefCell<String>",
            Some(vec![named("get", "_", 1), named("set", "_", 2), bare("set_inline", 3)]),
        ),
        field(
            "my_computed_prop",
            "i32",
            Some(vec![bare("computed", 1), bare("get", 2), bare("set", 3), bare("explicit_notify", 4)]),
        ),
        field(
            "my_delegate",
            "Cell<bool>",
            Some(vec![bare("get", 1), bare("set", 2), tokens("storage", "inner.my_bool", 3)]),
        ),
        field(
            "my_no_defaults",
            "Cell<u64>",
            Some(vec![bare("get", 1), bare("set", 2), not("notify_func", 3), not("connect_notify_func", 4)]),
        ),
        field("inner", "BasicPropsInner", None),
    ];
    let methods = vec![
        "my_custom_accessors".to_string(),
        "set_my_custom_accessors".to_string(),
        "my_computed_prop".to_string(),
        "_set_my_computed_prop".to_string(),
    ];
    let props = Property::from_struct(&mut fields, false, false, &methods).unwrap();
    assert_eq!(props.len(), 15);
    assert_eq!(fields.len(), 14);
    let names: Vec<String> = props.iter().map(|p| p.name()).collect();
    assert_eq!(names[6], "my-u8");
    assert_eq!(names[2], "my-i32");
    assert_eq!(names[3], "my-str");
    assert!(props[6].create("go").contains(".default(19).build(\"my-u8\", \"My U8\", \"A uint8\", "));
    assert!(props[7].create("go").contains(".default(100.0).build("));
    assert!(props[7].create("go").ends_with(
        "go::glib::ParamFlags::READABLE | go::glib::ParamFlags::WRITABLE | go::glib::ParamFlags::CONSTRUCT_ONLY)"
    ));
    assert!(props[9].create("go").ends_with(
        "go::glib::ParamFlags::WRITABLE | go::glib::ParamFlags::LAX_VALIDATION | go::glib::ParamFlags::EXPLICIT_NOTIFY)"
    ));
    for (i, p) in props.iter().enumerate() {
        syn::parse_str::<syn::Expr>(&p.create("go")).unwrap();
        for arm in [p.get_impl(i + 1, "go"), p.set_impl(i + 1, "go")].into_iter().flatten() {
            syn::parse_str::<syn::Arm>(&arm).unwrap();
        }
        for def in [
            p.pspec_definition(i, "Self::properties", "go::glib"),
            p.notify_definition(i, "Self::properties", "go::glib"),
            p.connect_definition("go::glib"),
            p.getter_definition("Obj", "go"),
            p.setter_definition(i, "Obj", "Self::properties", "go"),
        ]
        .into_iter()
        .flatten()
        {
            syn::parse_str::<syn::ImplItemMethod>(&def).unwrap();
        }
    }
    assert!(props[10].setter_prototype("go").is_none());
    assert!(props[10].set_impl(11, "go").unwrap().contains("go::ParamStoreWrite::set_owned(&self.my_auto_set_co, value);"));
    assert!(props[11].getter_prototype("go").is_none() && props[11].setter_prototype("go").is_none());
    assert!(props[11].set_impl(12, "go").unwrap().contains("obj.set_my_custom_accessors("));
}

#[test]
fn complex_property_declarations() {
    let mut base = vec![field(
        "a_string",
        "String",
        Some(vec![
            string("name", "renamed-string", 1),
            bare("abstract", 2),
            bare("get", 3),
            bare("set", 4),
            bare("construct", 5),
            lit("default", "\"foobar\"", 6),
        ]),
    )];
    let failed = Property::from_struct(&mut base, false, false, &vec![]).unwrap_err();
    assert!(matches!(failed[0].kind, DiagnosticKind::MissingCustomAccessorForAbstractStorage));
    let mut base = vec![field(
        "a_string",
        "String",
        Some(vec![
            string("name", "renamed-string", 1),
            bare("abstract", 2),
            bare("get", 3),
            bare("set", 4),
            bare("construct", 5),
            string("default", "foobar", 6),
        ]),
    )];
    let methods = vec!["renamed_string".to_string(), "_set_renamed_string".to_string()];
    let props = Property::from_struct(&mut base, false, false, &methods).unwrap();
    assert!(base.is_empty());
    assert!(props[0].create("go").contains(".default(\"foobar\").build(\"renamed-string\", "));
    assert_eq!(props[0].inner_type("go"), "String");
    assert_eq!(props[0].get_impl(1, "go"), None);

    let mut fields = vec![
        field("object_type", "Cell<glib::Type>", Some(vec![bare("get", 1), bare("set", 2), tokens("subtype", "glib::Object", 3)])),
        field("time", "RefCell<glib::DateTime>", Some(vec![bare("get", 1), bare("set", 2), bare("boxed", 3)])),
        field("optional_time", "RefCell<Option<glib::DateTime>>", Some(vec![bare("get", 1), bare("set", 2), bare("boxed", 3)])),
        field("dummy", "OnceCell<BaseObject>", Some(vec![bare("get", 1), bare("set", 2), bare("object", 3), bare("construct_only", 4)])),
        field("animal", "Cell<Animal>", Some(vec![bare("get", 1), bare("set", 2), bare("enum", 3)])),
        field("binding_flags", "Cell<glib::BindingFlags>", Some(vec![bare("get", 1), bare("set", 2), bare("flags", 3)])),
        field("pspec", "RefCell<glib::ParamSpec>", Some(vec![bare("get", 1), bare("set", 2), tokens("subtype", "glib::ParamSpecObject", 3)])),
        field("variant", "RefCell<glib::Variant>", Some(vec![bare("get", 1), bare("set", 2), string("variant", "i", 3)])),
        field("renamed_string", "RefCell<String>", Some(vec![bare("get", 1), bare("set", 2), named("override_class", "BaseObject", 3)])),
    ];
    let props = Property::from_struct(&mut fields, false, false, &vec![]).unwrap();
    assert_eq!(props.len(), 9);
    assert_eq!(fields.len(), 9);
    assert!(matches!(props[3].special_type, PropertyType::Object(_)));
    assert!(matches!(props[7].special_type, PropertyType::Variant(_, _)));
    assert_eq!(props[8].name(), "renamed-string");
    for p in &props {
        syn::parse_str::<syn::Expr>(&p.create("go")).unwrap();
    }
}
