//! What holds of every descriptor, stated over the models of the builders,
//! the validator and the generators.

use vstd::prelude::*;
use crate::attr::{SpecAttrEntry, SpecAttrPair, SpecAttrValue, SpecLiteral};
use crate::diag::{SpecDiagnostic, SpecDiagnosticKind, SpecIdent};
use crate::flags::PropertyFlags;
use crate::collections::opt_seq;
use crate::names::{kebab_case, valid_name};
use crate::output::{property_entries, property_get_impls, property_set_impls};
use crate::property::{
    SpecField, SpecProperty, SpecPropertyName, SpecPropertyOverride, SpecPropertyPermission,
    SpecPropertyStorage, SpecPropertyType,
};
use crate::property_builder::{add_pairs, apply_all, apply_entry, asks_skip, parse_from_attr};
use crate::property_validate::{
    check_construct_only, check_override, first_implied_flag,
    is_implied_flag, lemma_valid_is_wf, validate,
};
use crate::signal::SpecSignal;
use crate::signal_codegen::detail_param;
use crate::text::string_literal;

verus! {

/// How many of the storage kinds a descriptor has.
pub open spec fn storage_kinds(s: SpecPropertyStorage) -> int {
    (if s is Field {
        1int
    } else {
        0
    }) + (if s is InterfaceAbstract {
        1int
    } else {
        0
    }) + (if s is Abstract {
        1int
    } else {
        0
    }) + (if s is Computed {
        1int
    } else {
        0
    }) + (if s is Delegate {
        1int
    } else {
        0
    })
}

/// How many of the special-type tags a descriptor has.
pub open spec fn special_types(t: SpecPropertyType) -> int {
    (if t is Unspecified {
        1int
    } else {
        0
    }) + (if t is Enum {
        1int
    } else {
        0
    }) + (if t is Flags {
        1int
    } else {
        0
    }) + (if t is Boxed {
        1int
    } else {
        0
    }) + (if t is Object {
        1int
    } else {
        0
    }) + (if t is Variant {
        1int
    } else {
        0
    })
}

/// A descriptor has exactly one storage kind and exactly one special-type
/// tag.
pub proof fn lemma_one_storage_one_special_type(p: SpecProperty)
    ensures
        storage_kinds(p.storage) == 1,
        special_types(p.special_type) == 1,
{
}

/// Whether at most one key of the storage and override family has been
/// applied.
pub open spec fn family_exclusive(p: SpecProperty) -> bool {
    !(p.override_ is Some && p.storage.keyword() is Some)
}

/// The pairs of a `custom(..)` list change the builder arguments and
/// nothing else.
pub proof fn lemma_pairs_change_args_only(p: SpecProperty, pairs: Seq<SpecAttrPair>)
    ensures
        add_pairs(p, pairs) matches Ok(q) ==> q == (SpecProperty {
            buildable_props: q.buildable_props,
            ..p
        }),
    decreases pairs.len(),
{
    if pairs.len() > 0 {
        lemma_pairs_change_args_only(p, pairs.drop_last());
    }
}

/// One entry keeps the storage and override family exclusive.
pub proof fn lemma_entry_keeps_family_exclusive(
    p: SpecProperty,
    e: SpecAttrEntry,
    pod: bool,
    iface: bool,
)
    requires
        family_exclusive(p),
    ensures
        apply_entry(p, e, pod, iface) matches Ok(q) ==> family_exclusive(q),
{
    if let SpecAttrValue::List(pairs) = e.value {
        lemma_pairs_change_args_only(p, pairs);
    }
}

/// A descriptor that an attribute list makes holds at most one key of the
/// storage and override family: a second one is refused.
pub proof fn lemma_built_family_exclusive(
    entries: Seq<SpecAttrEntry>,
    field: SpecField,
    pod: bool,
    iface: bool,
)
    ensures
        parse_from_attr(entries, field, pod, iface) matches Ok(p) ==> family_exclusive(p),
{
    let start = SpecProperty { skip: false, ..SpecProperty::new(field, pod, iface) };
    lemma_all_keep_family_exclusive(start, entries, pod, iface);
}

/// The entries of a list keep the storage and override family exclusive.
pub proof fn lemma_all_keep_family_exclusive(
    p: SpecProperty,
    entries: Seq<SpecAttrEntry>,
    pod: bool,
    iface: bool,
)
    requires
        family_exclusive(p),
    ensures
        apply_all(p, entries, pod, iface) matches Ok(q) ==> family_exclusive(q),
    decreases entries.len(),
{
    if entries.len() > 0 {
        lemma_all_keep_family_exclusive(p, entries.drop_last(), pod, iface);
        if let Ok(q) = apply_all(p, entries.drop_last(), pod, iface) {
            lemma_entry_keeps_family_exclusive(q, entries.last(), pod, iface);
        }
    }
}

/// A valid property with an auto-generated setter carries the flags
/// `explicit_notify` and `lax_validation`.
pub proof fn lemma_auto_generated_implies_flags(p: SpecProperty, methods: Seq<Seq<char>>)
    ensures
        validate(p, methods) matches Ok(q) ==> (!q.skip && q.write_auto_generated() ==> q.flags.has(
            PropertyFlags::EXPLICIT_NOTIFY,
        ) && q.flags.has(PropertyFlags::LAX_VALIDATION)),
{
    lemma_valid_is_wf(p, methods);
}

/// A flag that an auto-generated setter implies is found among the declared
/// flags wherever one is declared.
pub proof fn lemma_first_implied_flag(idents: Seq<SpecIdent>, i: int)
    requires
        0 <= i < idents.len(),
        is_implied_flag(idents[i].name),
    ensures
        first_implied_flag(idents) matches Some(f) && is_implied_flag(f.name),
    decreases idents.len(),
{
    if !is_implied_flag(idents[0].name) {
        assert(idents.skip(1)[i - 1] == idents[i]);
        lemma_first_implied_flag(idents.skip(1), i - 1);
    }
}

/// To declare `explicit_notify` or `lax_validation` on a property with an
/// auto-generated setter is refused as redundant, where no earlier rule
/// refuses the property.
pub proof fn lemma_redeclared_flag_is_redundant(p: SpecProperty, methods: Seq<Seq<char>>, i: int)
    requires
        !p.skip,
        valid_name(p.name()),
        p.get.is_allowed() || p.set.is_allowed(),
        check_override(p) is None,
        check_construct_only(p) is None,
        p.write_auto_generated(),
        0 <= i < p.flag_idents.len(),
        is_implied_flag(p.flag_idents[i].name),
    ensures
        validate(p, methods) matches Err(d) && d.kind
            matches SpecDiagnosticKind::RedundantWithAutoGenerated(k) && is_implied_flag(k),
{
    lemma_first_implied_flag(p.flag_idents, i);
}

/// The name of a property depends on the member's identifier alone where
/// no name is given, and is the given name where one is.
pub proof fn lemma_name_derivation(p: SpecProperty, q: SpecProperty)
    ensures
        (p.name matches SpecPropertyName::Field(i) && q.name matches SpecPropertyName::Field(j)
            && i.name == j.name) ==> p.name() == q.name(),
        p.name matches SpecPropertyName::Field(i) ==> p.name() == kebab_case(i.name),
        p.name matches SpecPropertyName::Custom(s) ==> p.name() == s.value,
{
}

/// Whether the entry gives the property the name `s`.
pub open spec fn names_property(e: SpecAttrEntry, s: Seq<char>) -> bool {
    !e.negated && e.key.name == "name"@ && e.value == SpecAttrValue::Lit(SpecLiteral::Str(s))
}

/// One entry leaves a given name as it is.
pub proof fn lemma_entry_keeps_name(p: SpecProperty, e: SpecAttrEntry, pod: bool, iface: bool)
    requires
        p.name is Custom,
    ensures
        apply_entry(p, e, pod, iface) matches Ok(q) ==> q.name == p.name,
{
    if let SpecAttrValue::List(pairs) = e.value {
        lemma_pairs_change_args_only(p, pairs);
    }
}

/// The entries of a list leave a given name as it is.
pub proof fn lemma_all_keep_name(p: SpecProperty, entries: Seq<SpecAttrEntry>, pod: bool, iface: bool)
    requires
        p.name is Custom,
    ensures
        apply_all(p, entries, pod, iface) matches Ok(q) ==> q.name == p.name,
    decreases entries.len(),
{
    if entries.len() > 0 {
        lemma_all_keep_name(p, entries.drop_last(), pod, iface);
        if let Ok(q) = apply_all(p, entries.drop_last(), pod, iface) {
            lemma_entry_keeps_name(q, entries.last(), pod, iface);
        }
    }
}

/// The entry that gives a name makes it the property's name.
pub proof fn lemma_name_entry_sets_name(
    p: SpecProperty,
    e: SpecAttrEntry,
    pod: bool,
    iface: bool,
    s: Seq<char>,
)
    requires
        names_property(e, s),
    ensures
        apply_entry(p, e, pod, iface) matches Ok(q) ==> q.name
            matches SpecPropertyName::Custom(l) && l.value == s,
{
    reveal_strlit("name");
    reveal_strlit("get");
    reveal_strlit("set");
    reveal_strlit("set_inline");
}

/// Once an entry of the list has given a name, the property that the
/// entries make has that name.
pub proof fn lemma_all_set_name(
    p: SpecProperty,
    entries: Seq<SpecAttrEntry>,
    pod: bool,
    iface: bool,
    i: int,
    s: Seq<char>,
)
    requires
        0 <= i < entries.len(),
        names_property(entries[i], s),
    ensures
        apply_all(p, entries, pod, iface) matches Ok(q) ==> q.name
            matches SpecPropertyName::Custom(l) && l.value == s,
    decreases entries.len(),
{
    let init = entries.drop_last();
    if let Ok(q) = apply_all(p, init, pod, iface) {
        if i == entries.len() - 1 {
            lemma_name_entry_sets_name(q, entries[i], pod, iface, s);
        } else {
            assert(init[i] == entries[i]);
            lemma_all_set_name(p, init, pod, iface, i, s);
            lemma_entry_keeps_name(q, entries.last(), pod, iface);
        }
    }
}

/// A name that the attribute list gives wins over the one derived from the
/// member's identifier: the property that the list makes has the given
/// name.
pub proof fn lemma_explicit_name_wins(
    entries: Seq<SpecAttrEntry>,
    field: SpecField,
    pod: bool,
    iface: bool,
    i: int,
    s: Seq<char>,
)
    requires
        0 <= i < entries.len(),
        names_property(entries[i], s),
    ensures
        parse_from_attr(entries, field, pod, iface) matches Ok(p) ==> p.name() == s,
{
    let start = SpecProperty { skip: false, ..SpecProperty::new(field, pod, iface) };
    lemma_all_set_name(start, entries, pod, iface, i, s);
    if asks_skip(entries, pod, iface) && entries.len() == 1 {
        reveal_strlit("name");
        reveal_strlit("skip");
        assert("name"@[0] != "skip"@[0]);
    }
}

/// A member that declares only `get` and `set`, in a type that is neither
/// plain data nor an interface, makes a valid property in its field that
/// generates a getter, a setter, a notifier, a connect-notifier and one arm
/// in each dispatch.
pub proof fn lemma_get_set_generates_all(
    get: SpecAttrEntry,
    set: SpecAttrEntry,
    field: SpecField,
    methods: Seq<Seq<char>>,
    index: nat,
    object_type: Seq<char>,
    path: Seq<char>,
    go: Seq<char>,
)
    requires
        !get.negated && get.key.name == "get"@ && get.value is Bare,
        !set.negated && set.key.name == "set"@ && set.value is Bare,
        valid_name(kebab_case(field.ident.name)),
    ensures
        parse_from_attr(seq![get, set], field, false, false) matches Ok(p) && validate(p, methods)
            == Ok::<SpecProperty, SpecDiagnostic>(p) && p.storage is Field && p.getter_definition(
            object_type,
            go,
        ) is Some && p.setter_definition(index, object_type, path, go) is Some
            && p.notify_definition(index, path, go) is Some && p.connect_definition(go) is Some
            && p.get_impl(index, go) is Some && p.set_impl(index, go) is Some,
{
    reveal_strlit("get");
    reveal_strlit("set");
    assert("get"@[0] != "set"@[0]);
    let entries = seq![get, set];
    let start = SpecProperty { skip: false, ..SpecProperty::new(field, false, false) };
    assert(entries.drop_last() =~= seq![get]);
    assert(seq![get].drop_last() =~= Seq::<SpecAttrEntry>::empty());
    assert(entries.last() == set);
    assert(seq![get].last() == get);
    let readable = SpecProperty { get: SpecPropertyPermission::Allow, ..start };
    assert(apply_all(start, Seq::<SpecAttrEntry>::empty(), false, false) == Ok::<
        SpecProperty,
        SpecDiagnostic,
    >(start));
    assert(apply_entry(start, get, false, false) == Ok::<SpecProperty, SpecDiagnostic>(readable));
    assert(apply_all(start, seq![get], false, false) == Ok::<SpecProperty, SpecDiagnostic>(readable));
    let both = SpecProperty { set: SpecPropertyPermission::Allow, ..readable };
    assert(apply_entry(readable, set, false, false) == Ok::<SpecProperty, SpecDiagnostic>(both));
    assert(apply_all(start, entries, false, false) == Ok::<SpecProperty, SpecDiagnostic>(both));
    assert(0u32 & 0x8u32 != 0x8u32) by (bit_vector);
    assert(!both.flags.has(PropertyFlags::CONSTRUCT_ONLY));
}

/// An override of a parent class's property takes over the entry of that
/// class under the property's name, and writes no nick, blurb, flags or
/// builder arguments of its own.
pub proof fn lemma_class_override_reuses_entry(p: SpecProperty, go: Seq<char>)
    ensures
        p.override_ matches Some(SpecPropertyOverride::Class(t)) ==> p.create(go) == go
            + "::glib::ParamSpecOverride::for_class::<"@ + t.text + ">("@ + string_literal(
            p.name(),
        ) + ")"@,
        p.override_ matches Some(SpecPropertyOverride::Interface(t)) ==> p.create(go) == go
            + "::glib::ParamSpecOverride::for_interface::<"@ + t.text + ">("@ + string_literal(
            p.name(),
        ) + ")"@,
{
}

/// A nick on an override property is refused, where the property has a
/// valid name and an accessor.
pub proof fn lemma_nick_illegal_on_override(p: SpecProperty, methods: Seq<Seq<char>>)
    requires
        !p.skip,
        valid_name(p.name()),
        p.get.is_allowed() || p.set.is_allowed(),
        p.override_ is Some,
        p.nick is Some,
    ensures
        validate(p, methods) matches Err(d) && d.kind == SpecDiagnosticKind::IllegalOnOverride(
            "nick"@,
        ),
{
}

/// A valid override property declares no metadata of its own.
pub proof fn lemma_valid_override_has_no_metadata(p: SpecProperty, methods: Seq<Seq<char>>)
    ensures
        validate(p, methods) matches Ok(q) ==> (!q.skip && q.override_ is Some ==> q.nick is None
            && q.blurb is None && q.buildable_props.len() == 0 && q.subtype is None
            && q.flag_idents.len() == 0 && q.special_type is Unspecified),
{
    lemma_valid_is_wf(p, methods);
}

/// Whether no member of the list is left out.
pub open spec fn all_properties(props: Seq<SpecProperty>) -> bool {
    forall|i: int| 0 <= i < props.len() ==> !(#[trigger] props[i]).skip
}

/// The registration table holds the entries of the properties in the order
/// of their declaration.
pub proof fn lemma_entries_in_declaration_order(props: Seq<SpecProperty>, go: Seq<char>)
    requires
        all_properties(props),
    ensures
        property_entries(props, go) == Seq::new(props.len(), |i: int| props[i].create(go)),
    decreases props.len(),
{
    if props.len() > 0 {
        let init = props.drop_last();
        assert forall|i: int| 0 <= i < init.len() implies !(#[trigger] init[i]).skip by {
            assert(init[i] == props[i]);
        }
        lemma_entries_in_declaration_order(init, go);
        assert(property_entries(props, go) =~= Seq::new(
            props.len(),
            |i: int| props[i].create(go),
        ));
    } else {
        assert(property_entries(props, go) =~= Seq::new(
            props.len(),
            |i: int| props[i].create(go),
        ));
    }
}

/// The dispatch by index reaches a property under its position in the
/// registration table, counted from one: the arms of the last property of a
/// list carry the length of the list.
pub proof fn lemma_dispatch_index_is_table_position(props: Seq<SpecProperty>, go: Seq<char>)
    requires
        props.len() > 0,
        all_properties(props),
    ensures
        property_get_impls(props, go) == property_get_impls(props.drop_last(), go) + opt_seq(
            props.last().get_impl(props.len(), go),
        ),
        property_set_impls(props, go) == property_set_impls(props.drop_last(), go) + opt_seq(
            props.last().set_impl(props.len(), go),
        ),
{
    let init = props.drop_last();
    assert forall|i: int| 0 <= i < init.len() implies !(#[trigger] init[i]).skip by {
        assert(init[i] == props[i]);
    }
    lemma_entries_in_declaration_order(init, go);
}

/// The methods that emit a signal and connect to it take the detail as
/// their first parameter behind `&self` where the signal addresses details,
/// and no such parameter where it does not.
pub proof fn lemma_detail_parameter(s: SpecSignal, glib: Seq<char>)
    ensures
        s.detailed() ==> s.emit_params(glib).len() == s.emit_arg_defs().len() + 1
            && s.emit_params(glib)[0] == detail_param("signal_details"@, glib) && s.emit_params(
            glib,
        ).skip(1) == s.emit_arg_defs(),
        s.detailed() ==> s.connect_params(glib) == seq![
            detail_param("details"@, glib),
            "f: F"@,
        ],
        !s.detailed() ==> s.emit_params(glib) == s.emit_arg_defs(),
        !s.detailed() ==> s.connect_params(glib) == seq!["f: F"@],
{
    if s.detailed() {
        assert(s.emit_params(glib).skip(1) =~= s.emit_arg_defs());
        assert(s.connect_params(glib) =~= seq![detail_param("details"@, glib), "f: F"@]);
    } else {
        assert(s.emit_params(glib) =~= s.emit_arg_defs());
        assert(s.connect_params(glib) =~= seq!["f: F"@]);
    }
}

} // verus!
