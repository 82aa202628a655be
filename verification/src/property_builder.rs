//! Building a property descriptor from a member's attribute list: the keys
//! are applied from left to right, each to the descriptor that the keys
//! before it have made.

use vstd::prelude::*;
use vstd::string::*;
use crate::attr::{AttrEntry, AttrPair, AttrValue, SpecAttrEntry, SpecAttrPair, SpecAttrValue};
use crate::diag::{
    Diagnostic, DiagnosticKind, Ident, LitStr, Span, SpecDiagnostic, SpecDiagnosticKind,
    SpecIdent, SpecLitStr, SpecTokens, Tokens,
};
use crate::flags::PropertyFlags;
use crate::property::{
    has_arg, BuilderArg, Field, Property, PropertyName, PropertyOverride, PropertyPermission,
    PropertyStorage, PropertyType, SpecBuilderArg, SpecField, SpecProperty, SpecPropertyName,
    SpecPropertyOverride, SpecPropertyPermission, SpecPropertyStorage, SpecPropertyType,
};

verus! {

/// The outcome of a step: a descriptor, or the diagnostic that ends the
/// declaration.
pub type Built = Result<Property, Diagnostic>;

/// The mathematical value of a [`Built`].
pub type SpecBuilt = Result<SpecProperty, SpecDiagnostic>;

/// The mathematical value of an outcome.
pub open spec fn built_view(r: Built) -> SpecBuilt {
    match r {
        Ok(p) => Ok(p@),
        Err(d) => Err(d@),
    }
}

/// The failure of the given kind at the given place.
pub open spec fn fail(kind: SpecDiagnosticKind, span: Span) -> SpecBuilt {
    Err(SpecDiagnostic { kind, span })
}

/// A key is given twice.
pub open spec fn duplicate(e: SpecAttrEntry) -> SpecBuilt {
    fail(SpecDiagnosticKind::DuplicateAttribute(e.key.name), e.key.span)
}

/// A key has a value of the wrong form.
pub open spec fn malformed(e: SpecAttrEntry) -> SpecBuilt {
    fail(SpecDiagnosticKind::MalformedAttribute(e.key.name), e.key.span)
}

/// A key is unknown, or not allowed where it stands.
pub open spec fn unexpected(e: SpecAttrEntry) -> SpecBuilt {
    fail(SpecDiagnosticKind::UnexpectedAttribute(e.key.name), e.key.span)
}

/// A key follows another of its exclusive family.
pub open spec fn conflicting(earlier: Seq<char>, e: SpecAttrEntry) -> SpecBuilt {
    fail(SpecDiagnosticKind::ConflictingFamilyMembers(earlier, e.key.name), e.key.span)
}

/// A key behind `!`: it takes back what a plain-data type allows by default,
/// or suppresses a notification helper.
pub open spec fn apply_negated(p: SpecProperty, e: SpecAttrEntry, pod: bool) -> SpecBuilt {
    let k = e.key.name;
    if pod && k == "get"@ {
        if p.get != SpecPropertyPermission::default_for(pod) {
            duplicate(e)
        } else if !(e.value is Bare) {
            malformed(e)
        } else {
            Ok(SpecProperty { get: SpecPropertyPermission::Deny, ..p })
        }
    } else if pod && k == "set"@ {
        if p.set != SpecPropertyPermission::default_for(pod) {
            duplicate(e)
        } else if !(e.value is Bare) {
            malformed(e)
        } else {
            Ok(SpecProperty { set: SpecPropertyPermission::Deny, set_inline: None, ..p })
        }
    } else if pod && k == "set_inline"@ {
        if p.set_inline is None {
            duplicate(e)
        } else if !(e.value is Bare) {
            malformed(e)
        } else {
            Ok(SpecProperty { set_inline: None, ..p })
        }
    } else if k == "notify_func"@ {
        if p.no_notify is Some {
            duplicate(e)
        } else if !(e.value is Bare) {
            malformed(e)
        } else {
            Ok(SpecProperty { no_notify: Some(e.key), ..p })
        }
    } else if k == "connect_notify_func"@ {
        if p.no_connect_notify is Some {
            duplicate(e)
        } else if !(e.value is Bare) {
            malformed(e)
        } else {
            Ok(SpecProperty { no_connect_notify: Some(e.key), ..p })
        }
    } else {
        unexpected(e)
    }
}

/// The permission that `get` or `set` asks for. The bare key asks for the
/// generated accessor; `= ()` for access by name only, the one form that an
/// interface takes; `= name` for the method of that name. In a plain-data
/// type the bare key says nothing new and is refused.
pub open spec fn asked_permission(e: SpecAttrEntry, pod: bool, iface: bool) -> Option<
    SpecPropertyPermission,
> {
    if pod || !(e.value is Bare) {
        if iface || e.value is Unit {
            if e.value is Unit {
                Some(SpecPropertyPermission::AllowNoMethod(e.key))
            } else {
                None
            }
        } else {
            match e.value {
                SpecAttrValue::Ident(i) => Some(SpecPropertyPermission::AllowCustom(i)),
                _ => None,
            }
        }
    } else {
        Some(SpecPropertyPermission::Allow)
    }
}

/// The keys `get` and `set`.
pub open spec fn apply_access(p: SpecProperty, e: SpecAttrEntry, pod: bool, iface: bool) -> SpecBuilt {
    let read = e.key.name == "get"@;
    let perm = if read {
        p.get
    } else {
        p.set
    };
    if perm != SpecPropertyPermission::default_for(pod) {
        duplicate(e)
    } else {
        match asked_permission(e, pod, iface) {
            None => malformed(e),
            Some(asked) => if read {
                Ok(SpecProperty { get: asked, ..p })
            } else {
                Ok(SpecProperty { set: asked, ..p })
            },
        }
    }
}

/// The key `set_inline`: the setter is auto-generated.
pub open spec fn apply_set_inline(p: SpecProperty, e: SpecAttrEntry) -> SpecBuilt {
    if p.set_inline is Some {
        duplicate(e)
    } else if !(e.value is Bare) {
        malformed(e)
    } else {
        Ok(SpecProperty { set_inline: Some(Some(e.key)), ..p })
    }
}

/// The keys `name`, `nick` and `blurb`, each with a string.
pub open spec fn apply_naming(p: SpecProperty, e: SpecAttrEntry) -> SpecBuilt {
    let k = e.key.name;
    let given = if k == "name"@ {
        p.name is Custom
    } else if k == "nick"@ {
        p.nick is Some
    } else {
        p.blurb is Some
    };
    if given {
        duplicate(e)
    } else {
        match e.value.as_str() {
            None => malformed(e),
            Some(s) => {
                let lit = SpecLitStr { value: s, span: e.value_span };
                if k == "name"@ {
                    Ok(SpecProperty { name: SpecPropertyName::Custom(lit), ..p })
                } else if k == "nick"@ {
                    Ok(SpecProperty { nick: Some(lit), ..p })
                } else {
                    Ok(SpecProperty { blurb: Some(lit), ..p })
                }
            },
        }
    }
}

/// One more argument for the registration builder.
pub open spec fn with_arg(p: SpecProperty, name: SpecIdent, value: Seq<char>) -> SpecProperty {
    SpecProperty {
        buildable_props: p.buildable_props.push(SpecBuilderArg { name, value }),
        ..p
    }
}

/// The pairs of a `custom(..)` list, each an argument for the registration
/// builder, from left to right; none may name an argument that is there.
pub open spec fn add_pairs(p: SpecProperty, pairs: Seq<SpecAttrPair>) -> SpecBuilt
    decreases pairs.len(),
{
    if pairs.len() == 0 {
        Ok(p)
    } else {
        match add_pairs(p, pairs.drop_last()) {
            Err(d) => Err(d),
            Ok(q) => {
                let pair = pairs.last();
                if has_arg(q.buildable_props, pair.key.name) {
                    fail(SpecDiagnosticKind::DuplicateAttribute(pair.key.name), pair.key.span)
                } else {
                    Ok(with_arg(q, pair.key, pair.value.text()))
                }
            },
        }
    }
}

/// The keys that hand arguments on to the registration builder: `minimum`,
/// `maximum` and `default` with a literal, `subtype` with a type, and
/// `custom` with a list of pairs.
pub open spec fn apply_builder_arg(p: SpecProperty, e: SpecAttrEntry) -> SpecBuilt {
    let k = e.key.name;
    if k == "subtype"@ {
        if p.subtype is Some {
            duplicate(e)
        } else {
            match e.value.as_type() {
                None => malformed(e),
                Some(t) => Ok(
                    SpecProperty {
                        subtype: Some(SpecTokens { text: t, span: e.value_span }),
                        ..p
                    },
                ),
            }
        }
    } else if k == "custom"@ {
        match e.value {
            SpecAttrValue::List(pairs) => add_pairs(p, pairs),
            _ => malformed(e),
        }
    } else if has_arg(p.buildable_props, k) {
        duplicate(e)
    } else {
        match e.value {
            SpecAttrValue::Lit(l) => Ok(with_arg(p, e.key, l.text())),
            _ => malformed(e),
        }
    }
}

/// The keys of the special-type family: `enum`, `flags`, `boxed`, `object`
/// and `variant`, the last with the signature of its type. A second key of
/// the family is refused.
pub open spec fn apply_special_type(p: SpecProperty, e: SpecAttrEntry) -> SpecBuilt {
    let k = e.key.name;
    match p.special_type.ident() {
        Some(earlier) => conflicting(earlier.name, e),
        None => if k == "variant"@ {
            match e.value.as_str() {
                None => malformed(e),
                Some(sig) => Ok(
                    SpecProperty { special_type: SpecPropertyType::Variant(e.key, sig), ..p },
                ),
            }
        } else if !(e.value is Bare) {
            malformed(e)
        } else {
            Ok(
                SpecProperty {
                    special_type: if k == "enum"@ {
                        SpecPropertyType::Enum(e.key)
                    } else if k == "flags"@ {
                        SpecPropertyType::Flags(e.key)
                    } else if k == "boxed"@ {
                        SpecPropertyType::Boxed(e.key)
                    } else {
                        SpecPropertyType::Object(e.key)
                    },
                    ..p
                },
            )
        },
    }
}

/// The key of the storage and override family that the descriptor holds.
pub open spec fn storage_family_member(p: SpecProperty) -> Option<Seq<char>> {
    match p.override_ {
        Some(o) => Some(o.keyword()),
        None => match p.storage.keyword() {
            Some(kw) => Some(kw.name),
            None => None,
        },
    }
}

/// The keys of the storage and override family: `override_iface` and
/// `override_class` with a type, `storage` with a path, `computed`, and
/// `abstract` or `virtual`. A second key of the family is refused.
pub open spec fn apply_storage(p: SpecProperty, e: SpecAttrEntry) -> SpecBuilt {
    let k = e.key.name;
    match storage_family_member(p) {
        Some(earlier) => conflicting(earlier, e),
        None => if k == "override_iface"@ || k == "override_class"@ {
            match e.value.as_type() {
                None => malformed(e),
                Some(t) => {
                    let target = SpecTokens { text: t, span: e.value_span };
                    Ok(
                        SpecProperty {
                            override_: Some(
                                if k == "override_iface"@ {
                                    SpecPropertyOverride::Interface(target)
                                } else {
                                    SpecPropertyOverride::Class(target)
                                },
                            ),
                            ..p
                        },
                    )
                },
            }
        } else if k == "storage"@ {
            match e.value.as_expr() {
                None => malformed(e),
                Some(path) => Ok(
                    SpecProperty { storage: SpecPropertyStorage::Delegate(e.key, path), ..p },
                ),
            }
        } else if !(e.value is Bare) {
            malformed(e)
        } else if k == "computed"@ {
            Ok(SpecProperty { storage: SpecPropertyStorage::Computed(e.key), ..p })
        } else {
            Ok(SpecProperty { storage: SpecPropertyStorage::Abstract(e.key), ..p })
        },
    }
}

/// A flag key, which declares the flag `flag`.
pub open spec fn apply_flag(p: SpecProperty, e: SpecAttrEntry, flag: u32) -> SpecBuilt {
    if p.flags.has(flag) {
        duplicate(e)
    } else if !(e.value is Bare) {
        malformed(e)
    } else {
        Ok(
            SpecProperty {
                flags: PropertyFlags { bits: p.flags.bits | flag },
                flag_idents: p.flag_idents.push(e.key),
                ..p
            },
        )
    }
}

/// Whether the key belongs to the storage and override family where it
/// stands: an interface's properties have no storage to choose.
pub open spec fn is_storage_key(k: Seq<char>, iface: bool) -> bool {
    k == "override_iface"@ || k == "override_class"@ || (!iface && (k == "computed"@ || k
        == "storage"@ || k == "abstract"@ || k == "virtual"@))
}

/// One entry applied to a descriptor.
pub open spec fn apply_entry(p: SpecProperty, e: SpecAttrEntry, pod: bool, iface: bool) -> SpecBuilt {
    let k = e.key.name;
    if e.negated {
        apply_negated(p, e, pod)
    } else if k == "get"@ || k == "set"@ {
        apply_access(p, e, pod, iface)
    } else if !pod && !iface && k == "set_inline"@ {
        apply_set_inline(p, e)
    } else if k == "name"@ || k == "nick"@ || k == "blurb"@ {
        apply_naming(p, e)
    } else if k == "minimum"@ || k == "maximum"@ || k == "default"@ || k == "subtype"@ || k
        == "custom"@ {
        apply_builder_arg(p, e)
    } else if k == "enum"@ || k == "flags"@ || k == "boxed"@ || k == "object"@ || k
        == "variant"@ {
        apply_special_type(p, e)
    } else if is_storage_key(k, iface) {
        apply_storage(p, e)
    } else {
        match PropertyFlags::keyword_bits(k) {
            Some(flag) => apply_flag(p, e, flag),
            None => unexpected(e),
        }
    }
}

/// The entries applied from left to right; the first failure ends it.
pub open spec fn apply_all(p: SpecProperty, entries: Seq<SpecAttrEntry>, pod: bool, iface: bool) -> SpecBuilt
    decreases entries.len(),
{
    if entries.len() == 0 {
        Ok(p)
    } else {
        match apply_all(p, entries.drop_last(), pod, iface) {
            Err(d) => Err(d),
            Ok(q) => apply_entry(q, entries.last(), pod, iface),
        }
    }
}

/// An accessor named `_` stands for the name that the naming convention
/// gives.
pub open spec fn resolve_placeholders(p: SpecProperty) -> SpecProperty {
    let with_getter = match p.get {
        SpecPropertyPermission::AllowCustom(i) => if i.name == "_"@ {
            SpecProperty {
                get: SpecPropertyPermission::AllowCustom(
                    SpecIdent { name: p.getter_name(), span: i.span },
                ),
                ..p
            }
        } else {
            p
        },
        _ => p,
    };
    match with_getter.set {
        SpecPropertyPermission::AllowCustom(i) => if i.name == "_"@ {
            SpecProperty {
                set: SpecPropertyPermission::AllowCustom(
                    SpecIdent { name: with_getter.custom_setter_name(), span: i.span },
                ),
                ..with_getter
            }
        } else {
            with_getter
        },
        _ => with_getter,
    }
}

/// Whether the list asks to leave the member out: `skip` as the first key,
/// which only a plain-data type takes.
pub open spec fn asks_skip(entries: Seq<SpecAttrEntry>, pod: bool, iface: bool) -> bool {
    entries.len() > 0 && pod && !iface && !entries[0].negated && entries[0].key.name == "skip"@
}

/// The descriptor that a member's attribute list makes.
pub open spec fn parse_from_attr(
    entries: Seq<SpecAttrEntry>,
    field: SpecField,
    pod: bool,
    iface: bool,
) -> SpecBuilt {
    let start = SpecProperty { skip: false, ..SpecProperty::new(field, pod, iface) };
    if asks_skip(entries, pod, iface) {
        if !(entries[0].value is Bare) {
            malformed(entries[0])
        } else if entries.len() > 1 {
            fail(SpecDiagnosticKind::ExtraTokensAfterSkip, entries[1].key.span)
        } else {
            Ok(SpecProperty { skip: true, ..start })
        }
    } else {
        match apply_all(start, entries, pod, iface) {
            Err(d) => Err(d),
            Ok(p) => Ok(resolve_placeholders(p)),
        }
    }
}

fn err_duplicate(key: &Ident) -> (r: Built)
    ensures
        built_view(r) == fail(SpecDiagnosticKind::DuplicateAttribute(key@.name), key@.span),
{
    Err(Diagnostic::new(DiagnosticKind::DuplicateAttribute(key.name.clone()), key.span))
}

fn err_malformed(key: &Ident) -> (r: Built)
    ensures
        built_view(r) == fail(SpecDiagnosticKind::MalformedAttribute(key@.name), key@.span),
{
    Err(Diagnostic::new(DiagnosticKind::MalformedAttribute(key.name.clone()), key.span))
}

fn err_unexpected(key: &Ident) -> (r: Built)
    ensures
        built_view(r) == fail(SpecDiagnosticKind::UnexpectedAttribute(key@.name), key@.span),
{
    Err(Diagnostic::new(DiagnosticKind::UnexpectedAttribute(key.name.clone()), key.span))
}

fn err_conflicting(earlier: &str, key: &Ident) -> (r: Built)
    ensures
        built_view(r) == fail(
            SpecDiagnosticKind::ConflictingFamilyMembers(earlier@, key@.name),
            key@.span,
        ),
{
    Err(
        Diagnostic::new(
            DiagnosticKind::ConflictingFamilyMembers(String::from_str(earlier), key.name.clone()),
            key.span,
        ),
    )
}

impl Property {
    /// Whether an argument of the given name is handed on to the
    /// registration builder.
    pub fn has_buildable_prop(&self, name: &str) -> (r: bool)
        ensures
            r == has_arg(self@.buildable_props, name@),
    {
        let mut i: usize = 0;
        while i < self.buildable_props.len()
            invariant
                i <= self.buildable_props.len(),
                forall|j: int|
                    0 <= j < i ==> (#[trigger] self.buildable_props.deep_view()[j]).name.name
                        != name@,
            decreases self.buildable_props.len() - i,
        {
            if self.buildable_props[i].name.is(name) {
                assert(self.buildable_props.deep_view()[i as int].name.name == name@);
                return true;
            }
            i += 1;
        }
        false
    }

    fn push_arg(&mut self, name: Ident, value: String)
        ensures
            final(self)@ == with_arg(old(self)@, name@, value@),
    {
        let ghost before = self.buildable_props.deep_view();
        let arg = BuilderArg { name, value };
        self.buildable_props.push(arg);
        assert(self.buildable_props.deep_view() =~= before.push(arg@));
    }

    fn apply_negated(self, entry: &AttrEntry, pod: bool) -> (r: Built)
        ensures
            built_view(r) == apply_negated(self@, entry@, pod),
    {
        let mut prop = self;
        let bare = entry.value.is_bare();
        let key = &entry.key;
        if pod && key.is("get") {
            if !prop.get.is_default_for(pod) {
                err_duplicate(key)
            } else if !bare {
                err_malformed(key)
            } else {
                prop.get = PropertyPermission::Deny;
                Ok(prop)
            }
        } else if pod && key.is("set") {
            if !prop.set.is_default_for(pod) {
                err_duplicate(key)
            } else if !bare {
                err_malformed(key)
            } else {
                prop.set = PropertyPermission::Deny;
                prop.set_inline = None;
                Ok(prop)
            }
        } else if pod && key.is("set_inline") {
            if prop.set_inline.is_none() {
                err_duplicate(key)
            } else if !bare {
                err_malformed(key)
            } else {
                prop.set_inline = None;
                Ok(prop)
            }
        } else if key.is("notify_func") {
            if prop.no_notify.is_some() {
                err_duplicate(key)
            } else if !bare {
                err_malformed(key)
            } else {
                prop.no_notify = Some(key.dup());
                Ok(prop)
            }
        } else if key.is("connect_notify_func") {
            if prop.no_connect_notify.is_some() {
                err_duplicate(key)
            } else if !bare {
                err_malformed(key)
            } else {
                prop.no_connect_notify = Some(key.dup());
                Ok(prop)
            }
        } else {
            err_unexpected(key)
        }
    }

    fn apply_access(self, entry: &AttrEntry, pod: bool, iface: bool) -> (r: Built)
        ensures
            built_view(r) == apply_access(self@, entry@, pod, iface),
    {
        let mut prop = self;
        let read = entry.key.is("get");
        let fresh = if read {
            prop.get.is_default_for(pod)
        } else {
            prop.set.is_default_for(pod)
        };
        if !fresh {
            return err_duplicate(&entry.key);
        }
        let asked = if pod || !entry.value.is_bare() {
            match &entry.value {
                AttrValue::Unit => Some(PropertyPermission::AllowNoMethod(entry.key.dup())),
                AttrValue::Ident(i) => if iface {
                    None
                } else {
                    Some(PropertyPermission::AllowCustom(i.dup()))
                },
                _ => None,
            }
        } else {
            Some(PropertyPermission::Allow)
        };
        assert(asked.deep_view() == asked_permission(entry@, pod, iface));
        match asked {
            None => err_malformed(&entry.key),
            Some(perm) => {
                if read {
                    prop.get = perm;
                } else {
                    prop.set = perm;
                }
                Ok(prop)
            },
        }
    }

    fn apply_set_inline(self, entry: &AttrEntry) -> (r: Built)
        ensures
            built_view(r) == apply_set_inline(self@, entry@),
    {
        let mut prop = self;
        if prop.set_inline.is_some() {
            err_duplicate(&entry.key)
        } else if !entry.value.is_bare() {
            err_malformed(&entry.key)
        } else {
            prop.set_inline = Some(Some(entry.key.dup()));
            Ok(prop)
        }
    }

    fn apply_naming(self, entry: &AttrEntry) -> (r: Built)
        ensures
            built_view(r) == apply_naming(self@, entry@),
    {
        let mut prop = self;
        let is_name = entry.key.is("name");
        let is_nick = entry.key.is("nick");
        let given = if is_name {
            match &prop.name {
                PropertyName::Custom(_) => true,
                _ => false,
            }
        } else if is_nick {
            prop.nick.is_some()
        } else {
            prop.blurb.is_some()
        };
        if given {
            return err_duplicate(&entry.key);
        }
        match entry.value.as_str() {
            None => err_malformed(&entry.key),
            Some(s) => {
                let lit = LitStr { value: s, span: entry.value_span };
                if is_name {
                    prop.name = PropertyName::Custom(lit);
                } else if is_nick {
                    prop.nick = Some(lit);
                } else {
                    prop.blurb = Some(lit);
                }
                Ok(prop)
            },
        }
    }

    fn add_pairs(self, pairs: &Vec<AttrPair>) -> (r: Built)
        ensures
            built_view(r) == add_pairs(self@, pairs.deep_view()),
    {
        let ghost start = self@;
        let mut prop = self;
        let mut i: usize = 0;
        assert(pairs.deep_view().take(0) =~= Seq::empty());
        while i < pairs.len()
            invariant
                i <= pairs.len(),
                start == self@,
                add_pairs(start, pairs.deep_view().take(i as int)) == Ok::<
                    SpecProperty,
                    SpecDiagnostic,
                >(prop@),
            decreases pairs.len() - i,
        {
            proof {
                assert(pairs.deep_view().take(i + 1).drop_last() =~= pairs.deep_view().take(
                    i as int,
                ));
                assert(pairs.deep_view().take(i + 1).last() == pairs[i as int]@);
            }
            let pair = &pairs[i];
            if prop.has_buildable_prop(pair.key.name.as_str()) {
                proof {
                    assert(add_pairs(start, pairs.deep_view().take(i + 1)) == fail(
                        SpecDiagnosticKind::DuplicateAttribute(pair@.key.name),
                        pair@.key.span,
                    ));
                    lemma_add_pairs_fails(start, pairs.deep_view(), i + 1);
                }
                return err_duplicate(&pair.key);
            }
            prop.push_arg(pair.key.dup(), pair.value.text());
            i += 1;
        }
        assert(pairs.deep_view().take(pairs.len() as int) =~= pairs.deep_view());
        Ok(prop)
    }

    fn apply_builder_arg(self, entry: &AttrEntry) -> (r: Built)
        ensures
            built_view(r) == apply_builder_arg(self@, entry@),
    {
        let mut prop = self;
        if entry.key.is("subtype") {
            if prop.subtype.is_some() {
                return err_duplicate(&entry.key);
            }
            match entry.value.as_type() {
                None => err_malformed(&entry.key),
                Some(t) => {
                    prop.subtype = Some(Tokens { text: t, span: entry.value_span });
                    Ok(prop)
                },
            }
        } else if entry.key.is("custom") {
            match &entry.value {
                AttrValue::List(pairs) => prop.add_pairs(pairs),
                _ => err_malformed(&entry.key),
            }
        } else if prop.has_buildable_prop(entry.key.name.as_str()) {
            err_duplicate(&entry.key)
        } else {
            match &entry.value {
                AttrValue::Lit(l) => {
                    prop.push_arg(entry.key.dup(), l.text());
                    Ok(prop)
                },
                _ => err_malformed(&entry.key),
            }
        }
    }

    fn apply_special_type(self, entry: &AttrEntry) -> (r: Built)
        ensures
            built_view(r) == apply_special_type(self@, entry@),
    {
        let mut prop = self;
        match prop.special_type.ident() {
            Some(earlier) => {
                return err_conflicting(earlier.name.as_str(), &entry.key);
            },
            None => {},
        }
        if entry.key.is("variant") {
            match entry.value.as_str() {
                None => err_malformed(&entry.key),
                Some(sig) => {
                    prop.special_type = PropertyType::Variant(entry.key.dup(), sig);
                    Ok(prop)
                },
            }
        } else if !entry.value.is_bare() {
            err_malformed(&entry.key)
        } else {
            prop.special_type = if entry.key.is("enum") {
                PropertyType::Enum(entry.key.dup())
            } else if entry.key.is("flags") {
                PropertyType::Flags(entry.key.dup())
            } else if entry.key.is("boxed") {
                PropertyType::Boxed(entry.key.dup())
            } else {
                PropertyType::Object(entry.key.dup())
            };
            Ok(prop)
        }
    }

    /// The key of the storage and override family that the descriptor holds.
    pub fn storage_family_member(&self) -> (r: Option<String>)
        ensures
            r.deep_view() == storage_family_member(self@),
    {
        match &self.override_ {
            Some(o) => Some(String::from_str(o.keyword())),
            None => match self.storage.keyword() {
                Some(kw) => Some(kw.name.clone()),
                None => None,
            },
        }
    }

    fn apply_storage(self, entry: &AttrEntry) -> (r: Built)
        ensures
            built_view(r) == apply_storage(self@, entry@),
    {
        let mut prop = self;
        match prop.storage_family_member() {
            Some(earlier) => {
                return err_conflicting(earlier.as_str(), &entry.key);
            },
            None => {},
        }
        let iface_override = entry.key.is("override_iface");
        if iface_override || entry.key.is("override_class") {
            match entry.value.as_type() {
                None => err_malformed(&entry.key),
                Some(t) => {
                    let target = Tokens { text: t, span: entry.value_span };
                    prop.override_ = Some(
                        if iface_override {
                            PropertyOverride::Interface(target)
                        } else {
                            PropertyOverride::Class(target)
                        },
                    );
                    Ok(prop)
                },
            }
        } else if entry.key.is("storage") {
            match entry.value.as_expr() {
                None => err_malformed(&entry.key),
                Some(path) => {
                    prop.storage = PropertyStorage::Delegate(entry.key.dup(), path);
                    Ok(prop)
                },
            }
        } else if !entry.value.is_bare() {
            err_malformed(&entry.key)
        } else if entry.key.is("computed") {
            prop.storage = PropertyStorage::Computed(entry.key.dup());
            Ok(prop)
        } else {
            prop.storage = PropertyStorage::Abstract(entry.key.dup());
            Ok(prop)
        }
    }

    fn apply_flag(self, entry: &AttrEntry, flag: u32) -> (r: Built)
        ensures
            built_view(r) == apply_flag(self@, entry@, flag),
    {
        let mut prop = self;
        if prop.flags.contains(flag) {
            err_duplicate(&entry.key)
        } else if !entry.value.is_bare() {
            err_malformed(&entry.key)
        } else {
            let ghost before = prop.flag_idents.deep_view();
            prop.flags.insert(flag);
            prop.flag_idents.push(entry.key.dup());
            assert(prop.flag_idents.deep_view() =~= before.push(entry@.key));
            Ok(prop)
        }
    }

    /// Applies one entry of the attribute list to the descriptor.
    pub fn apply_entry(self, entry: &AttrEntry, pod: bool, iface: bool) -> (r: Built)
        ensures
            built_view(r) == apply_entry(self@, entry@, pod, iface),
    {
        let key = &entry.key;
        if entry.negated {
            self.apply_negated(entry, pod)
        } else if key.is("get") || key.is("set") {
            self.apply_access(entry, pod, iface)
        } else if !pod && !iface && key.is("set_inline") {
            self.apply_set_inline(entry)
        } else if key.is("name") || key.is("nick") || key.is("blurb") {
            self.apply_naming(entry)
        } else if key.is("minimum") || key.is("maximum") || key.is("default") || key.is(
            "subtype",
        ) || key.is("custom") {
            self.apply_builder_arg(entry)
        } else if key.is("enum") || key.is("flags") || key.is("boxed") || key.is("object")
            || key.is("variant") {
            self.apply_special_type(entry)
        } else if key.is("override_iface") || key.is("override_class") || (!iface && (key.is(
            "computed",
        ) || key.is("storage") || key.is("abstract") || key.is("virtual"))) {
            self.apply_storage(entry)
        } else {
            match PropertyFlags::from_ident(key.name.as_str()) {
                Some(flag) => self.apply_flag(entry, flag),
                None => err_unexpected(key),
            }
        }
    }

    /// Replaces an accessor named `_` by the name that the naming convention
    /// gives.
    pub fn resolve_placeholders(self) -> (r: Property)
        ensures
            r@ == resolve_placeholders(self@),
    {
        let mut prop = self;
        let get_span = match &prop.get {
            PropertyPermission::AllowCustom(i) => if i.is("_") {
                Some(i.span)
            } else {
                None
            },
            _ => None,
        };
        match get_span {
            Some(span) => {
                let name = prop.getter_name();
                prop.get = PropertyPermission::AllowCustom(Ident { name, span });
            },
            None => {},
        }
        let set_span = match &prop.set {
            PropertyPermission::AllowCustom(i) => if i.is("_") {
                Some(i.span)
            } else {
                None
            },
            _ => None,
        };
        match set_span {
            Some(span) => {
                let name = prop.custom_setter_name();
                prop.set = PropertyPermission::AllowCustom(Ident { name, span });
            },
            None => {},
        }
        prop
    }

    /// Builds the descriptor of a member from the entries of its attribute
    /// list.
    pub fn parse_from_attr(entries: &Vec<AttrEntry>, field: &Field, pod: bool, iface: bool) -> (r:
        Built)
        ensures
            built_view(r) == parse_from_attr(entries.deep_view(), field@, pod, iface),
    {
        let mut prop = Property::new(field, pod, iface);
        prop.skip = false;
        if entries.len() > 0 && pod && !iface && !entries[0].negated && entries[0].key.is("skip") {
            assert(entries.deep_view()[0] == entries[0]@);
            if !entries[0].value.is_bare() {
                return err_malformed(&entries[0].key);
            }
            if entries.len() > 1 {
                assert(entries.deep_view()[1] == entries[1]@);
                return Err(
                    Diagnostic::new(DiagnosticKind::ExtraTokensAfterSkip, entries[1].key.span),
                );
            }
            prop.skip = true;
            return Ok(prop);
        }
        proof {
            if entries.len() > 0 {
                assert(entries.deep_view()[0] == entries[0]@);
            }
        }
        let ghost start = prop@;
        let mut i: usize = 0;
        assert(entries.deep_view().take(0) =~= Seq::empty());
        while i < entries.len()
            invariant
                i <= entries.len(),
                !asks_skip(entries.deep_view(), pod, iface),
                start == (SpecProperty { skip: false, ..SpecProperty::new(field@, pod, iface) }),
                apply_all(start, entries.deep_view().take(i as int), pod, iface) == Ok::<
                    SpecProperty,
                    SpecDiagnostic,
                >(prop@),
            decreases entries.len() - i,
        {
            proof {
                assert(entries.deep_view().take(i + 1).drop_last() =~= entries.deep_view().take(
                    i as int,
                ));
                assert(entries.deep_view().take(i + 1).last() == entries[i as int]@);
            }
            let ghost before = prop@;
            match prop.apply_entry(&entries[i], pod, iface) {
                Err(d) => {
                    proof {
                        assert(apply_all(start, entries.deep_view().take(i + 1), pod, iface)
                            == apply_entry(before, entries[i as int]@, pod, iface));
                        lemma_apply_all_fails(start, entries.deep_view(), i + 1, pod, iface);
                    }
                    return Err(d);
                },
                Ok(next) => {
                    prop = next;
                },
            }
            i += 1;
        }
        assert(entries.deep_view().take(entries.len() as int) =~= entries.deep_view());
        Ok(prop.resolve_placeholders())
    }
}

/// Once a prefix of the pairs fails, the whole list fails in the same way.
pub proof fn lemma_add_pairs_fails(p: SpecProperty, pairs: Seq<SpecAttrPair>, n: int)
    requires
        0 <= n <= pairs.len(),
        add_pairs(p, pairs.take(n)) is Err,
    ensures
        add_pairs(p, pairs) == add_pairs(p, pairs.take(n)),
    decreases pairs.len() - n,
{
    if n < pairs.len() {
        assert(pairs.take(n + 1).drop_last() =~= pairs.take(n));
        lemma_add_pairs_fails(p, pairs, n + 1);
    } else {
        assert(pairs.take(n) =~= pairs);
    }
}

/// Once a prefix of the entries fails, the whole list fails in the same way.
pub proof fn lemma_apply_all_fails(
    p: SpecProperty,
    entries: Seq<SpecAttrEntry>,
    n: int,
    pod: bool,
    iface: bool,
)
    requires
        0 <= n <= entries.len(),
        apply_all(p, entries.take(n), pod, iface) is Err,
    ensures
        apply_all(p, entries, pod, iface) == apply_all(p, entries.take(n), pod, iface),
    decreases entries.len() - n,
{
    if n < entries.len() {
        assert(entries.take(n + 1).drop_last() =~= entries.take(n));
        lemma_apply_all_fails(p, entries, n + 1, pod, iface);
    } else {
        assert(entries.take(n) =~= entries);
    }
}

} // verus!
