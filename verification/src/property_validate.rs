//! The rules that a property descriptor has to meet, and what a valid
//! descriptor implies.

use vstd::prelude::*;
use vstd::string::*;
use crate::diag::{Diagnostic, DiagnosticKind, Ident, Span, SpecDiagnostic, SpecDiagnosticKind, SpecIdent};
use crate::flags::PropertyFlags;
use crate::names::{is_valid_name, valid_name};
use crate::property::{
    Property, PropertyOverride, PropertyPermission, PropertyStorage, SpecProperty,
    SpecPropertyOverride, SpecPropertyPermission,
};
use crate::property_builder::{built_view, fail, Built, SpecBuilt};

verus! {

/// The diagnostic of the given kind at the given place.
pub open spec fn diag(kind: SpecDiagnosticKind, span: Span) -> Option<SpecDiagnostic> {
    Some(SpecDiagnostic { kind, span })
}

/// What an override property may not declare, since it inherits it: nick,
/// blurb, builder arguments, a subtype, flags and a special type. An
/// override of a parent class's property inherits the notification helpers
/// too and may not suppress them; an override of an interface's property
/// may.
pub open spec fn check_override(p: SpecProperty) -> Option<SpecDiagnostic> {
    match p.override_ {
        None => None,
        Some(o) => if p.nick is Some {
            diag(SpecDiagnosticKind::IllegalOnOverride("nick"@), p.nick->0.span)
        } else if p.blurb is Some {
            diag(SpecDiagnosticKind::IllegalOnOverride("blurb"@), p.blurb->0.span)
        } else if p.buildable_props.len() > 0 {
            diag(
                SpecDiagnosticKind::IllegalOnOverride(p.buildable_props[0].name.name),
                p.buildable_props[0].name.span,
            )
        } else if p.subtype is Some {
            diag(SpecDiagnosticKind::IllegalOnOverride("subtype"@), p.subtype->0.span)
        } else if p.flag_idents.len() > 0 {
            diag(
                SpecDiagnosticKind::IllegalOnOverride(p.flag_idents[0].name),
                p.flag_idents[0].span,
            )
        } else if p.special_type.ident() is Some {
            diag(
                SpecDiagnosticKind::IllegalOnOverride(p.special_type.ident()->0.name),
                p.special_type.ident()->0.span,
            )
        } else if o is Class && p.no_notify is Some {
            diag(SpecDiagnosticKind::IllegalOnOverride("notify_func"@), p.no_notify->0.span)
        } else if o is Class && p.no_connect_notify is Some {
            diag(
                SpecDiagnosticKind::IllegalOnOverride("connect_notify_func"@),
                p.no_connect_notify->0.span,
            )
        } else {
            None
        },
    }
}

/// A construct-only property never notifies: to suppress its notification
/// helpers says nothing and is refused.
pub open spec fn check_construct_only(p: SpecProperty) -> Option<SpecDiagnostic> {
    if !p.flags.has(PropertyFlags::CONSTRUCT_ONLY) {
        None
    } else if p.no_notify is Some {
        diag(SpecDiagnosticKind::IllegalOnConstructOnly("notify_func"@), p.no_notify->0.span)
    } else if p.no_connect_notify is Some {
        diag(
            SpecDiagnosticKind::IllegalOnConstructOnly("connect_notify_func"@),
            p.no_connect_notify->0.span,
        )
    } else {
        None
    }
}

/// Whether the keyword declares a flag that an auto-generated setter
/// implies.
pub open spec fn is_implied_flag(name: Seq<char>) -> bool {
    name == "explicit_notify"@ || name == "lax_validation"@
}

/// The first declared flag that an auto-generated setter implies.
pub open spec fn first_implied_flag(idents: Seq<SpecIdent>) -> Option<SpecIdent>
    decreases idents.len(),
{
    if idents.len() == 0 {
        None
    } else if is_implied_flag(idents[0].name) {
        Some(idents[0])
    } else {
        first_implied_flag(idents.skip(1))
    }
}

/// With an auto-generated setter, the flags that it implies may not be
/// declared. Without one, a setter that the type supplies may not have the
/// name of the generated setter, which calls it.
pub open spec fn check_auto_generated(p: SpecProperty) -> Option<SpecDiagnostic> {
    if p.set_inline is Some {
        match first_implied_flag(p.flag_idents) {
            Some(f) => diag(SpecDiagnosticKind::RedundantWithAutoGenerated(f.name), f.span),
            None => None,
        }
    } else {
        match p.set {
            SpecPropertyPermission::AllowCustom(m) => if m.name == p.setter_name() {
                diag(SpecDiagnosticKind::SetterNameConflict(m.name), m.span)
            } else {
                None
            },
            _ => None,
        }
    }
}

/// The permission of a property without storage, given the name that the
/// naming convention gives its accessor: a named method stays; the
/// generated accessor is replaced by the method of the conventional name
/// where the type supplies it; anything else has nothing to read or write.
pub open spec fn resolve_accessor(
    perm: SpecPropertyPermission,
    conventional: Seq<char>,
    span: Span,
    methods: Seq<Seq<char>>,
) -> Option<SpecPropertyPermission> {
    match perm {
        SpecPropertyPermission::Deny => Some(perm),
        SpecPropertyPermission::AllowCustom(_) => Some(perm),
        SpecPropertyPermission::Allow => if methods.contains(conventional) {
            Some(
                SpecPropertyPermission::AllowCustom(SpecIdent { name: conventional, span }),
            )
        } else {
            None
        },
        SpecPropertyPermission::AllowNoMethod(_) => None,
    }
}

/// Whether the property has no storage and is not an interface's.
pub open spec fn lacks_storage(p: SpecProperty) -> bool {
    p.storage is Abstract || p.storage is Computed
}

/// A property without storage needs, for each access that it allows, a
/// method that the type supplies under its name.
pub open spec fn resolve_accessors(p: SpecProperty, methods: Seq<Seq<char>>) -> SpecBuilt {
    if !lacks_storage(p) {
        Ok(p)
    } else {
        let span = p.storage.keyword()->0.span;
        match resolve_accessor(p.get, p.getter_name(), span, methods) {
            None => fail(SpecDiagnosticKind::MissingCustomAccessorForAbstractStorage, span),
            Some(get) => match resolve_accessor(p.set, p.custom_setter_name(), span, methods) {
                None => fail(SpecDiagnosticKind::MissingCustomAccessorForAbstractStorage, span),
                Some(set) => Ok(SpecProperty { get, set, ..p }),
            },
        }
    }
}

/// An auto-generated setter implies the flags `explicit_notify` and
/// `lax_validation`.
pub open spec fn with_implied_flags(p: SpecProperty) -> SpecProperty {
    if p.set_inline is Some {
        SpecProperty {
            flags: PropertyFlags {
                bits: p.flags.bits | PropertyFlags::EXPLICIT_NOTIFY
                    | PropertyFlags::LAX_VALIDATION,
            },
            ..p
        }
    } else {
        p
    }
}

/// The rules in their order; the first that fails gives the diagnostic. A
/// member that is no property passes as it is.
pub open spec fn validate(p: SpecProperty, methods: Seq<Seq<char>>) -> SpecBuilt {
    if p.skip {
        Ok(p)
    } else if !valid_name(p.name()) {
        fail(SpecDiagnosticKind::InvalidName(p.name()), p.name_span())
    } else if !p.get.is_allowed() && !p.set.is_allowed() {
        fail(SpecDiagnosticKind::MissingAccessor, p.span)
    } else if check_override(p) is Some {
        Err(check_override(p)->0)
    } else if check_construct_only(p) is Some {
        Err(check_construct_only(p)->0)
    } else if check_auto_generated(p) is Some {
        Err(check_auto_generated(p)->0)
    } else {
        match resolve_accessors(p, methods) {
            Err(d) => Err(d),
            Ok(q) => Ok(with_implied_flags(q)),
        }
    }
}

impl SpecProperty {
    /// Whether every access that the property allows has something to go
    /// through: a place, or a method of the type.
    pub open spec fn accessors_resolved(self) -> bool {
        lacks_storage(self) ==> {
            &&& self.get is Deny || self.get is AllowCustom
            &&& self.set is Deny || self.set is AllowCustom
        }
    }

    /// What holds of every valid descriptor.
    pub open spec fn wf(self) -> bool {
        self.skip || {
            &&& valid_name(self.name())
            &&& self.get.is_allowed() || self.set.is_allowed()
            &&& self.override_ is Some ==> {
                &&& self.nick is None
                &&& self.blurb is None
                &&& self.buildable_props.len() == 0
                &&& self.subtype is None
                &&& self.flag_idents.len() == 0
                &&& self.special_type is Unspecified
            }
            &&& self.override_ matches Some(SpecPropertyOverride::Class(_)) ==> {
                &&& self.no_notify is None
                &&& self.no_connect_notify is None
            }
            &&& self.flags.has(PropertyFlags::CONSTRUCT_ONLY) ==> {
                &&& self.no_notify is None
                &&& self.no_connect_notify is None
            }
            &&& self.set_inline is Some ==> {
                &&& self.flags.has(PropertyFlags::EXPLICIT_NOTIFY)
                &&& self.flags.has(PropertyFlags::LAX_VALIDATION)
                &&& first_implied_flag(self.flag_idents) is None
            }
            &&& self.accessors_resolved()
        }
    }
}

fn some_diag(kind: DiagnosticKind, span: Span) -> (r: Option<Diagnostic>)
    ensures
        r.deep_view() == diag(kind@, span),
{
    Some(Diagnostic::new(kind, span))
}

fn illegal_on_override(key: &str, span: Span) -> (r: Option<Diagnostic>)
    ensures
        r.deep_view() == diag(SpecDiagnosticKind::IllegalOnOverride(key@), span),
{
    some_diag(DiagnosticKind::IllegalOnOverride(String::from_str(key)), span)
}

fn illegal_on_construct_only(key: &str, span: Span) -> (r: Option<Diagnostic>)
    ensures
        r.deep_view() == diag(SpecDiagnosticKind::IllegalOnConstructOnly(key@), span),
{
    some_diag(DiagnosticKind::IllegalOnConstructOnly(String::from_str(key)), span)
}

/// Whether the list holds the given name.
pub fn contains_name(names: &Vec<String>, name: &str) -> (r: bool)
    ensures
        r == names.deep_view().contains(name@),
{
    let mut i: usize = 0;
    while i < names.len()
        invariant
            i <= names.len(),
            forall|j: int| 0 <= j < i ==> (#[trigger] names.deep_view()[j]) != name@,
        decreases names.len() - i,
    {
        if crate::text::str_eq(names[i].as_str(), name) {
            assert(names.deep_view()[i as int] == name@);
            return true;
        }
        i += 1;
    }
    false
}

fn resolved_accessor(
    perm: PropertyPermission,
    conventional: String,
    span: Span,
    methods: &Vec<String>,
) -> (r: Option<PropertyPermission>)
    ensures
        r.deep_view() == resolve_accessor(perm@, conventional@, span, methods.deep_view()),
{
    match perm {
        PropertyPermission::Deny => Some(PropertyPermission::Deny),
        PropertyPermission::AllowCustom(m) => Some(PropertyPermission::AllowCustom(m)),
        PropertyPermission::Allow => if contains_name(methods, conventional.as_str()) {
            Some(PropertyPermission::AllowCustom(Ident { name: conventional, span }))
        } else {
            None
        },
        PropertyPermission::AllowNoMethod(_) => None,
    }
}

impl Property {
    /// Tests the descriptor against what an override property may declare.
    pub fn check_override(&self) -> (r: Option<Diagnostic>)
        ensures
            r.deep_view() == check_override(self@),
    {
        let class = match &self.override_ {
            None => {
                return None;
            },
            Some(PropertyOverride::Class(_)) => true,
            Some(PropertyOverride::Interface(_)) => false,
        };
        if let Some(nick) = &self.nick {
            return illegal_on_override("nick", nick.span);
        }
        if let Some(blurb) = &self.blurb {
            return illegal_on_override("blurb", blurb.span);
        }
        if self.buildable_props.len() > 0 {
            let arg = &self.buildable_props[0];
            assert(self.buildable_props.deep_view()[0] == arg@);
            return illegal_on_override(arg.name.name.as_str(), arg.name.span);
        }
        if let Some(subtype) = &self.subtype {
            return illegal_on_override("subtype", subtype.span);
        }
        if self.flag_idents.len() > 0 {
            let flag = &self.flag_idents[0];
            assert(self.flag_idents.deep_view()[0] == flag@);
            return illegal_on_override(flag.name.as_str(), flag.span);
        }
        if let Some(kw) = self.special_type.ident() {
            return illegal_on_override(kw.name.as_str(), kw.span);
        }
        if class {
            if let Some(kw) = &self.no_notify {
                return illegal_on_override("notify_func", kw.span);
            }
            if let Some(kw) = &self.no_connect_notify {
                return illegal_on_override("connect_notify_func", kw.span);
            }
        }
        None
    }

    /// Tests the descriptor against what a construct-only property may
    /// declare.
    pub fn check_construct_only(&self) -> (r: Option<Diagnostic>)
        ensures
            r.deep_view() == check_construct_only(self@),
    {
        if !self.flags.contains(PropertyFlags::CONSTRUCT_ONLY) {
            return None;
        }
        if let Some(kw) = &self.no_notify {
            return illegal_on_construct_only("notify_func", kw.span);
        }
        if let Some(kw) = &self.no_connect_notify {
            return illegal_on_construct_only("connect_notify_func", kw.span);
        }
        None
    }

    /// The first declared flag that an auto-generated setter implies.
    pub fn first_implied_flag(&self) -> (r: Option<&Ident>)
        ensures
            r.deep_view() == first_implied_flag(self@.flag_idents),
    {
        let mut i: usize = 0;
        assert(self.flag_idents.deep_view().skip(0) =~= self.flag_idents.deep_view());
        while i < self.flag_idents.len()
            invariant
                i <= self.flag_idents.len(),
                first_implied_flag(self.flag_idents.deep_view()) == first_implied_flag(
                    self.flag_idents.deep_view().skip(i as int),
                ),
            decreases self.flag_idents.len() - i,
        {
            let ghost rest = self.flag_idents.deep_view().skip(i as int);
            proof {
                assert(rest[0] == self.flag_idents[i as int]@);
                assert(rest.skip(1) =~= self.flag_idents.deep_view().skip(i + 1));
            }
            let flag = &self.flag_idents[i];
            if flag.is("explicit_notify") || flag.is("lax_validation") {
                return Some(flag);
            }
            i += 1;
        }
        None
    }

    /// Tests the descriptor against what goes with, and without, an
    /// auto-generated setter.
    pub fn check_auto_generated(&self) -> (r: Option<Diagnostic>)
        ensures
            r.deep_view() == check_auto_generated(self@),
    {
        if self.set_inline.is_some() {
            match self.first_implied_flag() {
                Some(f) => some_diag(
                    DiagnosticKind::RedundantWithAutoGenerated(f.name.clone()),
                    f.span,
                ),
                None => None,
            }
        } else {
            match &self.set {
                PropertyPermission::AllowCustom(m) => {
                    let setter = self.setter_name();
                    if m.is(setter.as_str()) {
                        some_diag(DiagnosticKind::SetterNameConflict(m.name.clone()), m.span)
                    } else {
                        None
                    }
                },
                _ => None,
            }
        }
    }

    /// Gives a property without storage the accessors that the type supplies
    /// under the names of the naming convention.
    pub fn resolve_accessors(self, methods: &Vec<String>) -> (r: Built)
        ensures
            built_view(r) == resolve_accessors(self@, methods.deep_view()),
    {
        let span = match &self.storage {
            PropertyStorage::Abstract(kw) => kw.span,
            PropertyStorage::Computed(kw) => kw.span,
            _ => {
                return Ok(self);
            },
        };
        let getter = self.getter_name();
        let setter = self.custom_setter_name();
        let mut prop = self;
        let mut get = PropertyPermission::Deny;
        let mut set = PropertyPermission::Deny;
        std::mem::swap(&mut get, &mut prop.get);
        std::mem::swap(&mut set, &mut prop.set);
        match resolved_accessor(get, getter, span, methods) {
            None => Err(
                Diagnostic::new(DiagnosticKind::MissingCustomAccessorForAbstractStorage, span),
            ),
            Some(get) => match resolved_accessor(set, setter, span, methods) {
                None => Err(
                    Diagnostic::new(
                        DiagnosticKind::MissingCustomAccessorForAbstractStorage,
                        span,
                    ),
                ),
                Some(set) => {
                    prop.get = get;
                    prop.set = set;
                    Ok(prop)
                },
            },
        }
    }

    /// Adds the flags that an auto-generated setter implies.
    pub fn with_implied_flags(self) -> (r: Property)
        ensures
            r@ == with_implied_flags(self@),
    {
        let mut prop = self;
        if prop.set_inline.is_some() {
            prop.flags.insert(PropertyFlags::EXPLICIT_NOTIFY);
            prop.flags.insert(PropertyFlags::LAX_VALIDATION);
        }
        prop
    }

    /// Tests the descriptor against the rules, in their order, and adds what
    /// a valid descriptor implies. `methods` holds the names of the methods
    /// that the type supplies. A member that is no property passes as it
    /// is, and nothing is generated for it.
    pub fn validate(self, methods: &Vec<String>) -> (r: Built)
        ensures
            built_view(r) == validate(self@, methods.deep_view()),
            r matches Ok(p) ==> p@.wf(),
    {
        proof {
            lemma_valid_is_wf(self@, methods.deep_view());
        }
        if self.skip {
            return Ok(self);
        }
        let name = self.name();
        if !is_valid_name(name.as_str()) {
            return Err(Diagnostic::new(DiagnosticKind::InvalidName(name), self.name_span()));
        }
        if !self.get.is_allowed() && !self.set.is_allowed() {
            return Err(Diagnostic::new(DiagnosticKind::MissingAccessor, self.span));
        }
        if let Some(d) = self.check_override() {
            return Err(d);
        }
        if let Some(d) = self.check_construct_only() {
            return Err(d);
        }
        if let Some(d) = self.check_auto_generated() {
            return Err(d);
        }
        match self.resolve_accessors(methods) {
            Err(d) => Err(d),
            Ok(q) => Ok(q.with_implied_flags()),
        }
    }
}

/// Adding the implied flags makes both contained and leaves the
/// construct-only flag as it was.
pub proof fn lemma_implied_flags(bits: u32)
    ensures
        crate::flags::has_bits(
            bits | PropertyFlags::EXPLICIT_NOTIFY | PropertyFlags::LAX_VALIDATION,
            PropertyFlags::EXPLICIT_NOTIFY,
        ),
        crate::flags::has_bits(
            bits | PropertyFlags::EXPLICIT_NOTIFY | PropertyFlags::LAX_VALIDATION,
            PropertyFlags::LAX_VALIDATION,
        ),
        crate::flags::has_bits(
            bits | PropertyFlags::EXPLICIT_NOTIFY | PropertyFlags::LAX_VALIDATION,
            PropertyFlags::CONSTRUCT_ONLY,
        ) == crate::flags::has_bits(bits, PropertyFlags::CONSTRUCT_ONLY),
{
    assert((bits | 0x4000_0000u32 | 0x10u32) & 0x4000_0000u32 == 0x4000_0000u32) by (bit_vector);
    assert((bits | 0x4000_0000u32 | 0x10u32) & 0x10u32 == 0x10u32) by (bit_vector);
    assert(((bits | 0x4000_0000u32 | 0x10u32) & 0x8u32 == 0x8u32) == (bits & 0x8u32 == 0x8u32))
        by (bit_vector);
}

/// A descriptor that passes the rules is well-formed.
pub proof fn lemma_valid_is_wf(p: SpecProperty, methods: Seq<Seq<char>>)
    ensures
        validate(p, methods) matches Ok(q) ==> q.wf(),
{
    if let Ok(q) = validate(p, methods) {
        if !p.skip {
            lemma_implied_flags(p.flags.bits);
            assert(q.name() == p.name());
        }
    }
}

} // verus!
