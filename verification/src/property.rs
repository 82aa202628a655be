//! The property descriptor: what one member declaration says of a property.

use vstd::prelude::*;
use vstd::string::*;
use crate::attr::{Attribute, SpecAttribute};
use crate::diag::{Ident, LitStr, Span, SpecIdent, SpecLitStr, SpecTokens, Tokens};
use crate::flags::PropertyFlags;
use crate::names::{kebab_case, method_name, method_name_text, to_kebab_case};

verus! {

/// The tag that selects how a property's type is registered.
#[derive(Debug)]
pub enum PropertyType {
    Unspecified,
    Enum(Ident),
    Flags(Ident),
    Boxed(Ident),
    Object(Ident),
    /// A variant, with the signature of its type.
    Variant(Ident, String),
}

/// The mathematical value of a [`PropertyType`].
pub ghost enum SpecPropertyType {
    Unspecified,
    Enum(SpecIdent),
    Flags(SpecIdent),
    Boxed(SpecIdent),
    Object(SpecIdent),
    Variant(SpecIdent, Seq<char>),
}

impl SpecPropertyType {
    /// The keyword that selected the tag.
    pub open spec fn ident(self) -> Option<SpecIdent> {
        match self {
            SpecPropertyType::Unspecified => None,
            SpecPropertyType::Enum(kw) => Some(kw),
            SpecPropertyType::Flags(kw) => Some(kw),
            SpecPropertyType::Boxed(kw) => Some(kw),
            SpecPropertyType::Object(kw) => Some(kw),
            SpecPropertyType::Variant(kw, _) => Some(kw),
        }
    }
}

impl DeepView for PropertyType {
    type V = SpecPropertyType;

    open spec fn deep_view(&self) -> SpecPropertyType {
        match self {
            PropertyType::Unspecified => SpecPropertyType::Unspecified,
            PropertyType::Enum(kw) => SpecPropertyType::Enum(kw@),
            PropertyType::Flags(kw) => SpecPropertyType::Flags(kw@),
            PropertyType::Boxed(kw) => SpecPropertyType::Boxed(kw@),
            PropertyType::Object(kw) => SpecPropertyType::Object(kw@),
            PropertyType::Variant(kw, sig) => SpecPropertyType::Variant(kw@, sig@),
        }
    }
}

impl View for PropertyType {
    type V = SpecPropertyType;

    open spec fn view(&self) -> SpecPropertyType {
        self.deep_view()
    }
}

impl Default for PropertyType {
    fn default() -> (r: Self)
        ensures
            r@ is Unspecified,
    {
        PropertyType::Unspecified
    }
}

impl PropertyType {
    /// The keyword that selected the tag.
    pub fn ident(&self) -> (r: Option<&Ident>)
        ensures
            r.deep_view() == self@.ident(),
    {
        match self {
            PropertyType::Unspecified => None,
            PropertyType::Enum(kw) => Some(kw),
            PropertyType::Flags(kw) => Some(kw),
            PropertyType::Boxed(kw) => Some(kw),
            PropertyType::Object(kw) => Some(kw),
            PropertyType::Variant(kw, _) => Some(kw),
        }
    }
}

/// Where a property's value lives.
#[derive(Debug)]
pub enum PropertyStorage {
    /// In the declared field.
    Field(Ident),
    /// Nowhere: the property belongs to an interface.
    InterfaceAbstract,
    /// Nowhere: subclasses provide it.
    Abstract(Ident),
    /// Nowhere: the type computes it.
    Computed(Ident),
    /// Behind the given path.
    Delegate(Ident, String),
}

/// The mathematical value of a [`PropertyStorage`].
pub ghost enum SpecPropertyStorage {
    Field(SpecIdent),
    InterfaceAbstract,
    Abstract(SpecIdent),
    Computed(SpecIdent),
    Delegate(SpecIdent, Seq<char>),
}

impl SpecPropertyStorage {
    /// The keyword that selected the storage; none for a field or an
    /// interface.
    pub open spec fn keyword(self) -> Option<SpecIdent> {
        match self {
            SpecPropertyStorage::Field(_) => None,
            SpecPropertyStorage::InterfaceAbstract => None,
            SpecPropertyStorage::Abstract(kw) => Some(kw),
            SpecPropertyStorage::Computed(kw) => Some(kw),
            SpecPropertyStorage::Delegate(kw, _) => Some(kw),
        }
    }

    /// Whether there is a place to read and write.
    pub open spec fn has_place(self) -> bool {
        self is Field || self is Delegate
    }
}

impl DeepView for PropertyStorage {
    type V = SpecPropertyStorage;

    open spec fn deep_view(&self) -> SpecPropertyStorage {
        match self {
            PropertyStorage::Field(f) => SpecPropertyStorage::Field(f@),
            PropertyStorage::InterfaceAbstract => SpecPropertyStorage::InterfaceAbstract,
            PropertyStorage::Abstract(kw) => SpecPropertyStorage::Abstract(kw@),
            PropertyStorage::Computed(kw) => SpecPropertyStorage::Computed(kw@),
            PropertyStorage::Delegate(kw, path) => SpecPropertyStorage::Delegate(kw@, path@),
        }
    }
}

impl View for PropertyStorage {
    type V = SpecPropertyStorage;

    open spec fn view(&self) -> SpecPropertyStorage {
        self.deep_view()
    }
}

impl PropertyStorage {
    /// The keyword that selected the storage; none for a field or an
    /// interface.
    pub fn keyword(&self) -> (r: Option<&Ident>)
        ensures
            r.deep_view() == self@.keyword(),
    {
        match self {
            PropertyStorage::Field(_) => None,
            PropertyStorage::InterfaceAbstract => None,
            PropertyStorage::Abstract(kw) => Some(kw),
            PropertyStorage::Computed(kw) => Some(kw),
            PropertyStorage::Delegate(kw, _) => Some(kw),
        }
    }
}

/// Where a property's name comes from.
#[derive(Debug)]
pub enum PropertyName {
    /// Derived from the member's identifier.
    Field(Ident),
    /// Given by a `name` attribute.
    Custom(LitStr),
}

/// The mathematical value of a [`PropertyName`].
pub ghost enum SpecPropertyName {
    Field(SpecIdent),
    Custom(SpecLitStr),
}

impl DeepView for PropertyName {
    type V = SpecPropertyName;

    open spec fn deep_view(&self) -> SpecPropertyName {
        match self {
            PropertyName::Field(i) => SpecPropertyName::Field(i@),
            PropertyName::Custom(s) => SpecPropertyName::Custom(s@),
        }
    }
}

impl View for PropertyName {
    type V = SpecPropertyName;

    open spec fn view(&self) -> SpecPropertyName {
        self.deep_view()
    }
}

/// Whether a property can be read, or written, and through what.
#[derive(Debug)]
pub enum PropertyPermission {
    /// Not at all.
    Deny,
    /// Through the accessor that is generated for it.
    Allow,
    /// By name only: no accessor is generated.
    AllowNoMethod(Ident),
    /// Through the method of that name, which the type supplies.
    AllowCustom(Ident),
}

/// The mathematical value of a [`PropertyPermission`].
pub ghost enum SpecPropertyPermission {
    Deny,
    Allow,
    AllowNoMethod(SpecIdent),
    AllowCustom(SpecIdent),
}

impl SpecPropertyPermission {
    /// The permission of a member that declares none.
    pub open spec fn default_for(pod: bool) -> SpecPropertyPermission {
        if pod {
            SpecPropertyPermission::Allow
        } else {
            SpecPropertyPermission::Deny
        }
    }

    pub open spec fn is_allowed(self) -> bool {
        !(self is Deny)
    }
}

impl DeepView for PropertyPermission {
    type V = SpecPropertyPermission;

    open spec fn deep_view(&self) -> SpecPropertyPermission {
        match self {
            PropertyPermission::Deny => SpecPropertyPermission::Deny,
            PropertyPermission::Allow => SpecPropertyPermission::Allow,
            PropertyPermission::AllowNoMethod(kw) => SpecPropertyPermission::AllowNoMethod(kw@),
            PropertyPermission::AllowCustom(m) => SpecPropertyPermission::AllowCustom(m@),
        }
    }
}

impl View for PropertyPermission {
    type V = SpecPropertyPermission;

    open spec fn view(&self) -> SpecPropertyPermission {
        self.deep_view()
    }
}

impl PropertyPermission {
    /// The permission of a member that declares none.
    pub fn default_for(pod: bool) -> (r: PropertyPermission)
        ensures
            r@ == SpecPropertyPermission::default_for(pod),
    {
        if pod {
            PropertyPermission::Allow
        } else {
            PropertyPermission::Deny
        }
    }

    pub fn is_allowed(&self) -> (r: bool)
        ensures
            r == self@.is_allowed(),
    {
        match self {
            PropertyPermission::Deny => false,
            _ => true,
        }
    }

    /// Whether the permission is the one of a member that declares none.
    pub fn is_default_for(&self, pod: bool) -> (r: bool)
        ensures
            r == (self@ == SpecPropertyPermission::default_for(pod)),
    {
        match self {
            PropertyPermission::Deny => !pod,
            PropertyPermission::Allow => pod,
            _ => false,
        }
    }
}

/// The member that a property re-declares.
#[derive(Debug)]
pub enum PropertyOverride {
    /// A property of the given interface.
    Interface(Tokens),
    /// A property of the given parent class.
    Class(Tokens),
}

/// The mathematical value of a [`PropertyOverride`].
pub ghost enum SpecPropertyOverride {
    Interface(SpecTokens),
    Class(SpecTokens),
}

impl SpecPropertyOverride {
    /// The keyword that declares such an override.
    pub open spec fn keyword(self) -> Seq<char> {
        match self {
            SpecPropertyOverride::Interface(_) => "override_iface"@,
            SpecPropertyOverride::Class(_) => "override_class"@,
        }
    }
}

impl DeepView for PropertyOverride {
    type V = SpecPropertyOverride;

    open spec fn deep_view(&self) -> SpecPropertyOverride {
        match self {
            PropertyOverride::Interface(t) => SpecPropertyOverride::Interface(t@),
            PropertyOverride::Class(t) => SpecPropertyOverride::Class(t@),
        }
    }
}

impl View for PropertyOverride {
    type V = SpecPropertyOverride;

    open spec fn view(&self) -> SpecPropertyOverride {
        self.deep_view()
    }
}

impl PropertyOverride {
    /// The keyword that declares such an override.
    pub fn keyword(&self) -> (r: &'static str)
        ensures
            r@ == self@.keyword(),
    {
        match self {
            PropertyOverride::Interface(_) => "override_iface",
            PropertyOverride::Class(_) => "override_class",
        }
    }
}

/// One argument that is handed on to the registration builder: the method to
/// call and the value to call it with.
#[derive(Debug)]
pub struct BuilderArg {
    pub name: Ident,
    pub value: String,
}

/// The mathematical value of a [`BuilderArg`].
pub ghost struct SpecBuilderArg {
    pub name: SpecIdent,
    pub value: Seq<char>,
}

impl DeepView for BuilderArg {
    type V = SpecBuilderArg;

    open spec fn deep_view(&self) -> SpecBuilderArg {
        SpecBuilderArg { name: self.name@, value: self.value@ }
    }
}

impl View for BuilderArg {
    type V = SpecBuilderArg;

    open spec fn view(&self) -> SpecBuilderArg {
        self.deep_view()
    }
}

/// One member declaration: its identifier, its type and its attributes.
#[derive(Debug)]
pub struct Field {
    pub ident: Ident,
    pub ty: Tokens,
    pub attrs: Vec<Attribute>,
    pub span: Span,
}

/// The mathematical value of a [`Field`].
pub ghost struct SpecField {
    pub ident: SpecIdent,
    pub ty: SpecTokens,
    pub attrs: Seq<SpecAttribute>,
    pub span: Span,
}

impl DeepView for Field {
    type V = SpecField;

    open spec fn deep_view(&self) -> SpecField {
        SpecField {
            ident: self.ident@,
            ty: self.ty@,
            attrs: self.attrs.deep_view(),
            span: self.span,
        }
    }
}

impl View for Field {
    type V = SpecField;

    open spec fn view(&self) -> SpecField {
        self.deep_view()
    }
}

/// A property descriptor.
#[derive(Debug)]
pub struct Property {
    /// Where the member stands.
    pub span: Span,
    /// Whether the member is no property at all.
    pub skip: bool,
    /// The member's declared type.
    pub ty: String,
    pub special_type: PropertyType,
    pub storage: PropertyStorage,
    pub override_: Option<PropertyOverride>,
    pub get: PropertyPermission,
    pub set: PropertyPermission,
    /// Present where the setter is auto-generated: it writes, compares and
    /// notifies by itself. Holds the keyword where one asked for it.
    pub set_inline: Option<Option<Ident>>,
    /// Present where the notifier is suppressed.
    pub no_notify: Option<Ident>,
    /// Present where the connect-notifier is suppressed.
    pub no_connect_notify: Option<Ident>,
    pub name: PropertyName,
    pub nick: Option<LitStr>,
    pub blurb: Option<LitStr>,
    pub buildable_props: Vec<BuilderArg>,
    pub subtype: Option<Tokens>,
    pub flags: PropertyFlags,
    /// The flag keywords as they were declared, in order.
    pub flag_idents: Vec<Ident>,
}

/// The mathematical value of a [`Property`].
pub ghost struct SpecProperty {
    pub span: Span,
    pub skip: bool,
    pub ty: Seq<char>,
    pub special_type: SpecPropertyType,
    pub storage: SpecPropertyStorage,
    pub override_: Option<SpecPropertyOverride>,
    pub get: SpecPropertyPermission,
    pub set: SpecPropertyPermission,
    pub set_inline: Option<Option<SpecIdent>>,
    pub no_notify: Option<SpecIdent>,
    pub no_connect_notify: Option<SpecIdent>,
    pub name: SpecPropertyName,
    pub nick: Option<SpecLitStr>,
    pub blurb: Option<SpecLitStr>,
    pub buildable_props: Seq<SpecBuilderArg>,
    pub subtype: Option<SpecTokens>,
    pub flags: PropertyFlags,
    pub flag_idents: Seq<SpecIdent>,
}

impl DeepView for Property {
    type V = SpecProperty;

    open spec fn deep_view(&self) -> SpecProperty {
        SpecProperty {
            span: self.span,
            skip: self.skip,
            ty: self.ty@,
            special_type: self.special_type@,
            storage: self.storage@,
            override_: self.override_.deep_view(),
            get: self.get@,
            set: self.set@,
            set_inline: self.set_inline.deep_view(),
            no_notify: self.no_notify.deep_view(),
            no_connect_notify: self.no_connect_notify.deep_view(),
            name: self.name@,
            nick: self.nick.deep_view(),
            blurb: self.blurb.deep_view(),
            buildable_props: self.buildable_props.deep_view(),
            subtype: self.subtype.deep_view(),
            flags: self.flags,
            flag_idents: self.flag_idents.deep_view(),
        }
    }
}

impl View for Property {
    type V = SpecProperty;

    open spec fn view(&self) -> SpecProperty {
        self.deep_view()
    }
}

impl SpecProperty {
    /// The descriptor of a member before any attribute is applied. In a
    /// plain-data type every member is a property that can be read and
    /// written, with an auto-generated setter; elsewhere a member is a
    /// property only if an attribute says so, and can then be neither read
    /// nor written until the attribute allows it.
    pub open spec fn new(field: SpecField, pod: bool, iface: bool) -> SpecProperty {
        SpecProperty {
            span: field.span,
            skip: !pod,
            ty: field.ty.text,
            special_type: SpecPropertyType::Unspecified,
            storage: if iface {
                SpecPropertyStorage::InterfaceAbstract
            } else {
                SpecPropertyStorage::Field(field.ident)
            },
            override_: None,
            get: SpecPropertyPermission::default_for(pod),
            set: SpecPropertyPermission::default_for(pod),
            set_inline: if pod {
                Some(None)
            } else {
                None
            },
            no_notify: None,
            no_connect_notify: None,
            name: SpecPropertyName::Field(field.ident),
            nick: None,
            blurb: None,
            buildable_props: Seq::empty(),
            subtype: None,
            flags: PropertyFlags { bits: 0 },
            flag_idents: Seq::empty(),
        }
    }

    /// The property's name: the one that a `name` attribute gives, else the
    /// kebab-case form of the member's identifier.
    pub open spec fn name(self) -> Seq<char> {
        match self.name {
            SpecPropertyName::Field(i) => kebab_case(i.name),
            SpecPropertyName::Custom(s) => s.value,
        }
    }

    /// Where the name stands in the source.
    pub open spec fn name_span(self) -> Span {
        match self.name {
            SpecPropertyName::Field(i) => i.span,
            SpecPropertyName::Custom(s) => s.span,
        }
    }

    /// Whether the property re-declares a member of a parent or interface.
    pub open spec fn is_inherited(self) -> bool {
        self.override_ is Some
    }

    /// Whether the property has no implementation in this type.
    pub open spec fn is_abstract(self) -> bool {
        self.storage is Abstract || self.storage is InterfaceAbstract
    }

    /// Whether the setter is auto-generated.
    pub open spec fn write_auto_generated(self) -> bool {
        self.set_inline is Some
    }

    /// The name of the getter.
    pub open spec fn getter_name(self) -> Seq<char> {
        method_name_text(""@, self.name(), ""@)
    }

    /// The name of the generated setter.
    pub open spec fn setter_name(self) -> Seq<char> {
        method_name_text("set_"@, self.name(), ""@)
    }

    /// The name under which the type supplies a setter of its own where the
    /// attribute names none: that of the generated setter where the setter is
    /// auto-generated, else the same behind an underscore, since the
    /// generated setter calls it.
    pub open spec fn custom_setter_name(self) -> Seq<char> {
        if self.set_inline is Some {
            self.setter_name()
        } else {
            method_name_text("_set_"@, self.name(), ""@)
        }
    }

    /// The value of the builder argument of the given name.
    pub open spec fn find_buildable_prop(self, name: Seq<char>) -> Option<Seq<char>> {
        find_arg(self.buildable_props, name)
    }
}

/// The value of the first argument of the given name.
pub open spec fn find_arg(args: Seq<SpecBuilderArg>, name: Seq<char>) -> Option<Seq<char>>
    decreases args.len(),
{
    if args.len() == 0 {
        None
    } else if args[0].name.name == name {
        Some(args[0].value)
    } else {
        find_arg(args.skip(1), name)
    }
}

/// Whether an argument of the given name is there.
pub open spec fn has_arg(args: Seq<SpecBuilderArg>, name: Seq<char>) -> bool {
    exists|i: int| 0 <= i < args.len() && (#[trigger] args[i]).name.name == name
}

impl Property {
    /// The descriptor of a member before any attribute is applied.
    pub fn new(field: &Field, pod: bool, iface: bool) -> (r: Property)
        ensures
            r@ == SpecProperty::new(field@, pod, iface),
    {
        let storage = if iface {
            PropertyStorage::InterfaceAbstract
        } else {
            PropertyStorage::Field(field.ident.dup())
        };
        let r = Property {
            span: field.span,
            skip: !pod,
            ty: field.ty.text.clone(),
            special_type: PropertyType::Unspecified,
            storage,
            override_: None,
            get: PropertyPermission::default_for(pod),
            set: PropertyPermission::default_for(pod),
            set_inline: if pod {
                Some(None)
            } else {
                None
            },
            no_notify: None,
            no_connect_notify: None,
            name: PropertyName::Field(field.ident.dup()),
            nick: None,
            blurb: None,
            buildable_props: Vec::new(),
            subtype: None,
            flags: PropertyFlags::empty(),
            flag_idents: Vec::new(),
        };
        proof {
            assert(r.buildable_props.deep_view() =~= Seq::empty());
            assert(r.flag_idents.deep_view() =~= Seq::empty());
        }
        r
    }

    /// The property's name: the one that a `name` attribute gives, else the
    /// kebab-case form of the member's identifier.
    pub fn name(&self) -> (r: String)
        ensures
            r@ == self@.name(),
    {
        match &self.name {
            PropertyName::Field(i) => to_kebab_case(i.name.as_str()),
            PropertyName::Custom(s) => s.value.clone(),
        }
    }

    /// Where the name stands in the source.
    pub fn name_span(&self) -> (r: Span)
        ensures
            r == self@.name_span(),
    {
        match &self.name {
            PropertyName::Field(i) => i.span,
            PropertyName::Custom(s) => s.span,
        }
    }

    /// Whether the property re-declares a member of a parent or interface.
    pub fn is_inherited(&self) -> (r: bool)
        ensures
            r == self@.is_inherited(),
    {
        self.override_.is_some()
    }

    /// Whether the property has no implementation in this type.
    pub fn is_abstract(&self) -> (r: bool)
        ensures
            r == self@.is_abstract(),
    {
        match &self.storage {
            PropertyStorage::Abstract(_) => true,
            PropertyStorage::InterfaceAbstract => true,
            _ => false,
        }
    }

    /// The name of the getter.
    pub fn getter_name(&self) -> (r: String)
        ensures
            r@ == self@.getter_name(),
    {
        let name = self.name();
        method_name("", name.as_str(), "")
    }

    /// The name of the generated setter.
    pub fn setter_name(&self) -> (r: String)
        ensures
            r@ == self@.setter_name(),
    {
        let name = self.name();
        method_name("set_", name.as_str(), "")
    }

    /// The name under which the type supplies a setter of its own where the
    /// attribute names none.
    pub fn custom_setter_name(&self) -> (r: String)
        ensures
            r@ == self@.custom_setter_name(),
    {
        let name = self.name();
        if self.set_inline.is_some() {
            method_name("set_", name.as_str(), "")
        } else {
            method_name("_set_", name.as_str(), "")
        }
    }

    /// The value of the builder argument of the given name.
    pub fn find_buildable_prop(&self, name: &str) -> (r: Option<&String>)
        ensures
            r.deep_view() == self@.find_buildable_prop(name@),
    {
        let mut i: usize = 0;
        assert(self.buildable_props.deep_view().skip(0) =~= self.buildable_props.deep_view());
        while i < self.buildable_props.len()
            invariant
                i <= self.buildable_props.len(),
                find_arg(self.buildable_props.deep_view(), name@) == find_arg(
                    self.buildable_props.deep_view().skip(i as int),
                    name@,
                ),
            decreases self.buildable_props.len() - i,
        {
            let ghost rest = self.buildable_props.deep_view().skip(i as int);
            proof {
                assert(rest[0] == self.buildable_props[i as int]@);
                assert(rest.skip(1) =~= self.buildable_props.deep_view().skip(i + 1));
            }
            if self.buildable_props[i].name.is(name) {
                return Some(&self.buildable_props[i].value);
            }
            i += 1;
        }
        None
    }
}

} // verus!
