//! The code that a property descriptor generates: its entry in the
//! registration table, its accessors and notification helpers, and its arms
//! in the dispatch of reads and writes by index.

use vstd::prelude::*;
use vstd::string::*;
use crate::flags::PropertyFlags;
use crate::names::{method_name, method_name_text};
use crate::property::{
    BuilderArg, Property, PropertyOverride, PropertyPermission, PropertyStorage, PropertyType,
    SpecBuilderArg, SpecProperty, SpecPropertyOverride, SpecPropertyPermission,
    SpecPropertyStorage, SpecPropertyType,
};
use crate::text::{concat, concat_all, index_literal, index_string, quoted, string_literal};

verus! {

/// The call that hands one argument to the registration builder.
pub open spec fn builder_call(arg: SpecBuilderArg) -> Seq<char> {
    "."@ + arg.name.name + "("@ + arg.value + ")"@
}

/// The calls that hand the arguments to the registration builder, in order.
pub open spec fn builder_calls(args: Seq<SpecBuilderArg>) -> Seq<char> {
    concat_all(Seq::new(args.len(), |i: int| builder_call(args[i])))
}

/// The object through which generated code reaches the type's fields: the
/// implementation behind an instance of the given type, or `self`.
pub open spec fn receiver(object_type: Option<Seq<char>>, go: Seq<char>) -> Seq<char> {
    match object_type {
        Some(t) => go + "::glib::subclass::prelude::ObjectSubclassIsExt::imp("@ + go
            + "::glib::Cast::upcast_ref::<"@ + t + ">(self))"@,
        None => "self"@,
    }
}

/// The statement that tests a new value against a bound.
pub open spec fn bound_assertion(op: Seq<char>, bound: Option<Seq<char>>) -> Seq<char> {
    match bound {
        Some(b) => "assert!(value "@ + op + " "@ + b + "); "@,
        None => Seq::empty(),
    }
}

impl SpecProperty {
    /// The name as a string literal.
    pub open spec fn name_literal(self) -> Seq<char> {
        string_literal(self.name())
    }

    /// The type of the property's value: the declared type where nothing
    /// stores the value, else what the storage holds.
    pub open spec fn inner_type(self, go: Seq<char>) -> Seq<char> {
        if self.is_abstract() || self.storage is Computed {
            self.ty
        } else {
            "<"@ + self.ty + " as "@ + go + "::ParamStore>::Type"@
        }
    }

    /// The place of the property's value.
    pub open spec fn field_storage(self, object_type: Option<Seq<char>>, go: Seq<char>) -> Seq<
        char,
    > {
        receiver(object_type, go) + "."@ + (match self.storage {
            SpecPropertyStorage::Field(f) => f.name,
            SpecPropertyStorage::Delegate(_, path) => path,
            _ => Seq::empty(),
        })
    }

    /// The start of the registration builder's call chain, which the
    /// special type selects.
    pub open spec fn builder(self, go: Seq<char>) -> Seq<char> {
        match self.special_type {
            SpecPropertyType::Enum(_) => "<"@ + go
                + "::ParamSpecEnumBuilder as ::core::default::Default>::default()"@,
            SpecPropertyType::Flags(_) => "<"@ + go
                + "::ParamSpecFlagsBuilder as ::core::default::Default>::default()"@,
            SpecPropertyType::Boxed(_) => "<"@ + go
                + "::ParamSpecBoxedBuilder as ::core::default::Default>::default()"@,
            SpecPropertyType::Object(_) => "<"@ + go
                + "::ParamSpecObjectBuilder as ::core::default::Default>::default()"@,
            _ => "<"@ + self.inner_type(go) + " as "@ + go + "::ParamSpecBuildable>::builder()"@,
        }
    }

    /// The call that tells the builder of a special type what the value's
    /// type is; for a variant, its signature.
    pub open spec fn type_call(self, go: Seq<char>) -> Seq<char> {
        match self.special_type {
            SpecPropertyType::Unspecified => Seq::empty(),
            SpecPropertyType::Variant(_, sig) => ".variant("@ + string_literal(sig) + ")"@,
            _ => ".type_::<<"@ + self.inner_type(go) + " as "@ + go
                + "::glib::value::ValueType>::Type>()"@,
        }
    }

    /// The call that tells the builder the subtype.
    pub open spec fn subtype_call(self, go: Seq<char>) -> Seq<char> {
        match self.subtype {
            Some(t) => ".subtype::<<"@ + t.text + " as "@ + go
                + "::glib::value::ValueType>::Type>()"@,
            None => Seq::empty(),
        }
    }

    /// The nick: the declared one, else the name.
    pub open spec fn nick_value(self) -> Seq<char> {
        match self.nick {
            Some(n) => n.value,
            None => self.name(),
        }
    }

    /// The blurb: the declared one, else the name.
    pub open spec fn blurb_value(self) -> Seq<char> {
        match self.blurb {
            Some(b) => b.value,
            None => self.name(),
        }
    }

    /// The property's entry in the registration table. An override names
    /// the interface or class whose entry it takes over, and the name; any
    /// other property builds its own entry from its type, its arguments,
    /// name, nick, blurb and flags.
    pub open spec fn create(self, go: Seq<char>) -> Seq<char> {
        match self.override_ {
            Some(SpecPropertyOverride::Interface(t)) => go
                + "::glib::ParamSpecOverride::for_interface::<"@ + t.text + ">("@
                + self.name_literal() + ")"@,
            Some(SpecPropertyOverride::Class(t)) => go
                + "::glib::ParamSpecOverride::for_class::<"@ + t.text + ">("@
                + self.name_literal() + ")"@,
            None => self.builder(go) + self.type_call(go) + self.subtype_call(go) + builder_calls(
                self.buildable_props,
            ) + ".build("@ + self.name_literal() + ", "@ + string_literal(self.nick_value())
                + ", "@ + string_literal(self.blurb_value()) + ", "@ + self.flags.tokens_text(
                go + "::glib"@,
                self.get.is_allowed(),
                self.set.is_allowed(),
            ) + ")"@,
        }
    }

    /// Whether reads by index reach the property in this type.
    pub open spec fn has_get_impl(self) -> bool {
        self.get.is_allowed() && !self.is_abstract()
    }

    /// What a read by index does: it calls the type's method, or reads the
    /// place.
    pub open spec fn get_body(self, go: Seq<char>) -> Seq<char> {
        match self.get {
            SpecPropertyPermission::AllowCustom(m) => go + "::glib::ToValue::to_value(&obj."@
                + m.name + "())"@,
            _ => go + "::ParamStoreRead::get_value(&"@ + self.field_storage(None, go) + ")"@,
        }
    }

    /// The arm for the property in the dispatch of reads by index.
    pub open spec fn get_impl(self, index: nat, go: Seq<char>) -> Option<Seq<char>> {
        if self.has_get_impl() {
            Some(index_literal(index) + " => { "@ + self.get_body(go) + " }"@)
        } else {
            None
        }
    }

    /// Whether a getter is generated: for a property that can be read and is
    /// no override, unless it is read by name only, or the type's own method
    /// has the getter's name already.
    pub open spec fn has_getter(self) -> bool {
        &&& !self.is_inherited()
        &&& match self.get {
            SpecPropertyPermission::Allow => true,
            SpecPropertyPermission::AllowCustom(m) => m.name != self.getter_name(),
            _ => false,
        }
    }

    /// Whether the getter asks the object for the property by its name: it
    /// does where this type does not implement the property, and where the
    /// type's own method reads it, which the dispatch by index then calls.
    pub open spec fn reads_by_name(self) -> bool {
        self.is_abstract() || self.get is AllowCustom
    }

    /// The type that the getter returns.
    pub open spec fn getter_type(self, go: Seq<char>) -> Seq<char> {
        if self.reads_by_name() {
            self.inner_type(go)
        } else {
            "<"@ + self.ty + " as "@ + go + "::ParamStoreRead<'_>>::BorrowOrGetType"@
        }
    }

    /// The getter's header.
    pub open spec fn getter_prototype(self, go: Seq<char>) -> Option<Seq<char>> {
        if self.has_getter() {
            Some("fn "@ + self.getter_name() + "(&self) -> "@ + self.getter_type(go))
        } else {
            None
        }
    }

    /// What the getter does: it asks the object for the property by name,
    /// or reads the place.
    pub open spec fn getter_body(self, object_type: Seq<char>, go: Seq<char>) -> Seq<char> {
        if self.reads_by_name() {
            "<Self as "@ + go + "::glib::object::ObjectExt>::property(self, "@
                + self.name_literal() + ")"@
        } else {
            go + "::ParamStoreRead::borrow_or_get(&"@ + self.field_storage(
                Some(object_type),
                go,
            ) + ")"@
        }
    }

    /// The getter.
    pub open spec fn getter_definition(self, object_type: Seq<char>, go: Seq<char>) -> Option<
        Seq<char>,
    > {
        match self.getter_prototype(go) {
            Some(proto) => Some(
                proto + " { #![inline] "@ + self.getter_body(object_type, go) + " }"@,
            ),
            None => None,
        }
    }

    /// Whether the auto-generated setter compares and notifies: it does
    /// where the property can be read, notifies only when told to, and
    /// changes after construction.
    pub open spec fn notifies_on_change(self) -> bool {
        self.get.is_allowed() && self.flags.has(PropertyFlags::EXPLICIT_NOTIFY) && !self.flags.has(
            PropertyFlags::CONSTRUCT_ONLY,
        )
    }

    /// What the auto-generated setter does: it tests the new value against
    /// the declared bounds, writes it, and, where it compares, notifies only
    /// if the value has changed.
    pub open spec fn inline_set(
        self,
        object_type: Option<Seq<char>>,
        notify: Seq<char>,
        go: Seq<char>,
    ) -> Seq<char> {
        bound_assertion(">="@, self.find_buildable_prop("minimum"@)) + bound_assertion(
            "<="@,
            self.find_buildable_prop("maximum"@),
        ) + (if self.notifies_on_change() {
            "if "@ + go + "::ParamStoreWriteChanged::set_owned_checked(&"@ + self.field_storage(
                object_type,
                go,
            ) + ", value) { "@ + notify + " }"@
        } else {
            go + "::ParamStoreWrite::set_owned(&"@ + self.field_storage(object_type, go)
                + ", value);"@
        })
    }

    /// Whether writes by index reach the property in this type.
    pub open spec fn has_set_impl(self) -> bool {
        self.set.is_allowed() && !self.is_abstract()
    }

    /// What a write by index does: it calls the type's method, runs the
    /// auto-generated setter, or writes the place.
    pub open spec fn set_body(self, go: Seq<char>) -> Seq<char> {
        match self.set {
            SpecPropertyPermission::AllowCustom(m) => "obj."@ + m.name + "(value.get::<"@
                + self.inner_type(go) + ">().unwrap());"@,
            _ => if self.set_inline is Some {
                "let value = value.get::<"@ + self.inner_type(go) + ">().unwrap(); "@
                    + self.inline_set(
                    None,
                    "<<Self as "@ + go + "::glib::subclass::types::ObjectSubclass>::Type as "@ + go
                        + "::glib::object::ObjectExt>::notify_by_pspec(obj, pspec);"@,
                    go,
                )
            } else {
                go + "::ParamStoreWrite::set_value(&"@ + self.field_storage(None, go)
                    + ", &value);"@
            },
        }
    }

    /// The arm for the property in the dispatch of writes by index.
    pub open spec fn set_impl(self, index: nat, go: Seq<char>) -> Option<Seq<char>> {
        if self.has_set_impl() {
            Some(index_literal(index) + " => { "@ + self.set_body(go) + " }"@)
        } else {
            None
        }
    }

    /// Whether a setter is generated: not for a property that is set at
    /// construction only, nor for an override, nor where the type's own
    /// method is the setter.
    pub open spec fn has_setter(self) -> bool {
        &&& self.set is Allow || (self.set is AllowCustom && self.set_inline is None)
        &&& !self.flags.has(PropertyFlags::CONSTRUCT_ONLY)
        &&& !self.is_inherited()
    }

    /// The setter's header.
    pub open spec fn setter_prototype(self, go: Seq<char>) -> Option<Seq<char>> {
        if self.has_setter() {
            Some(
                "fn "@ + self.setter_name() + "(&self, value: "@ + self.inner_type(go) + ")"@,
            )
        } else {
            None
        }
    }

    /// What the setter does: it runs the auto-generated setter, or hands
    /// the value to the object by the property's name.
    pub open spec fn setter_body(
        self,
        index: nat,
        object_type: Seq<char>,
        properties_path: Seq<char>,
        go: Seq<char>,
    ) -> Seq<char> {
        if !self.is_abstract() && self.set_inline is Some {
            self.inline_set(
                Some(object_type),
                "<Self as "@ + go + "::glib::object::ObjectExt>::notify_by_pspec(self, &"@
                    + properties_path + "()["@ + index_literal(index) + "]);"@,
                go,
            )
        } else {
            "<Self as "@ + go + "::glib::object::ObjectExt>::set_property(self, "@
                + self.name_literal() + ", value);"@
        }
    }

    /// The setter.
    pub open spec fn setter_definition(
        self,
        index: nat,
        object_type: Seq<char>,
        properties_path: Seq<char>,
        go: Seq<char>,
    ) -> Option<Seq<char>> {
        match self.setter_prototype(go) {
            Some(proto) => Some(
                proto + " { #![inline] "@ + self.setter_body(
                    index,
                    object_type,
                    properties_path,
                    go,
                ) + " }"@,
            ),
            None => None,
        }
    }

    /// The header of the method that returns the property's entry in the
    /// registration table.
    pub open spec fn pspec_prototype(self, glib: Seq<char>) -> Option<Seq<char>> {
        Some(
            "fn "@ + method_name_text("pspec_"@, self.name(), ""@) + "() -> &'static "@ + glib
                + "::ParamSpec"@,
        )
    }

    /// The method that returns the property's entry in the registration
    /// table.
    pub open spec fn pspec_definition(
        self,
        index: nat,
        properties_path: Seq<char>,
        glib: Seq<char>,
    ) -> Option<Seq<char>> {
        Some(
            self.pspec_prototype(glib)->0 + " { #![inline] &"@ + properties_path + "()["@
                + index_literal(index) + "] }"@,
        )
    }

    /// Whether the property takes its notification helpers from the parent
    /// class whose property it re-declares.
    pub open spec fn inherits_notification(self) -> bool {
        match self.override_ {
            Some(SpecPropertyOverride::Class(_)) => true,
            _ => false,
        }
    }

    /// Whether the property notifies of changes through generated helpers:
    /// an override of a parent class's property inherits them, and a
    /// property that cannot be read or changes at construction only has
    /// nothing to notify of.
    pub open spec fn notifies(self) -> bool {
        !self.inherits_notification() && self.get.is_allowed() && !self.flags.has(
            PropertyFlags::CONSTRUCT_ONLY,
        )
    }

    /// Whether a notifier is generated.
    pub open spec fn has_notifier(self) -> bool {
        self.notifies() && self.no_notify is None
    }

    /// The notifier's header.
    pub open spec fn notify_prototype(self) -> Option<Seq<char>> {
        if self.has_notifier() {
            Some("fn "@ + method_name_text("notify_"@, self.name(), ""@) + "(&self)"@)
        } else {
            None
        }
    }

    /// The notifier.
    pub open spec fn notify_definition(
        self,
        index: nat,
        properties_path: Seq<char>,
        glib: Seq<char>,
    ) -> Option<Seq<char>> {
        match self.notify_prototype() {
            Some(proto) => Some(
                proto + " { #![inline] <Self as "@ + glib
                    + "::object::ObjectExt>::notify_by_pspec(self, &"@ + properties_path
                    + "()["@ + index_literal(index) + "]); }"@,
            ),
            None => None,
        }
    }

    /// Whether a connect-notifier is generated.
    pub open spec fn has_connector(self) -> bool {
        self.notifies() && self.no_connect_notify is None
    }

    /// The connect-notifier's header.
    pub open spec fn connect_prototype(self, glib: Seq<char>) -> Option<Seq<char>> {
        if self.has_connector() {
            Some(
                "fn "@ + method_name_text("connect_"@, self.name(), "_notify"@)
                    + "<F: Fn(&Self) + 'static>(&self, f: F) -> "@ + glib
                    + "::SignalHandlerId"@,
            )
        } else {
            None
        }
    }

    /// The connect-notifier.
    pub open spec fn connect_definition(self, glib: Seq<char>) -> Option<Seq<char>> {
        match self.connect_prototype(glib) {
            Some(proto) => Some(
                proto + " { #![inline] <Self as "@ + glib
                    + "::object::ObjectExt>::connect_notify_local(self, Some("@
                    + self.name_literal() + "), move |recv, _| f(recv)) }"@,
            ),
            None => None,
        }
    }
}

/// Writes the calls that hand the arguments to the registration builder.
pub fn write_builder_calls(args: &Vec<BuilderArg>) -> (r: String)
    ensures
        r@ == builder_calls(args.deep_view()),
{
    let mut calls: Vec<String> = Vec::new();
    let mut i: usize = 0;
    while i < args.len()
        invariant
            i <= args.len(),
            calls.len() == i,
            forall|j: int| 0 <= j < i ==> (#[trigger] calls[j])@ == builder_call(args[j]@),
        decreases args.len() - i,
    {
        let mut c = String::from_str(".");
        c.append(args[i].name.name.as_str());
        c.append("(");
        c.append(args[i].value.as_str());
        c.append(")");
        calls.push(c);
        i += 1;
    }
    assert(calls.deep_view() =~= Seq::new(
        args.deep_view().len(),
        |i: int| builder_call(args.deep_view()[i]),
    ));
    concat(&calls)
}

/// Writes the object through which generated code reaches the type's
/// fields.
pub fn write_receiver(object_type: Option<&str>, go: &str) -> (r: String)
    ensures
        r@ == receiver(object_type.deep_view(), go@),
{
    match object_type {
        Some(t) => {
            let mut r = String::from_str(go);
            r.append("::glib::subclass::prelude::ObjectSubclassIsExt::imp(");
            r.append(go);
            r.append("::glib::Cast::upcast_ref::<");
            r.append(t);
            r.append(">(self))");
            r
        },
        None => String::from_str("self"),
    }
}

/// Writes the statement that tests a new value against a bound.
pub fn write_bound_assertion(op: &str, bound: Option<&String>) -> (r: String)
    ensures
        r@ == bound_assertion(op@, bound.deep_view()),
{
    match bound {
        Some(b) => {
            let mut r = String::from_str("assert!(value ");
            r.append(op);
            r.append(" ");
            r.append(b.as_str());
            r.append("); ");
            r
        },
        None => String::new(),
    }
}

impl Property {
    /// The name as a string literal.
    pub fn name_literal(&self) -> (r: String)
        ensures
            r@ == self@.name_literal(),
    {
        let name = self.name();
        quoted(name.as_str())
    }

    /// The type of the property's value.
    pub fn inner_type(&self, go: &str) -> (r: String)
        ensures
            r@ == self@.inner_type(go@),
    {
        let computed = match &self.storage {
            PropertyStorage::Computed(_) => true,
            _ => false,
        };
        if self.is_abstract() || computed {
            self.ty.clone()
        } else {
            let mut r = String::from_str("<");
            r.append(self.ty.as_str());
            r.append(" as ");
            r.append(go);
            r.append("::ParamStore>::Type");
            r
        }
    }

    /// The place of the property's value.
    pub fn field_storage(&self, object_type: Option<&str>, go: &str) -> (r: String)
        requires
            self@.storage.has_place(),
        ensures
            r@ == self@.field_storage(object_type.deep_view(), go@),
    {
        let mut r = write_receiver(object_type, go);
        r.append(".");
        match &self.storage {
            PropertyStorage::Field(f) => {
                r.append(f.name.as_str());
            },
            PropertyStorage::Delegate(_, path) => {
                r.append(path.as_str());
            },
            _ => {},
        }
        r
    }

    fn builder(&self, go: &str) -> (r: String)
        ensures
            r@ == self@.builder(go@),
    {
        let mut r = String::from_str("<");
        match &self.special_type {
            PropertyType::Enum(_) => {
                r.append(go);
                r.append("::ParamSpecEnumBuilder as ::core::default::Default>::default()");
            },
            PropertyType::Flags(_) => {
                r.append(go);
                r.append("::ParamSpecFlagsBuilder as ::core::default::Default>::default()");
            },
            PropertyType::Boxed(_) => {
                r.append(go);
                r.append("::ParamSpecBoxedBuilder as ::core::default::Default>::default()");
            },
            PropertyType::Object(_) => {
                r.append(go);
                r.append("::ParamSpecObjectBuilder as ::core::default::Default>::default()");
            },
            _ => {
                let ty = self.inner_type(go);
                r.append(ty.as_str());
                r.append(" as ");
                r.append(go);
                r.append("::ParamSpecBuildable>::builder()");
            },
        }
        r
    }

    fn type_call(&self, go: &str) -> (r: String)
        ensures
            r@ == self@.type_call(go@),
    {
        match &self.special_type {
            PropertyType::Unspecified => String::new(),
            PropertyType::Variant(_, sig) => {
                let mut r = String::from_str(".variant(");
                let lit = quoted(sig.as_str());
                r.append(lit.as_str());
                r.append(")");
                r
            },
            _ => {
                let mut r = String::from_str(".type_::<<");
                let ty = self.inner_type(go);
                r.append(ty.as_str());
                r.append(" as ");
                r.append(go);
                r.append("::glib::value::ValueType>::Type>()");
                r
            },
        }
    }

    fn subtype_call(&self, go: &str) -> (r: String)
        ensures
            r@ == self@.subtype_call(go@),
    {
        match &self.subtype {
            Some(t) => {
                let mut r = String::from_str(".subtype::<<");
                r.append(t.text.as_str());
                r.append(" as ");
                r.append(go);
                r.append("::glib::value::ValueType>::Type>()");
                r
            },
            None => String::new(),
        }
    }

    /// Writes the property's entry in the registration table.
    pub fn create(&self, go: &str) -> (r: String)
        ensures
            r@ == self@.create(go@),
    {
        match &self.override_ {
            Some(PropertyOverride::Interface(t)) => {
                let mut r = String::from_str(go);
                r.append("::glib::ParamSpecOverride::for_interface::<");
                r.append(t.text.as_str());
                r.append(">(");
                let name = self.name_literal();
                r.append(name.as_str());
                r.append(")");
                return r;
            },
            Some(PropertyOverride::Class(t)) => {
                let mut r = String::from_str(go);
                r.append("::glib::ParamSpecOverride::for_class::<");
                r.append(t.text.as_str());
                r.append(">(");
                let name = self.name_literal();
                r.append(name.as_str());
                r.append(")");
                return r;
            },
            None => {},
        }
        let name = self.name();
        let mut r = self.builder(go);
        let type_call = self.type_call(go);
        r.append(type_call.as_str());
        let subtype_call = self.subtype_call(go);
        r.append(subtype_call.as_str());
        let calls = write_builder_calls(&self.buildable_props);
        r.append(calls.as_str());
        r.append(".build(");
        let name_lit = quoted(name.as_str());
        r.append(name_lit.as_str());
        r.append(", ");
        let nick = match &self.nick {
            Some(n) => quoted(n.value.as_str()),
            None => quoted(name.as_str()),
        };
        r.append(nick.as_str());
        r.append(", ");
        let blurb = match &self.blurb {
            Some(b) => quoted(b.value.as_str()),
            None => quoted(name.as_str()),
        };
        r.append(blurb.as_str());
        r.append(", ");
        let mut glib = String::from_str(go);
        glib.append("::glib");
        let flags = self.flags.tokens(glib.as_str(), self.get.is_allowed(), self.set.is_allowed());
        r.append(flags.as_str());
        r.append(")");
        r
    }

    /// Writes the arm for the property in the dispatch of reads by index.
    pub fn get_impl(&self, index: usize, go: &str) -> (r: Option<String>)
        requires
            self@.accessors_resolved(),
        ensures
            r.deep_view() == self@.get_impl(index as nat, go@),
    {
        if !(self.get.is_allowed() && !self.is_abstract()) {
            return None;
        }
        let mut r = index_string(index);
        r.append(" => { ");
        match &self.get {
            PropertyPermission::AllowCustom(m) => {
                r.append(go);
                r.append("::glib::ToValue::to_value(&obj.");
                r.append(m.name.as_str());
                r.append("())");
            },
            _ => {
                let field = self.field_storage(None, go);
                r.append(go);
                r.append("::ParamStoreRead::get_value(&");
                r.append(field.as_str());
                r.append(")");
            },
        }
        r.append(" }");
        proof {
            assert(r@ =~= index_literal(index as nat) + " => { "@ + self@.get_body(go@) + " }"@);
        }
        Some(r)
    }

    /// Whether the getter asks the object for the property by its name.
    pub fn reads_by_name(&self) -> (r: bool)
        ensures
            r == self@.reads_by_name(),
    {
        let custom = match &self.get {
            PropertyPermission::AllowCustom(_) => true,
            _ => false,
        };
        self.is_abstract() || custom
    }

    /// Whether a getter is generated.
    pub fn has_getter(&self) -> (r: bool)
        ensures
            r == self@.has_getter(),
    {
        if self.is_inherited() {
            return false;
        }
        match &self.get {
            PropertyPermission::Allow => true,
            PropertyPermission::AllowCustom(m) => {
                let name = self.getter_name();
                !m.is(name.as_str())
            },
            _ => false,
        }
    }

    /// Writes the getter's header.
    pub fn getter_prototype(&self, go: &str) -> (r: Option<String>)
        ensures
            r.deep_view() == self@.getter_prototype(go@),
    {
        if !self.has_getter() {
            return None;
        }
        let mut r = String::from_str("fn ");
        let name = self.getter_name();
        r.append(name.as_str());
        r.append("(&self) -> ");
        if self.reads_by_name() {
            let ty = self.inner_type(go);
            r.append(ty.as_str());
        } else {
            let mut ty = String::from_str("<");
            ty.append(self.ty.as_str());
            ty.append(" as ");
            ty.append(go);
            ty.append("::ParamStoreRead<'_>>::BorrowOrGetType");
            r.append(ty.as_str());
        }
        Some(r)
    }

    /// Writes the getter.
    pub fn getter_definition(&self, object_type: &str, go: &str) -> (r: Option<String>)
        requires
            self@.accessors_resolved(),
        ensures
            r.deep_view() == self@.getter_definition(object_type@, go@),
    {
        let mut r = match self.getter_prototype(go) {
            Some(proto) => proto,
            None => {
                return None;
            },
        };
        r.append(" { #![inline] ");
        let mut body;
        if self.reads_by_name() {
            body = String::from_str("<Self as ");
            body.append(go);
            body.append("::glib::object::ObjectExt>::property(self, ");
            let name = self.name_literal();
            body.append(name.as_str());
            body.append(")");
        } else {
            let field = self.field_storage(Some(object_type), go);
            body = String::from_str(go);
            body.append("::ParamStoreRead::borrow_or_get(&");
            body.append(field.as_str());
            body.append(")");
        }
        r.append(body.as_str());
        r.append(" }");
        Some(r)
    }

    /// Writes what the auto-generated setter does.
    pub fn inline_set_impl(&self, object_type: Option<&str>, notify: &str, go: &str) -> (r: String)
        requires
            self@.storage.has_place(),
        ensures
            r@ == self@.inline_set(object_type.deep_view(), notify@, go@),
    {
        let mut r = write_bound_assertion(">=", self.find_buildable_prop("minimum"));
        let max = write_bound_assertion("<=", self.find_buildable_prop("maximum"));
        r.append(max.as_str());
        let field = self.field_storage(object_type, go);
        let mut body;
        if self.get.is_allowed() && self.flags.contains(PropertyFlags::EXPLICIT_NOTIFY)
            && !self.flags.contains(PropertyFlags::CONSTRUCT_ONLY) {
            body = String::from_str("if ");
            body.append(go);
            body.append("::ParamStoreWriteChanged::set_owned_checked(&");
            body.append(field.as_str());
            body.append(", value) { ");
            body.append(notify);
            body.append(" }");
        } else {
            body = String::from_str(go);
            body.append("::ParamStoreWrite::set_owned(&");
            body.append(field.as_str());
            body.append(", value);");
        }
        r.append(body.as_str());
        r
    }

    /// Writes the arm for the property in the dispatch of writes by index.
    pub fn set_impl(&self, index: usize, go: &str) -> (r: Option<String>)
        requires
            self@.accessors_resolved(),
        ensures
            r.deep_view() == self@.set_impl(index as nat, go@),
    {
        if !(self.set.is_allowed() && !self.is_abstract()) {
            return None;
        }
        let mut r = index_string(index);
        r.append(" => { ");
        let mut body;
        match &self.set {
            PropertyPermission::AllowCustom(m) => {
                body = String::from_str("obj.");
                body.append(m.name.as_str());
                body.append("(value.get::<");
                let ty = self.inner_type(go);
                body.append(ty.as_str());
                body.append(">().unwrap());");
            },
            _ => {
                if self.set_inline.is_some() {
                    body = String::from_str("let value = value.get::<");
                    let ty = self.inner_type(go);
                    body.append(ty.as_str());
                    body.append(">().unwrap(); ");
                    let mut notify = String::from_str("<<Self as ");
                    notify.append(go);
                    notify.append("::glib::subclass::types::ObjectSubclass>::Type as ");
                    notify.append(go);
                    notify.append("::glib::object::ObjectExt>::notify_by_pspec(obj, pspec);");
                    let inline = self.inline_set_impl(None, notify.as_str(), go);
                    body.append(inline.as_str());
                } else {
                    let field = self.field_storage(None, go);
                    body = String::from_str(go);
                    body.append("::ParamStoreWrite::set_value(&");
                    body.append(field.as_str());
                    body.append(", &value);");
                }
            },
        }
        r.append(body.as_str());
        r.append(" }");
        Some(r)
    }

    /// Writes the setter's header.
    pub fn setter_prototype(&self, go: &str) -> (r: Option<String>)
        ensures
            r.deep_view() == self@.setter_prototype(go@),
    {
        let allowed = match &self.set {
            PropertyPermission::Allow => true,
            PropertyPermission::AllowCustom(_) => self.set_inline.is_none(),
            _ => false,
        };
        if !(allowed && !self.flags.contains(PropertyFlags::CONSTRUCT_ONLY)
            && !self.is_inherited()) {
            return None;
        }
        let mut r = String::from_str("fn ");
        let name = self.setter_name();
        r.append(name.as_str());
        r.append("(&self, value: ");
        let ty = self.inner_type(go);
        r.append(ty.as_str());
        r.append(")");
        Some(r)
    }

    /// Writes the setter.
    pub fn setter_definition(
        &self,
        index: usize,
        object_type: &str,
        properties_path: &str,
        go: &str,
    ) -> (r: Option<String>)
        requires
            self@.accessors_resolved(),
        ensures
            r.deep_view() == self@.setter_definition(
                index as nat,
                object_type@,
                properties_path@,
                go@,
            ),
    {
        let mut r = match self.setter_prototype(go) {
            Some(proto) => proto,
            None => {
                return None;
            },
        };
        r.append(" { #![inline] ");
        let body;
        if !self.is_abstract() && self.set_inline.is_some() {
            let mut notify = String::from_str("<Self as ");
            notify.append(go);
            notify.append("::glib::object::ObjectExt>::notify_by_pspec(self, &");
            notify.append(properties_path);
            notify.append("()[");
            let idx = index_string(index);
            notify.append(idx.as_str());
            notify.append("]);");
            body = self.inline_set_impl(Some(object_type), notify.as_str(), go);
        } else {
            let mut b = String::from_str("<Self as ");
            b.append(go);
            b.append("::glib::object::ObjectExt>::set_property(self, ");
            let name = self.name_literal();
            b.append(name.as_str());
            b.append(", value);");
            body = b;
        }
        r.append(body.as_str());
        r.append(" }");
        Some(r)
    }

    /// Writes the header of the method that returns the property's entry in
    /// the registration table.
    pub fn pspec_prototype(&self, glib: &str) -> (r: Option<String>)
        ensures
            r.deep_view() == self@.pspec_prototype(glib@),
    {
        let mut r = String::from_str("fn ");
        let name = self.name();
        let method = method_name("pspec_", name.as_str(), "");
        r.append(method.as_str());
        r.append("() -> &'static ");
        r.append(glib);
        r.append("::ParamSpec");
        Some(r)
    }

    /// Writes the method that returns the property's entry in the
    /// registration table.
    pub fn pspec_definition(&self, index: usize, properties_path: &str, glib: &str) -> (r: Option<
        String,
    >)
        ensures
            r.deep_view() == self@.pspec_definition(index as nat, properties_path@, glib@),
    {
        let mut r = match self.pspec_prototype(glib) {
            Some(proto) => proto,
            None => {
                return None;
            },
        };
        r.append(" { #![inline] &");
        r.append(properties_path);
        r.append("()[");
        let idx = index_string(index);
        r.append(idx.as_str());
        r.append("] }");
        Some(r)
    }

    /// Whether the property notifies of changes through generated helpers.
    pub fn notifies(&self) -> (r: bool)
        ensures
            r == self@.notifies(),
    {
        let inherits = match &self.override_ {
            Some(PropertyOverride::Class(_)) => true,
            _ => false,
        };
        !inherits && self.get.is_allowed() && !self.flags.contains(PropertyFlags::CONSTRUCT_ONLY)
    }

    /// Writes the notifier's header.
    pub fn notify_prototype(&self) -> (r: Option<String>)
        ensures
            r.deep_view() == self@.notify_prototype(),
    {
        if !(self.notifies() && self.no_notify.is_none()) {
            return None;
        }
        let mut r = String::from_str("fn ");
        let name = self.name();
        let method = method_name("notify_", name.as_str(), "");
        r.append(method.as_str());
        r.append("(&self)");
        Some(r)
    }

    /// Writes the notifier.
    pub fn notify_definition(&self, index: usize, properties_path: &str, glib: &str) -> (r: Option<
        String,
    >)
        ensures
            r.deep_view() == self@.notify_definition(index as nat, properties_path@, glib@),
    {
        let mut r = match self.notify_prototype() {
            Some(proto) => proto,
            None => {
                return None;
            },
        };
        r.append(" { #![inline] <Self as ");
        r.append(glib);
        r.append("::object::ObjectExt>::notify_by_pspec(self, &");
        r.append(properties_path);
        r.append("()[");
        let idx = index_string(index);
        r.append(idx.as_str());
        r.append("]); }");
        Some(r)
    }

    /// Writes the connect-notifier's header.
    pub fn connect_prototype(&self, glib: &str) -> (r: Option<String>)
        ensures
            r.deep_view() == self@.connect_prototype(glib@),
    {
        if !(self.notifies() && self.no_connect_notify.is_none()) {
            return None;
        }
        let mut r = String::from_str("fn ");
        let name = self.name();
        let method = method_name("connect_", name.as_str(), "_notify");
        r.append(method.as_str());
        r.append("<F: Fn(&Self) + 'static>(&self, f: F) -> ");
        r.append(glib);
        r.append("::SignalHandlerId");
        Some(r)
    }

    /// Writes the connect-notifier.
    pub fn connect_definition(&self, glib: &str) -> (r: Option<String>)
        ensures
            r.deep_view() == self@.connect_definition(glib@),
    {
        let mut r = match self.connect_prototype(glib) {
            Some(proto) => proto,
            None => {
                return None;
            },
        };
        r.append(" { #![inline] <Self as ");
        r.append(glib);
        r.append("::object::ObjectExt>::connect_notify_local(self, Some(");
        let name = self.name_literal();
        r.append(name.as_str());
        r.append("), move |recv, _| f(recv)) }");
        Some(r)
    }
}

} // verus!
