//! From member declarations to validated property descriptors.

use vstd::prelude::*;
use vstd::string::*;
use crate::attr::{entries_of, find_attr, first_attr, AttrEntry};
use crate::collections::{push_back, take_at};
use crate::diag::{Diagnostic, DiagnosticKind, SpecDiagnostic, SpecDiagnosticKind};
use crate::property::{Field, Property, PropertyStorage, SpecField, SpecProperty};
use crate::property_builder::{built_view, parse_from_attr, Built, SpecBuilt};
use crate::property_validate::validate;

verus! {

/// The member without its `property` attribute.
pub open spec fn stripped(field: SpecField) -> SpecField {
    match first_attr(field.attrs, "property"@, "property"@) {
        Some(i) => SpecField { attrs: field.attrs.remove(i), ..field },
        None => field,
    }
}

/// The validated descriptor of a member: built from its `property`
/// attribute where it has one, else the default of its context.
pub open spec fn parse_field(field: SpecField, pod: bool, iface: bool, methods: Seq<Seq<char>>) -> SpecBuilt {
    let built = match first_attr(field.attrs, "property"@, "property"@) {
        Some(i) => parse_from_attr(entries_of(field.attrs[i]), field, pod, iface),
        None => Ok(SpecProperty::new(field, pod, iface)),
    };
    match built {
        Err(d) => Err(d),
        Ok(p) => validate(p, methods),
    }
}

/// Whether one of the properties has the given name.
pub open spec fn has_property_named(props: Seq<SpecProperty>, name: Seq<char>) -> bool {
    exists|i: int| 0 <= i < props.len() && (#[trigger] props[i]).name() == name
}

/// What a list of members gives: the properties that are valid, and the
/// diagnostics of the members that are not.
pub ghost struct FieldsRead {
    pub properties: Seq<SpecProperty>,
    pub diagnostics: Seq<SpecDiagnostic>,
}

/// The members read in their order. A member that is no property gives
/// none. A member that fails gives its diagnostic, and the members behind it
/// are read all the same. A name that an earlier property has is refused.
pub open spec fn read_fields(
    fields: Seq<SpecField>,
    pod: bool,
    iface: bool,
    methods: Seq<Seq<char>>,
) -> FieldsRead
    decreases fields.len(),
{
    if fields.len() == 0 {
        FieldsRead { properties: Seq::empty(), diagnostics: Seq::empty() }
    } else {
        let read = read_fields(fields.drop_last(), pod, iface, methods);
        match parse_field(fields.last(), pod, iface, methods) {
            Err(d) => FieldsRead { diagnostics: read.diagnostics.push(d), ..read },
            Ok(p) => if p.skip {
                read
            } else if has_property_named(read.properties, p.name()) {
                FieldsRead {
                    diagnostics: read.diagnostics.push(
                        SpecDiagnostic {
                            kind: SpecDiagnosticKind::DuplicatePropertyDefinition(p.name()),
                            span: p.name_span(),
                        },
                    ),
                    ..read
                }
            } else {
                FieldsRead { properties: read.properties.push(p), ..read }
            },
        }
    }
}

/// The outcome of reading a list of members: the properties, or the
/// diagnostics of all members that failed.
pub type SpecProperties = Result<Seq<SpecProperty>, Seq<SpecDiagnostic>>;

/// The properties of a list of members, in the order of the members, where
/// every member is valid; else the diagnostics, one for each member that is
/// not, in the order of the members.
pub open spec fn from_fields(
    fields: Seq<SpecField>,
    pod: bool,
    iface: bool,
    methods: Seq<Seq<char>>,
) -> SpecProperties {
    let read = read_fields(fields, pod, iface, methods);
    if read.diagnostics.len() == 0 {
        Ok(read.properties)
    } else {
        Err(read.diagnostics)
    }
}

/// Whether the member stays a field of the type: it does unless it is a
/// property whose value lives elsewhere.
pub open spec fn keeps_field(field: SpecField, pod: bool, iface: bool, methods: Seq<Seq<char>>) -> bool {
    match parse_field(field, pod, iface, methods) {
        Ok(p) => p.skip || p.storage is Field,
        Err(_) => true,
    }
}

/// The members that stay fields of the type, each without its `property`
/// attribute, in their order.
pub open spec fn kept_fields(
    fields: Seq<SpecField>,
    pod: bool,
    iface: bool,
    methods: Seq<Seq<char>>,
) -> Seq<SpecField>
    decreases fields.len(),
{
    if fields.len() == 0 {
        Seq::empty()
    } else {
        let rest = kept_fields(fields.drop_last(), pod, iface, methods);
        if keeps_field(fields.last(), pod, iface, methods) {
            rest.push(stripped(fields.last()))
        } else {
            rest
        }
    }
}

/// The mathematical value of the outcome of reading a list of members.
pub open spec fn properties_view(r: Result<Vec<Property>, Vec<Diagnostic>>) -> SpecProperties {
    match r {
        Ok(props) => Ok(props.deep_view()),
        Err(d) => Err(d.deep_view()),
    }
}

/// Whether one of the properties has the given name.
pub fn is_property_named(props: &Vec<Property>, name: &str) -> (r: bool)
    ensures
        r == has_property_named(props.deep_view(), name@),
{
    let mut i: usize = 0;
    while i < props.len()
        invariant
            i <= props.len(),
            forall|j: int| 0 <= j < i ==> (#[trigger] props.deep_view()[j]).name() != name@,
        decreases props.len() - i,
    {
        let other = props[i].name();
        if crate::text::str_eq(other.as_str(), name) {
            assert(props.deep_view()[i as int].name() == name@);
            return true;
        }
        i += 1;
    }
    false
}

impl Property {
    /// Builds and validates the descriptor of a member, and takes the
    /// `property` attribute off the member. `methods` holds the names of
    /// the methods that the type supplies.
    pub fn parse(field: &mut Field, pod: bool, iface: bool, methods: &Vec<String>) -> (r: Built)
        ensures
            built_view(r) == parse_field(old(field)@, pod, iface, methods.deep_view()),
            final(field)@ == stripped(old(field)@),
            r matches Ok(p) ==> p@.wf(),
    {
        let built = match find_attr(&field.attrs, "property", "property") {
            Some(pos) => {
                let ghost before = field.attrs.deep_view();
                let attr = field.attrs.remove(pos);
                proof {
                    assert(field.attrs.deep_view() =~= before.remove(pos as int));
                    assert(attr@ == before[pos as int]);
                }
                match &attr.args {
                    Some(entries) => {
                        let r = Property::parse_from_attr(entries, field, pod, iface);
                        proof {
                            lemma_field_attrs_unread(
                                entries.deep_view(),
                                field@,
                                old(field)@,
                                pod,
                                iface,
                            );
                        }
                        r
                    },
                    None => {
                        let entries: Vec<AttrEntry> = Vec::new();
                        assert(entries.deep_view() =~= Seq::empty());
                        let r = Property::parse_from_attr(&entries, field, pod, iface);
                        proof {
                            lemma_field_attrs_unread(
                                entries.deep_view(),
                                field@,
                                old(field)@,
                                pod,
                                iface,
                            );
                        }
                        r
                    },
                }
            },
            None => Ok(Property::new(field, pod, iface)),
        };
        match built {
            Err(d) => Err(d),
            Ok(p) => p.validate(methods),
        }
    }

    /// Reads the properties of a list of members, in their order, and
    /// gathers the diagnostics of all members that fail. Each member loses
    /// its `property` attribute, and a member whose property lives
    /// elsewhere than in the field leaves the list.
    pub fn from_struct(fields: &mut Vec<Field>, pod: bool, iface: bool, methods: &Vec<String>) -> (r:
        Result<Vec<Property>, Vec<Diagnostic>>)
        ensures
            properties_view(r) == from_fields(
                old(fields).deep_view(),
                pod,
                iface,
                methods.deep_view(),
            ),
            final(fields).deep_view() == kept_fields(
                old(fields).deep_view(),
                pod,
                iface,
                methods.deep_view(),
            ),
            r matches Ok(props) ==> forall|i: int|
                0 <= i < props.len() ==> (#[trigger] props[i])@.wf() && !props[i]@.skip,
    {
        let ghost all = fields.deep_view();
        let mut taken: Vec<Field> = Vec::new();
        std::mem::swap(fields, &mut taken);
        let n = taken.len();
        let mut kept: Vec<Field> = Vec::new();
        let mut properties: Vec<Property> = Vec::new();
        let mut diagnostics: Vec<Diagnostic> = Vec::new();
        let mut i: usize = 0;
        proof {
            assert(all.take(0) =~= Seq::empty());
            assert(kept.deep_view() =~= Seq::empty());
            assert(properties.deep_view() =~= Seq::empty());
            assert(diagnostics.deep_view() =~= Seq::empty());
            assert(taken.deep_view().skip(0) =~= taken.deep_view());
        }
        while i < n
            invariant
                i <= n,
                n == all.len(),
                all == old(fields).deep_view(),
                taken.len() == n - i,
                taken.deep_view() == all.skip(i as int),
                read_fields(all.take(i as int), pod, iface, methods.deep_view()) == (FieldsRead {
                    properties: properties.deep_view(),
                    diagnostics: diagnostics.deep_view(),
                }),
                kept.deep_view() == kept_fields(all.take(i as int), pod, iface, methods.deep_view()),
                forall|j: int|
                    0 <= j < properties.len() ==> (#[trigger] properties[j])@.wf()
                        && !properties[j]@.skip,
            decreases n - i,
        {
            proof {
                assert(all.take(i + 1).drop_last() =~= all.take(i as int));
                assert(all.take(i + 1).last() == all[i as int]);
                assert(taken.deep_view()[0] == all[i as int]);
            }
            let mut field = take_at(&mut taken, 0);
            proof {
                assert(all.skip(i as int).remove(0) =~= all.skip(i + 1));
            }
            let mut keep = true;
            match Property::parse(&mut field, pod, iface, methods) {
                Err(d) => {
                    push_back(&mut diagnostics, d);
                },
                Ok(prop) => {
                    if !prop.skip {
                        keep = match &prop.storage {
                            PropertyStorage::Field(_) => true,
                            _ => false,
                        };
                        let name = prop.name();
                        if is_property_named(&properties, name.as_str()) {
                            push_back(
                                &mut diagnostics,
                                Diagnostic::new(
                                    DiagnosticKind::DuplicatePropertyDefinition(name),
                                    prop.name_span(),
                                ),
                            );
                        } else {
                            let ghost before = properties@;
                            push_back(&mut properties, prop);
                            proof {
                                assert(properties@ == before.push(prop));
                            }
                        }
                    }
                },
            }
            if keep {
                push_back(&mut kept, field);
            }
            i += 1;
        }
        proof {
            assert(all.take(n as int) =~= all);
        }
        *fields = kept;
        if diagnostics.len() == 0 {
            Ok(properties)
        } else {
            Err(diagnostics)
        }
    }
}

/// A member's attributes have no part in the descriptor that its attribute
/// list makes.
pub proof fn lemma_field_attrs_unread(
    entries: Seq<crate::attr::SpecAttrEntry>,
    a: SpecField,
    b: SpecField,
    pod: bool,
    iface: bool,
)
    requires
        a.ident == b.ident,
        a.ty == b.ty,
        a.span == b.span,
    ensures
        parse_from_attr(entries, a, pod, iface) == parse_from_attr(entries, b, pod, iface),
        SpecProperty::new(a, pod, iface) == SpecProperty::new(b, pod, iface),
{
}

} // verus!
