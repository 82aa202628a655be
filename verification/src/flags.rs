//! The flag sets of properties and signals.

use vstd::prelude::*;
use vstd::string::*;

verus! {

/// Whether every bit of `flag` is set in `bits`.
pub open spec fn has_bits(bits: u32, flag: u32) -> bool {
    bits & flag == flag
}

/// Setting the bits of a flag makes that flag contained and changes no flag
/// that shares no bit with it.
pub proof fn lemma_set_bits(bits: u32, flag: u32, other: u32)
    ensures
        has_bits(bits | flag, flag),
        has_bits(bits, other) ==> has_bits(bits | flag, other),
        other & flag == 0 ==> (has_bits(bits | flag, other) <==> has_bits(bits, other)),
{
    assert((bits | flag) & flag == flag) by (bit_vector);
    assert(bits & other == other ==> (bits | flag) & other == other) by (bit_vector);
    assert(other & flag == 0 ==> ((bits | flag) & other == other <==> bits & other == other))
        by (bit_vector);
}

/// The flags that a property declares, as bits.
#[derive(Clone, Copy, Debug, PartialEq, Eq, Structural)]
pub struct PropertyFlags {
    pub bits: u32,
}

impl PropertyFlags {
    pub const READABLE: u32 = 0x1;

    pub const WRITABLE: u32 = 0x2;

    pub const CONSTRUCT: u32 = 0x4;

    pub const CONSTRUCT_ONLY: u32 = 0x8;

    pub const LAX_VALIDATION: u32 = 0x10;

    pub const EXPLICIT_NOTIFY: u32 = 0x4000_0000;

    pub const DEPRECATED: u32 = 0x8000_0000;

    /// Whether the set holds every bit of `flag`.
    pub open spec fn has(self, flag: u32) -> bool {
        has_bits(self.bits, flag)
    }

    /// The set without any flag.
    pub fn empty() -> (r: PropertyFlags)
        ensures
            r.bits == 0,
    {
        PropertyFlags { bits: 0 }
    }

    /// The bits of the set.
    pub fn bits(&self) -> (r: u32)
        ensures
            r == self.bits,
    {
        self.bits
    }

    /// Whether the set holds no flag.
    pub fn is_empty(&self) -> (r: bool)
        ensures
            r == (self.bits == 0),
    {
        self.bits == 0
    }

    /// Whether the set holds every bit of `flag`.
    pub fn contains(&self, flag: u32) -> (r: bool)
        ensures
            r == self.has(flag),
    {
        self.bits & flag == flag
    }

    /// Adds the bits of `flag` to the set.
    pub fn insert(&mut self, flag: u32)
        ensures
            final(self).bits == old(self).bits | flag,
            final(self).has(flag),
            forall|other: u32| old(self).has(other) ==> #[trigger] final(self).has(other),
            forall|other: u32|
                other & flag == 0 ==> (#[trigger] final(self).has(other) <==> old(self).has(other)),
    {
        proof {
            assert forall|other: u32|
                (has_bits(self.bits, other) ==> #[trigger] has_bits(self.bits | flag, other)) && (
                other & flag == 0 ==> (has_bits(self.bits | flag, other) <==> has_bits(
                    self.bits,
                    other,
                ))) by {
                lemma_set_bits(self.bits, flag, other);
            }
            lemma_set_bits(self.bits, flag, flag);
        }
        self.bits = self.bits | flag;
    }

    /// The bits of the flag that the keyword `name` declares.
    pub open spec fn keyword_bits(name: Seq<char>) -> Option<u32> {
        if name == "construct"@ {
            Some(Self::CONSTRUCT)
        } else if name == "construct_only"@ {
            Some(Self::CONSTRUCT_ONLY)
        } else if name == "lax_validation"@ {
            Some(Self::LAX_VALIDATION)
        } else if name == "explicit_notify"@ {
            Some(Self::EXPLICIT_NOTIFY)
        } else if name == "deprecated"@ {
            Some(Self::DEPRECATED)
        } else {
            None
        }
    }

    /// The flag that a keyword declares, if it declares one.
    pub fn from_ident(name: &str) -> (r: Option<u32>)
        ensures
            r == Self::keyword_bits(name@),
    {
        if crate::text::str_eq(name, "construct") {
            Some(Self::CONSTRUCT)
        } else if crate::text::str_eq(name, "construct_only") {
            Some(Self::CONSTRUCT_ONLY)
        } else if crate::text::str_eq(name, "lax_validation") {
            Some(Self::LAX_VALIDATION)
        } else if crate::text::str_eq(name, "explicit_notify") {
            Some(Self::EXPLICIT_NOTIFY)
        } else if crate::text::str_eq(name, "deprecated") {
            Some(Self::DEPRECATED)
        } else {
            None
        }
    }

    /// The flags that a property can carry, by rising bit, each with its
    /// name.
    pub open spec fn table() -> Seq<(u32, Seq<char>)> {
        seq![
            (Self::READABLE, "READABLE"@),
            (Self::WRITABLE, "WRITABLE"@),
            (Self::CONSTRUCT, "CONSTRUCT"@),
            (Self::CONSTRUCT_ONLY, "CONSTRUCT_ONLY"@),
            (Self::LAX_VALIDATION, "LAX_VALIDATION"@),
            (Self::EXPLICIT_NOTIFY, "EXPLICIT_NOTIFY"@),
            (Self::DEPRECATED, "DEPRECATED"@),
        ]
    }

    /// The names of the flags that a registration entry carries, in the order
    /// in which they are written: the two permissions, then the set's flags
    /// by rising bit.
    pub open spec fn names(self, readable: bool, writable: bool) -> Seq<Seq<char>> {
        (if readable {
            seq!["READABLE"@]
        } else {
            seq![]
        }) + (if writable {
            seq!["WRITABLE"@]
        } else {
            seq![]
        }) + selected_names(self.bits, Self::table())
    }

    /// The expression for the flags of a registration entry: the flags'
    /// paths joined by `|`, or the empty set.
    pub open spec fn tokens_text(
        self,
        glib: Seq<char>,
        readable: bool,
        writable: bool,
    ) -> Seq<char> {
        flags_expr(glib + "::ParamFlags::"@, self.names(readable, writable))
    }

    /// Writes the expression for the flags of a registration entry.
    pub fn tokens(&self, glib: &str, readable: bool, writable: bool) -> (r: String)
        ensures
            r@ == self.tokens_text(glib@, readable, writable),
    {
        let mut names: Vec<&'static str> = Vec::new();
        if readable {
            names.push("READABLE");
        }
        if writable {
            names.push("WRITABLE");
        }
        let table: Vec<(u32, &'static str)> = vec![
            (Self::READABLE, "READABLE"),
            (Self::WRITABLE, "WRITABLE"),
            (Self::CONSTRUCT, "CONSTRUCT"),
            (Self::CONSTRUCT_ONLY, "CONSTRUCT_ONLY"),
            (Self::LAX_VALIDATION, "LAX_VALIDATION"),
            (Self::EXPLICIT_NOTIFY, "EXPLICIT_NOTIFY"),
            (Self::DEPRECATED, "DEPRECATED"),
        ];
        assert(table.deep_view() =~= Self::table());
        let ghost head = names.deep_view();
        assert(head =~= (if readable {
            seq!["READABLE"@]
        } else {
            seq![]
        }) + (if writable {
            seq!["WRITABLE"@]
        } else {
            seq![]
        }));
        select_names(self.bits, &table, &mut names);
        let mut prefix = String::from_str(glib);
        prefix.append("::ParamFlags::");
        write_flags(prefix.as_str(), &names)
    }
}

/// The names of those flags of the table, in its order, whose bits are all
/// set in `bits`.
pub open spec fn selected_names(bits: u32, table: Seq<(u32, Seq<char>)>) -> Seq<Seq<char>>
    decreases table.len(),
{
    if table.len() == 0 {
        seq![]
    } else {
        let rest = selected_names(bits, table.drop_last());
        if has_bits(bits, table.last().0) {
            rest.push(table.last().1)
        } else {
            rest
        }
    }
}

/// Appends to `names` the names of those flags of the table whose bits are
/// all set in `bits`.
pub fn select_names(bits: u32, table: &Vec<(u32, &'static str)>, names: &mut Vec<&'static str>)
    ensures
        final(names).deep_view() == old(names).deep_view() + selected_names(
            bits,
            table.deep_view(),
        ),
{
    let ghost head = names.deep_view();
    let mut i: usize = 0;
    assert(table.deep_view().take(0) =~= Seq::empty());
    assert(names.deep_view() =~= head + selected_names(bits, table.deep_view().take(0)));
    while i < table.len()
        invariant
            i <= table.len(),
            names.deep_view() == head + selected_names(bits, table.deep_view().take(i as int)),
        decreases table.len() - i,
    {
        let ghost before = names.deep_view();
        let ghost sel = selected_names(bits, table.deep_view().take(i as int));
        proof {
            assert(table.deep_view().take(i + 1).drop_last() =~= table.deep_view().take(i as int));
            assert(table.deep_view().take(i + 1).last() == (table[i as int].0, table[i as int].1@));
        }
        let (flag, name) = table[i];
        if bits & flag == flag {
            names.push(name);
            assert(names.deep_view() =~= before.push(name@));
            assert(before.push(name@) =~= head + sel.push(name@));
        }
        i += 1;
    }
    assert(table.deep_view().take(table.len() as int) =~= table.deep_view());
}

/// Each name behind the prefix.
pub open spec fn prefixed(prefix: Seq<char>, names: Seq<Seq<char>>) -> Seq<Seq<char>> {
    Seq::new(names.len(), |i: int| prefix + names[i])
}

/// The expression for a set of flags: the flags' paths joined by `|`, or the
/// call that makes the empty set.
pub open spec fn flags_expr(prefix: Seq<char>, names: Seq<Seq<char>>) -> Seq<char> {
    if names.len() == 0 {
        prefix + "empty()"@
    } else {
        crate::text::join_with(prefixed(prefix, names), " | "@)
    }
}

/// Writes the expression for a set of flags.
pub fn write_flags(prefix: &str, names: &Vec<&'static str>) -> (r: String)
    ensures
        r@ == flags_expr(prefix@, names.deep_view()),
{
    if names.len() == 0 {
        let mut r = String::from_str(prefix);
        r.append("empty()");
        return r;
    }
    let mut paths: Vec<String> = Vec::new();
    let mut i: usize = 0;
    while i < names.len()
        invariant
            i <= names.len(),
            paths.len() == i,
            forall|j: int| 0 <= j < i ==> (#[trigger] paths[j])@ == prefix@ + names[j]@,
        decreases names.len() - i,
    {
        let mut p = String::from_str(prefix);
        p.append(names[i]);
        paths.push(p);
        i += 1;
    }
    assert(paths.deep_view() =~= prefixed(prefix@, names.deep_view()));
    crate::text::join(&paths, " | ")
}

/// The flags that a signal declares, as bits.
#[derive(Clone, Copy, Debug, PartialEq, Eq, Structural)]
pub struct SignalFlags {
    pub bits: u32,
}

impl SignalFlags {
    pub const RUN_FIRST: u32 = 0x1;

    pub const RUN_LAST: u32 = 0x2;

    pub const RUN_CLEANUP: u32 = 0x4;

    pub const NO_RECURSE: u32 = 0x8;

    pub const DETAILED: u32 = 0x10;

    pub const ACTION: u32 = 0x20;

    pub const NO_HOOKS: u32 = 0x40;

    pub const MUST_COLLECT: u32 = 0x80;

    pub const DEPRECATED: u32 = 0x100;

    pub const ACCUMULATOR_FIRST_RUN: u32 = 0x2_0000;

    /// Whether the set holds every bit of `flag`.
    pub open spec fn has(self, flag: u32) -> bool {
        has_bits(self.bits, flag)
    }

    /// The set without any flag.
    pub fn empty() -> (r: SignalFlags)
        ensures
            r.bits == 0,
    {
        SignalFlags { bits: 0 }
    }

    /// The bits of the set.
    pub fn bits(&self) -> (r: u32)
        ensures
            r == self.bits,
    {
        self.bits
    }

    /// Whether the set holds no flag.
    pub fn is_empty(&self) -> (r: bool)
        ensures
            r == (self.bits == 0),
    {
        self.bits == 0
    }

    /// Whether the set holds every bit of `flag`.
    pub fn contains(&self, flag: u32) -> (r: bool)
        ensures
            r == self.has(flag),
    {
        self.bits & flag == flag
    }

    /// Adds the bits of `flag` to the set.
    pub fn insert(&mut self, flag: u32)
        ensures
            final(self).bits == old(self).bits | flag,
            final(self).has(flag),
            forall|other: u32| old(self).has(other) ==> #[trigger] final(self).has(other),
            forall|other: u32|
                other & flag == 0 ==> (#[trigger] final(self).has(other) <==> old(self).has(other)),
    {
        proof {
            assert forall|other: u32|
                (has_bits(self.bits, other) ==> #[trigger] has_bits(self.bits | flag, other)) && (
                other & flag == 0 ==> (has_bits(self.bits | flag, other) <==> has_bits(
                    self.bits,
                    other,
                ))) by {
                lemma_set_bits(self.bits, flag, other);
            }
            lemma_set_bits(self.bits, flag, flag);
        }
        self.bits = self.bits | flag;
    }

    /// The bits of the flag that the keyword `name` declares.
    pub open spec fn keyword_bits(name: Seq<char>) -> Option<u32> {
        if name == "run_first"@ {
            Some(Self::RUN_FIRST)
        } else if name == "run_last"@ {
            Some(Self::RUN_LAST)
        } else if name == "run_cleanup"@ {
            Some(Self::RUN_CLEANUP)
        } else if name == "no_recurse"@ {
            Some(Self::NO_RECURSE)
        } else if name == "detailed"@ {
            Some(Self::DETAILED)
        } else if name == "action"@ {
            Some(Self::ACTION)
        } else if name == "no_hooks"@ {
            Some(Self::NO_HOOKS)
        } else if name == "must_collect"@ {
            Some(Self::MUST_COLLECT)
        } else if name == "deprecated"@ {
            Some(Self::DEPRECATED)
        } else if name == "accumulator_first_run"@ {
            Some(Self::ACCUMULATOR_FIRST_RUN)
        } else {
            None
        }
    }

    /// The flag that a keyword declares, if it declares one.
    pub fn from_ident(name: &str) -> (r: Option<u32>)
        ensures
            r == Self::keyword_bits(name@),
    {
        if crate::text::str_eq(name, "run_first") {
            Some(Self::RUN_FIRST)
        } else if crate::text::str_eq(name, "run_last") {
            Some(Self::RUN_LAST)
        } else if crate::text::str_eq(name, "run_cleanup") {
            Some(Self::RUN_CLEANUP)
        } else if crate::text::str_eq(name, "no_recurse") {
            Some(Self::NO_RECURSE)
        } else if crate::text::str_eq(name, "detailed") {
            Some(Self::DETAILED)
        } else if crate::text::str_eq(name, "action") {
            Some(Self::ACTION)
        } else if crate::text::str_eq(name, "no_hooks") {
            Some(Self::NO_HOOKS)
        } else if crate::text::str_eq(name, "must_collect") {
            Some(Self::MUST_COLLECT)
        } else if crate::text::str_eq(name, "deprecated") {
            Some(Self::DEPRECATED)
        } else if crate::text::str_eq(name, "accumulator_first_run") {
            Some(Self::ACCUMULATOR_FIRST_RUN)
        } else {
            None
        }
    }

    /// The flags that a signal can carry, by rising bit, each with its name.
    pub open spec fn table() -> Seq<(u32, Seq<char>)> {
        seq![
            (Self::RUN_FIRST, "RUN_FIRST"@),
            (Self::RUN_LAST, "RUN_LAST"@),
            (Self::RUN_CLEANUP, "RUN_CLEANUP"@),
            (Self::NO_RECURSE, "NO_RECURSE"@),
            (Self::DETAILED, "DETAILED"@),
            (Self::ACTION, "ACTION"@),
            (Self::NO_HOOKS, "NO_HOOKS"@),
            (Self::MUST_COLLECT, "MUST_COLLECT"@),
            (Self::DEPRECATED, "DEPRECATED"@),
            (Self::ACCUMULATOR_FIRST_RUN, "ACCUMULATOR_FIRST_RUN"@),
        ]
    }

    /// The names of the set's flags, by rising bit.
    pub open spec fn names(self) -> Seq<Seq<char>> {
        selected_names(self.bits, Self::table())
    }

    /// The expression for the flags of a signal: the flags' paths joined by
    /// `|`, or the empty set.
    pub open spec fn tokens_text(self, glib: Seq<char>) -> Seq<char> {
        flags_expr(glib + "::SignalFlags::"@, self.names())
    }

    /// Writes the expression for the flags of a signal.
    pub fn tokens(&self, glib: &str) -> (r: String)
        ensures
            r@ == self.tokens_text(glib@),
    {
        let mut names: Vec<&'static str> = Vec::new();
        let table: Vec<(u32, &'static str)> = vec![
            (Self::RUN_FIRST, "RUN_FIRST"),
            (Self::RUN_LAST, "RUN_LAST"),
            (Self::RUN_CLEANUP, "RUN_CLEANUP"),
            (Self::NO_RECURSE, "NO_RECURSE"),
            (Self::DETAILED, "DETAILED"),
            (Self::ACTION, "ACTION"),
            (Self::NO_HOOKS, "NO_HOOKS"),
            (Self::MUST_COLLECT, "MUST_COLLECT"),
            (Self::DEPRECATED, "DEPRECATED"),
            (Self::ACCUMULATOR_FIRST_RUN, "ACCUMULATOR_FIRST_RUN"),
        ];
        assert(table.deep_view() =~= Self::table());
        assert(names.deep_view() =~= Seq::<Seq<char>>::empty());
        select_names(self.bits, &table, &mut names);
        assert(names.deep_view() =~= self.names());
        let mut prefix = String::from_str(glib);
        prefix.append("::SignalFlags::");
        write_flags(prefix.as_str(), &names)
    }
}

} // verus!
