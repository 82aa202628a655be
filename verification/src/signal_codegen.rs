//! The code that a signal descriptor generates: its entry in the
//! registration table, the method that returns that entry, and the methods
//! that emit the signal and connect to it.

use vstd::prelude::*;
use vstd::string::*;
use crate::flags::SignalFlags;
use crate::names::{method_name, method_name_text};
use crate::signal::{FnArg, Method, Signal, SpecFnArg, SpecMethod, SpecSignal};
use crate::text::{
    concat, concat_all, concat_prefixed, decimal, decimal_string, index_literal, index_string,
    join, join_with, quoted, string_literal, write_prefixed,
};

verus! {

/// The name under which generated code binds the argument at a position.
pub open spec fn arg_name(i: nat) -> Seq<char> {
    "arg"@ + decimal(i)
}

/// Writes the name under which generated code binds the argument at a
/// position.
pub fn write_arg_name(i: usize) -> (r: String)
    ensures
        r@ == arg_name(i as nat),
{
    let mut r = String::from_str("arg");
    let d = decimal_string(i);
    r.append(d.as_str());
    r
}

/// The type of a parameter; that of a receiver is `Self`.
pub open spec fn arg_type(arg: SpecFnArg) -> Seq<char> {
    match arg {
        SpecFnArg::Typed(t) => t.ty,
        SpecFnArg::Receiver(_) => "Self"@,
    }
}

/// A parameter as it is written.
pub open spec fn arg_text(arg: SpecFnArg) -> Seq<char> {
    match arg {
        SpecFnArg::Typed(t) => t.pat + ": "@ + t.ty,
        SpecFnArg::Receiver(r) => r,
    }
}

/// The parameter of the emitting method for a parameter of the handler: the
/// handler's own where it binds an identifier, else one named by its
/// position.
pub open spec fn emit_arg_def(arg: SpecFnArg, i: nat) -> Seq<char> {
    match arg {
        SpecFnArg::Typed(t) => (if t.ident is Some {
            t.pat
        } else {
            arg_name(i)
        }) + ": "@ + t.ty,
        SpecFnArg::Receiver(r) => r,
    }
}

/// The name by which the emitting method refers to a parameter.
pub open spec fn emit_arg_name(arg: SpecFnArg, i: nat) -> Seq<char> {
    match arg {
        SpecFnArg::Typed(t) => match t.ident {
            Some(id) => id,
            None => arg_name(i),
        },
        SpecFnArg::Receiver(_) => "self"@,
    }
}

/// The return type behind its arrow; nothing where no value is returned.
pub open spec fn arrow(output: Option<Seq<char>>) -> Seq<char> {
    match output {
        Some(t) => " -> "@ + t,
        None => Seq::empty(),
    }
}

/// The expression for the type of a signal's parameter or result.
pub open spec fn static_type(ty: Seq<char>, glib: Seq<char>) -> Seq<char> {
    "<"@ + glib + "::subclass::SignalType as ::core::convert::From<"@ + glib + "::Type>>::from(<"@
        + ty + " as "@ + glib + "::types::StaticType>::static_type())"@
}

/// The parameter through which a caller addresses a detail of a signal.
pub open spec fn detail_param(name: Seq<char>, glib: Seq<char>) -> Seq<char> {
    name + ": ::std::option::Option<"@ + glib + "::Quark>"@
}

/// The parameters of a method as they are written, separated by commas.
pub open spec fn method_text(m: SpecMethod) -> Seq<char> {
    "fn "@ + m.ident.name + "("@ + join_with(
        Seq::new(m.inputs.len(), |i: int| arg_text(m.inputs[i])),
        ", "@,
    ) + ")"@ + arrow(m.output) + " "@ + m.block
}

/// The statements that take one argument out of the values that a signal
/// hands to a closure. The receiver has the type of the object where the
/// closure runs on the implementation, and is then replaced by the
/// implementation behind it.
pub open spec fn arg_unwrap(
    arg: SpecFnArg,
    i: nat,
    self_ty: Option<Seq<char>>,
    object_type: Option<Seq<char>>,
    imp: bool,
    glib: Seq<char>,
) -> Seq<char> {
    let own = match self_ty {
        Some(t) => t,
        None => "Self"@,
    };
    let ty = match arg {
        SpecFnArg::Typed(t) => t.ty,
        SpecFnArg::Receiver(_) => if imp {
            match object_type {
                Some(t) => t,
                None => "<"@ + own + " as "@ + glib + "::subclass::types::ObjectSubclass>::Type"@,
            }
        } else {
            own
        },
    };
    "let "@ + arg_name(i) + " = args["@ + index_literal(i) + "].get::<"@ + ty
        + ">().unwrap_or_else(|e| { panic!(\"Wrong type for argument "@ + decimal(i)
        + ": {:?}\", e) }); "@ + (match arg {
        SpecFnArg::Receiver(_) => "let "@ + arg_name(i) + " = "@ + glib
            + "::subclass::prelude::ObjectSubclassIsExt::imp(&"@ + arg_name(i) + "); "@,
        SpecFnArg::Typed(_) => Seq::empty(),
    })
}

impl SpecSignal {
    /// The handler's parameters.
    pub open spec fn inputs(self) -> Seq<SpecFnArg> {
        self.handler->0.inputs
    }

    /// The handler's parameters behind the first, which is the receiver.
    pub open spec fn params(self) -> Seq<SpecFnArg> {
        if self.inputs().len() == 0 {
            Seq::empty()
        } else {
            self.inputs().skip(1)
        }
    }

    /// Whether the signal addresses details.
    pub open spec fn detailed(self) -> bool {
        self.flags.has(SignalFlags::DETAILED)
    }

    /// The statements that take the arguments from position `from` on out
    /// of the values that a signal hands to a closure.
    pub open spec fn args_unwrap(
        self,
        from: nat,
        self_ty: Option<Seq<char>>,
        object_type: Option<Seq<char>>,
        imp: bool,
        glib: Seq<char>,
    ) -> Seq<char> {
        concat_all(
            Seq::new(
                (self.inputs().len() - from) as nat,
                |i: int|
                    arg_unwrap(
                        self.inputs()[from + i],
                        (from + i) as nat,
                        self_ty,
                        object_type,
                        imp,
                        glib,
                    ),
            ),
        )
    }

    /// The names under which the arguments from position `from` on are
    /// bound.
    pub open spec fn arg_names(self, from: nat) -> Seq<Seq<char>> {
        Seq::new((self.inputs().len() - from) as nat, |i: int| arg_name((from + i) as nat))
    }

    /// The statement that gives the signal its flags; none where it has no
    /// flag.
    pub open spec fn flags_statement(self, glib: Seq<char>) -> Seq<char> {
        if self.flags.bits == 0 {
            Seq::empty()
        } else {
            "let builder = builder.flags("@ + self.flags.tokens_text(glib) + "); "@
        }
    }

    /// The statement that registers the class handler; none where the
    /// handler's body is empty.
    pub open spec fn class_handler_statement(
        self,
        self_ty: Seq<char>,
        object_type: Option<Seq<char>>,
        glib: Seq<char>,
    ) -> Seq<char> {
        if self.handler->0.is_empty {
            Seq::empty()
        } else {
            "let builder = builder.class_handler(|_, args| { "@ + self.args_unwrap(
                0,
                Some(self_ty),
                object_type,
                true,
                glib,
            ) + "let ret = "@ + self_ty + "::"@ + self.handler->0.ident.name + "("@ + join_with(
                self.arg_names(0),
                ", "@,
            ) + "); "@ + glib
                + "::closure::ToClosureReturnValue::to_closure_return_value(&ret) }); "@
        }
    }

    /// The arguments that the accumulator is called with: the hint too
    /// where it declares more than the two values.
    pub open spec fn accumulator_args(m: SpecMethod) -> Seq<char> {
        if m.inputs.len() == 2 {
            "acc, value"@
        } else {
            "hint, acc, value"@
        }
    }

    /// The statement that registers the accumulator; none where the signal
    /// has none.
    pub open spec fn accumulator_statement(self) -> Seq<char> {
        match self.accumulator {
            Some(m) => "let builder = builder.accumulator(|hint, acc, value| { "@ + method_text(m)
                + " "@ + m.ident.name + "("@ + Self::accumulator_args(m) + ") }); "@,
            None => Seq::empty(),
        }
    }

    /// The type of the value that the signal returns.
    pub open spec fn output_type(self) -> Seq<char> {
        match self.handler->0.output {
            Some(t) => t,
            None => "()"@,
        }
    }

    /// The signal's entry in the registration table: built from its name,
    /// the types of its parameters and of its result, its flags, its class
    /// handler and its accumulator.
    pub open spec fn create(
        self,
        self_ty: Seq<char>,
        object_type: Option<Seq<char>>,
        glib: Seq<char>,
    ) -> Seq<char> {
        "{ let param_types = ["@ + join_with(
            Seq::new(self.params().len(), |i: int| static_type(arg_type(self.params()[i]), glib)),
            ", "@,
        ) + "]; let builder = "@ + glib + "::subclass::Signal::builder("@ + string_literal(
            self.name,
        ) + ", &param_types, "@ + static_type(self.output_type(), glib) + "); "@
            + self.flags_statement(glib) + self.class_handler_statement(
            self_ty,
            object_type,
            glib,
        ) + self.accumulator_statement() + "builder.build() }"@
    }

    /// The class handler as a method of the type; none where its body is
    /// empty.
    pub open spec fn handler_definition(self) -> Option<Seq<char>> {
        if self.handler->0.is_empty {
            None
        } else {
            Some(method_text(self.handler->0))
        }
    }

    /// The header of the method that returns the signal's entry in the
    /// registration table.
    pub open spec fn signal_prototype(self, glib: Seq<char>) -> Seq<char> {
        "fn "@ + method_name_text("signal_"@, self.name, ""@) + "() -> &'static "@ + glib
            + "::subclass::Signal"@
    }

    /// The method that returns the signal's entry in the registration
    /// table.
    pub open spec fn signal_definition(
        self,
        index: nat,
        signals_path: Seq<char>,
        glib: Seq<char>,
    ) -> Seq<char> {
        "#[inline] "@ + self.signal_prototype(glib) + " { &"@ + signals_path + "()["@
            + index_literal(index) + "] }"@
    }

    /// The parameters of the emitting method for those of the handler.
    pub open spec fn emit_arg_defs(self) -> Seq<Seq<char>> {
        Seq::new(self.params().len(), |i: int| emit_arg_def(self.params()[i], i as nat))
    }

    /// The names by which the emitting method refers to its parameters.
    pub open spec fn emit_arg_names(self) -> Seq<Seq<char>> {
        Seq::new(self.params().len(), |i: int| emit_arg_name(self.params()[i], i as nat))
    }

    /// The parameters of the emitting method behind `&self`: the detail
    /// first where the signal addresses details, then the handler's.
    pub open spec fn emit_params(self, glib: Seq<char>) -> Seq<Seq<char>> {
        (if self.detailed() {
            seq![detail_param("signal_details"@, glib)]
        } else {
            seq![]
        }) + self.emit_arg_defs()
    }

    /// The header of the method that emits the signal.
    pub open spec fn emit_prototype(self, glib: Seq<char>) -> Seq<char> {
        "fn "@ + method_name_text("emit_"@, self.name, ""@) + "(&self"@ + concat_prefixed(
            ", "@,
            self.emit_params(glib),
        ) + ")"@ + arrow(self.handler->0.output)
    }

    /// The expression for the signal's identifier.
    pub open spec fn signal_id(index: nat, signals_path: Seq<char>) -> Seq<char> {
        signals_path + "()["@ + index_literal(index) + "].signal_id()"@
    }

    /// The arguments of an emission, as an array of references.
    pub open spec fn emit_args(self) -> Seq<char> {
        "&["@ + join_with(
            Seq::new(self.emit_arg_names().len(), |i: int| "&"@ + self.emit_arg_names()[i]),
            ", "@,
        ) + "]"@
    }

    /// The emission without a detail.
    pub open spec fn plain_emission(
        self,
        index: nat,
        signals_path: Seq<char>,
        glib: Seq<char>,
    ) -> Seq<char> {
        "<Self as "@ + glib + "::object::ObjectExt>::emit(self, "@ + Self::signal_id(
            index,
            signals_path,
        ) + ", "@ + self.emit_args() + ")"@
    }

    /// The emission: where the signal addresses details, with the detail
    /// if the caller gives one, and without it if not.
    pub open spec fn emission(self, index: nat, signals_path: Seq<char>, glib: Seq<char>) -> Seq<
        char,
    > {
        if self.detailed() {
            "if let Some(signal_details) = signal_details { <Self as "@ + glib
                + "::object::ObjectExt>::emit_with_details(self, "@ + Self::signal_id(
                index,
                signals_path,
            ) + ", signal_details, "@ + self.emit_args() + ") } else { "@ + self.plain_emission(
                index,
                signals_path,
                glib,
            ) + " }"@
        } else {
            self.plain_emission(index, signals_path, glib)
        }
    }

    /// The statement that takes the result out of what an emission
    /// returns; none where the signal returns nothing.
    pub open spec fn emit_unwrap(self, glib: Seq<char>) -> Seq<char> {
        match self.handler->0.output {
            Some(_) => "let ret = "@ + glib
                + "::closure::TryFromClosureReturnValue::try_from_closure_return_value(ret).unwrap(); "@,
            None => Seq::empty(),
        }
    }

    /// The method that emits the signal.
    pub open spec fn emit_definition(
        self,
        index: nat,
        signals_path: Seq<char>,
        glib: Seq<char>,
    ) -> Seq<char> {
        "#[inline] "@ + self.emit_prototype(glib) + " { let ret = "@ + self.emission(
            index,
            signals_path,
            glib,
        ) + "; "@ + self.emit_unwrap(glib) + "ret }"@
    }

    /// The parameters of the connecting method behind `&self`: the detail
    /// first where the signal addresses details, then the closure.
    pub open spec fn connect_params(self, glib: Seq<char>) -> Seq<Seq<char>> {
        (if self.detailed() {
            seq![detail_param("details"@, glib)]
        } else {
            seq![]
        }) + seq!["f: F"@]
    }

    /// The header of the method that connects a closure to the signal.
    pub open spec fn connect_prototype(self, glib: Seq<char>) -> Seq<char> {
        "fn "@ + method_name_text("connect_"@, self.name, ""@) + "<F: Fn(&Self"@
            + concat_prefixed(
            ", "@,
            Seq::new(self.params().len(), |i: int| arg_type(self.params()[i])),
        ) + ")"@ + arrow(self.handler->0.output) + " + 'static>(&self"@ + concat_prefixed(
            ", "@,
            self.connect_params(glib),
        ) + ") -> "@ + glib + "::SignalHandlerId"@
    }

    /// The method that connects a closure to the signal: the closure gets
    /// the arguments by position, and its result goes back as the signal's.
    pub open spec fn connect_definition(
        self,
        index: nat,
        signals_path: Seq<char>,
        glib: Seq<char>,
    ) -> Seq<char> {
        "#[inline] "@ + self.connect_prototype(glib) + " { <Self as "@ + glib
            + "::object::ObjectExt>::connect_local_id(self, "@ + Self::signal_id(
            index,
            signals_path,
        ) + ", "@ + (if self.detailed() {
            "details"@
        } else {
            "::std::option::Option::None"@
        }) + ", false, move |args| { let recv = args[0].get::<Self>().unwrap(); "@
            + (if self.inputs().len() == 0 {
            Seq::empty()
        } else {
            self.args_unwrap(1, None, None, false, glib)
        }) + "let ret = f(&recv"@ + concat_prefixed(
            ", "@,
            if self.inputs().len() == 0 {
                Seq::empty()
            } else {
                self.arg_names(1)
            },
        ) + "); "@ + (match self.handler->0.output {
            Some(_) => glib + "::closure::ToClosureReturnValue::to_closure_return_value(&ret)"@,
            None => "::core::option::Option::None"@,
        }) + " }) }"@
    }
}

/// Writes the return type behind its arrow.
pub fn write_arrow(output: &Option<String>) -> (r: String)
    ensures
        r@ == arrow(output.deep_view()),
{
    match output {
        Some(t) => {
            let mut r = String::from_str(" -> ");
            r.append(t.as_str());
            r
        },
        None => String::new(),
    }
}

/// Writes the expression for the type of a signal's parameter or result.
pub fn write_static_type(ty: &str, glib: &str) -> (r: String)
    ensures
        r@ == static_type(ty@, glib@),
{
    let mut r = String::from_str("<");
    r.append(glib);
    r.append("::subclass::SignalType as ::core::convert::From<");
    r.append(glib);
    r.append("::Type>>::from(<");
    r.append(ty);
    r.append(" as ");
    r.append(glib);
    r.append("::types::StaticType>::static_type())");
    r
}

/// Writes the parameter through which a caller addresses a detail.
pub fn write_detail_param(name: &str, glib: &str) -> (r: String)
    ensures
        r@ == detail_param(name@, glib@),
{
    let mut r = String::from_str(name);
    r.append(": ::std::option::Option<");
    r.append(glib);
    r.append("::Quark>");
    r
}

/// Writes a method.
pub fn write_method(m: &Method) -> (r: String)
    ensures
        r@ == method_text(m@),
{
    let mut args: Vec<String> = Vec::new();
    let mut i: usize = 0;
    while i < m.inputs.len()
        invariant
            i <= m.inputs.len(),
            args.len() == i,
            forall|j: int| 0 <= j < i ==> (#[trigger] args[j])@ == arg_text(m.inputs[j]@),
        decreases m.inputs.len() - i,
    {
        let text = match &m.inputs[i] {
            FnArg::Typed(t) => {
                let mut s = t.pat.clone();
                s.append(": ");
                s.append(t.ty.as_str());
                s
            },
            FnArg::Receiver(r) => r.clone(),
        };
        args.push(text);
        i += 1;
    }
    assert(args.deep_view() =~= Seq::new(m@.inputs.len(), |i: int| arg_text(m@.inputs[i])));
    let mut r = String::from_str("fn ");
    r.append(m.ident.name.as_str());
    r.append("(");
    let list = join(&args, ", ");
    r.append(list.as_str());
    r.append(")");
    let ret = write_arrow(&m.output);
    r.append(ret.as_str());
    r.append(" ");
    r.append(m.block.as_str());
    r
}

fn write_arg_unwrap(
    arg: &FnArg,
    i: usize,
    self_ty: Option<&str>,
    object_type: Option<&str>,
    imp: bool,
    glib: &str,
) -> (r: String)
    ensures
        r@ == arg_unwrap(
            arg@,
            i as nat,
            self_ty.deep_view(),
            object_type.deep_view(),
            imp,
            glib@,
        ),
{
    let own = match self_ty {
        Some(t) => t,
        None => "Self",
    };
    let ty = match arg {
        FnArg::Typed(t) => t.ty.clone(),
        FnArg::Receiver(_) => if imp {
            match object_type {
                Some(t) => String::from_str(t),
                None => {
                    let mut s = String::from_str("<");
                    s.append(own);
                    s.append(" as ");
                    s.append(glib);
                    s.append("::subclass::types::ObjectSubclass>::Type");
                    s
                },
            }
        } else {
            String::from_str(own)
        },
    };
    let name = write_arg_name(i);
    let mut r = String::from_str("let ");
    r.append(name.as_str());
    r.append(" = args[");
    let idx = index_string(i);
    r.append(idx.as_str());
    r.append("].get::<");
    r.append(ty.as_str());
    r.append(">().unwrap_or_else(|e| { panic!(\"Wrong type for argument ");
    let d = decimal_string(i);
    r.append(d.as_str());
    r.append(": {:?}\", e) }); ");
    let tail = match arg {
        FnArg::Receiver(_) => {
            let mut t = String::from_str("let ");
            t.append(name.as_str());
            t.append(" = ");
            t.append(glib);
            t.append("::subclass::prelude::ObjectSubclassIsExt::imp(&");
            t.append(name.as_str());
            t.append("); ");
            t
        },
        FnArg::Typed(_) => String::new(),
    };
    r.append(tail.as_str());
    r
}

impl Signal {
    fn handler_ref(&self) -> (r: &Method)
        requires
            self@.handler is Some,
        ensures
            r@ == self@.handler->0,
    {
        self.handler.as_ref().unwrap()
    }

    /// Whether the signal addresses details.
    pub fn detailed(&self) -> (r: bool)
        ensures
            r == self@.detailed(),
    {
        self.flags.contains(SignalFlags::DETAILED)
    }

    /// Writes the statements that take the arguments from position `from`
    /// on out of the values that a signal hands to a closure.
    pub fn args_unwrap(
        &self,
        from: usize,
        self_ty: Option<&str>,
        object_type: Option<&str>,
        imp: bool,
        glib: &str,
    ) -> (r: String)
        requires
            self@.handler is Some,
            from <= self@.inputs().len(),
        ensures
            r@ == self@.args_unwrap(
                from as nat,
                self_ty.deep_view(),
                object_type.deep_view(),
                imp,
                glib@,
            ),
    {
        let handler = self.handler_ref();
        let mut parts: Vec<String> = Vec::new();
        let mut i: usize = from;
        while i < handler.inputs.len()
            invariant
                from <= i <= handler.inputs.len(),
                parts.len() == i - from,
                handler@ == self@.handler->0,
                forall|j: int|
                    0 <= j < i - from ==> (#[trigger] parts[j])@ == arg_unwrap(
                        handler@.inputs[from + j],
                        (from + j) as nat,
                        self_ty.deep_view(),
                        object_type.deep_view(),
                        imp,
                        glib@,
                    ),
            decreases handler.inputs.len() - i,
        {
            assert(handler@.inputs[i as int] == handler.inputs[i as int]@);
            let part = write_arg_unwrap(&handler.inputs[i], i, self_ty, object_type, imp, glib);
            parts.push(part);
            i += 1;
        }
        assert(parts.deep_view() =~= Seq::new(
            (self@.inputs().len() - from) as nat,
            |i: int|
                arg_unwrap(
                    self@.inputs()[from + i],
                    (from + i) as nat,
                    self_ty.deep_view(),
                    object_type.deep_view(),
                    imp,
                    glib@,
                ),
        ));
        concat(&parts)
    }

    /// The names under which the arguments from position `from` on are
    /// bound.
    pub fn arg_names(&self, from: usize) -> (r: Vec<String>)
        requires
            self@.handler is Some,
            from <= self@.inputs().len(),
        ensures
            r.deep_view() == self@.arg_names(from as nat),
    {
        let handler = self.handler_ref();
        let mut names: Vec<String> = Vec::new();
        let mut i: usize = from;
        while i < handler.inputs.len()
            invariant
                from <= i <= handler.inputs.len(),
                names.len() == i - from,
                handler@ == self@.handler->0,
                forall|j: int|
                    0 <= j < i - from ==> (#[trigger] names[j])@ == arg_name((from + j) as nat),
            decreases handler.inputs.len() - i,
        {
            names.push(write_arg_name(i));
            i += 1;
        }
        assert(names.deep_view() =~= self@.arg_names(from as nat));
        names
    }

    fn flags_statement(&self, glib: &str) -> (r: String)
        ensures
            r@ == self@.flags_statement(glib@),
    {
        if self.flags.is_empty() {
            String::new()
        } else {
            let mut r = String::from_str("let builder = builder.flags(");
            let flags = self.flags.tokens(glib);
            r.append(flags.as_str());
            r.append("); ");
            r
        }
    }

    fn class_handler_statement(&self, self_ty: &str, object_type: Option<&str>, glib: &str) -> (r:
        String)
        requires
            self@.handler is Some,
        ensures
            r@ == self@.class_handler_statement(self_ty@, object_type.deep_view(), glib@),
    {
        let handler = self.handler_ref();
        if handler.is_empty {
            return String::new();
        }
        let mut r = String::from_str("let builder = builder.class_handler(|_, args| { ");
        let unwrap = self.args_unwrap(0, Some(self_ty), object_type, true, glib);
        r.append(unwrap.as_str());
        r.append("let ret = ");
        r.append(self_ty);
        r.append("::");
        r.append(handler.ident.name.as_str());
        r.append("(");
        let names = self.arg_names(0);
        let list = join(&names, ", ");
        r.append(list.as_str());
        r.append("); ");
        r.append(glib);
        r.append("::closure::ToClosureReturnValue::to_closure_return_value(&ret) }); ");
        r
    }

    fn accumulator_statement(&self) -> (r: String)
        ensures
            r@ == self@.accumulator_statement(),
    {
        match &self.accumulator {
            Some(m) => {
                let mut r = String::from_str("let builder = builder.accumulator(|hint, acc, value| { ");
                let text = write_method(m);
                r.append(text.as_str());
                r.append(" ");
                r.append(m.ident.name.as_str());
                r.append("(");
                if m.inputs.len() == 2 {
                    r.append("acc, value");
                } else {
                    r.append("hint, acc, value");
                }
                r.append(") }); ");
                r
            },
            None => String::new(),
        }
    }

    fn param_types(&self, glib: &str) -> (r: Vec<String>)
        requires
            self@.handler is Some,
        ensures
            r.deep_view() == Seq::new(
                self@.params().len(),
                |i: int| static_type(arg_type(self@.params()[i]), glib@),
            ),
    {
        let handler = self.handler_ref();
        let mut types: Vec<String> = Vec::new();
        let mut i: usize = 1;
        while i < handler.inputs.len()
            invariant
                1 <= i,
                i == 1 || i <= handler.inputs.len(),
                types.len() == i - 1,
                handler@ == self@.handler->0,
                forall|j: int|
                    0 <= j < i - 1 ==> (#[trigger] types[j])@ == static_type(
                        arg_type(handler@.inputs[j + 1]),
                        glib@,
                    ),
            decreases handler.inputs.len() - i,
        {
            assert(handler@.inputs[i as int] == handler.inputs[i as int]@);
            let t = match &handler.inputs[i] {
                FnArg::Typed(t) => write_static_type(t.ty.as_str(), glib),
                FnArg::Receiver(_) => write_static_type("Self", glib),
            };
            types.push(t);
            i += 1;
        }
        proof {
            assert(handler@.inputs.len() == handler.inputs.len());
            assert(self@.inputs() == handler@.inputs);
            assert(self@.params().len() == types.len());
            assert forall|j: int| 0 <= j < types.len() implies #[trigger] types.deep_view()[j] == static_type(arg_type(self@.params()[j]), glib@) by {
                assert(types[j]@ == types.deep_view()[j]);
                assert(self@.params()[j] == handler@.inputs[j + 1]);
            }
        }
        assert(types.deep_view() =~= Seq::new(
            self@.params().len(),
            |i: int| static_type(arg_type(self@.params()[i]), glib@),
        ));
        types
    }

    /// Writes the signal's entry in the registration table.
    pub fn create(&self, self_ty: &str, object_type: Option<&str>, glib: &str) -> (r: String)
        requires
            self@.handler is Some,
        ensures
            r@ == self@.create(self_ty@, object_type.deep_view(), glib@),
    {
        let handler = self.handler_ref();
        let mut r = String::from_str("{ let param_types = [");
        let types = self.param_types(glib);
        let list = join(&types, ", ");
        r.append(list.as_str());
        r.append("]; let builder = ");
        r.append(glib);
        r.append("::subclass::Signal::builder(");
        let name = quoted(self.name.as_str());
        r.append(name.as_str());
        r.append(", &param_types, ");
        let output = match &handler.output {
            Some(t) => write_static_type(t.as_str(), glib),
            None => write_static_type("()", glib),
        };
        r.append(output.as_str());
        r.append("); ");
        let flags = self.flags_statement(glib);
        r.append(flags.as_str());
        let class_handler = self.class_handler_statement(self_ty, object_type, glib);
        r.append(class_handler.as_str());
        let accumulator = self.accumulator_statement();
        r.append(accumulator.as_str());
        r.append("builder.build() }");
        r
    }

    /// Writes the class handler as a method of the type.
    pub fn handler_definition(&self) -> (r: Option<String>)
        requires
            self@.handler is Some,
        ensures
            r.deep_view() == self@.handler_definition(),
    {
        let handler = self.handler_ref();
        if handler.is_empty {
            None
        } else {
            Some(write_method(handler))
        }
    }

    /// Writes the header of the method that returns the signal's entry in
    /// the registration table.
    pub fn signal_prototype(&self, glib: &str) -> (r: String)
        ensures
            r@ == self@.signal_prototype(glib@),
    {
        let mut r = String::from_str("fn ");
        let name = method_name("signal_", self.name.as_str(), "");
        r.append(name.as_str());
        r.append("() -> &'static ");
        r.append(glib);
        r.append("::subclass::Signal");
        r
    }

    /// Writes the method that returns the signal's entry in the
    /// registration table.
    pub fn signal_definition(&self, index: usize, signals_path: &str, glib: &str) -> (r: String)
        ensures
            r@ == self@.signal_definition(index as nat, signals_path@, glib@),
    {
        let mut r = String::from_str("#[inline] ");
        let proto = self.signal_prototype(glib);
        r.append(proto.as_str());
        r.append(" { &");
        r.append(signals_path);
        r.append("()[");
        let idx = index_string(index);
        r.append(idx.as_str());
        r.append("] }");
        r
    }

    /// The parameters of the emitting method for those of the handler.
    pub fn emit_arg_defs(&self) -> (r: Vec<String>)
        requires
            self@.handler is Some,
        ensures
            r.deep_view() == self@.emit_arg_defs(),
    {
        let handler = self.handler_ref();
        let mut defs: Vec<String> = Vec::new();
        let mut i: usize = 1;
        while i < handler.inputs.len()
            invariant
                1 <= i,
                i == 1 || i <= handler.inputs.len(),
                defs.len() == i - 1,
                handler@ == self@.handler->0,
                forall|j: int|
                    0 <= j < i - 1 ==> (#[trigger] defs[j])@ == emit_arg_def(
                        handler@.inputs[j + 1],
                        j as nat,
                    ),
            decreases handler.inputs.len() - i,
        {
            assert(handler@.inputs[i as int] == handler.inputs[i as int]@);
            let def = match &handler.inputs[i] {
                FnArg::Typed(t) => {
                    let mut s = if t.ident.is_some() {
                        t.pat.clone()
                    } else {
                        write_arg_name(i - 1)
                    };
                    s.append(": ");
                    s.append(t.ty.as_str());
                    s
                },
                FnArg::Receiver(r) => r.clone(),
            };
            defs.push(def);
            i += 1;
        }
        proof {
            assert(handler@.inputs.len() == handler.inputs.len());
            assert(self@.inputs() == handler@.inputs);
            assert(self@.params().len() == defs.len());
            assert forall|j: int| 0 <= j < defs.len() implies #[trigger] defs.deep_view()[j] == emit_arg_def(self@.params()[j], j as nat) by {
                assert(defs[j]@ == defs.deep_view()[j]);
                assert(self@.params()[j] == handler@.inputs[j + 1]);
            }
        }
        assert(defs.deep_view() =~= self@.emit_arg_defs());
        defs
    }

    /// The names by which the emitting method refers to its parameters.
    pub fn emit_arg_names(&self) -> (r: Vec<String>)
        requires
            self@.handler is Some,
        ensures
            r.deep_view() == self@.emit_arg_names(),
    {
        let handler = self.handler_ref();
        let mut names: Vec<String> = Vec::new();
        let mut i: usize = 1;
        while i < handler.inputs.len()
            invariant
                1 <= i,
                i == 1 || i <= handler.inputs.len(),
                names.len() == i - 1,
                handler@ == self@.handler->0,
                forall|j: int|
                    0 <= j < i - 1 ==> (#[trigger] names[j])@ == emit_arg_name(
                        handler@.inputs[j + 1],
                        j as nat,
                    ),
            decreases handler.inputs.len() - i,
        {
            assert(handler@.inputs[i as int] == handler.inputs[i as int]@);
            let name = match &handler.inputs[i] {
                FnArg::Typed(t) => match &t.ident {
                    Some(id) => id.clone(),
                    None => write_arg_name(i - 1),
                },
                FnArg::Receiver(_) => String::from_str("self"),
            };
            names.push(name);
            i += 1;
        }
        proof {
            assert(handler@.inputs.len() == handler.inputs.len());
            assert(self@.inputs() == handler@.inputs);
            assert(self@.params().len() == names.len());
            assert forall|j: int| 0 <= j < names.len() implies #[trigger] names.deep_view()[j] == emit_arg_name(self@.params()[j], j as nat) by {
                assert(names[j]@ == names.deep_view()[j]);
                assert(self@.params()[j] == handler@.inputs[j + 1]);
            }
        }
        assert(names.deep_view() =~= self@.emit_arg_names());
        names
    }

    /// The parameters of the emitting method behind `&self`.
    pub fn emit_params(&self, glib: &str) -> (r: Vec<String>)
        requires
            self@.handler is Some,
        ensures
            r.deep_view() == self@.emit_params(glib@),
    {
        let mut params: Vec<String> = Vec::new();
        if self.detailed() {
            params.push(write_detail_param("signal_details", glib));
        }
        let ghost head = params.deep_view();
        let mut defs = self.emit_arg_defs();
        let ghost tail = defs.deep_view();
        params.append(&mut defs);
        assert(params.deep_view() =~= head + tail);
        assert(head =~= if self@.detailed() {
            seq![detail_param("signal_details"@, glib@)]
        } else {
            seq![]
        });
        params
    }

    /// Writes the header of the method that emits the signal.
    pub fn emit_prototype(&self, glib: &str) -> (r: String)
        requires
            self@.handler is Some,
        ensures
            r@ == self@.emit_prototype(glib@),
    {
        let handler = self.handler_ref();
        let mut r = String::from_str("fn ");
        let name = method_name("emit_", self.name.as_str(), "");
        r.append(name.as_str());
        r.append("(&self");
        let params = self.emit_params(glib);
        let list = write_prefixed(", ", &params);
        r.append(list.as_str());
        r.append(")");
        let ret = write_arrow(&handler.output);
        r.append(ret.as_str());
        r
    }

    fn signal_id(index: usize, signals_path: &str) -> (r: String)
        ensures
            r@ == SpecSignal::signal_id(index as nat, signals_path@),
    {
        let mut r = String::from_str(signals_path);
        r.append("()[");
        let idx = index_string(index);
        r.append(idx.as_str());
        r.append("].signal_id()");
        r
    }

    fn emit_args(&self) -> (r: String)
        requires
            self@.handler is Some,
        ensures
            r@ == self@.emit_args(),
    {
        let names = self.emit_arg_names();
        let mut refs: Vec<String> = Vec::new();
        let mut i: usize = 0;
        while i < names.len()
            invariant
                i <= names.len(),
                refs.len() == i,
                forall|j: int| 0 <= j < i ==> (#[trigger] refs[j])@ == "&"@ + names[j]@,
            decreases names.len() - i,
        {
            let mut s = String::from_str("&");
            s.append(names[i].as_str());
            refs.push(s);
            i += 1;
        }
        assert(refs.deep_view() =~= Seq::new(
            names.deep_view().len(),
            |i: int| "&"@ + names.deep_view()[i],
        ));
        let mut r = String::from_str("&[");
        let list = join(&refs, ", ");
        r.append(list.as_str());
        r.append("]");
        r
    }

    fn plain_emission(&self, index: usize, signals_path: &str, glib: &str) -> (r: String)
        requires
            self@.handler is Some,
        ensures
            r@ == self@.plain_emission(index as nat, signals_path@, glib@),
    {
        let mut r = String::from_str("<Self as ");
        r.append(glib);
        r.append("::object::ObjectExt>::emit(self, ");
        let id = Self::signal_id(index, signals_path);
        r.append(id.as_str());
        r.append(", ");
        let args = self.emit_args();
        r.append(args.as_str());
        r.append(")");
        r
    }

    fn emission(&self, index: usize, signals_path: &str, glib: &str) -> (r: String)
        requires
            self@.handler is Some,
        ensures
            r@ == self@.emission(index as nat, signals_path@, glib@),
    {
        let plain = self.plain_emission(index, signals_path, glib);
        if !self.detailed() {
            return plain;
        }
        let mut r = String::from_str("if let Some(signal_details) = signal_details { <Self as ");
        r.append(glib);
        r.append("::object::ObjectExt>::emit_with_details(self, ");
        let id = Self::signal_id(index, signals_path);
        r.append(id.as_str());
        r.append(", signal_details, ");
        let args = self.emit_args();
        r.append(args.as_str());
        r.append(") } else { ");
        r.append(plain.as_str());
        r.append(" }");
        r
    }

    /// Writes the method that emits the signal.
    pub fn emit_definition(&self, index: usize, signals_path: &str, glib: &str) -> (r: String)
        requires
            self@.handler is Some,
        ensures
            r@ == self@.emit_definition(index as nat, signals_path@, glib@),
    {
        let handler = self.handler_ref();
        let mut r = String::from_str("#[inline] ");
        let proto = self.emit_prototype(glib);
        r.append(proto.as_str());
        r.append(" { let ret = ");
        let body = self.emission(index, signals_path, glib);
        r.append(body.as_str());
        r.append("; ");
        let unwrap = match &handler.output {
            Some(_) => {
                let mut s = String::from_str("let ret = ");
                s.append(glib);
                s.append(
                    "::closure::TryFromClosureReturnValue::try_from_closure_return_value(ret).unwrap(); ",
                );
                s
            },
            None => String::new(),
        };
        r.append(unwrap.as_str());
        r.append("ret }");
        r
    }

    /// The parameters of the connecting method behind `&self`.
    pub fn connect_params(&self, glib: &str) -> (r: Vec<String>)
        ensures
            r.deep_view() == self@.connect_params(glib@),
    {
        let mut params: Vec<String> = Vec::new();
        if self.detailed() {
            params.push(write_detail_param("details", glib));
        }
        let ghost head = params.deep_view();
        params.push(String::from_str("f: F"));
        assert(params.deep_view() =~= head + seq!["f: F"@]);
        assert(head =~= if self@.detailed() {
            seq![detail_param("details"@, glib@)]
        } else {
            seq![]
        });
        params
    }

    fn closure_types(&self) -> (r: Vec<String>)
        requires
            self@.handler is Some,
        ensures
            r.deep_view() == Seq::new(
                self@.params().len(),
                |i: int| arg_type(self@.params()[i]),
            ),
    {
        let handler = self.handler_ref();
        let mut types: Vec<String> = Vec::new();
        let mut i: usize = 1;
        while i < handler.inputs.len()
            invariant
                1 <= i,
                i == 1 || i <= handler.inputs.len(),
                types.len() == i - 1,
                handler@ == self@.handler->0,
                forall|j: int|
                    0 <= j < i - 1 ==> (#[trigger] types[j])@ == arg_type(handler@.inputs[j + 1]),
            decreases handler.inputs.len() - i,
        {
            assert(handler@.inputs[i as int] == handler.inputs[i as int]@);
            let t = match &handler.inputs[i] {
                FnArg::Typed(t) => t.ty.clone(),
                FnArg::Receiver(_) => String::from_str("Self"),
            };
            types.push(t);
            i += 1;
        }
        proof {
            assert(handler@.inputs.len() == handler.inputs.len());
            assert(self@.inputs() == handler@.inputs);
            assert(self@.params().len() == types.len());
            assert forall|j: int| 0 <= j < types.len() implies #[trigger] types.deep_view()[j] == arg_type(self@.params()[j]) by {
                assert(types[j]@ == types.deep_view()[j]);
                assert(self@.params()[j] == handler@.inputs[j + 1]);
            }
        }
        assert(types.deep_view() =~= Seq::new(
            self@.params().len(),
            |i: int| arg_type(self@.params()[i]),
        ));
        types
    }

    /// Writes the header of the method that connects a closure to the
    /// signal.
    pub fn connect_prototype(&self, glib: &str) -> (r: String)
        requires
            self@.handler is Some,
        ensures
            r@ == self@.connect_prototype(glib@),
    {
        let handler = self.handler_ref();
        let mut r = String::from_str("fn ");
        let name = method_name("connect_", self.name.as_str(), "");
        r.append(name.as_str());
        r.append("<F: Fn(&Self");
        let types = self.closure_types();
        let list = write_prefixed(", ", &types);
        r.append(list.as_str());
        r.append(")");
        let ret = write_arrow(&handler.output);
        r.append(ret.as_str());
        r.append(" + 'static>(&self");
        let params = self.connect_params(glib);
        let list = write_prefixed(", ", &params);
        r.append(list.as_str());
        r.append(") -> ");
        r.append(glib);
        r.append("::SignalHandlerId");
        r
    }

    /// Writes the method that connects a closure to the signal.
    pub fn connect_definition(&self, index: usize, signals_path: &str, glib: &str) -> (r: String)
        requires
            self@.handler is Some,
        ensures
            r@ == self@.connect_definition(index as nat, signals_path@, glib@),
    {
        let handler = self.handler_ref();
        let mut r = String::from_str("#[inline] ");
        let proto = self.connect_prototype(glib);
        r.append(proto.as_str());
        r.append(" { <Self as ");
        r.append(glib);
        r.append("::object::ObjectExt>::connect_local_id(self, ");
        let id = Self::signal_id(index, signals_path);
        r.append(id.as_str());
        r.append(", ");
        if self.detailed() {
            r.append("details");
        } else {
            r.append("::std::option::Option::None");
        }
        r.append(", false, move |args| { let recv = args[0].get::<Self>().unwrap(); ");
        let unwrap = if handler.inputs.len() == 0 {
            String::new()
        } else {
            self.args_unwrap(1, None, None, false, glib)
        };
        r.append(unwrap.as_str());
        r.append("let ret = f(&recv");
        let names = if handler.inputs.len() == 0 {
            let v: Vec<String> = Vec::new();
            assert(v.deep_view() =~= Seq::empty());
            v
        } else {
            self.arg_names(1)
        };
        let list = write_prefixed(", ", &names);
        r.append(list.as_str());
        r.append("); ");
        let ret = match &handler.output {
            Some(_) => {
                let mut s = String::from_str(glib);
                s.append("::closure::ToClosureReturnValue::to_closure_return_value(&ret)");
                s
            },
            None => String::from_str("::core::option::Option::None"),
        };
        r.append(ret.as_str());
        r.append(" }) }");
        r
    }
}

} // verus!
