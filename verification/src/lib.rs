//! Descriptor model, validation rules and code generation for the properties
//! and signals of reflective component types.
//!
//! A type declares its properties as members with a `property` attribute and
//! its signals as methods with a `signal` attribute. From these declarations
//! the library builds descriptors ([`property::Property`],
//! [`signal::Signal`]), tests them against the rules that the object model
//! sets, and writes the code that registers them and gives access to them:
//! getters, setters, notification helpers, the dispatch of reads and writes
//! by index, and the methods that emit signals and connect to them.
//!
//! Declarations come in as plain values ([`attr`], [`property::Field`],
//! [`signal::ImplItem`]) and generated code goes out as text. Every function
//! states what it returns over a mathematical model of its arguments;
//! [`laws`] holds what follows for all descriptors.

pub mod attr;
pub mod collections;
pub mod diag;
pub mod flags;
pub mod laws;
pub mod names;
pub mod output;
pub mod property;
pub mod property_builder;
pub mod property_codegen;
pub mod property_parse;
pub mod property_validate;
pub mod signal;
pub mod signal_builder;
pub mod signal_codegen;
pub mod text;
pub mod util;
