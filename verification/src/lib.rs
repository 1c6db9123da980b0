//! A type checker and monomorphization engine for a lower intermediate
//! representation.
//!
//! The representation sits between a source language and assembly. Its
//! expressions, constants and types ([`syntax`]) are checked for soundness
//! in an environment ([`env`]) before anything is generated from them.
//!
//! * [`simplify`], [`concrete`], [`relate`], [`layout`] and [`eval`] are the
//!   algebra of types: resolving names, reducing to concrete form,
//!   equality, decay and casts, sizes and member offsets, and the
//!   evaluation of constant lengths.
//! * [`infer`] reads off the type of a term, and [`check`] decides whether
//!   a term is sound.
//! * [`poly`] turns a procedure template and concrete type arguments into
//!   a procedure, once per distinct instance, under the name that
//!   [`mangle`] spells out. Each template has a table of its own.
//! * [`names`] orders names, so that fields and variants have one
//!   canonical order.
//! * [`subst`], [`same`], [`copy`] and [`lists`] are the plumbing of the
//!   trees: substitution, equality, copies and lists.
//! * [`error`] and [`report`] hold what a driver gets back.
//! * [`laws`] states what holds of the algebra and of the checker in
//!   general; [`scope`] shows that no judgment reads the expected return
//!   type, and what follows for templates with equal return types.
//!
//! Every operation that follows definitions through the environment does
//! so within a budget of nested steps, [`simplify::RECURSION_LIMIT`] for
//! the public operations, and fails with
//! [`error::Error::RecursionLimit`] where the budget does not suffice: no
//! operation loops.
pub mod check;
pub mod concrete;
pub mod copy;
pub mod env;
pub mod error;
pub mod eval;
pub mod infer;
pub mod laws;
pub mod layout;
pub mod lists;
pub mod mangle;
pub mod names;
pub mod poly;
pub mod relate;
pub mod report;
pub mod same;
pub mod scope;
pub mod simplify;
pub mod subst;
pub mod syntax;
