//! Core inference and resolvent engine of a trait-logic solver.
//!
//! The library manipulates a higher-order goal language under existential
//! and universal quantifiers.  Terms use de Bruijn indices for bound
//! variables, universe-tagged skolem constants for universally introduced
//! names, and canonical forms with densely renumbered universes for table
//! keys.  The modules, leaves first:
//!
//! - [`ir`]: the immutable term language and its mathematical views;
//! - [`clone_impls`]: verified deep clones of the term language;
//! - [`shift`]: de Bruijn shifting of free variable indices;
//! - [`universes`]: the dense, order-preserving universe map;
//! - [`table`]: the inference table of existential variables;
//! - [`normalize`]: deep normalization of instantiated variables;
//! - [`subst`]: substitution of binder-bound variables;
//! - [`instantiate`]: existential and universal instantiation of binders;
//! - [`ucanon`]: u-canonicalization (universe compression) of canonical terms;
//! - [`unify`]: the unification driver;
//! - [`resolvent`]: SLG resolvents and answer-substitution application;
//! - [`debug`]: rendering of terms against an optional program;
//! - [`laws`]: proved statements that relate the operations above.

pub mod clone_impls;
pub mod debug;
pub mod instantiate;
pub mod ir;
pub mod laws;
pub mod normalize;
pub mod resolvent;
pub mod shift;
pub mod subst;
pub mod table;
pub mod ucanon;
pub mod unify;
pub mod universes;
