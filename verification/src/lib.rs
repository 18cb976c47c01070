//! Building expression nodes for a query planner.
//!
//! Named operations (scalar, aggregate and window functions) and the builder
//! helpers (alias, sort, column, case, membership test) become nodes of one
//! expression tree, which a planner takes from there. Nothing is evaluated here
//! and nothing is checked for arity or type: a builder returns a complete node,
//! or fails because a name resolves to no function.
//!
//! - [`expr`] holds the tree and its view.
//! - [`catalog`] says what a closed catalog of operations is and how a name is
//!   looked up in one; [`scalar`] and [`aggregate`] are the two catalogs.
//! - [`frame`] fills in window frames that were left out or given in part.
//! - [`window`] resolves window functions, in the engine's table of built-in
//!   functions first and in the registry of a session second.
//! - [`builders`] and [`case`] hold the builders themselves.
//! - [`laws`] states what holds of the builders whatever they are given.
//! - [`engine`] is the boundary to the query engine, and [`text`] compares
//!   names.

pub mod aggregate;
pub mod builders;
pub mod case;
pub mod catalog;
pub mod engine;
pub mod error;
pub mod expr;
pub mod frame;
pub mod laws;
pub mod scalar;
pub mod text;
pub mod window;
