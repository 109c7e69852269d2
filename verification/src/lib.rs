//! A verified engine for filtering structured access-log records.
//!
//! The library offers three families of field predicates (equality, ordering,
//! string matching), a uniform protocol for applying them to bare and optional
//! fields, a textual grammar that builds a predicate from an
//! `"<operator> <operand>"` token, and a record filter that combines one
//! predicate per filterable field by logical AND.

pub mod filter;
pub mod grammar;
pub mod laws;
pub mod predicate;
pub mod text;
pub mod values;
