//! The three predicate families and their application to bare and optional
//! field values.
//!
//! Every family has an identity case (`Any`, which matches every value and an
//! absent optional value) and an exclusion case (`Missing`, built from the token
//! `none`, which matches nothing but an absent optional value). On an optional
//! value, every operator with an
//! operand requires the value to be present; in particular `Neq` matches only
//! a value that is present and different.

use vstd::prelude::*;
use crate::text::{spec_contains, spec_ends_with, spec_starts_with, str_contains, str_ends_with,
    str_eq, str_starts_with};

verus! {

/// An equality-family predicate over values of type `T`.
#[derive(Clone, Debug)]
pub enum EqFilter<T> {
    Any,
    Missing,
    Eq(T),
    Neq(T),
}

/// An ordering-family predicate over values of type `T`.
#[derive(Clone, Debug)]
pub enum OrdFilter<T> {
    Any,
    Missing,
    Eq(T),
    Neq(T),
    Gt(T),
    Gte(T),
    Lt(T),
    Lte(T),
}

/// A string-family predicate over text values.
#[derive(Clone, Debug)]
pub enum StringFilter {
    Any,
    Missing,
    Eq(String),
    Contains(String),
    StartsWith(String),
    EndsWith(String),
}

/// The mathematical model of a [`StringFilter`]: the same variants over
/// character sequences.
pub enum StringFilterView {
    Any,
    Missing,
    Eq(Seq<char>),
    Contains(Seq<char>),
    StartsWith(Seq<char>),
    EndsWith(Seq<char>),
}

impl View for StringFilter {
    type V = StringFilterView;

    open spec fn view(&self) -> StringFilterView {
        match self {
            StringFilter::Any => StringFilterView::Any,
            StringFilter::Missing => StringFilterView::Missing,
            StringFilter::Eq(s) => StringFilterView::Eq(s@),
            StringFilter::Contains(s) => StringFilterView::Contains(s@),
            StringFilter::StartsWith(s) => StringFilterView::StartsWith(s@),
            StringFilter::EndsWith(s) => StringFilterView::EndsWith(s@),
        }
    }
}

/// A type whose values the library can test for equality.
pub trait FieldEq: Sized {
    /// Decides equality of two values; the result agrees with mathematical
    /// equality.
    fn eq_val(&self, other: &Self) -> (r: bool)
        ensures
            r == (self == other),
    ;
}

/// A type whose values the library can order. `lt_spec` is the strict order
/// the predicates are read against; it must be irreflexive.
pub trait FieldOrd: FieldEq {
    /// The strict order on values of the type.
    spec fn lt_spec(&self, other: &Self) -> bool;

    /// No value is strictly below itself.
    proof fn lemma_lt_irreflexive(&self)
        ensures
            !self.lt_spec(self),
    ;

    /// Decides the strict order; the result agrees with `lt_spec`.
    fn lt_val(&self, other: &Self) -> (r: bool)
        ensures
            r == self.lt_spec(other),
    ;
}

/// What it means for an equality predicate to accept a bare value.
pub open spec fn spec_apply_eq<T>(v: T, p: EqFilter<T>) -> bool {
    match p {
        EqFilter::Any => true,
        EqFilter::Missing => false,
        EqFilter::Eq(x) => v == x,
        EqFilter::Neq(x) => v != x,
    }
}

/// What it means for an equality predicate to accept an optional value:
/// `Any` accepts everything, `Missing` accepts exactly absence, and every other
/// operator requires presence and then follows the bare rule.
pub open spec fn spec_apply_eq_opt<T>(v: Option<T>, p: EqFilter<T>) -> bool {
    match v {
        Some(x) => spec_apply_eq(x, p),
        None => p is Any || p is Missing,
    }
}

/// What it means for an ordering predicate to accept a bare value.
pub open spec fn spec_apply_ord<T: FieldOrd>(v: T, p: OrdFilter<T>) -> bool {
    match p {
        OrdFilter::Any => true,
        OrdFilter::Missing => false,
        OrdFilter::Eq(x) => v == x,
        OrdFilter::Neq(x) => v != x,
        OrdFilter::Gt(x) => x.lt_spec(&v),
        OrdFilter::Gte(x) => x.lt_spec(&v) || v == x,
        OrdFilter::Lt(x) => v.lt_spec(&x),
        OrdFilter::Lte(x) => v.lt_spec(&x) || v == x,
    }
}

/// The optional-value rule for ordering predicates, presence-aware as in
/// [`spec_apply_eq_opt`].
pub open spec fn spec_apply_ord_opt<T: FieldOrd>(v: Option<T>, p: OrdFilter<T>) -> bool {
    match v {
        Some(x) => spec_apply_ord(x, p),
        None => p is Any || p is Missing,
    }
}

/// What it means for a string predicate to accept a bare text value.
pub open spec fn spec_apply_string(v: Seq<char>, p: StringFilterView) -> bool {
    match p {
        StringFilterView::Any => true,
        StringFilterView::Missing => false,
        StringFilterView::Eq(x) => v == x,
        StringFilterView::Contains(x) => spec_contains(v, x),
        StringFilterView::StartsWith(x) => spec_starts_with(v, x),
        StringFilterView::EndsWith(x) => spec_ends_with(v, x),
    }
}

/// The optional-value rule for string predicates, presence-aware as in
/// [`spec_apply_eq_opt`].
pub open spec fn spec_apply_string_opt(v: Option<Seq<char>>, p: StringFilterView) -> bool {
    match v {
        Some(x) => spec_apply_string(x, p),
        None => p is Any || p is Missing,
    }
}

/// Applies an equality predicate to a bare value.
pub fn apply_eq<T: FieldEq>(v: &T, p: &EqFilter<T>) -> (r: bool)
    ensures
        r == spec_apply_eq(*v, *p),
{
    match p {
        EqFilter::Any => true,
        EqFilter::Missing => false,
        EqFilter::Eq(x) => v.eq_val(x),
        EqFilter::Neq(x) => !v.eq_val(x),
    }
}

/// Applies an equality predicate to an optional value.
pub fn apply_eq_opt<T: FieldEq>(v: &Option<T>, p: &EqFilter<T>) -> (r: bool)
    ensures
        r == spec_apply_eq_opt(*v, *p),
{
    match v {
        Some(x) => apply_eq(x, p),
        None => match p {
            EqFilter::Any => true,
            EqFilter::Missing => true,
            _ => false,
        },
    }
}

/// Applies an ordering predicate to a bare value.
pub fn apply_ord<T: FieldOrd>(v: &T, p: &OrdFilter<T>) -> (r: bool)
    ensures
        r == spec_apply_ord(*v, *p),
{
    match p {
        OrdFilter::Any => true,
        OrdFilter::Missing => false,
        OrdFilter::Eq(x) => v.eq_val(x),
        OrdFilter::Neq(x) => !v.eq_val(x),
        OrdFilter::Gt(x) => x.lt_val(v),
        OrdFilter::Gte(x) => x.lt_val(v) || v.eq_val(x),
        OrdFilter::Lt(x) => v.lt_val(x),
        OrdFilter::Lte(x) => v.lt_val(x) || v.eq_val(x),
    }
}

/// Applies an ordering predicate to an optional value.
pub fn apply_ord_opt<T: FieldOrd>(v: &Option<T>, p: &OrdFilter<T>) -> (r: bool)
    ensures
        r == spec_apply_ord_opt(*v, *p),
{
    match v {
        Some(x) => apply_ord(x, p),
        None => match p {
            OrdFilter::Any => true,
            OrdFilter::Missing => true,
            _ => false,
        },
    }
}

/// Applies a string predicate to a bare text value.
pub fn apply_string(v: &str, p: &StringFilter) -> (r: bool)
    ensures
        r == spec_apply_string(v@, p@),
{
    match p {
        StringFilter::Any => true,
        StringFilter::Missing => false,
        StringFilter::Eq(x) => str_eq(v, x.as_str()),
        StringFilter::Contains(x) => str_contains(v, x.as_str()),
        StringFilter::StartsWith(x) => str_starts_with(v, x.as_str()),
        StringFilter::EndsWith(x) => str_ends_with(v, x.as_str()),
    }
}

/// Applies a string predicate to an optional text value.
pub fn apply_string_opt(v: &Option<String>, p: &StringFilter) -> (r: bool)
    ensures
        r == spec_apply_string_opt(
            match v {
                Some(s) => Some(s@),
                None => None,
            },
            p@,
        ),
{
    match v {
        Some(x) => apply_string(x.as_str(), p),
        None => match p {
            StringFilter::Any => true,
            StringFilter::Missing => true,
            _ => false,
        },
    }
}

} // verus!
