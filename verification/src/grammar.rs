//! The predicate construction grammar: a token is either the keyword `none`
//! or an `"<operator> <operand>"` pair split at the first space. The operator
//! keyword picks the variant; the operand is parsed by the field type's own
//! textual grammar.

use vstd::prelude::*;
use vstd::string::StringExecFns;
use crate::predicate::{EqFilter, OrdFilter, StringFilter, StringFilterView};
use crate::text::{spec_split_first, split_first, str_eq};

verus! {

/// A failure to build a predicate from its textual encoding.
#[derive(Clone, Debug)]
pub enum FilterError {
    /// The token is not `none` and does not split into operator and operand.
    Format(String),
    /// The operator keyword is not in the recognized set of its family.
    UnknownOperator(String),
    /// The operand does not parse into the field's value type.
    OperandParse(String),
}

/// The mathematical model of a [`FilterError`]: the same variants over
/// character sequences.
pub enum FilterErrorView {
    Format(Seq<char>),
    UnknownOperator(Seq<char>),
    OperandParse(Seq<char>),
}

impl View for FilterError {
    type V = FilterErrorView;

    open spec fn view(&self) -> FilterErrorView {
        match self {
            FilterError::Format(raw) => FilterErrorView::Format(raw@),
            FilterError::UnknownOperator(raw) => FilterErrorView::UnknownOperator(raw@),
            FilterError::OperandParse(operand) => FilterErrorView::OperandParse(operand@),
        }
    }
}

/// The message an error carries to the process boundary: malformed tokens and
/// unknown operators report the whole token, a bad operand reports the
/// operand.
pub open spec fn spec_message(e: FilterErrorView) -> Seq<char> {
    match e {
        FilterErrorView::Format(raw) => "Invalid filter "@ + raw,
        FilterErrorView::UnknownOperator(raw) => "Invalid filter "@ + raw,
        FilterErrorView::OperandParse(operand) => "Invalid value for filter: "@ + operand,
    }
}

impl FilterError {
    /// Renders the error as its human-readable message.
    pub fn message(&self) -> (r: String)
        ensures
            r@ == spec_message(self@),
    {
        match self {
            FilterError::Format(raw) => {
                let mut m: String = "Invalid filter ".to_owned();
                m.append(raw.as_str());
                m
            },
            FilterError::UnknownOperator(raw) => {
                let mut m: String = "Invalid filter ".to_owned();
                m.append(raw.as_str());
                m
            },
            FilterError::OperandParse(operand) => {
                let mut m: String = "Invalid value for filter: ".to_owned();
                m.append(operand.as_str());
                m
            },
        }
    }
}

/// A field value type with a canonical textual operand form.
pub trait ParseOperand: Sized {
    /// The value a piece of operand text denotes, if any.
    spec fn parse_spec(s: Seq<char>) -> Option<Self>;

    /// Parses operand text; the result agrees with `parse_spec`.
    fn parse_operand(s: &str) -> (r: Option<Self>)
        ensures
            r == Self::parse_spec(s@),
    ;
}

/// Splits a filter token into its operator and operand at the first space; a
/// token without a space is malformed.
pub fn explode_args<'a>(value: &'a str) -> (r: Result<(&'a str, &'a str), FilterError>)
    ensures
        match spec_split_first(value@, ' ') {
            Some((op, rest)) => r matches Ok(p) && p.0@ == op && p.1@ == rest,
            Option::None => r matches Err(e) && e@ == FilterErrorView::Format(value@),
        },
{
    match split_first(value, ' ') {
        Some(p) => Ok(p),
        Option::None => Err(FilterError::Format(value.to_owned())),
    }
}

/// Parses operand text into the target value type, or reports the operand as
/// invalid.
pub fn parse_or_err<T: ParseOperand>(value: &str) -> (r: Result<T, FilterError>)
    ensures
        match T::parse_spec(value@) {
            Some(v) => r matches Ok(u) && u == v,
            Option::None => r matches Err(e) && e@ == FilterErrorView::OperandParse(value@),
        },
{
    match T::parse_operand(value) {
        Some(v) => Ok(v),
        Option::None => Err(FilterError::OperandParse(value.to_owned())),
    }
}

/// The grammar of a string predicate token.
pub open spec fn spec_parse_string_filter(s: Seq<char>) -> Result<
    StringFilterView,
    FilterErrorView,
> {
    if s == "none"@ {
        Ok(StringFilterView::Missing)
    } else {
        match spec_split_first(s, ' ') {
            Option::None => Err(FilterErrorView::Format(s)),
            Some((op, rest)) => if op == "contains"@ {
                Ok(StringFilterView::Contains(rest))
            } else if op == "eq"@ {
                Ok(StringFilterView::Eq(rest))
            } else if op == "starts_with"@ {
                Ok(StringFilterView::StartsWith(rest))
            } else if op == "ends_with"@ {
                Ok(StringFilterView::EndsWith(rest))
            } else {
                Err(FilterErrorView::UnknownOperator(s))
            },
        }
    }
}

/// Builds a string predicate from its textual encoding.
pub fn parse_string_filter(value: &str) -> (r: Result<StringFilter, FilterError>)
    ensures
        match r {
            Ok(f) => spec_parse_string_filter(value@) == Ok::<StringFilterView, FilterErrorView>(
                f@,
            ),
            Err(e) => spec_parse_string_filter(value@) == Err::<StringFilterView, FilterErrorView>(
                e@,
            ),
        },
{
    if str_eq(value, "none") {
        return Ok(StringFilter::Missing);
    }
    let (op, rest) = match explode_args(value) {
        Ok(p) => p,
        Err(e) => {
            return Err(e);
        },
    };
    if str_eq(op, "contains") {
        Ok(StringFilter::Contains(rest.to_owned()))
    } else if str_eq(op, "eq") {
        Ok(StringFilter::Eq(rest.to_owned()))
    } else if str_eq(op, "starts_with") {
        Ok(StringFilter::StartsWith(rest.to_owned()))
    } else if str_eq(op, "ends_with") {
        Ok(StringFilter::EndsWith(rest.to_owned()))
    } else {
        Err(FilterError::UnknownOperator(value.to_owned()))
    }
}

/// The grammar of an equality predicate token over operand type `T`.
pub open spec fn spec_parse_eq_filter<T: ParseOperand>(s: Seq<char>) -> Result<
    EqFilter<T>,
    FilterErrorView,
> {
    if s == "none"@ {
        Ok(EqFilter::Missing)
    } else {
        match spec_split_first(s, ' ') {
            Option::None => Err(FilterErrorView::Format(s)),
            Some((op, rest)) => if op == "eq"@ {
                match T::parse_spec(rest) {
                    Some(v) => Ok(EqFilter::Eq(v)),
                    Option::None => Err(FilterErrorView::OperandParse(rest)),
                }
            } else if op == "neq"@ {
                match T::parse_spec(rest) {
                    Some(v) => Ok(EqFilter::Neq(v)),
                    Option::None => Err(FilterErrorView::OperandParse(rest)),
                }
            } else {
                Err(FilterErrorView::UnknownOperator(s))
            },
        }
    }
}

/// Builds an equality predicate from its textual encoding.
pub fn parse_eq_filter<T: ParseOperand>(value: &str) -> (r: Result<EqFilter<T>, FilterError>)
    ensures
        match r {
            Ok(f) => spec_parse_eq_filter::<T>(value@) == Ok::<EqFilter<T>, FilterErrorView>(f),
            Err(e) => spec_parse_eq_filter::<T>(value@) == Err::<EqFilter<T>, FilterErrorView>(e@),
        },
{
    if str_eq(value, "none") {
        return Ok(EqFilter::Missing);
    }
    let (op, rest) = match explode_args(value) {
        Ok(p) => p,
        Err(e) => {
            return Err(e);
        },
    };
    if str_eq(op, "eq") {
        match parse_or_err::<T>(rest) {
            Ok(v) => Ok(EqFilter::Eq(v)),
            Err(e) => Err(e),
        }
    } else if str_eq(op, "neq") {
        match parse_or_err::<T>(rest) {
            Ok(v) => Ok(EqFilter::Neq(v)),
            Err(e) => Err(e),
        }
    } else {
        Err(FilterError::UnknownOperator(value.to_owned()))
    }
}

/// The grammar of an ordering predicate token over operand type `T`.
pub open spec fn spec_parse_ord_filter<T: ParseOperand>(s: Seq<char>) -> Result<
    OrdFilter<T>,
    FilterErrorView,
> {
    if s == "none"@ {
        Ok(OrdFilter::Missing)
    } else {
        match spec_split_first(s, ' ') {
            Option::None => Err(FilterErrorView::Format(s)),
            Some((op, rest)) => if op == "eq"@ {
                match T::parse_spec(rest) {
                    Some(v) => Ok(OrdFilter::Eq(v)),
                    Option::None => Err(FilterErrorView::OperandParse(rest)),
                }
            } else if op == "neq"@ {
                match T::parse_spec(rest) {
                    Some(v) => Ok(OrdFilter::Neq(v)),
                    Option::None => Err(FilterErrorView::OperandParse(rest)),
                }
            } else if op == "gt"@ {
                match T::parse_spec(rest) {
                    Some(v) => Ok(OrdFilter::Gt(v)),
                    Option::None => Err(FilterErrorView::OperandParse(rest)),
                }
            } else if op == "lt"@ {
                match T::parse_spec(rest) {
                    Some(v) => Ok(OrdFilter::Lt(v)),
                    Option::None => Err(FilterErrorView::OperandParse(rest)),
                }
            } else if op == "gte"@ {
                match T::parse_spec(rest) {
                    Some(v) => Ok(OrdFilter::Gte(v)),
                    Option::None => Err(FilterErrorView::OperandParse(rest)),
                }
            } else if op == "lte"@ {
                match T::parse_spec(rest) {
                    Some(v) => Ok(OrdFilter::Lte(v)),
                    Option::None => Err(FilterErrorView::OperandParse(rest)),
                }
            } else {
                Err(FilterErrorView::UnknownOperator(s))
            },
        }
    }
}

/// Builds an ordering predicate from its textual encoding.
pub fn parse_ord_filter<T: ParseOperand>(value: &str) -> (r: Result<OrdFilter<T>, FilterError>)
    ensures
        match r {
            Ok(f) => spec_parse_ord_filter::<T>(value@) == Ok::<OrdFilter<T>, FilterErrorView>(f),
            Err(e) => spec_parse_ord_filter::<T>(value@) == Err::<OrdFilter<T>, FilterErrorView>(
                e@,
            ),
        },
{
    if str_eq(value, "none") {
        return Ok(OrdFilter::Missing);
    }
    let (op, rest) = match explode_args(value) {
        Ok(p) => p,
        Err(e) => {
            return Err(e);
        },
    };
    if str_eq(op, "eq") {
        match parse_or_err::<T>(rest) {
            Ok(v) => Ok(OrdFilter::Eq(v)),
            Err(e) => Err(e),
        }
    } else if str_eq(op, "neq") {
        match parse_or_err::<T>(rest) {
            Ok(v) => Ok(OrdFilter::Neq(v)),
            Err(e) => Err(e),
        }
    } else if str_eq(op, "gt") {
        match parse_or_err::<T>(rest) {
            Ok(v) => Ok(OrdFilter::Gt(v)),
            Err(e) => Err(e),
        }
    } else if str_eq(op, "lt") {
        match parse_or_err::<T>(rest) {
            Ok(v) => Ok(OrdFilter::Lt(v)),
            Err(e) => Err(e),
        }
    } else if str_eq(op, "gte") {
        match parse_or_err::<T>(rest) {
            Ok(v) => Ok(OrdFilter::Gte(v)),
            Err(e) => Err(e),
        }
    } else if str_eq(op, "lte") {
        match parse_or_err::<T>(rest) {
            Ok(v) => Ok(OrdFilter::Lte(v)),
            Err(e) => Err(e),
        }
    } else {
        Err(FilterError::UnknownOperator(value.to_owned()))
    }
}

} // verus!
