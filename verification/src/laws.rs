//! The engine's general laws, stated over the spec functions that the
//! executable functions are proved against, and proved once for all inputs.

use vstd::prelude::*;
use crate::filter::{spec_is_match, LogFilterView, LogRecordView};
use crate::grammar::{spec_parse_eq_filter, spec_parse_ord_filter, spec_parse_string_filter,
    FilterErrorView, ParseOperand};
use crate::predicate::{spec_apply_eq, spec_apply_eq_opt, spec_apply_ord, spec_apply_ord_opt,
    spec_apply_string, spec_apply_string_opt, EqFilter, FieldOrd, OrdFilter, StringFilterView};
use crate::text::{lemma_split_first_at, spec_first_at};

verus! {

/// `Any` is the identity of every predicate family: it accepts every value,
/// bare or optional, present or absent.
pub proof fn lemma_any_accepts_everything<T, U: FieldOrd>(
    v: T,
    ov: Option<T>,
    u: U,
    ou: Option<U>,
    s: Seq<char>,
    os: Option<Seq<char>>,
)
    ensures
        spec_apply_eq(v, EqFilter::Any),
        spec_apply_eq_opt(ov, EqFilter::Any),
        spec_apply_ord(u, OrdFilter::Any),
        spec_apply_ord_opt(ou, OrdFilter::Any),
        spec_apply_string(s, StringFilterView::Any),
        spec_apply_string_opt(os, StringFilterView::Any),
{
}

/// `Missing` rejects every bare value; on an optional value it accepts
/// exactly absence.
pub proof fn lemma_missing_accepts_exactly_absence<T, U: FieldOrd>(
    v: T,
    ov: Option<T>,
    u: U,
    ou: Option<U>,
    s: Seq<char>,
    os: Option<Seq<char>>,
)
    ensures
        !spec_apply_eq(v, EqFilter::Missing),
        spec_apply_eq_opt(ov, EqFilter::Missing) == (ov is None),
        !spec_apply_ord(u, OrdFilter::Missing),
        spec_apply_ord_opt(ou, OrdFilter::Missing) == (ou is None),
        !spec_apply_string(s, StringFilterView::Missing),
        spec_apply_string_opt(os, StringFilterView::Missing) == (os is None),
{
}

/// `Eq(x)` accepts `x` and rejects every other value.
pub proof fn lemma_eq_accepts_exactly<T>(x: T, y: T)
    ensures
        spec_apply_eq(x, EqFilter::Eq(x)),
        y != x ==> !spec_apply_eq(y, EqFilter::Eq(x)),
{
}

/// No value is strictly above itself, and every value is at-or-above itself.
pub proof fn lemma_order_on_itself<T: FieldOrd>(x: T)
    ensures
        !spec_apply_ord(x, OrdFilter::Gt(x)),
        spec_apply_ord(x, OrdFilter::Gte(x)),
{
    x.lemma_lt_irreflexive();
}

/// Grammar round trip for string predicates: the token `"eq "` followed by
/// any text builds the predicate `Eq` of that text, which accepts it.
pub proof fn lemma_round_trip_string(x: Seq<char>)
    ensures
        spec_parse_string_filter("eq "@ + x) == Ok::<StringFilterView, FilterErrorView>(
            StringFilterView::Eq(x),
        ),
        spec_apply_string(x, StringFilterView::Eq(x)),
{
    reveal_strlit("eq ");
    reveal_strlit("eq");
    reveal_strlit("none");
    reveal_strlit("contains");
    let tok = "eq "@ + x;
    assert(tok[0] == 'e' && tok[1] == 'q' && tok[2] == ' ');
    assert(tok != "none"@) by {
        if tok == "none"@ {
            assert(tok[2] == 'n');
        }
    }
    assert(spec_first_at(tok, ' ', 2)) by {
        assert(forall|j: int| 0 <= j < 2 ==> tok[j] != ' ') by {
            assert(tok[0] == 'e');
            assert(tok[1] == 'q');
        }
    }
    lemma_split_first_at(tok, ' ', 2);
    assert(tok.subrange(0, 2) =~= "eq"@);
    assert(tok.subrange(3, tok.len() as int) =~= x);
}

/// Grammar round trip for equality predicates over any operand type: when
/// the operand text denotes the value `v`, the token `"eq "` followed by that
/// text builds `Eq(v)`, which accepts exactly `v`.
pub proof fn lemma_round_trip_eq<T: ParseOperand>(s: Seq<char>, v: T)
    requires
        T::parse_spec(s) == Some(v),
    ensures
        spec_parse_eq_filter::<T>("eq "@ + s) == Ok::<EqFilter<T>, FilterErrorView>(
            EqFilter::Eq(v),
        ),
        spec_apply_eq(v, EqFilter::Eq(v)),
{
    reveal_strlit("eq ");
    reveal_strlit("eq");
    reveal_strlit("none");
    let tok = "eq "@ + s;
    assert(tok[0] == 'e' && tok[1] == 'q' && tok[2] == ' ');
    assert(tok != "none"@) by {
        if tok == "none"@ {
            assert(tok[2] == 'n');
        }
    }
    assert(spec_first_at(tok, ' ', 2)) by {
        assert(forall|j: int| 0 <= j < 2 ==> tok[j] != ' ') by {
            assert(tok[0] == 'e');
            assert(tok[1] == 'q');
        }
    }
    lemma_split_first_at(tok, ' ', 2);
    assert(tok.subrange(0, 2) =~= "eq"@);
    assert(tok.subrange(3, tok.len() as int) =~= s);
}

/// Grammar round trip for ordering predicates over any operand type: when
/// the operand text denotes the value `v`, the token `"eq "` followed by that
/// text builds `Eq(v)`, which accepts exactly `v`.
pub proof fn lemma_round_trip_ord<T: ParseOperand + FieldOrd>(s: Seq<char>, v: T)
    requires
        T::parse_spec(s) == Some(v),
    ensures
        spec_parse_ord_filter::<T>("eq "@ + s) == Ok::<OrdFilter<T>, FilterErrorView>(
            OrdFilter::Eq(v),
        ),
        spec_apply_ord(v, OrdFilter::Eq(v)),
{
    reveal_strlit("eq ");
    reveal_strlit("eq");
    reveal_strlit("none");
    let tok = "eq "@ + s;
    assert(tok[0] == 'e' && tok[1] == 'q' && tok[2] == ' ');
    assert(tok != "none"@) by {
        if tok == "none"@ {
            assert(tok[2] == 'n');
        }
    }
    assert(spec_first_at(tok, ' ', 2)) by {
        assert(forall|j: int| 0 <= j < 2 ==> tok[j] != ' ') by {
            assert(tok[0] == 'e');
            assert(tok[1] == 'q');
        }
    }
    lemma_split_first_at(tok, ' ', 2);
    assert(tok.subrange(0, 2) =~= "eq"@);
    assert(tok.subrange(3, tok.len() as int) =~= s);
}

/// Moving fields of a filter away from `Any` only restricts it: a record
/// matching a filter also matches every filter that relaxes some of its
/// fields back to `Any` and keeps the others.
pub proof fn lemma_match_monotone(r: LogRecordView, relaxed: LogFilterView, strict: LogFilterView)
    requires
        relaxed.ip == strict.ip || relaxed.ip is Any,
        relaxed.status_code == strict.status_code || relaxed.status_code is Any,
        relaxed.user_agent == strict.user_agent || relaxed.user_agent is Any,
        relaxed.timestamp == strict.timestamp || relaxed.timestamp is Any,
        spec_is_match(r, strict),
    ensures
        spec_is_match(r, relaxed),
{
}

} // verus!
