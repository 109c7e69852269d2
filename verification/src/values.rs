//! The filterable field value types — IP address, HTTP status code and
//! timestamp — as plain numeric data, with their equality and ordering
//! capabilities and their textual operand grammars.

use vstd::prelude::*;
use vstd::string::StrSliceExecFns;
use crate::grammar::ParseOperand;
use crate::predicate::{FieldEq, FieldOrd};
use crate::text::{spec_has_char, spec_split_first, split_first};

verus! {

/// An HTTP status code: a three-digit number.
#[derive(Clone, Copy, Debug, PartialEq, Eq, Structural)]
pub struct StatusCode {
    pub code: u16,
}

/// An IP address, version 4 or 6, as its plain numeric parts.
#[derive(Clone, Copy, Debug, PartialEq, Eq, Structural)]
pub enum IpAddress {
    V4(u8, u8, u8, u8),
    V6(u16, u16, u16, u16, u16, u16, u16, u16),
}

/// An instant in time: seconds since the Unix epoch together with the
/// nanoseconds since that second. The pair orders instants the way a
/// fixed-offset datetime is ordered, independent of its offset.
#[derive(Clone, Copy, Debug, PartialEq, Eq, Structural)]
pub struct Timestamp {
    pub secs: i64,
    pub nanos: u32,
}

impl FieldEq for StatusCode {
    fn eq_val(&self, other: &Self) -> (r: bool) {
        *self == *other
    }
}

impl FieldEq for IpAddress {
    fn eq_val(&self, other: &Self) -> (r: bool) {
        *self == *other
    }
}

impl FieldEq for Timestamp {
    fn eq_val(&self, other: &Self) -> (r: bool) {
        *self == *other
    }
}

impl FieldOrd for Timestamp {
    open spec fn lt_spec(&self, other: &Self) -> bool {
        self.secs < other.secs || (self.secs == other.secs && self.nanos < other.nanos)
    }

    proof fn lemma_lt_irreflexive(&self) {
    }

    fn lt_val(&self, other: &Self) -> (r: bool) {
        self.secs < other.secs || (self.secs == other.secs && self.nanos < other.nanos)
    }
}

/// An ASCII decimal digit.
pub open spec fn spec_is_digit(c: char) -> bool {
    48 <= c as u32 <= 57
}

/// The numeric value of an ASCII decimal digit.
pub open spec fn spec_digit_val(c: char) -> int {
    c as u32 - 48
}

/// The numeric value of an ASCII decimal digit, or nothing for any other
/// character.
fn digit_of(c: char) -> (r: Option<u8>)
    ensures
        r == if spec_is_digit(c) {
            Some(spec_digit_val(c) as u8)
        } else {
            Option::<u8>::None
        },
{
    let u = c as u32;
    if 48 <= u && u <= 57 {
        Some((u - 48) as u8)
    } else {
        Option::None
    }
}

/// The grammar of an HTTP status literal: exactly three ASCII digits, the
/// first one nonzero. The value is the three-digit number, so it always lies
/// between 100 and 999.
pub open spec fn spec_parse_status(s: Seq<char>) -> Option<StatusCode> {
    if s.len() == 3 && spec_is_digit(s[0]) && s[0] != '0' && spec_is_digit(s[1]) && spec_is_digit(
        s[2],
    ) {
        Some(
            StatusCode {
                code: (spec_digit_val(s[0]) * 100 + spec_digit_val(s[1]) * 10 + spec_digit_val(
                    s[2],
                )) as u16,
            },
        )
    } else {
        Option::None
    }
}

/// Relies on `http::StatusCode`'s `FromStr` impl, which goes through
/// `StatusCode::from_bytes`: it accepts exactly three ASCII digits whose
/// first digit is nonzero, and `StatusCode::as_u16` hands back their numeric
/// value.
#[verifier::external_body]
fn parse_status_code(s: &str) -> (r: Option<u16>)
    ensures
        r == match spec_parse_status(s@) {
            Some(c) => Some(c.code),
            Option::None => Option::<u16>::None,
        },
{
    match s.parse::<http::StatusCode>() {
        Ok(c) => Some(c.as_u16()),
        Err(_) => None,
    }
}

/// The instant an RFC 3339 datetime text denotes, as seconds since the Unix
/// epoch and nanoseconds since that second, or nothing for text that is not a
/// well-formed datetime with offset.
pub uninterp spec fn rfc3339_instant(s: Seq<char>) -> Option<(i64, u32)>;

/// Relies on chrono's `FromStr` impl for `DateTime<FixedOffset>` — a relaxed
/// RFC 3339 parser — together with `DateTime::timestamp` and
/// `DateTime::timestamp_subsec_nanos`: the accepted texts and the instants
/// they denote depend on the characters alone.
#[verifier::external_body]
fn parse_timestamp(s: &str) -> (r: Option<(i64, u32)>)
    ensures
        r == rfc3339_instant(s@),
{
    match s.parse::<chrono::DateTime<chrono::FixedOffset>>() {
        Ok(dt) => Some((dt.timestamp(), dt.timestamp_subsec_nanos())),
        Err(_) => None,
    }
}

/// A decimal octet of a dotted-quad address: one to three digits, no leading
/// zero, value at most 255.
pub open spec fn spec_is_octet(s: Seq<char>) -> bool {
    &&& 1 <= s.len() <= 3
    &&& forall|i: int| 0 <= i < s.len() ==> spec_is_digit(s[i])
    &&& (s.len() > 1 ==> s[0] != '0')
    &&& spec_octet_val(s) <= 255
}

/// The numeric value of one to three decimal digits.
pub open spec fn spec_octet_val(s: Seq<char>) -> int {
    if s.len() == 1 {
        spec_digit_val(s[0])
    } else if s.len() == 2 {
        spec_digit_val(s[0]) * 10 + spec_digit_val(s[1])
    } else {
        spec_digit_val(s[0]) * 100 + spec_digit_val(s[1]) * 10 + spec_digit_val(s[2])
    }
}

/// Parses one decimal octet.
fn parse_octet(s: &str) -> (r: Option<u8>)
    ensures
        r == if spec_is_octet(s@) {
            Some(spec_octet_val(s@) as u8)
        } else {
            Option::<u8>::None
        },
{
    let n = s.unicode_len();
    if n == 1 {
        digit_of(s.get_char(0))
    } else if n == 2 {
        match (digit_of(s.get_char(0)), digit_of(s.get_char(1))) {
            (Some(d0), Some(d1)) => if d0 != 0 {
                Some(d0 * 10 + d1)
            } else {
                Option::None
            },
            _ => Option::None,
        }
    } else if n == 3 {
        match (digit_of(s.get_char(0)), digit_of(s.get_char(1)), digit_of(s.get_char(2))) {
            (Some(d0), Some(d1), Some(d2)) => {
                if d0 == 0 {
                    Option::None
                } else {
                    let v: u32 = d0 as u32 * 100 + d1 as u32 * 10 + d2 as u32;
                    if v <= 255 {
                        Some(v as u8)
                    } else {
                        Option::None
                    }
                }
            },
            _ => Option::None,
        }
    } else {
        Option::None
    }
}

/// The dotted-quad IPv4 grammar: four decimal octets joined by `.`.
pub open spec fn spec_parse_ipv4(s: Seq<char>) -> Option<IpAddress> {
    match spec_split_first(s, '.') {
        Option::None => Option::None,
        Some((a, r1)) => match spec_split_first(r1, '.') {
            Option::None => Option::None,
            Some((b, r2)) => match spec_split_first(r2, '.') {
                Option::None => Option::None,
                Some((c, d)) => if !spec_has_char(d, '.') && spec_is_octet(a) && spec_is_octet(b)
                    && spec_is_octet(c) && spec_is_octet(d) {
                    Some(
                        IpAddress::V4(
                            spec_octet_val(a) as u8,
                            spec_octet_val(b) as u8,
                            spec_octet_val(c) as u8,
                            spec_octet_val(d) as u8,
                        ),
                    )
                } else {
                    Option::None
                },
            },
        },
    }
}

/// Parses a dotted-quad IPv4 address literal.
pub fn parse_ipv4(s: &str) -> (r: Option<IpAddress>)
    ensures
        r == spec_parse_ipv4(s@),
{
    match split_first(s, '.') {
        Option::None => Option::None,
        Some((a, r1)) => match split_first(r1, '.') {
            Option::None => Option::None,
            Some((b, r2)) => match split_first(r2, '.') {
                Option::None => Option::None,
                Some((c, d)) => match split_first(d, '.') {
                    Some(_) => Option::None,
                    Option::None => match (
                        parse_octet(a),
                        parse_octet(b),
                        parse_octet(c),
                        parse_octet(d),
                    ) {
                        (Some(va), Some(vb), Some(vc), Some(vd)) => Some(
                            IpAddress::V4(va, vb, vc, vd),
                        ),
                        _ => Option::None,
                    },
                },
            },
        },
    }
}

/// An ASCII hexadecimal digit, either case.
pub open spec fn spec_is_hex_digit(c: char) -> bool {
    (48 <= c as u32 <= 57) || (97 <= c as u32 <= 102) || (65 <= c as u32 <= 70)
}

/// The numeric value of an ASCII hexadecimal digit.
pub open spec fn spec_hex_digit_val(c: char) -> int {
    if 48 <= c as u32 <= 57 {
        c as u32 - 48
    } else if 97 <= c as u32 <= 102 {
        c as u32 - 87
    } else {
        c as u32 - 55
    }
}

/// The numeric value of an ASCII hexadecimal digit, or nothing for any other
/// character.
fn hex_digit_of(c: char) -> (r: Option<u8>)
    ensures
        r == if spec_is_hex_digit(c) {
            Some(spec_hex_digit_val(c) as u8)
        } else {
            Option::<u8>::None
        },
{
    let u = c as u32;
    if 48 <= u && u <= 57 {
        Some((u - 48) as u8)
    } else if 97 <= u && u <= 102 {
        Some((u - 87) as u8)
    } else if 65 <= u && u <= 70 {
        Some((u - 55) as u8)
    } else {
        Option::None
    }
}

/// A group of an IPv6 address: one to four hexadecimal digits.
pub open spec fn spec_is_hex_group(s: Seq<char>) -> bool {
    &&& 1 <= s.len() <= 4
    &&& forall|i: int| 0 <= i < s.len() ==> spec_is_hex_digit(s[i])
}

/// The numeric value of one to four hexadecimal digits.
pub open spec fn spec_hex_group_val(s: Seq<char>) -> int {
    if s.len() == 1 {
        spec_hex_digit_val(s[0])
    } else if s.len() == 2 {
        spec_hex_digit_val(s[0]) * 16 + spec_hex_digit_val(s[1])
    } else if s.len() == 3 {
        spec_hex_digit_val(s[0]) * 256 + spec_hex_digit_val(s[1]) * 16 + spec_hex_digit_val(s[2])
    } else {
        spec_hex_digit_val(s[0]) * 4096 + spec_hex_digit_val(s[1]) * 256 + spec_hex_digit_val(
            s[2],
        ) * 16 + spec_hex_digit_val(s[3])
    }
}

/// Parses one hexadecimal group of an IPv6 address.
fn parse_hex_group(s: &str) -> (r: Option<u16>)
    ensures
        r == if spec_is_hex_group(s@) {
            Some(spec_hex_group_val(s@) as u16)
        } else {
            Option::<u16>::None
        },
{
    let n = s.unicode_len();
    if n == 1 {
        match hex_digit_of(s.get_char(0)) {
            Some(d0) => Some(d0 as u16),
            Option::None => Option::None,
        }
    } else if n == 2 {
        match (hex_digit_of(s.get_char(0)), hex_digit_of(s.get_char(1))) {
            (Some(d0), Some(d1)) => Some(d0 as u16 * 16 + d1 as u16),
            _ => Option::None,
        }
    } else if n == 3 {
        match (hex_digit_of(s.get_char(0)), hex_digit_of(s.get_char(1)), hex_digit_of(
            s.get_char(2),
        )) {
            (Some(d0), Some(d1), Some(d2)) => Some(
                d0 as u16 * 256 + d1 as u16 * 16 + d2 as u16,
            ),
            _ => Option::None,
        }
    } else if n == 4 {
        match (hex_digit_of(s.get_char(0)), hex_digit_of(s.get_char(1)), hex_digit_of(
            s.get_char(2),
        ), hex_digit_of(s.get_char(3))) {
            (Some(d0), Some(d1), Some(d2), Some(d3)) => Some(
                d0 as u16 * 4096 + d1 as u16 * 256 + d2 as u16 * 16 + d3 as u16,
            ),
            _ => Option::None,
        }
    } else {
        Option::None
    }
}

/// The position of the first `::` in the text, if any.
pub open spec fn spec_find_dc(s: Seq<char>) -> Option<int>
    decreases s.len(),
{
    if s.len() < 2 {
        Option::None
    } else if s[0] == ':' && s[1] == ':' {
        Some(0int)
    } else {
        match spec_find_dc(s.drop_first()) {
            Some(i) => Some(i + 1),
            Option::None => Option::None,
        }
    }
}

/// Finds the first `::` in the text.
fn find_dc(s: &str) -> (r: Option<usize>)
    ensures
        match spec_find_dc(s@) {
            Some(i) => r matches Some(j) && j as int == i && j + 2 <= s@.len(),
            Option::None => r is None,
        },
    decreases s@.len(),
{
    let n = s.unicode_len();
    if n < 2 {
        return Option::None;
    }
    if s.get_char(0) == ':' && s.get_char(1) == ':' {
        return Some(0);
    }
    let rest = s.substring_char(1, n);
    proof {
        assert(rest@ =~= s@.drop_first());
    }
    match find_dc(rest) {
        Some(j) => Some(j + 1),
        Option::None => Option::None,
    }
}

/// The colon-separated hexadecimal groups of a piece of IPv6 text, at most
/// `limit` of them; more groups, or anything besides hexadecimal groups,
/// yields nothing.
pub open spec fn spec_parse_groups(s: Seq<char>, limit: nat) -> Option<Seq<u16>>
    decreases limit,
{
    if limit == 0 {
        Option::None
    } else {
        match spec_split_first(s, ':') {
            Option::None => if spec_is_hex_group(s) {
                Some(seq![spec_hex_group_val(s) as u16])
            } else {
                Option::None
            },
            Some((g, rest)) => if spec_is_hex_group(g) {
                match spec_parse_groups(rest, (limit - 1) as nat) {
                    Some(t) => Some(seq![spec_hex_group_val(g) as u16] + t),
                    Option::None => Option::None,
                }
            } else {
                Option::None
            },
        }
    }
}

/// Like [`spec_parse_groups`], but the last part may instead be a dotted-quad
/// IPv4 address, which stands for the final two groups.
pub open spec fn spec_parse_tail(s: Seq<char>, limit: nat) -> Option<Seq<u16>>
    decreases limit,
{
    if limit == 0 {
        Option::None
    } else {
        match spec_split_first(s, ':') {
            Option::None => if spec_is_hex_group(s) {
                Some(seq![spec_hex_group_val(s) as u16])
            } else {
                match spec_parse_ipv4(s) {
                    Some(a) => if limit >= 2 {
                        match a {
                            IpAddress::V4(x, y, z, w) => Some(
                                seq![
                                    ((x as int) * 256 + (y as int)) as u16,
                                    ((z as int) * 256 + (w as int)) as u16,
                                ],
                            ),
                            _ => Option::None,
                        }
                    } else {
                        Option::None
                    },
                    Option::None => Option::None,
                }
            },
            Some((g, rest)) => if spec_is_hex_group(g) {
                match spec_parse_tail(rest, (limit - 1) as nat) {
                    Some(t) => Some(seq![spec_hex_group_val(g) as u16] + t),
                    Option::None => Option::None,
                }
            } else {
                Option::None
            },
        }
    }
}

/// Parses at most `limit` colon-separated hexadecimal groups.
fn parse_groups(s: &str, limit: u32) -> (r: Option<Vec<u16>>)
    ensures
        match spec_parse_groups(s@, limit as nat) {
            Some(gs) => r matches Some(v) && v@ == gs,
            Option::None => r is None,
        },
    decreases limit,
{
    if limit == 0 {
        return Option::None;
    }
    match split_first(s, ':') {
        Option::None => match parse_hex_group(s) {
            Some(v) => {
                let mut out: Vec<u16> = Vec::new();
                out.push(v);
                proof {
                    assert(out@ =~= seq![v]);
                }
                Some(out)
            },
            Option::None => Option::None,
        },
        Some((g, rest)) => match parse_hex_group(g) {
            Some(v) => match parse_groups(rest, limit - 1) {
                Some(mut t) => {
                    let ghost t0 = t@;
                    let mut out: Vec<u16> = Vec::new();
                    out.push(v);
                    out.append(&mut t);
                    proof {
                        assert(out@ =~= seq![v] + t0);
                    }
                    Some(out)
                },
                Option::None => Option::None,
            },
            Option::None => Option::None,
        },
    }
}

/// Parses at most `limit` groups where the last part may be a dotted quad.
fn parse_tail(s: &str, limit: u32) -> (r: Option<Vec<u16>>)
    ensures
        match spec_parse_tail(s@, limit as nat) {
            Some(gs) => r matches Some(v) && v@ == gs,
            Option::None => r is None,
        },
    decreases limit,
{
    if limit == 0 {
        return Option::None;
    }
    match split_first(s, ':') {
        Option::None => match parse_hex_group(s) {
            Some(v) => {
                let mut out: Vec<u16> = Vec::new();
                out.push(v);
                proof {
                    assert(out@ =~= seq![v]);
                }
                Some(out)
            },
            Option::None => match parse_ipv4(s) {
                Some(IpAddress::V4(x, y, z, w)) => if limit >= 2 {
                    let mut out: Vec<u16> = Vec::new();
                    out.push(x as u16 * 256 + y as u16);
                    out.push(z as u16 * 256 + w as u16);
                    proof {
                        assert(out@ =~= seq![
                            ((x as int) * 256 + (y as int)) as u16,
                            ((z as int) * 256 + (w as int)) as u16,
                        ]);
                    }
                    Some(out)
                } else {
                    Option::None
                },
                Some(_) => Option::None,
                Option::None => Option::None,
            },
        },
        Some((g, rest)) => match parse_hex_group(g) {
            Some(v) => match parse_tail(rest, limit - 1) {
                Some(mut t) => {
                    let ghost t0 = t@;
                    let mut out: Vec<u16> = Vec::new();
                    out.push(v);
                    out.append(&mut t);
                    proof {
                        assert(out@ =~= seq![v] + t0);
                    }
                    Some(out)
                },
                Option::None => Option::None,
            },
            Option::None => Option::None,
        },
    }
}

/// The address whose eight groups are the given sequence.
pub open spec fn spec_groups_to_v6(gs: Seq<u16>) -> IpAddress {
    IpAddress::V6(gs[0], gs[1], gs[2], gs[3], gs[4], gs[5], gs[6], gs[7])
}

/// Builds the address from its eight groups.
fn v6_of(v: &Vec<u16>) -> (r: IpAddress)
    requires
        v@.len() == 8,
    ensures
        r == spec_groups_to_v6(v@),
{
    IpAddress::V6(v[0], v[1], v[2], v[3], v[4], v[5], v[6], v[7])
}

/// The IPv6 grammar: eight hexadecimal groups joined by `:`, where at most
/// one `::` stands for one or more zero groups and the last two groups may be
/// written as a dotted-quad IPv4 address.
pub open spec fn spec_parse_ipv6(s: Seq<char>) -> Option<IpAddress> {
    match spec_find_dc(s) {
        Option::None => match spec_parse_tail(s, 8) {
            Some(gs) => if gs.len() == 8 {
                Some(spec_groups_to_v6(gs))
            } else {
                Option::None
            },
            Option::None => Option::None,
        },
        Some(i) => {
            let left = s.subrange(0, i);
            let right = s.subrange(i + 2, s.len() as int);
            let lg = if left.len() == 0 {
                Some(Seq::<u16>::empty())
            } else {
                spec_parse_groups(left, 8)
            };
            let rg = if right.len() == 0 {
                Some(Seq::<u16>::empty())
            } else {
                spec_parse_tail(right, 8)
            };
            match (lg, rg) {
                (Some(lo), Some(hi)) => if lo.len() + hi.len() <= 7 {
                    Some(
                        spec_groups_to_v6(
                            lo + Seq::new((8 - lo.len() - hi.len()) as nat, |k: int| 0u16) + hi,
                        ),
                    )
                } else {
                    Option::None
                },
                _ => Option::None,
            }
        },
    }
}

/// Parses an IPv6 address literal.
pub fn parse_ipv6(s: &str) -> (r: Option<IpAddress>)
    ensures
        r == spec_parse_ipv6(s@),
{
    let n = s.unicode_len();
    match find_dc(s) {
        Option::None => match parse_tail(s, 8) {
            Some(gs) => if gs.len() == 8 {
                Some(v6_of(&gs))
            } else {
                Option::None
            },
            Option::None => Option::None,
        },
        Some(i) => {
            let left = s.substring_char(0, i);
            let right = s.substring_char(i + 2, n);
            let lg: Option<Vec<u16>> = if left.unicode_len() == 0 {
                Some(Vec::new())
            } else {
                parse_groups(left, 8)
            };
            let rg: Option<Vec<u16>> = if right.unicode_len() == 0 {
                Some(Vec::new())
            } else {
                parse_tail(right, 8)
            };
            match (lg, rg) {
                (Some(lo), Some(hi)) => {
                    if lo.len() <= 7 && hi.len() <= 7 - lo.len() {
                        let ghost lo0 = lo@;
                        let ghost hi0 = hi@;
                        let zeros: usize = 8 - lo.len() - hi.len();
                        let mut out = lo;
                        let mut k: usize = 0;
                        while k < zeros
                            invariant
                                k <= zeros,
                                out@ == lo0 + Seq::new(k as nat, |j: int| 0u16),
                            decreases zeros - k,
                        {
                            out.push(0u16);
                            k += 1;
                            proof {
                                assert(out@ =~= lo0 + Seq::new(k as nat, |j: int| 0u16));
                            }
                        }
                        let mut tail = hi;
                        out.append(&mut tail);
                        proof {
                            assert(out@ =~= lo0 + Seq::new(
                                (8 - lo0.len() - hi0.len()) as nat,
                                |j: int| 0u16,
                            ) + hi0);
                        }
                        Some(v6_of(&out))
                    } else {
                        Option::None
                    }
                },
                _ => Option::None,
            }
        },
    }
}

impl ParseOperand for StatusCode {
    open spec fn parse_spec(s: Seq<char>) -> Option<StatusCode> {
        spec_parse_status(s)
    }

    fn parse_operand(s: &str) -> (r: Option<StatusCode>) {
        match parse_status_code(s) {
            Some(v) => Some(StatusCode { code: v }),
            Option::None => Option::None,
        }
    }
}

impl ParseOperand for IpAddress {
    open spec fn parse_spec(s: Seq<char>) -> Option<IpAddress> {
        match spec_parse_ipv4(s) {
            Some(a) => Some(a),
            Option::None => spec_parse_ipv6(s),
        }
    }

    fn parse_operand(s: &str) -> (r: Option<IpAddress>) {
        match parse_ipv4(s) {
            Some(a) => Some(a),
            Option::None => parse_ipv6(s),
        }
    }
}

impl ParseOperand for Timestamp {
    open spec fn parse_spec(s: Seq<char>) -> Option<Timestamp> {
        match rfc3339_instant(s) {
            Some((secs, nanos)) => Some(Timestamp { secs, nanos }),
            Option::None => Option::None,
        }
    }

    fn parse_operand(s: &str) -> (r: Option<Timestamp>) {
        match parse_timestamp(s) {
            Some((secs, nanos)) => Some(Timestamp { secs, nanos }),
            Option::None => Option::None,
        }
    }
}

} // verus!
