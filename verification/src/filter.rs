//! The record filter: one predicate per filterable field of a log record,
//! all defaulting to `Any`, combined by logical AND into a single match
//! decision per record.

use vstd::prelude::*;
use crate::grammar::{parse_eq_filter, parse_ord_filter, parse_string_filter,
    spec_parse_eq_filter, spec_parse_ord_filter, spec_parse_string_filter, FilterError,
    FilterErrorView};
use crate::predicate::{apply_eq, apply_ord, apply_string_opt, spec_apply_eq, spec_apply_ord,
    spec_apply_string_opt, EqFilter, OrdFilter, StringFilter, StringFilterView};
use crate::values::{IpAddress, StatusCode, Timestamp};

verus! {

/// A parsed log record reduced to its filterable fields.
#[derive(Clone, Debug)]
pub struct LogRecord {
    pub ip: IpAddress,
    pub status_code: StatusCode,
    pub user_agent: Option<String>,
    pub timestamp: Timestamp,
}

/// The mathematical model of a [`LogRecord`].
pub struct LogRecordView {
    pub ip: IpAddress,
    pub status_code: StatusCode,
    pub user_agent: Option<Seq<char>>,
    pub timestamp: Timestamp,
}

impl View for LogRecord {
    type V = LogRecordView;

    open spec fn view(&self) -> LogRecordView {
        LogRecordView {
            ip: self.ip,
            status_code: self.status_code,
            user_agent: match self.user_agent {
                Some(s) => Some(s@),
                Option::None => Option::None,
            },
            timestamp: self.timestamp,
        }
    }
}

/// The raw per-field tokens handed in from the command line; a field without
/// a token keeps its default `Any` predicate.
#[derive(Clone, Debug)]
pub struct FilterArgs {
    pub status_code: Option<String>,
    pub user_agent: Option<String>,
    pub ip: Option<String>,
    pub timestamp: Option<String>,
}

/// The mathematical model of [`FilterArgs`].
pub struct FilterArgsView {
    pub status_code: Option<Seq<char>>,
    pub user_agent: Option<Seq<char>>,
    pub ip: Option<Seq<char>>,
    pub timestamp: Option<Seq<char>>,
}

impl View for FilterArgs {
    type V = FilterArgsView;

    open spec fn view(&self) -> FilterArgsView {
        FilterArgsView {
            status_code: match self.status_code {
                Some(s) => Some(s@),
                Option::None => Option::None,
            },
            user_agent: match self.user_agent {
                Some(s) => Some(s@),
                Option::None => Option::None,
            },
            ip: match self.ip {
                Some(s) => Some(s@),
                Option::None => Option::None,
            },
            timestamp: match self.timestamp {
                Some(s) => Some(s@),
                Option::None => Option::None,
            },
        }
    }
}

/// The record filter: one predicate per filterable field.
#[derive(Clone, Debug)]
pub struct LogFilter {
    pub user_agent: StringFilter,
    pub status_code: EqFilter<StatusCode>,
    pub ip: EqFilter<IpAddress>,
    pub timestamp: OrdFilter<Timestamp>,
}

/// The mathematical model of a [`LogFilter`].
pub struct LogFilterView {
    pub user_agent: StringFilterView,
    pub status_code: EqFilter<StatusCode>,
    pub ip: EqFilter<IpAddress>,
    pub timestamp: OrdFilter<Timestamp>,
}

impl View for LogFilter {
    type V = LogFilterView;

    open spec fn view(&self) -> LogFilterView {
        LogFilterView {
            user_agent: self.user_agent@,
            status_code: self.status_code,
            ip: self.ip,
            timestamp: self.timestamp,
        }
    }
}

/// The filter whose every field is `Any`, which accepts every record.
pub open spec fn spec_any_filter() -> LogFilterView {
    LogFilterView {
        user_agent: StringFilterView::Any,
        status_code: EqFilter::Any,
        ip: EqFilter::Any,
        timestamp: OrdFilter::Any,
    }
}

/// Building the filter from the raw tokens: an absent token keeps `Any`, and
/// the first failing token decides the error, the fields tried in the order
/// status code, user agent, ip, timestamp.
pub open spec fn spec_try_from(a: FilterArgsView) -> Result<LogFilterView, FilterErrorView> {
    let sc = match a.status_code {
        Some(s) => spec_parse_eq_filter::<StatusCode>(s),
        Option::None => Ok(EqFilter::Any),
    };
    match sc {
        Err(e) => Err(e),
        Ok(status_code) => {
            let ua = match a.user_agent {
                Some(s) => spec_parse_string_filter(s),
                Option::None => Ok(StringFilterView::Any),
            };
            match ua {
                Err(e) => Err(e),
                Ok(user_agent) => {
                    let ipf = match a.ip {
                        Some(s) => spec_parse_eq_filter::<IpAddress>(s),
                        Option::None => Ok(EqFilter::Any),
                    };
                    match ipf {
                        Err(e) => Err(e),
                        Ok(ip) => {
                            let ts = match a.timestamp {
                                Some(s) => spec_parse_ord_filter::<Timestamp>(s),
                                Option::None => Ok(OrdFilter::Any),
                            };
                            match ts {
                                Err(e) => Err(e),
                                Ok(timestamp) => Ok(
                                    LogFilterView { user_agent, status_code, ip, timestamp },
                                ),
                            }
                        },
                    }
                },
            }
        },
    }
}

/// A record matches iff every field's predicate accepts the field's value.
pub open spec fn spec_is_match(r: LogRecordView, f: LogFilterView) -> bool {
    &&& spec_apply_eq(r.ip, f.ip)
    &&& spec_apply_eq(r.status_code, f.status_code)
    &&& spec_apply_string_opt(r.user_agent, f.user_agent)
    &&& spec_apply_ord(r.timestamp, f.timestamp)
}

impl LogFilter {
    /// The filter whose every field is `Any`.
    pub fn any() -> (r: LogFilter)
        ensures
            r@ == spec_any_filter(),
    {
        LogFilter {
            user_agent: StringFilter::Any,
            status_code: EqFilter::Any,
            ip: EqFilter::Any,
            timestamp: OrdFilter::Any,
        }
    }

    /// Builds the filter from the raw per-field tokens.
    pub fn try_from(args: FilterArgs) -> (r: Result<LogFilter, FilterError>)
        ensures
            match r {
                Ok(f) => spec_try_from(args@) == Ok::<LogFilterView, FilterErrorView>(f@),
                Err(e) => spec_try_from(args@) == Err::<LogFilterView, FilterErrorView>(e@),
            },
    {
        let FilterArgs { status_code, user_agent, ip, timestamp } = args;
        let status_code = match status_code {
            Some(s) => match parse_eq_filter::<StatusCode>(s.as_str()) {
                Ok(f) => f,
                Err(e) => {
                    return Err(e);
                },
            },
            Option::None => EqFilter::Any,
        };
        let user_agent = match user_agent {
            Some(s) => match parse_string_filter(s.as_str()) {
                Ok(f) => f,
                Err(e) => {
                    return Err(e);
                },
            },
            Option::None => StringFilter::Any,
        };
        let ip = match ip {
            Some(s) => match parse_eq_filter::<IpAddress>(s.as_str()) {
                Ok(f) => f,
                Err(e) => {
                    return Err(e);
                },
            },
            Option::None => EqFilter::Any,
        };
        let timestamp = match timestamp {
            Some(s) => match parse_ord_filter::<Timestamp>(s.as_str()) {
                Ok(f) => f,
                Err(e) => {
                    return Err(e);
                },
            },
            Option::None => OrdFilter::Any,
        };
        Ok(LogFilter { user_agent, status_code, ip, timestamp })
    }
}

impl Default for LogFilter {
    /// The default filter is the all-`Any` filter.
    fn default() -> (r: LogFilter)
        ensures
            r@ == spec_any_filter(),
    {
        LogFilter::any()
    }
}

impl LogRecord {
    /// Decides whether this record satisfies every predicate of the filter.
    pub fn is_match(&self, filter: &LogFilter) -> (r: bool)
        ensures
            r == spec_is_match(self@, filter@),
    {
        apply_eq(&self.ip, &filter.ip) && apply_eq(&self.status_code, &filter.status_code)
            && apply_string_opt(&self.user_agent, &filter.user_agent) && apply_ord(
            &self.timestamp,
            &filter.timestamp,
        )
    }
}

} // verus!
