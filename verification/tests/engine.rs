use log_filter::filter::{FilterArgs, LogFilter, LogRecord};
use log_filter::grammar::{explode_args, parse_eq_filter, parse_or_err, parse_ord_filter,
    parse_string_filter, FilterError};
use log_filter::predicate::{apply_eq, apply_eq_opt, apply_ord, apply_ord_opt, apply_string,
    apply_string_opt, EqFilter, OrdFilter, StringFilter};
use log_filter::values::{parse_ipv4, parse_ipv6, IpAddress, StatusCode, Timestamp};

fn ts(text: &str) -> Timestamp {
    let dt = chrono::DateTime::parse_from_rfc3339(text).unwrap();
    Timestamp { secs: dt.timestamp(), nanos: dt.timestamp_subsec_nanos() }
}

fn record(ip: IpAddress, code: u16, agent: Option<&str>, when: &str) -> LogRecord {
    LogRecord {
        ip,
        status_code: StatusCode { code },
        user_agent: agent.map(|s| s.to_string()),
        timestamp: ts(when),
    }
}

fn chrome_record() -> LogRecord {
    record(
        IpAddress::V4(193, 105, 7, 171),
        200,
        Some("Mozilla/5.0 Chrome/91"),
        "2023-02-12T14:34:20+00:00",
    )
}

#[test]
fn any_accepts_every_value() {
    let sc = StatusCode { code: 503 };
    assert!(apply_eq(&sc, &EqFilter::Any));
    assert!(apply_eq_opt(&None::<StatusCode>, &EqFilter::Any));
    assert!(apply_eq_opt(&Some(sc), &EqFilter::Any));
    let t = ts("2023-02-12T14:34:20+00:00");
    assert!(apply_ord(&t, &OrdFilter::Any));
    assert!(apply_ord_opt(&None::<Timestamp>, &OrdFilter::Any));
    assert!(apply_string("anything", &StringFilter::Any));
    assert!(apply_string_opt(&None, &StringFilter::Any));
}

#[test]
fn missing_accepts_exactly_absence() {
    let sc = StatusCode { code: 200 };
    assert!(!apply_eq(&sc, &EqFilter::Missing));
    assert!(apply_eq_opt(&None::<StatusCode>, &EqFilter::Missing));
    assert!(!apply_eq_opt(&Some(sc), &EqFilter::Missing));
    let t = ts("2023-02-12T14:34:20+00:00");
    assert!(!apply_ord(&t, &OrdFilter::Missing));
    assert!(apply_ord_opt(&None::<Timestamp>, &OrdFilter::Missing));
    assert!(!apply_string("x", &StringFilter::Missing));
    assert!(apply_string_opt(&None, &StringFilter::Missing));
    assert!(!apply_string_opt(&Some("x".to_string()), &StringFilter::Missing));
}

#[test]
fn eq_accepts_exactly_the_payload() {
    let a = IpAddress::V4(203, 0, 113, 5);
    let b = IpAddress::V4(203, 0, 113, 6);
    assert!(apply_eq(&a, &EqFilter::Eq(a)));
    assert!(!apply_eq(&b, &EqFilter::Eq(a)));
    assert!(!apply_eq(&a, &EqFilter::Neq(a)));
    assert!(apply_eq(&b, &EqFilter::Neq(a)));
}

#[test]
fn neq_on_optional_requires_presence() {
    let sc = StatusCode { code: 200 };
    let other = StatusCode { code: 404 };
    assert!(!apply_eq_opt(&None::<StatusCode>, &EqFilter::Neq(sc)));
    assert!(!apply_eq_opt(&Some(sc), &EqFilter::Neq(sc)));
    assert!(apply_eq_opt(&Some(other), &EqFilter::Neq(sc)));
    assert!(!apply_eq_opt(&None::<StatusCode>, &EqFilter::Eq(sc)));
}

#[test]
fn order_on_the_payload_itself() {
    let t = ts("2023-02-12T14:34:20+00:00");
    assert!(!apply_ord(&t, &OrdFilter::Gt(t)));
    assert!(apply_ord(&t, &OrdFilter::Gte(t)));
    assert!(!apply_ord(&t, &OrdFilter::Lt(t)));
    assert!(apply_ord(&t, &OrdFilter::Lte(t)));
    assert!(apply_ord(&t, &OrdFilter::Eq(t)));
    assert!(!apply_ord(&t, &OrdFilter::Neq(t)));
}

#[test]
fn order_between_instants() {
    let earlier = ts("2023-02-12T14:34:20+00:00");
    let later = ts("2023-02-12T14:34:21+00:00");
    assert!(apply_ord(&later, &OrdFilter::Gt(earlier)));
    assert!(!apply_ord(&earlier, &OrdFilter::Gt(later)));
    assert!(apply_ord(&earlier, &OrdFilter::Lt(later)));
    assert!(apply_ord_opt(&Some(later), &OrdFilter::Gt(earlier)));
    assert!(!apply_ord_opt(&None::<Timestamp>, &OrdFilter::Gt(earlier)));
}

#[test]
fn equal_instants_with_different_offsets() {
    let utc = ts("2023-02-12T14:34:20+00:00");
    let shifted = ts("2023-02-12T15:34:20+01:00");
    assert!(apply_eq(&utc, &EqFilter::Eq(shifted)));
    assert!(apply_ord(&utc, &OrdFilter::Gte(shifted)));
    assert!(!apply_ord(&utc, &OrdFilter::Gt(shifted)));
}

#[test]
fn string_operators() {
    assert!(apply_string("Mozilla/5.0 Chrome/91", &StringFilter::Contains("Chrome".to_string())));
    assert!(!apply_string("curl/7.64", &StringFilter::Contains("Chrome".to_string())));
    assert!(apply_string("curl/7.64", &StringFilter::StartsWith("curl".to_string())));
    assert!(!apply_string("curl/7.64", &StringFilter::StartsWith("url".to_string())));
    assert!(apply_string("curl/7.64", &StringFilter::EndsWith("64".to_string())));
    assert!(!apply_string("curl/7.64", &StringFilter::EndsWith("curl".to_string())));
    assert!(apply_string("curl/7.64", &StringFilter::Eq("curl/7.64".to_string())));
    assert!(!apply_string("curl/7.64", &StringFilter::Eq("curl".to_string())));
    assert!(apply_string("anything", &StringFilter::Contains(String::new())));
    assert!(apply_string("", &StringFilter::Contains(String::new())));
    assert!(!apply_string("", &StringFilter::Contains("x".to_string())));
}

#[test]
fn explode_splits_at_the_first_space() {
    let (op, rest) = explode_args("contains a b").unwrap();
    assert_eq!(op, "contains");
    assert_eq!(rest, "a b");
    let (op, rest) = explode_args("eq  padded").unwrap();
    assert_eq!(op, "eq");
    assert_eq!(rest, " padded");
    let err = explode_args("gt").unwrap_err();
    assert!(matches!(err, FilterError::Format(ref raw) if raw == "gt"));
}

#[test]
fn parse_or_err_reports_the_operand() {
    let ok: Result<StatusCode, FilterError> = parse_or_err("404");
    assert!(matches!(ok, Ok(StatusCode { code: 404 })));
    let bad: Result<StatusCode, FilterError> = parse_or_err("banana");
    let err = bad.unwrap_err();
    assert_eq!(err.message(), "Invalid value for filter: banana");
}

#[test]
fn status_code_grammar_is_three_digits() {
    assert!(matches!(parse_or_err::<StatusCode>("200"), Ok(StatusCode { code: 200 })));
    assert!(parse_or_err::<StatusCode>("99").is_err());
    assert!(parse_or_err::<StatusCode>("1000").is_err());
    assert!(parse_or_err::<StatusCode>("012").is_err());
    assert!(parse_or_err::<StatusCode>("+20").is_err());
    assert!(parse_or_err::<StatusCode>("20x").is_err());
}

#[test]
fn ipv4_literals() {
    assert_eq!(parse_ipv4("203.0.113.5"), Some(IpAddress::V4(203, 0, 113, 5)));
    assert_eq!(parse_ipv4("0.0.0.0"), Some(IpAddress::V4(0, 0, 0, 0)));
    assert_eq!(parse_ipv4("255.255.255.255"), Some(IpAddress::V4(255, 255, 255, 255)));
    assert_eq!(parse_ipv4("256.0.0.1"), None);
    assert_eq!(parse_ipv4("01.2.3.4"), None);
    assert_eq!(parse_ipv4("1.2.3"), None);
    assert_eq!(parse_ipv4("1.2.3.4.5"), None);
    assert_eq!(parse_ipv4("1.2.3."), None);
    assert_eq!(parse_ipv4(""), None);
}

#[test]
fn ipv6_literals() {
    assert_eq!(parse_ipv6("::"), Some(IpAddress::V6(0, 0, 0, 0, 0, 0, 0, 0)));
    assert_eq!(parse_ipv6("::1"), Some(IpAddress::V6(0, 0, 0, 0, 0, 0, 0, 1)));
    assert_eq!(parse_ipv6("1::"), Some(IpAddress::V6(1, 0, 0, 0, 0, 0, 0, 0)));
    assert_eq!(
        parse_ipv6("1:2:3:4:5:6:7:8"),
        Some(IpAddress::V6(1, 2, 3, 4, 5, 6, 7, 8))
    );
    assert_eq!(
        parse_ipv6("2001:db8::ff00:42:8329"),
        Some(IpAddress::V6(0x2001, 0xdb8, 0, 0, 0, 0xff00, 0x42, 0x8329))
    );
    assert_eq!(
        parse_ipv6("ABCD::ef"),
        Some(IpAddress::V6(0xabcd, 0, 0, 0, 0, 0, 0, 0xef))
    );
    assert_eq!(
        parse_ipv6("::ffff:192.0.2.128"),
        Some(IpAddress::V6(0, 0, 0, 0, 0, 0xffff, 0xc000, 0x0280))
    );
    assert_eq!(
        parse_ipv6("1:2:3:4:5:6:192.0.2.128"),
        Some(IpAddress::V6(1, 2, 3, 4, 5, 6, 0xc000, 0x0280))
    );
    assert_eq!(parse_ipv6("1:2:3:4:5:6:7"), None);
    assert_eq!(parse_ipv6("1:2:3:4:5:6:7:8:9"), None);
    assert_eq!(parse_ipv6("1:2:3:4:5:6:7:8::"), None);
    assert_eq!(parse_ipv6("1::2::3"), None);
    assert_eq!(parse_ipv6(":::"), None);
    assert_eq!(parse_ipv6(":1:2:3:4:5:6:7"), None);
    assert_eq!(parse_ipv6("12345::"), None);
    assert_eq!(parse_ipv6("g::1"), None);
    assert_eq!(parse_ipv6(""), None);
    assert!(matches!(
        parse_eq_filter::<IpAddress>("eq ::1"),
        Ok(EqFilter::Eq(IpAddress::V6(0, 0, 0, 0, 0, 0, 0, 1)))
    ));
}

#[test]
fn string_filter_tokens() {
    assert!(matches!(parse_string_filter("none"), Ok(StringFilter::Missing)));
    match parse_string_filter("contains Chrome") {
        Ok(StringFilter::Contains(s)) => assert_eq!(s, "Chrome"),
        other => panic!("unexpected result: {:?}", other),
    }
    match parse_string_filter("starts_with Mo zilla") {
        Ok(StringFilter::StartsWith(s)) => assert_eq!(s, "Mo zilla"),
        other => panic!("unexpected result: {:?}", other),
    }
    match parse_string_filter("ends_with 91") {
        Ok(StringFilter::EndsWith(s)) => assert_eq!(s, "91"),
        other => panic!("unexpected result: {:?}", other),
    }
    match parse_string_filter("eq curl/7.64") {
        Ok(StringFilter::Eq(s)) => assert_eq!(s, "curl/7.64"),
        other => panic!("unexpected result: {:?}", other),
    }
    let err = parse_string_filter("matches Chrome").unwrap_err();
    assert_eq!(err.message(), "Invalid filter matches Chrome");
    assert!(matches!(err, FilterError::UnknownOperator(_)));
    let err = parse_string_filter("").unwrap_err();
    assert!(matches!(err, FilterError::Format(_)));
    assert_eq!(err.message(), "Invalid filter ");
    let err = parse_string_filter("none extra").unwrap_err();
    assert!(matches!(err, FilterError::UnknownOperator(_)));
    assert_eq!(err.message(), "Invalid filter none extra");
}

#[test]
fn eq_filter_tokens() {
    assert!(matches!(parse_eq_filter::<StatusCode>("none"), Ok(EqFilter::Missing)));
    assert!(matches!(
        parse_eq_filter::<StatusCode>("eq 404"),
        Ok(EqFilter::Eq(StatusCode { code: 404 }))
    ));
    assert!(matches!(
        parse_eq_filter::<StatusCode>("neq 500"),
        Ok(EqFilter::Neq(StatusCode { code: 500 }))
    ));
    assert!(matches!(
        parse_eq_filter::<IpAddress>("eq 203.0.113.5"),
        Ok(EqFilter::Eq(IpAddress::V4(203, 0, 113, 5)))
    ));
    let err = parse_eq_filter::<StatusCode>("gt 404").unwrap_err();
    assert_eq!(err.message(), "Invalid filter gt 404");
    let err = parse_eq_filter::<StatusCode>("eq abc").unwrap_err();
    assert_eq!(err.message(), "Invalid value for filter: abc");
}

#[test]
fn ord_filter_tokens() {
    assert!(matches!(parse_ord_filter::<Timestamp>("none"), Ok(OrdFilter::Missing)));
    let expected = ts("2023-02-12T14:34:20+00:00");
    match parse_ord_filter::<Timestamp>("gt 2023-02-12T14:34:20+00:00") {
        Ok(OrdFilter::Gt(t)) => assert_eq!(t, expected),
        other => panic!("unexpected result: {:?}", other),
    }
    match parse_ord_filter::<Timestamp>("lte 2023-02-12T14:34:20+00:00") {
        Ok(OrdFilter::Lte(t)) => assert_eq!(t, expected),
        other => panic!("unexpected result: {:?}", other),
    }
    let err = parse_ord_filter::<Timestamp>("gt yesterday").unwrap_err();
    assert_eq!(err.message(), "Invalid value for filter: yesterday");
    let err = parse_ord_filter::<Timestamp>("between a b").unwrap_err();
    assert_eq!(err.message(), "Invalid filter between a b");
}

#[test]
fn grammar_round_trip_on_a_concrete_value() {
    match parse_eq_filter::<StatusCode>("eq 418") {
        Ok(f) => assert!(apply_eq(&StatusCode { code: 418 }, &f)),
        other => panic!("unexpected result: {:?}", other),
    }
    match parse_string_filter("eq teapot") {
        Ok(f) => assert!(apply_string("teapot", &f)),
        other => panic!("unexpected result: {:?}", other),
    }
}

#[test]
fn scenario_user_agent_contains_chrome() {
    let filter = LogFilter {
        user_agent: StringFilter::Contains("Chrome".to_string()),
        status_code: EqFilter::Any,
        ip: EqFilter::Any,
        timestamp: OrdFilter::Any,
    };
    assert!(chrome_record().is_match(&filter));
    let curl = record(
        IpAddress::V4(193, 105, 7, 171),
        200,
        Some("curl/7.64"),
        "2023-02-12T14:34:20+00:00",
    );
    assert!(!curl.is_match(&filter));
}

#[test]
fn scenario_exact_ip() {
    let filter = LogFilter::try_from(FilterArgs {
        status_code: None,
        user_agent: None,
        ip: Some("eq 203.0.113.5".to_string()),
        timestamp: None,
    })
    .unwrap();
    let hit = record(IpAddress::V4(203, 0, 113, 5), 200, None, "2023-02-12T14:34:20+00:00");
    let miss = record(IpAddress::V4(203, 0, 113, 6), 200, None, "2023-02-12T14:34:20+00:00");
    assert!(hit.is_match(&filter));
    assert!(!miss.is_match(&filter));
}

#[test]
fn scenario_timestamp_strictly_after() {
    let filter = LogFilter::try_from(FilterArgs {
        status_code: None,
        user_agent: None,
        ip: None,
        timestamp: Some("gt 2023-02-12T14:34:20+00:00".to_string()),
    })
    .unwrap();
    let after = record(IpAddress::V4(1, 2, 3, 4), 200, None, "2023-02-12T14:34:21+00:00");
    let exact = record(IpAddress::V4(1, 2, 3, 4), 200, None, "2023-02-12T14:34:20+00:00");
    assert!(after.is_match(&filter));
    assert!(!exact.is_match(&filter));
}

#[test]
fn scenario_none_on_a_required_field() {
    let filter = LogFilter::try_from(FilterArgs {
        status_code: Some("none".to_string()),
        user_agent: None,
        ip: None,
        timestamp: None,
    })
    .unwrap();
    assert!(!chrome_record().is_match(&filter));
    let not_found = record(IpAddress::V4(9, 9, 9, 9), 404, None, "2024-01-01T00:00:00+00:00");
    assert!(!not_found.is_match(&filter));
}

#[test]
fn scenario_missing_operand() {
    let err = LogFilter::try_from(FilterArgs {
        status_code: None,
        user_agent: None,
        ip: None,
        timestamp: Some("gt".to_string()),
    })
    .unwrap_err();
    assert!(matches!(err, FilterError::Format(ref raw) if raw == "gt"));
    assert_eq!(err.message(), "Invalid filter gt");
}

#[test]
fn first_failing_field_decides_the_error() {
    let err = LogFilter::try_from(FilterArgs {
        status_code: Some("eq abc".to_string()),
        user_agent: Some("gt".to_string()),
        ip: None,
        timestamp: None,
    })
    .unwrap_err();
    assert_eq!(err.message(), "Invalid value for filter: abc");
}

#[test]
fn absent_tokens_keep_the_filter_open() {
    let filter = LogFilter::try_from(FilterArgs {
        status_code: None,
        user_agent: None,
        ip: None,
        timestamp: None,
    })
    .unwrap();
    assert!(chrome_record().is_match(&filter));
    assert!(chrome_record().is_match(&LogFilter::any()));
    let default_filter: LogFilter = Default::default();
    assert!(chrome_record().is_match(&default_filter));
}

#[test]
fn relaxing_a_field_keeps_a_match() {
    let strict = LogFilter {
        user_agent: StringFilter::Contains("Chrome".to_string()),
        status_code: EqFilter::Eq(StatusCode { code: 200 }),
        ip: EqFilter::Any,
        timestamp: OrdFilter::Any,
    };
    let relaxed = LogFilter {
        user_agent: StringFilter::Contains("Chrome".to_string()),
        status_code: EqFilter::Any,
        ip: EqFilter::Any,
        timestamp: OrdFilter::Any,
    };
    let r = chrome_record();
    assert!(r.is_match(&strict));
    assert!(r.is_match(&relaxed));
    let other = record(
        IpAddress::V4(1, 1, 1, 1),
        503,
        Some("Mozilla/5.0 Chrome/91"),
        "2023-02-12T14:34:20+00:00",
    );
    assert!(!other.is_match(&strict));
    assert!(other.is_match(&relaxed));
}

#[test]
fn user_agent_absent_from_the_record() {
    let no_agent = record(IpAddress::V4(1, 2, 3, 4), 200, None, "2023-02-12T14:34:20+00:00");
    let contains = LogFilter {
        user_agent: StringFilter::Contains("Chrome".to_string()),
        status_code: EqFilter::Any,
        ip: EqFilter::Any,
        timestamp: OrdFilter::Any,
    };
    assert!(!no_agent.is_match(&contains));
    let missing = LogFilter {
        user_agent: StringFilter::Missing,
        status_code: EqFilter::Any,
        ip: EqFilter::Any,
        timestamp: OrdFilter::Any,
    };
    assert!(no_agent.is_match(&missing));
    assert!(!chrome_record().is_match(&missing));
}
