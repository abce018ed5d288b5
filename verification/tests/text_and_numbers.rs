use user_service::decimal::{i64_to_decimal, parse_i64, u128_to_decimal, u64_to_decimal};
use user_service::text::{split_on, starts_with, str_eq, trim};
use user_service::datasource::split_sql_statements;

#[test]
fn decimal_of_unsigned() {
    assert_eq!(u64_to_decimal(0), "0");
    assert_eq!(u64_to_decimal(7), "7");
    assert_eq!(u64_to_decimal(100005), "100005");
    assert_eq!(u64_to_decimal(u64::MAX), "18446744073709551615");
    assert_eq!(u128_to_decimal(u128::MAX), "340282366920938463463374607431768211455");
}

#[test]
fn decimal_of_signed() {
    assert_eq!(i64_to_decimal(0), "0");
    assert_eq!(i64_to_decimal(-42), "-42");
    assert_eq!(i64_to_decimal(i64::MIN), "-9223372036854775808");
    assert_eq!(i64_to_decimal(i64::MAX), "9223372036854775807");
}

#[test]
fn parse_signed_like_std() {
    let cases = [
        "0", "+12", "-12", "", "-", "+", "12a", " 1", "9223372036854775807", "9223372036854775808",
        "-9223372036854775808", "-9223372036854775809", "00017", "١٢", "99999999999999999999999",
    ];
    for c in cases {
        assert_eq!(parse_i64(c), c.parse::<i64>().ok(), "input {:?}", c);
    }
}

#[test]
fn parse_after_print_gives_back_the_number() {
    for n in [0i64, 1, -1, 42, -9000, i64::MAX, i64::MIN] {
        assert_eq!(parse_i64(&i64_to_decimal(n)), Some(n));
    }
}

#[test]
fn split_keeps_empty_pieces() {
    assert_eq!(split_on("a..b", '.'), vec!["a", "", "b"]);
    assert_eq!(split_on("", '.'), vec![""]);
    assert_eq!(split_on("database.url", '.'), vec!["database", "url"]);
    assert_eq!(split_on("x.", '.'), "x.".split('.').collect::<Vec<_>>());
}

#[test]
fn trim_like_std() {
    for s in ["  a b \n", "", "   ", "\u{3000}x\u{a0}", "ab", "\t\r\n q \u{2028}"] {
        assert_eq!(trim(s), s.trim(), "input {:?}", s);
    }
}

#[test]
fn prefixes_and_equality() {
    assert!(starts_with("/api/v1/user", "/api/v1"));
    assert!(!starts_with("/api", "/api/v1"));
    assert!(starts_with("abc", ""));
    assert!(str_eq("é", "é"));
    assert!(!str_eq("a", "b"));
}

#[test]
fn sql_script_statements() {
    let script = " create table t (id int);\n\n ;insert into t values (1) ;  ";
    assert_eq!(split_sql_statements(script), vec!["create table t (id int)", "insert into t values (1)"]);
    assert!(split_sql_statements("").is_empty());
    assert!(split_sql_statements(" ; ;\n").is_empty());
}
