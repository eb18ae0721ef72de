use hd_api::params::merged_query;
use hd_api::ranges::format_ranges;
use hd_api::text::{decimal, signed_decimal};
use hd_api::{Identifier, Params};

fn entries(p: &Params) -> Vec<(String, String)> {
    (0..p.len()).map(|i| (p.key(i).to_string(), p.value(i).to_string())).collect()
}

#[test]
fn merge_keeps_order_and_duplicates() {
    let mut m = Params::new();
    m.add_str("a", "1");
    let mut o = Params::new();
    o.add_str("a", "2");
    o.add_str("b", "3");
    assert_eq!(merged_query(&m, Some(&o)), "a=1&a=2&b=3");
    let merged = Params::merge(&m, Some(&o));
    assert_eq!(
        entries(&merged),
        vec![
            ("a".to_string(), "1".to_string()),
            ("a".to_string(), "2".to_string()),
            ("b".to_string(), "3".to_string())
        ]
    );
}

#[test]
fn merge_without_optional_adds_nothing() {
    let mut m = Params::new();
    m.add_str("pid", "x");
    assert_eq!(merged_query(&m, None), "pid=x");
    let empty = Params::new();
    assert_eq!(merged_query(&m, Some(&empty)), "pid=x");
    assert_eq!(merged_query(&empty, None), "");
    assert!(Params::new().is_empty());
}

#[test]
fn numbers_are_decimal() {
    let mut p = Params::new();
    p.add_uint("size", 1024);
    p.add_uint("zero", 0);
    p.add_int("neg", -42);
    p.add_int("min", i64::MIN);
    assert_eq!(p.to_query(), "size=1024&zero=0&neg=-42&min=-9223372036854775808");
    assert_eq!(decimal(u64::MAX), "18446744073709551615");
    assert_eq!(signed_decimal(7), "7");
}

#[test]
fn query_components_are_form_encoded() {
    let mut p = Params::new();
    p.add_str("path", "/a b/c&d=e");
    p.add_str("name", "x.y_z-*");
    assert_eq!(p.to_query(), "path=%2Fa+b%2Fc%26d%3De&name=x.y_z-*");
}

#[test]
fn identifier_pid_and_path_in_order() {
    let mut p = Params::new();
    Identifier::ByPidAndPath("p1".to_string(), "/a/b".to_string()).to_params(&mut p, "pid", "path");
    assert_eq!(
        entries(&p),
        vec![("pid".to_string(), "p1".to_string()), ("path".to_string(), "/a/b".to_string())]
    );
}

#[test]
fn identifier_pid_only() {
    let mut p = Params::new();
    Identifier::ByPid("p1".to_string()).to_params(&mut p, "pid", "path");
    assert_eq!(entries(&p), vec![("pid".to_string(), "p1".to_string())]);
    let mut q = Params::new();
    Identifier::ByPath("/x".to_string()).to_params(&mut q, "src_id", "src");
    assert_eq!(entries(&q), vec![("src".to_string(), "/x".to_string())]);
    assert!(!Identifier::ByPid("p".to_string()).is_path_like());
    assert!(Identifier::ByPath("/p".to_string()).is_path_like());
}

#[test]
fn hash_ranges_format() {
    assert_eq!(format_ranges(&[]), "-");
    assert_eq!(format_ranges(&[(0, 255), (256, 511)]), "0-255,256-511");
    assert_eq!(format_ranges(&[(7, 7)]), "7-7");
}
