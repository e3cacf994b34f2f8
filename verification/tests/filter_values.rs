use keen::Filter;
use keen::KeenClient;
use keen::Metric;
use keen::TimeFrame;
use keen::ToFilterValue;

fn url_with(f: Filter) -> String {
    let cl = KeenClient::new("k", "p");
    let mut q = cl.query(
        Metric::Count,
        "c".into(),
        TimeFrame::Relative("this_2_days".into()),
    );
    q.filter(f);
    q.url()
}

#[test]
fn numeric_value_unquoted() {
    let url = url_with(Filter::eq("id", 458888));
    assert!(url.contains(r#"{"property_name":"id","property_value":458888,"operator":"eq"}"#));
}

#[test]
fn string_value_quoted() {
    let url = url_with(Filter::eq("id", "458888"));
    assert!(url.contains(r#"{"property_name":"id","property_value":"458888","operator":"eq"}"#));
}

#[test]
fn negative_value_keeps_sign() {
    let url = url_with(Filter::lt("delta", -42i64));
    assert!(url.contains(r#"{"property_name":"delta","property_value":-42,"operator":"lt"}"#));
}

#[test]
fn list_value_renders_bracketed() {
    let url = url_with(Filter::isin("id", vec![1i64, 2, 3]));
    assert!(url.contains(r#"{"property_name":"id","property_value":[1,2,3],"operator":"in"}"#));
}

#[test]
fn string_list_value_renders_quoted_entries() {
    let url = url_with(Filter::isin("tag", vec!["a".to_string(), "b".to_string()]));
    assert!(url.contains(r#"{"property_name":"tag","property_value":["a","b"],"operator":"in"}"#));
}

#[test]
fn empty_list_value_renders_empty_array() {
    let url = url_with(Filter::isin("id", Vec::<i64>::new()));
    assert!(url.contains(r#"{"property_name":"id","property_value":[],"operator":"in"}"#));
}

#[test]
fn every_operator_uses_its_wire_name() {
    let cases = vec![
        (Filter::eq("f", 1), "eq"),
        (Filter::ne("f", 1), "ne"),
        (Filter::lt("f", 1), "lt"),
        (Filter::gt("f", 1), "gt"),
        (Filter::lte("f", 1), "lte"),
        (Filter::gte("f", 1), "gte"),
        (Filter::contains("f", 1), "contains"),
        (Filter::not_contains("f", 1), "not_contains"),
        (Filter::exists_filter("f", "true"), "exists"),
        (Filter::isin("f", 1), "in"),
    ];
    for (f, op) in cases {
        let url = url_with(f);
        assert!(url.contains(&format!(r#","operator":"{}"}}"#, op)));
    }
}

#[test]
fn filters_keep_insertion_order() {
    let cl = KeenClient::new("k", "p");
    let mut q = cl.query(
        Metric::Count,
        "c".into(),
        TimeFrame::Relative("this_2_days".into()),
    );
    q.filter(Filter::gt("id", 458888));
    q.filter(Filter::lte("id", 460000));
    assert!(q.url().contains(
        r#"&filters=[{"property_name":"id","property_value":458888,"operator":"gt"},{"property_name":"id","property_value":460000,"operator":"lte"}]"#
    ));
}

#[test]
fn to_filter_renders_each_numeric_type() {
    assert_eq!(42i32.to_filter(), "42");
    assert_eq!((-7i32).to_filter(), "-7");
    assert_eq!(42i64.to_filter(), "42");
    assert_eq!(i64::MIN.to_filter(), "-9223372036854775808");
    assert_eq!(42u32.to_filter(), "42");
    assert_eq!(18446744073709551615u64.to_filter(), "18446744073709551615");
    assert_eq!(0usize.to_filter(), "0");
    assert_eq!((-3isize).to_filter(), "-3");
}

#[test]
fn to_filter_quotes_strings() {
    assert_eq!("abc".to_filter(), r#""abc""#);
    assert_eq!(String::from("abc").to_filter(), r#""abc""#);
    assert_eq!("".to_filter(), r#""""#);
}
