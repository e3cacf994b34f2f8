use chrono::Datelike;
use chrono::Timelike;
use keen::Filter;
use keen::Interval;
use keen::KeenClient;
use keen::Metric;
use keen::TimeFrame;
use keen::UtcTime;

/// The library's timestamp for a chrono UTC instant (whole seconds).
fn utc_time_of(dt: &chrono::DateTime<chrono::Utc>) -> UtcTime {
    UtcTime::new(
        dt.year() as u32,
        dt.month(),
        dt.day(),
        dt.hour(),
        dt.minute(),
        dt.second(),
    )
}

#[test]
fn it_works() {
    let cl = KeenClient::new("your keen io api key", "your project id");
    let m = Metric::CountUnique("metric1".into());
    let c = "collection_name".into();
    let from = (chrono::Utc::now() - chrono::Duration::days(2))
        .with_nanosecond(0)
        .unwrap();
    let from_str = format!("{}", from.to_rfc3339());
    let to = chrono::Utc::now().with_nanosecond(0).unwrap();
    let to_str = format!("{}", to.to_rfc3339());
    let t = TimeFrame::Absolute(utc_time_of(&from), utc_time_of(&to));
    let mut q = cl.query(m, c, t);
    q.group_by("group1");
    q.group_by("group2");
    q.filter(Filter::gt("id", 458888));
    q.filter(Filter::lte("id", 460000));
    q.interval(Interval::Monthly);
    q.other("uuid", "12345678-1234-1234-1234-123456789101");
    assert_eq!(q.url(), format!(r#"https://api.keen.io/3.0/projects/your project id/queries/count_unique?target_property=metric1&api_key=your keen io api key&event_collection=collection_name&group_by=["group1","group2"]&timezone=UTC&timeframe={{"start":"{}","end":"{}"}}&filters=[{{"property_name":"id","property_value":458888,"operator":"gt"}},{{"property_name":"id","property_value":460000,"operator":"lte"}}]&interval=monthly&uuid=12345678-1234-1234-1234-123456789101"#, from_str, to_str));
}

#[test]
fn end_to_end_absolute_query() {
    let cl = KeenClient::new("APIKEY", "PROJ");
    let t0 = UtcTime::new(2023, 1, 1, 0, 0, 0);
    let t1 = UtcTime::new(2023, 1, 3, 0, 0, 0);
    let mut q = cl.query(
        Metric::CountUnique("metric1".into()),
        "coll".into(),
        TimeFrame::Absolute(t0, t1),
    );
    q.group_by("g1");
    q.group_by("g2");
    q.filter(Filter::gt("id", 458888));
    q.filter(Filter::lte("id", 460000));
    q.interval(Interval::Monthly);
    assert_eq!(
        q.url(),
        r#"https://api.keen.io/3.0/projects/PROJ/queries/count_unique?target_property=metric1&api_key=APIKEY&event_collection=coll&group_by=["g1","g2"]&timezone=UTC&timeframe={"start":"2023-01-01T00:00:00+00:00","end":"2023-01-03T00:00:00+00:00"}&filters=[{"property_name":"id","property_value":458888,"operator":"gt"},{"property_name":"id","property_value":460000,"operator":"lte"}]&interval=monthly"#
    );
}

#[test]
fn group_by_entries_quoted_in_order() {
    let cl = KeenClient::new("k", "p");
    let mut q = cl.query(
        Metric::Count,
        "c".into(),
        TimeFrame::Relative("this_2_days".into()),
    );
    q.group_by("g1");
    q.group_by("g2");
    q.group_by("g3");
    let url = q.url();
    assert!(url.contains(r#"&group_by=["g1","g2","g3"]&"#));
}

#[test]
fn group_by_duplicates_kept() {
    let cl = KeenClient::new("k", "p");
    let mut q = cl.query(
        Metric::Count,
        "c".into(),
        TimeFrame::Relative("this_2_days".into()),
    );
    q.group_by("g");
    q.group_by("g");
    assert!(q.url().contains(r#"&group_by=["g","g"]&"#));
}

#[test]
fn empty_lists_render_as_empty_arrays() {
    let cl = KeenClient::new("k", "p");
    let q = cl.query(
        Metric::Count,
        "c".into(),
        TimeFrame::Relative("this_2_days".into()),
    );
    let url = q.url();
    assert!(url.contains("&group_by=[]&"));
    assert!(url.ends_with("&filters=[]"));
}

#[test]
fn absolute_timeframe_renders_rfc3339() {
    let cl = KeenClient::new("k", "p");
    let t0 = UtcTime::new(2023, 1, 1, 0, 0, 0);
    let t1 = UtcTime::new(2023, 1, 3, 0, 0, 0);
    let q = cl.query(Metric::Count, "c".into(), TimeFrame::Absolute(t0, t1));
    assert!(q.url().contains(
        r#"&timeframe={"start":"2023-01-01T00:00:00+00:00","end":"2023-01-03T00:00:00+00:00"}&"#
    ));
}

#[test]
fn relative_timeframe_renders_verbatim() {
    let cl = KeenClient::new("k", "p");
    let q = cl.query(
        Metric::Count,
        "c".into(),
        TimeFrame::Relative("this_2_days".into()),
    );
    assert!(q.url().contains("&timeframe=this_2_days&"));
}

#[test]
fn rfc3339_matches_chrono() {
    let samples = vec![
        chrono::Utc::now().with_nanosecond(0).unwrap(),
        (chrono::Utc::now() - chrono::Duration::days(400))
            .with_nanosecond(0)
            .unwrap(),
        (chrono::Utc::now() + chrono::Duration::seconds(12345))
            .with_nanosecond(0)
            .unwrap(),
    ];
    for dt in samples {
        assert_eq!(utc_time_of(&dt).to_rfc3339(), dt.to_rfc3339());
    }
}

#[test]
fn interval_last_write_wins() {
    let cl = KeenClient::new("k", "p");
    let mut q = cl.query(
        Metric::Count,
        "c".into(),
        TimeFrame::Relative("this_2_days".into()),
    );
    q.interval(Interval::Hourly);
    q.interval(Interval::Monthly);
    let url = q.url();
    assert!(url.contains("&interval=monthly"));
    assert!(!url.contains("hourly"));
}

#[test]
fn interval_names_are_lowercase() {
    let cases = vec![
        (Interval::Minutely, "minutely"),
        (Interval::Hourly, "hourly"),
        (Interval::Daily, "daily"),
        (Interval::Weekly, "weekly"),
        (Interval::Monthly, "monthly"),
        (Interval::Yearly, "yearly"),
    ];
    for (i, name) in cases {
        assert_eq!(i.render(), name);
    }
}

#[test]
fn url_is_idempotent() {
    let cl = KeenClient::new("k", "p");
    let mut q = cl.query(
        Metric::Sum("price".into()),
        "purchases".into(),
        TimeFrame::Relative("this_7_days".into()),
    );
    q.group_by("country");
    q.filter(Filter::gt("price", 10));
    let first = q.url();
    let second = q.url();
    assert_eq!(first, second);
}

#[test]
fn max_age_appended_when_set() {
    let cl = KeenClient::new("k", "p");
    let mut q = cl.query(
        Metric::Count,
        "c".into(),
        TimeFrame::Relative("this_2_days".into()),
    );
    q.max_age(300);
    assert!(q.url().ends_with("&filters=[]&max_age=300"));
}

#[test]
fn other_params_appended_verbatim_in_order() {
    let cl = KeenClient::new("k", "p");
    let mut q = cl.query(
        Metric::Count,
        "c".into(),
        TimeFrame::Relative("this_2_days".into()),
    );
    q.other("alpha", "1");
    q.other("beta", "2");
    q.other("alpha", "1");
    assert!(q.url().ends_with("&filters=[]&alpha=1&beta=2&alpha=1"));
}

#[test]
fn metric_segments() {
    let cases = vec![
        (Metric::Sum("p".into()), "queries/sum?target_property=p&api_key="),
        (Metric::Count, "queries/count?api_key="),
        (
            Metric::CountUnique("p".into()),
            "queries/count_unique?target_property=p&api_key=",
        ),
        (
            Metric::Minimum("p".into()),
            "queries/minimum?target_property=p&api_key=",
        ),
        (
            Metric::Maximum("p".into()),
            "queries/maximum?target_property=p&api_key=",
        ),
        (
            Metric::Average("p".into()),
            "queries/average?target_property=p&api_key=",
        ),
        (
            Metric::SelectUnique("p".into()),
            "queries/select_unique?target_property=p&api_key=",
        ),
        (Metric::Extraction, "queries/extractionapi_key="),
        (
            Metric::Percentile("p".into(), "99.5".into()),
            "queries/percentile?target_property=p&percentile=99.5&api_key=",
        ),
        (
            Metric::Median("p".into()),
            "queries/median?target_property=p&api_key=",
        ),
    ];
    for (m, fragment) in cases {
        let cl = KeenClient::new("k", "p");
        let q = cl.query(m, "c".into(), TimeFrame::Relative("today".into()));
        assert!(q.url().contains(fragment));
    }
}

#[test]
fn client_timeout_is_recorded() {
    let mut cl = KeenClient::new("k", "p");
    assert_eq!(cl.timeout_millis(), None);
    cl.timeout(2500);
    assert_eq!(cl.timeout_millis(), Some(2500));
}
