use nightshade_worker_leptos::text::{format_decimal, format_thousands, jam_report};

#[test]
fn thousands_groups_from_the_right() {
    assert_eq!(format_thousands(1234567), "1,234,567");
    assert_eq!(format_thousands(123456), "123,456");
    assert_eq!(format_thousands(12345), "12,345");
    assert_eq!(format_thousands(1000), "1,000");
    assert_eq!(format_thousands(999), "999");
}

#[test]
fn thousands_edge_values() {
    assert_eq!(format_thousands(0), "0");
    assert_eq!(format_thousands(7), "7");
    assert_eq!(format_thousands(1000001), "1,000,001");
    assert_eq!(format_thousands(-1000), "-1,000");
    assert_eq!(format_thousands(-999), "-999");
    assert_eq!(format_thousands(i64::MAX), "9,223,372,036,854,775,807");
    assert_eq!(format_thousands(i64::MIN), "-9,223,372,036,854,775,808");
}

#[test]
fn thousands_without_commas_is_plain_decimal() {
    for value in [0i64, 5, 42, 999, 1000, 65536, 1234567890, -77777, i64::MIN, i64::MAX] {
        let grouped = format_thousands(value);
        let stripped: String = grouped.chars().filter(|c| *c != ',').collect();
        assert_eq!(stripped, value.to_string());
    }
}

#[test]
fn decimal_matches_display() {
    for value in [0i64, 9, 10, 3001, -1, -3001, i64::MIN, i64::MAX] {
        assert_eq!(format_decimal(value), value.to_string());
    }
}

#[test]
fn jam_report_text() {
    assert_eq!(
        jam_report(3000, 180),
        "Main thread blocked 3000 ms. nightshade advanced 180 frames meanwhile."
    );
    assert_eq!(
        jam_report(3001, 12345),
        "Main thread blocked 3001 ms. nightshade advanced 12,345 frames meanwhile."
    );
}
