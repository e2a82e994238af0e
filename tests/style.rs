use attpc_envoy::time_format::pretty_ellapsed_time;

#[test]
fn test_pretty_time() {
    let expected = String::from("01:00:00");
    let value = pretty_ellapsed_time(3600);
    assert_eq!(value, expected);
}

#[test]
fn pretty_time_pads_each_part() {
    assert_eq!(pretty_ellapsed_time(0), "00:00:00");
    assert_eq!(pretty_ellapsed_time(3725), "01:02:05");
    assert_eq!(pretty_ellapsed_time(59), "00:00:59");
}

#[test]
fn pretty_time_keeps_all_hour_digits() {
    assert_eq!(pretty_ellapsed_time(360000), "100:00:00");
    assert_eq!(pretty_ellapsed_time(86399), "23:59:59");
}
