use withings::Scope;

#[test]
fn test_scope() {
    let scope = vec![Scope::UserInfo, Scope::UserMetrics];
    let s = withings::scopes_to_wire(&scope);
    assert_eq!(s, "user.info,user.metrics");
}

#[test]
fn test_scope_round_trip() {
    let all = vec![
        Scope::UserInfo,
        Scope::UserMetrics,
        Scope::UserActivity,
        Scope::UserSleepEvents,
    ];
    for s in all {
        assert_eq!(Scope::from_wire(s.as_wire_str()), Some(s));
    }
}

#[test]
fn test_scope_unrecognized() {
    assert_eq!(Scope::from_wire("user.bogus"), None);
    assert_eq!(Scope::from_wire(""), None);
    assert_eq!(Scope::from_wire("USER.INFO"), None);
}

#[test]
fn test_parse_scopes_order() {
    assert_eq!(
        withings::parse_scopes("user.info,user.metrics"),
        Some(vec![Scope::UserInfo, Scope::UserMetrics])
    );
}

#[test]
fn test_parse_scopes_single() {
    assert_eq!(
        withings::parse_scopes("user.sleepevents"),
        Some(vec![Scope::UserSleepEvents])
    );
}

#[test]
fn test_parse_scopes_rejects_bad_piece() {
    assert_eq!(withings::parse_scopes("user.info,bogus"), None);
    assert_eq!(withings::parse_scopes(""), None);
    assert_eq!(withings::parse_scopes("user.info,"), None);
}
