use slack_status::{
    Cache, Config, IpAddress, Location, Reason, ResolvedStatus, SlackStatus, StatusCache,
    StatusConfig,
};

const NOW: i64 = 1_700_000_000;

fn home() -> Location {
    Location {
        ip: IpAddress::v4(1, 2, 3, 4),
        text: String::from("home"),
        emoji: String::from(":house:"),
        expire_after_hours: None,
    }
}

fn config_with_home() -> Config {
    let mut config = Config::with(String::from("token"));
    config.locations.push(home());
    config
}

fn fallback() -> StatusConfig {
    StatusConfig {
        text: String::from("commuting"),
        emoji: String::from(":mountain_railway:"),
        expire_after_hours: Some(1),
    }
}

fn manual_entry(text: &str, emoji: &str, expiration: i64) -> Cache {
    Cache {
        status: StatusCache {
            text: String::from(text),
            emoji: String::from(emoji),
            expiration,
        },
        manually_set: true,
    }
}

#[test]
fn known_address_without_cache_resolves_to_its_location() {
    let config = config_with_home();
    let client = SlackStatus::from(&config).unwrap();
    let resolved = client.resolve(&IpAddress::v4(1, 2, 3, 4), &None, None, NOW);
    assert_eq!(resolved.status.text, "home");
    assert_eq!(resolved.status.emoji, ":house:");
    assert_eq!(resolved.status.expire_after_hours, None);
    assert_eq!(resolved.computed_expiration, 0);
    assert!(!resolved.suppress_update);
    assert_eq!(resolved.reason, Reason::NoCacheConflict);
}

#[test]
fn unknown_address_without_defaults_resolves_to_fallback() {
    let config = config_with_home();
    let client = SlackStatus::from(&config).unwrap();
    let resolved = client.resolve(&IpAddress::v4(9, 9, 9, 9), &None, None, NOW);
    assert_eq!(
        resolved,
        ResolvedStatus {
            status: fallback(),
            computed_expiration: NOW + 3600,
            suppress_update: false,
            reason: Reason::NoCacheConflict,
        }
    );
}

#[test]
fn standing_manual_status_wins_over_location() {
    let config = config_with_home();
    let client = SlackStatus::from(&config).unwrap();
    let cache = Some(manual_entry("vacation", ":beach:", NOW + 7200));
    let resolved = client.resolve(&IpAddress::v4(1, 2, 3, 4), &cache, None, NOW);
    assert_eq!(resolved.status.text, "vacation");
    assert_eq!(resolved.status.emoji, ":beach:");
    assert!(resolved.suppress_update);
    assert_eq!(resolved.reason, Reason::ManualHoldActive);
    assert_eq!(resolved.computed_expiration, NOW + 7200);
}

#[test]
fn manual_status_an_hour_ahead_suppresses_for_any_address() {
    let config = config_with_home();
    let client = SlackStatus::from(&config).unwrap();
    let cache = Some(manual_entry("lunch", ":fork_and_knife:", NOW + 3600));
    for ip in [
        IpAddress::v4(1, 2, 3, 4),
        IpAddress::v4(9, 9, 9, 9),
        IpAddress::V6(1),
    ] {
        assert!(client.resolve(&ip, &cache, None, NOW).suppress_update);
    }
}

#[test]
fn lapsed_manual_status_lets_the_address_decide() {
    let config = config_with_home();
    let client = SlackStatus::from(&config).unwrap();
    let cache = Some(manual_entry("lunch", ":fork_and_knife:", NOW - 10));
    let known = client.resolve(&IpAddress::v4(1, 2, 3, 4), &cache, None, NOW);
    assert!(!known.suppress_update);
    assert_eq!(known.status.text, "home");
    let unknown = client.resolve(&IpAddress::v4(9, 9, 9, 9), &cache, None, NOW);
    assert!(!unknown.suppress_update);
    assert_eq!(unknown.status, fallback());
    assert_eq!(unknown.computed_expiration, NOW + 3600);
}

#[test]
fn manual_status_lapsing_right_now_has_lapsed() {
    let config = config_with_home();
    let client = SlackStatus::from(&config).unwrap();
    let cache = Some(manual_entry("lunch", ":fork_and_knife:", NOW));
    assert!(!client.resolve(&IpAddress::v4(1, 2, 3, 4), &cache, None, NOW).suppress_update);
    let cache = Some(manual_entry("lunch", ":fork_and_knife:", NOW + 1));
    assert!(client.resolve(&IpAddress::v4(1, 2, 3, 4), &cache, None, NOW).suppress_update);
}

#[test]
fn manual_status_that_never_lapses_is_not_taken_for_lapsed() {
    let config = config_with_home();
    let client = SlackStatus::from(&config).unwrap();
    let cache = Some(manual_entry("sabbatical", ":palm_tree:", 0));
    let resolved = client.resolve(&IpAddress::v4(1, 2, 3, 4), &cache, None, NOW);
    assert!(resolved.suppress_update);
    assert_eq!(resolved.reason, Reason::ManualHoldActive);
    assert_eq!(resolved.status.text, "sabbatical");
    assert_eq!(resolved.computed_expiration, 0);
}

#[test]
fn automatic_entry_holds_nothing_back() {
    let config = config_with_home();
    let client = SlackStatus::from(&config).unwrap();
    let mut entry = manual_entry("office", ":office:", NOW + 7200);
    entry.manually_set = false;
    let resolved = client.resolve(&IpAddress::v4(1, 2, 3, 4), &Some(entry), None, NOW);
    assert!(!resolved.suppress_update);
    assert_eq!(resolved.status.text, "home");
}

#[test]
fn manual_override_is_taken_as_it_is() {
    let config = config_with_home();
    let client = SlackStatus::from(&config).unwrap();
    let asked = StatusConfig {
        text: String::from("in a meeting"),
        emoji: String::from(":calendar:"),
        expire_after_hours: Some(24),
    };
    let cache = Some(manual_entry("vacation", ":beach:", NOW + 7200));
    let resolved = client.resolve(&IpAddress::v4(1, 2, 3, 4), &cache, Some(asked.clone()), NOW);
    assert_eq!(
        resolved,
        ResolvedStatus {
            status: asked,
            computed_expiration: NOW + 24 * 3600,
            suppress_update: false,
            reason: Reason::NoCacheConflict,
        }
    );
}

#[test]
fn manual_override_without_hours_never_lapses() {
    let config = config_with_home();
    let client = SlackStatus::from(&config).unwrap();
    let asked = StatusConfig {
        text: String::from("away"),
        emoji: String::from(":zzz:"),
        expire_after_hours: None,
    };
    let resolved = client.resolve(&IpAddress::v4(9, 9, 9, 9), &None, Some(asked), NOW);
    assert_eq!(resolved.computed_expiration, 0);
    assert!(!resolved.suppress_update);
}

#[test]
fn configured_defaults_replace_the_fallback() {
    let mut config = config_with_home();
    config.defaults = Some(StatusConfig {
        text: String::from("somewhere"),
        emoji: String::from(":world_map:"),
        expire_after_hours: Some(2),
    });
    let client = SlackStatus::from(&config).unwrap();
    let resolved = client.resolve(&IpAddress::v4(9, 9, 9, 9), &None, None, NOW);
    assert_eq!(resolved.status.text, "somewhere");
    assert_eq!(resolved.computed_expiration, NOW + 7200);
    let known = client.resolve(&IpAddress::v4(1, 2, 3, 4), &None, None, NOW);
    assert_eq!(known.status.text, "home");
}

#[test]
fn conflicting_locations_resolve_to_the_default() {
    let mut config = config_with_home();
    let mut second = home();
    second.text = String::from("office");
    config.locations.push(second);
    let client = SlackStatus::from(&config).unwrap();
    let resolved = client.resolve(&IpAddress::v4(1, 2, 3, 4), &None, None, NOW);
    assert_eq!(resolved.status, fallback());
    assert_eq!(resolved.computed_expiration, NOW + 3600);
}

#[test]
fn can_resolve_tells_when_the_expiration_fits() {
    let config = config_with_home();
    let client = SlackStatus::from(&config).unwrap();
    let unknown = IpAddress::v4(9, 9, 9, 9);
    assert!(client.can_resolve(&unknown, &None, &None, NOW));
    assert!(client.can_resolve(&unknown, &None, &None, i64::MAX - 3600));
    assert!(!client.can_resolve(&unknown, &None, &None, i64::MAX - 3599));
    assert!(client.can_resolve(&IpAddress::v4(1, 2, 3, 4), &None, &None, i64::MAX));
    let cache = Some(manual_entry("vacation", ":beach:", 0));
    assert!(client.can_resolve(&unknown, &cache, &None, i64::MAX));
    let huge = Some(StatusConfig {
        text: String::from("x"),
        emoji: String::from(":x:"),
        expire_after_hours: Some(2_562_047_788_016),
    });
    assert!(!client.can_resolve(&unknown, &None, &huge, 0));
    let large = Some(StatusConfig {
        text: String::from("x"),
        emoji: String::from(":x:"),
        expire_after_hours: Some(2_562_047_788_015),
    });
    assert!(client.can_resolve(&unknown, &None, &large, 0));
}

#[test]
fn resolve_now_stamps_with_the_clock() {
    let config = config_with_home();
    let client = SlackStatus::from(&config).unwrap();
    let before = chrono::Utc::now().timestamp();
    let resolved = client
        .resolve_now(&IpAddress::v4(9, 9, 9, 9), &None, None)
        .unwrap();
    let after = chrono::Utc::now().timestamp();
    assert!(before + 3600 <= resolved.computed_expiration);
    assert!(resolved.computed_expiration <= after + 3600);
    assert_eq!(resolved.status, fallback());
    assert!(!resolved.suppress_update);
}

#[test]
fn resolve_now_gives_up_where_no_expiration_fits() {
    let config = config_with_home();
    let client = SlackStatus::from(&config).unwrap();
    let huge = StatusConfig {
        text: String::from("x"),
        emoji: String::from(":x:"),
        expire_after_hours: Some(i64::MAX),
    };
    assert_eq!(client.resolve_now(&IpAddress::v4(9, 9, 9, 9), &None, Some(huge)), None);
}

#[test]
fn resolve_now_holds_back_under_a_standing_manual_status() {
    let config = config_with_home();
    let client = SlackStatus::from(&config).unwrap();
    let cache = Some(manual_entry("sabbatical", ":palm_tree:", 0));
    let resolved = client
        .resolve_now(&IpAddress::v4(1, 2, 3, 4), &cache, None)
        .unwrap();
    assert!(resolved.suppress_update);
    assert_eq!(resolved.status.text, "sabbatical");
}
