use slack_status::text::trim_char;
use slack_status::{Config, IpAddress, IpReply, SlackStatus, StatusCache, StatusError};

fn client_config() -> Config {
    Config::with(String::from("token"))
}

#[test]
fn reported_status_is_read_from_the_profile() {
    let config = client_config();
    let client = SlackStatus::from(&config).unwrap();
    let body = r#"{"ok":true,"profile":{"status_text":"working remotely","status_emoji":":house_with_garden:","status_expiration":1700003600,"real_name":"x"}}"#;
    assert_eq!(
        client.get_slack_status(body),
        Ok(Some(StatusCache {
            text: String::from("working remotely"),
            emoji: String::from(":house_with_garden:"),
            expiration: 1_700_003_600,
        }))
    );
}

#[test]
fn reported_status_without_text_reads_as_empty() {
    let config = client_config();
    let client = SlackStatus::from(&config).unwrap();
    let body = r#"{"profile":{"status_text":"","status_emoji":"","status_expiration":0}}"#;
    assert_eq!(
        client.get_slack_status(body),
        Ok(Some(StatusCache {
            text: String::new(),
            emoji: String::new(),
            expiration: 0,
        }))
    );
}

#[test]
fn reported_status_keeps_what_json_escapes() {
    let config = client_config();
    let client = SlackStatus::from(&config).unwrap();
    let body = r#"{"profile":{"status_text":"a \"b\" c","status_emoji":7,"status_expiration":-5}}"#;
    assert_eq!(
        client.get_slack_status(body),
        Ok(Some(StatusCache {
            text: String::from(r#"a \"b\" c"#),
            emoji: String::from("7"),
            expiration: -5,
        }))
    );
}

#[test]
fn answer_that_is_no_json_is_unreadable() {
    let config = client_config();
    let client = SlackStatus::from(&config).unwrap();
    assert_eq!(client.get_slack_status("<html>"), Err(StatusError::ReplyUnreadable));
    assert_eq!(client.get_slack_status(""), Err(StatusError::ReplyUnreadable));
}

#[test]
fn answer_without_expiration_is_an_error() {
    let config = client_config();
    let client = SlackStatus::from(&config).unwrap();
    assert_eq!(
        client.get_slack_status(r#"{"ok":false,"error":"invalid_auth"}"#),
        Err(StatusError::ReplyWithoutExpiration)
    );
    assert_eq!(
        client.get_slack_status(
            r#"{"profile":{"status_text":"a","status_emoji":"b","status_expiration":1.5}}"#
        ),
        Err(StatusError::ReplyWithoutExpiration)
    );
    assert_eq!(
        client.get_slack_status(
            r#"{"profile":{"status_text":"a","status_emoji":"b","status_expiration":"1"}}"#
        ),
        Err(StatusError::ReplyWithoutExpiration)
    );
    assert_eq!(
        client.get_slack_status(
            r#"{"profile":{"status_text":"a","status_emoji":"b","status_expiration":9223372036854775808}}"#
        ),
        Err(StatusError::ReplyWithoutExpiration)
    );
    assert_eq!(client.get_slack_status("[1]"), Err(StatusError::ReplyWithoutExpiration));
}

#[test]
fn absent_text_reads_as_null() {
    let config = client_config();
    let client = SlackStatus::from(&config).unwrap();
    let found = client
        .get_slack_status(r#"{"profile":{"status_expiration":12}}"#)
        .unwrap()
        .unwrap();
    assert_eq!(found.text, "null");
    assert_eq!(found.emoji, "null");
    assert_eq!(found.expiration, 12);
}

#[test]
fn from_profile_trims_the_quotes() {
    assert_eq!(
        StatusCache::from_profile("\"home\"", "\":house:\"", Some(3)),
        Ok(StatusCache {
            text: String::from("home"),
            emoji: String::from(":house:"),
            expiration: 3,
        })
    );
    assert_eq!(
        StatusCache::from_profile("\"home\"", "\":house:\"", None),
        Err(StatusError::ReplyWithoutExpiration)
    );
}

#[test]
fn trim_char_strips_both_ends_and_nothing_else() {
    assert_eq!(trim_char("\"abc\"", '"'), "abc");
    assert_eq!(trim_char("\"\"a\"b\"\"\"", '"'), "a\"b");
    assert_eq!(trim_char("abc", '"'), "abc");
    assert_eq!(trim_char("", '"'), "");
    assert_eq!(trim_char("\"\"\"", '"'), "");
    assert_eq!(trim_char("\"", '"'), "");
    assert_eq!(trim_char("xxaxx", 'x'), "a");
    assert_eq!(trim_char("\"héllo wörld ✓\"", '"'), "héllo wörld ✓");
    assert_eq!(trim_char("ééaé", 'é'), "a");
    assert_eq!(trim_char(" \"a\" ", '"'), " \"a\" ");
}

#[test]
fn public_ip_is_asked_for_at_the_configured_place() {
    let mut config = client_config();
    {
        let client = SlackStatus::from(&config).unwrap();
        assert_eq!(client.ip_request_address(), "https://ip.clara.net");
    }
    config.ip_request_address = Some(String::from("http://ip.example.org"));
    let client = SlackStatus::from(&config).unwrap();
    assert_eq!(client.ip_request_address(), "http://ip.example.org");
}

#[test]
fn public_ip_comes_from_a_successful_answer() {
    let config = client_config();
    let client = SlackStatus::from(&config).unwrap();
    let ip = IpAddress::v4(1, 2, 3, 4);
    assert_eq!(client.get_public_ip(IpReply::Answered(200, Some(ip))), Ok(ip));
    assert_eq!(client.get_public_ip(IpReply::Answered(299, Some(ip))), Ok(ip));
    assert_eq!(
        client.get_public_ip(IpReply::Answered(200, None)),
        Err(StatusError::IpUnparsable)
    );
    assert_eq!(
        client.get_public_ip(IpReply::Answered(300, Some(ip))),
        Err(StatusError::IpRequestStatus(300))
    );
    assert_eq!(
        client.get_public_ip(IpReply::Answered(199, Some(ip))),
        Err(StatusError::IpRequestStatus(199))
    );
    assert_eq!(
        client.get_public_ip(IpReply::Answered(503, None)),
        Err(StatusError::IpRequestStatus(503))
    );
    assert_eq!(client.get_public_ip(IpReply::Failed), Err(StatusError::IpRequestFailed));
}

#[test]
fn client_needs_a_token() {
    let config = Config::with(String::new());
    assert_eq!(SlackStatus::from(&config).err(), Some(StatusError::MissingToken));
    let config = Config::with(String::from("x"));
    let client = SlackStatus::from(&config).unwrap();
    assert_eq!(client.config, &config);
}

#[test]
fn every_error_has_its_message() {
    assert_eq!(
        StatusError::MissingToken.message(),
        "You must copy your Slack token to configuration file."
    );
    assert_eq!(StatusError::IpRequestFailed.message(), "Request error");
    assert_eq!(
        StatusError::IpRequestStatus(404).message(),
        "Request error, status is not a success"
    );
    assert_eq!(StatusError::IpUnparsable.message(), "Cannot parse IP");
    assert_eq!(StatusError::ReplyUnreadable.message(), "Cannot deserialize");
    assert_eq!(
        StatusError::ReplyWithoutExpiration.message(),
        "Status expiration is missing"
    );
    assert_eq!(StatusError::CacheUnreadable.message(), "Cannot read cache");
    assert_eq!(StatusError::UpdateFailed.message(), "Failed to change status");
    assert_eq!(
        StatusError::CacheUnwritable.message(),
        "Status changed, but the cache could not be saved"
    );
}
