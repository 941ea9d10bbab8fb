use discord_tui::commands::PresenceStatus;
use discord_tui::decimal::{decimal_string, signed_decimal_string};
use discord_tui::ids::Id;
use discord_tui::rest::{
    gateway_status, leave_guild_request, mute_request_body, poll_vote_request_body,
    prime_connection_pool_request, request_failure_message, set_channel_muted_request,
    set_guild_muted_request, update_current_user_status_request, vote_poll_request, HttpMethod,
    request_result, HttpOutcome, JsonValue, RequestFailure, UtcInstant,
};
use discord_tui::ids::{ChannelMarker, GuildMarker, MessageMarker};

fn field<'a>(value: &'a JsonValue, name: &str) -> &'a JsonValue {
    match value {
        JsonValue::Object(fields) => {
            &fields.iter().find(|(key, _)| key == name).expect("field present").1
        }
        _ => panic!("not an object"),
    }
}

fn text(value: &JsonValue) -> &str {
    match value {
        JsonValue::Text(s) => s,
        _ => panic!("not a string"),
    }
}

#[test]
fn decimal_text_of_ids() {
    assert_eq!(decimal_string(0), "0");
    assert_eq!(decimal_string(1234567890123), "1234567890123");
    assert_eq!(decimal_string(u64::MAX), "18446744073709551615");
    assert_eq!(signed_decimal_string(-3600), "-3600");
    assert_eq!(signed_decimal_string(i64::MIN), "-9223372036854775808");
    assert_eq!(signed_decimal_string(86400), "86400");
}

#[test]
fn connection_prime_and_leave_guild_urls() {
    let prime = prime_connection_pool_request();
    assert_eq!(prime.method, HttpMethod::Get);
    assert_eq!(prime.url, "https://discord.com/api/v9/users/@me");
    assert!(prime.body.is_none());

    let leave = leave_guild_request(Id::new(81384788765712384));
    assert_eq!(leave.method, HttpMethod::Delete);
    assert_eq!(leave.url, "https://discord.com/api/v9/users/@me/guilds/81384788765712384");
    assert!(leave.body.is_none());
}

#[test]
fn mute_body_without_a_time_window_has_no_config() {
    let body = mute_request_body(true, None, None);
    assert!(matches!(field(&body, "muted"), JsonValue::Bool(true)));
    assert!(matches!(field(&body, "mute_config"), JsonValue::Null));
}

#[test]
fn mute_body_writes_the_end_time_in_rfc3339() {
    let body = mute_request_body(
        true,
        UtcInstant::new(947638923, 4_000_000),
        Some(3600),
    );
    let config = field(&body, "mute_config");
    assert_eq!(text(field(config, "end_time")), "2000-01-12T01:02:03.004Z");

    let leap = mute_request_body(
        true,
        UtcInstant::new(1483228799, 1_500_000_000),
        Some(60),
    );
    assert_eq!(text(field(field(&leap, "mute_config"), "end_time")), "2016-12-31T23:59:60.500Z");
    assert!(matches!(field(config, "selected_time_window"), JsonValue::Number(3600)));

    let forever = mute_request_body(false, None, Some(-1));
    let config = field(&forever, "mute_config");
    assert!(matches!(field(config, "end_time"), JsonValue::Null));
    assert!(matches!(field(&forever, "muted"), JsonValue::Bool(false)));
}

#[test]
fn guild_and_channel_mute_requests() {
    let guild = set_guild_muted_request(Id::new(42), true, None, None);
    assert_eq!(guild.method, HttpMethod::Patch);
    assert_eq!(guild.url, "https://discord.com/api/v9/users/@me/guilds/42/settings");

    let channel = set_channel_muted_request(Some(Id::new(42)), Id::new(77), false, None, None);
    assert_eq!(channel.url, "https://discord.com/api/v9/users/@me/guilds/42/settings");
    let body = channel.body.expect("body");
    let overrides = field(&body, "channel_overrides");
    let inner = field(overrides, "77");
    assert!(matches!(field(inner, "muted"), JsonValue::Bool(false)));

    let direct = set_channel_muted_request(None, Id::new(77), true, None, None);
    assert_eq!(direct.url, "https://discord.com/api/v9/users/@me/guilds/@me/settings");
}

#[test]
fn poll_vote_request_lists_the_answers() {
    let body = poll_vote_request_body(&[1, 3]);
    match field(&body, "answer_ids") {
        JsonValue::Array(items) => {
            assert_eq!(items.len(), 2);
            assert!(matches!(items[0], JsonValue::Number(1)));
            assert!(matches!(items[1], JsonValue::Number(3)));
        }
        _ => panic!("answer ids are an array"),
    }
    let request = vote_poll_request(Id::new(5), Id::new(6), &[]);
    assert_eq!(request.method, HttpMethod::Put);
    assert_eq!(request.url, "https://discord.com/api/v9/channels/5/polls/6/answers/@me");
}

#[test]
fn status_update_uses_gateway_keywords() {
    assert_eq!(gateway_status(PresenceStatus::DoNotDisturb), "dnd");
    assert_eq!(gateway_status(PresenceStatus::Offline), "invisible");
    let request = update_current_user_status_request(PresenceStatus::Idle);
    assert_eq!(request.method, HttpMethod::Patch);
    assert_eq!(request.url, "https://discord.com/api/v9/users/@me/settings");
    assert_eq!(text(field(&request.body.expect("body"), "status")), "idle");
}

#[test]
fn failure_messages_name_the_call_and_stage() {
    assert_eq!(
        request_failure_message("poll vote", RequestFailure::Send, "timed out"),
        "poll vote request failed: timed out"
    );
    assert_eq!(
        request_failure_message("leave guild", RequestFailure::Status, "HTTP 403"),
        "leave guild failed: HTTP 403"
    );
    assert_eq!(
        request_failure_message("profile", RequestFailure::Decode, "EOF"),
        "profile decode failed: EOF"
    );
}

#[test]
fn utc_instants_are_those_chrono_holds() {
    let leap = UtcInstant::new(1483228799, 1_500_000_000).unwrap();
    assert_eq!((leap.secs(), leap.nanos()), (1483228799, 1_500_000_000));
    assert!(UtcInstant::new(1483228798, 1_500_000_000).is_none());
    assert!(UtcInstant::new(-1, 1_999_999_999).is_some());
    assert!(UtcInstant::new(-2, 1_000_000_000).is_none());
    assert!(UtcInstant::new(0, 2_000_000_000).is_none());
    assert!(UtcInstant::new(-8_334_601_228_800, 0).is_some());
    assert!(UtcInstant::new(-8_334_601_228_801, 0).is_none());
    assert!(UtcInstant::new(8_210_266_876_799, 999_999_999).is_some());
    assert!(UtcInstant::new(8_210_266_876_800, 0).is_none());
}

#[test]
fn mute_body_writes_the_extreme_instants() {
    let first = mute_request_body(true, UtcInstant::new(-8_334_601_228_800, 0), Some(1));
    assert_eq!(
        text(field(field(&first, "mute_config"), "end_time")),
        "-262143-01-01T00:00:00.000Z"
    );
    let last = mute_request_body(true, UtcInstant::new(8_210_266_876_799, 999_999_999), Some(1));
    assert_eq!(
        text(field(field(&last, "mute_config"), "end_time")),
        "+262142-12-31T23:59:59.999Z"
    );
}

#[test]
fn each_call_carries_its_label() {
    let guild: Id<GuildMarker> = Id::new(3);
    let channel: Id<ChannelMarker> = Id::new(4);
    let message: Id<MessageMarker> = Id::new(5);
    assert_eq!(prime_connection_pool_request().label, "connection prime");
    assert_eq!(leave_guild_request(guild).label, "leave guild");
    assert_eq!(set_guild_muted_request(guild, true, None, None).label, "set guild mute");
    assert_eq!(set_channel_muted_request(None, channel, true, None, None).label, "set channel mute");
    assert_eq!(vote_poll_request(channel, message, &[1]).label, "poll vote");
    assert_eq!(
        update_current_user_status_request(PresenceStatus::Online).label,
        "status settings update"
    );
}

#[test]
fn request_result_follows_the_outcome() {
    let guild: Id<GuildMarker> = Id::new(3);
    let request = leave_guild_request(guild);
    assert_eq!(
        request_result(&request, HttpOutcome::Unsent("connection refused".to_owned())),
        Err("leave guild request failed: connection refused".to_owned())
    );
    assert_eq!(
        request_result(
            &request,
            HttpOutcome::Answered { status: 403, error_text: "HTTP status client error (403 Forbidden)".to_owned() }
        ),
        Err("leave guild failed: HTTP status client error (403 Forbidden)".to_owned())
    );
    assert_eq!(
        request_result(&request, HttpOutcome::Answered { status: 503, error_text: "busy".to_owned() }),
        Err("leave guild failed: busy".to_owned())
    );
    assert_eq!(
        request_result(&request, HttpOutcome::Answered { status: 204, error_text: String::new() }),
        Ok(())
    );
    assert_eq!(
        request_result(&request, HttpOutcome::Answered { status: 399, error_text: String::new() }),
        Ok(())
    );
    assert_eq!(
        request_result(&request, HttpOutcome::Answered { status: 600, error_text: String::new() }),
        Ok(())
    );
}
