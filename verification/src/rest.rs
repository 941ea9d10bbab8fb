//! The Discord REST calls that the client makes: for each, the method, the
//! URL and the JSON body. Sending them is left to the HTTP client.
use crate::commands::PresenceStatus;
use crate::decimal::{decimal, decimal_string, push_decimal};
use crate::ids::{ChannelMarker, GuildMarker, Id, MessageMarker};
use chrono::{DateTime, SecondsFormat, Utc};
use vstd::prelude::*;

verus! {

/// An HTTP method.
#[derive(Clone, Copy, Debug, PartialEq, Eq, Structural)]
pub enum HttpMethod {
    Get,
    Put,
    Patch,
    Delete,
}

/// A JSON value, object members in the order they are written.
#[derive(Debug)]
pub enum JsonValue {
    Null,
    Bool(bool),
    Number(i64),
    Text(String),
    Array(Vec<JsonValue>),
    Object(Vec<(String, JsonValue)>),
}

/// A request to the Discord REST API, with the label that names the call in
/// the messages that report its failure.
#[derive(Debug)]
pub struct RestRequest {
    pub method: HttpMethod,
    pub url: String,
    pub body: Option<JsonValue>,
    pub label: String,
}

/// The pairs of whole seconds since the Unix epoch and nanoseconds since the
/// last whole second that a `chrono::DateTime<Utc>` can hold: its dates run
/// from January 1, 262144 BCE to December 31, 262142 CE, and the nanoseconds
/// reach past a whole second only during a leap second, the last second of
/// a minute.
pub open spec fn is_utc_instant(secs: int, nanos: int) -> bool {
    &&& -8_334_601_228_800 <= secs <= 8_210_266_876_799
    &&& 0 <= nanos
    &&& (nanos < 1_000_000_000 || (nanos < 2_000_000_000 && secs % 60 == 59))
}

/// A UTC instant as `chrono` splits it: whole seconds since the Unix epoch,
/// and nanoseconds since the last whole second, which exceed a second during
/// a leap second. Every value is one that a `chrono::DateTime<Utc>` holds.
#[derive(Clone, Copy, Debug, PartialEq, Eq, Structural)]
pub struct UtcInstant {
    secs: i64,
    nanos: u32,
}

impl UtcInstant {
    #[verifier::type_invariant]
    closed spec fn holds_a_utc_instant(self) -> bool {
        is_utc_instant(self.secs as int, self.nanos as int)
    }

    /// The whole seconds since the Unix epoch.
    pub closed spec fn spec_secs(self) -> i64 {
        self.secs
    }

    /// The nanoseconds since the last whole second.
    pub closed spec fn spec_nanos(self) -> u32 {
        self.nanos
    }

    /// The instant `secs` seconds and `nanos` nanoseconds after the Unix
    /// epoch; `None` when no `chrono::DateTime<Utc>` holds that pair.
    pub fn new(secs: i64, nanos: u32) -> (instant: Option<UtcInstant>)
        ensures
            instant is Some <==> is_utc_instant(secs as int, nanos as int),
            instant matches Some(i) ==> i.spec_secs() == secs && i.spec_nanos() == nanos,
    {
        if secs < -8_334_601_228_800i64 || secs > 8_210_266_876_799i64 {
            return None;
        }
        let in_last_second = secs % 60 == 59 || secs % 60 == -1;
        proof {
            assert((secs % 60 == 59 || secs % 60 == -1) <==> (secs as int) % 60 == 59) by (bit_vector)
                requires
                    -8_334_601_228_800 <= secs <= 8_210_266_876_799;
        }
        if nanos < 1_000_000_000u32 || (nanos < 2_000_000_000u32 && in_last_second) {
            Some(UtcInstant { secs, nanos })
        } else {
            None
        }
    }

    /// The whole seconds since the Unix epoch.
    pub fn secs(&self) -> (secs: i64)
        ensures
            secs == self.spec_secs(),
    {
        self.secs
    }

    /// The nanoseconds since the last whole second.
    pub fn nanos(&self) -> (nanos: u32)
        ensures
            nanos == self.spec_nanos(),
    {
        self.nanos
    }
}

/// RFC 3339 text, with milliseconds and a `Z` suffix, of the UTC instant
/// `secs` seconds and `nanos` nanoseconds after the Unix epoch, as `chrono`
/// writes it; `None` when `chrono` cannot represent the instant.
pub uninterp spec fn rfc3339_utc_millis(secs: i64, nanos: u32) -> Option<Seq<char>>;

/// Calls `chrono::DateTime::<Utc>::from_timestamp(secs, nanos)` and, on the
/// instant it gives, `to_rfc3339_opts(SecondsFormat::Millis, true)`. The
/// result is named by `rfc3339_utc_millis`. `from_timestamp` gives an
/// instant for every pair that a `DateTime<Utc>` holds, and writing RFC 3339
/// text into a `String` does not fail, so such a pair always has text;
/// nothing more is claimed of the text.
#[verifier::external_body]
fn format_rfc3339_millis(secs: i64, nanos: u32) -> (text: Option<String>)
    ensures
        match text {
            Some(t) => rfc3339_utc_millis(secs, nanos) == Some(t@),
            None => rfc3339_utc_millis(secs, nanos) is None,
        },
        is_utc_instant(secs as int, nanos as int) ==> text is Some,
{
    DateTime::<Utc>::from_timestamp(secs, nanos).map(
        |end_time| end_time.to_rfc3339_opts(SecondsFormat::Millis, true),
    )
}

/// The prefix of every REST URL.
pub open spec fn api_base() -> Seq<char> {
    "https://discord.com/api/v9"@
}

/// `value` is the JSON string `text`.
pub open spec fn is_json_text(value: JsonValue, text: Seq<char>) -> bool {
    &&& value matches JsonValue::Text(s)
    &&& s@ == text
}

/// The end time of a mute as it is written: RFC 3339 text, or nothing.
pub open spec fn end_time_text(end_time: Option<UtcInstant>) -> Option<Seq<char>> {
    match end_time {
        Some(instant) => rfc3339_utc_millis(instant.spec_secs(), instant.spec_nanos()),
        None => None,
    }
}

/// `{"end_time": <end time or null>, "selected_time_window": <window>}`.
pub open spec fn is_mute_config(value: JsonValue, end_time: Option<Seq<char>>, window: i64) -> bool {
    &&& value matches JsonValue::Object(fields)
    &&& fields@.len() == 2
    &&& fields@[0].0@ == "end_time"@
    &&& match end_time {
        Some(t) => is_json_text(fields@[0].1, t),
        None => fields@[0].1 is Null,
    }
    &&& fields@[1].0@ == "selected_time_window"@
    &&& fields@[1].1 matches JsonValue::Number(w) && w == window
}

/// `{"muted": <muted>, "mute_config": <config or null>}`: a mute config only
/// when a time window was picked.
pub open spec fn is_mute_body(
    value: JsonValue,
    muted: bool,
    end_time: Option<UtcInstant>,
    window: Option<i64>,
) -> bool {
    &&& value matches JsonValue::Object(fields)
    &&& fields@.len() == 2
    &&& fields@[0].0@ == "muted"@
    &&& fields@[0].1 matches JsonValue::Bool(b) && b == muted
    &&& fields@[1].0@ == "mute_config"@
    &&& match window {
        Some(w) => is_mute_config(fields@[1].1, end_time_text(end_time), w),
        None => fields@[1].1 is Null,
    }
}

/// `{"channel_overrides": {"<channel id>": <mute body>}}`.
pub open spec fn is_channel_mute_body(
    value: JsonValue,
    channel_id: u64,
    muted: bool,
    end_time: Option<UtcInstant>,
    window: Option<i64>,
) -> bool {
    &&& value matches JsonValue::Object(outer)
    &&& outer@.len() == 1
    &&& outer@[0].0@ == "channel_overrides"@
    &&& outer@[0].1 matches JsonValue::Object(overrides)
    &&& overrides@.len() == 1
    &&& overrides@[0].0@ == decimal(channel_id as nat)
    &&& is_mute_body(overrides@[0].1, muted, end_time, window)
}

/// `{"status": "<keyword>"}`.
pub open spec fn is_status_body(value: JsonValue, status: PresenceStatus) -> bool {
    &&& value matches JsonValue::Object(fields)
    &&& fields@.len() == 1
    &&& fields@[0].0@ == "status"@
    &&& is_json_text(fields@[0].1, spec_gateway_status(status))
}

/// The settings URL of a guild, or of the direct messages scope.
pub open spec fn guild_settings_url(guild_id: Option<u64>) -> Seq<char> {
    match guild_id {
        Some(g) => api_base() + "/users/@me/guilds/"@ + decimal(g as nat) + "/settings"@,
        None => api_base() + "/users/@me/guilds/@me/settings"@,
    }
}

fn text(s: &str) -> (value: JsonValue)
    ensures
        is_json_text(value, s@),
{
    JsonValue::Text(String::from_str(s))
}

fn field(name: &str, value: JsonValue) -> (f: (String, JsonValue))
    ensures
        f.0@ == name@,
        f.1 == value,
{
    (String::from_str(name), value)
}

/// The body that mutes or unmutes a guild or a channel.
pub fn mute_request_body(
    muted: bool,
    mute_end_time: Option<UtcInstant>,
    selected_time_window: Option<i64>,
) -> (body: JsonValue)
    ensures
        is_mute_body(body, muted, mute_end_time, selected_time_window),
        selected_time_window is Some && mute_end_time is Some ==> end_time_text(mute_end_time) is Some,
{
    proof {
        if let Some(instant) = mute_end_time {
            use_type_invariant(&instant);
        }
    }
    let config = match selected_time_window {
        Some(window) => {
            let end_time = match mute_end_time {
                Some(instant) => match format_rfc3339_millis(instant.secs(), instant.nanos()) {
                    Some(t) => JsonValue::Text(t),
                    None => JsonValue::Null,
                },
                None => JsonValue::Null,
            };
            let mut fields = Vec::new();
            fields.push(field("end_time", end_time));
            fields.push(field("selected_time_window", JsonValue::Number(window)));
            JsonValue::Object(fields)
        },
        None => JsonValue::Null,
    };
    let mut fields = Vec::new();
    fields.push(field("muted", JsonValue::Bool(muted)));
    fields.push(field("mute_config", config));
    JsonValue::Object(fields)
}

/// `value` is the JSON number `n`.
pub open spec fn is_json_number(value: JsonValue, n: int) -> bool {
    &&& value matches JsonValue::Number(v)
    &&& v == n
}

/// `{"answer_ids": [<id>, ...]}`, the ids in order.
pub open spec fn is_poll_vote_body(value: JsonValue, answer_ids: Seq<u8>) -> bool {
    &&& value matches JsonValue::Object(fields)
    &&& fields@.len() == 1
    &&& fields@[0].0@ == "answer_ids"@
    &&& fields@[0].1 matches JsonValue::Array(items)
    &&& items@.len() == answer_ids.len()
    &&& forall|i: int| 0 <= i < items@.len() ==> is_json_number(#[trigger] items@[i], answer_ids[i] as int)
}

/// The body that votes for the given answers of a poll.
pub fn poll_vote_request_body(answer_ids: &[u8]) -> (body: JsonValue)
    ensures
        is_poll_vote_body(body, answer_ids@),
{
    let mut items: Vec<JsonValue> = Vec::new();
    let mut i: usize = 0;
    while i < answer_ids.len()
        invariant
            i <= answer_ids@.len(),
            items@.len() == i,
            forall|j: int| 0 <= j < i ==> is_json_number(#[trigger] items@[j], answer_ids@[j] as int),
        decreases answer_ids.len() - i,
    {
        items.push(JsonValue::Number(answer_ids[i] as i64));
        i += 1;
    }
    let mut fields = Vec::new();
    fields.push(field("answer_ids", JsonValue::Array(items)));
    JsonValue::Object(fields)
}

/// The status keyword that the settings endpoint takes for a presence.
pub open spec fn spec_gateway_status(status: PresenceStatus) -> Seq<char> {
    match status {
        PresenceStatus::Online => "online"@,
        PresenceStatus::Idle => "idle"@,
        PresenceStatus::DoNotDisturb => "dnd"@,
        PresenceStatus::Invisible => "invisible"@,
        PresenceStatus::Offline => "invisible"@,
        PresenceStatus::Unknown => "online"@,
    }
}

/// The status keyword that the settings endpoint takes for a presence; a
/// user cannot choose to be offline, only invisible.
pub fn gateway_status(status: PresenceStatus) -> (keyword: &'static str)
    ensures
        keyword@ == spec_gateway_status(status),
{
    proof {
        reveal_strlit("online");
        reveal_strlit("idle");
        reveal_strlit("dnd");
        reveal_strlit("invisible");
    }
    match status {
        PresenceStatus::Online => "online",
        PresenceStatus::Idle => "idle",
        PresenceStatus::DoNotDisturb => "dnd",
        PresenceStatus::Invisible => "invisible",
        PresenceStatus::Offline => "invisible",
        PresenceStatus::Unknown => "online",
    }
}

fn api_url(path: &str) -> (url: String)
    ensures
        url@ == api_base() + path@,
{
    let mut url = String::from_str("https://discord.com/api/v9");
    url.append(path);
    url
}

/// A cheap call that opens the HTTPS connection ahead of the first real
/// request.
pub fn prime_connection_pool_request() -> (request: RestRequest)
    ensures
        request.method == HttpMethod::Get,
        request.url@ == api_base() + "/users/@me"@,
        request.body is None,
        request.label@ == "connection prime"@,
{
    RestRequest {
        method: HttpMethod::Get,
        url: api_url("/users/@me"),
        body: None,
        label: String::from_str("connection prime"),
    }
}

/// Leaves a guild.
pub fn leave_guild_request(guild_id: Id<GuildMarker>) -> (request: RestRequest)
    ensures
        request.method == HttpMethod::Delete,
        request.url@ == api_base() + "/users/@me/guilds/"@ + decimal(guild_id@ as nat),
        request.body is None,
        request.label@ == "leave guild"@,
{
    let mut url = api_url("/users/@me/guilds/");
    push_decimal(&mut url, guild_id.get());
    RestRequest { method: HttpMethod::Delete, url, body: None, label: String::from_str("leave guild") }
}

fn guild_settings_request_url(guild_id: Option<Id<GuildMarker>>) -> (url: String)
    ensures
        url@ == guild_settings_url(
            match guild_id {
                Some(g) => Some(g@),
                None => None,
            },
        ),
{
    match guild_id {
        Some(guild_id) => {
            let mut url = api_url("/users/@me/guilds/");
            push_decimal(&mut url, guild_id.get());
            url.append("/settings");
            url
        },
        None => api_url("/users/@me/guilds/@me/settings"),
    }
}

/// Mutes or unmutes a guild.
pub fn set_guild_muted_request(
    guild_id: Id<GuildMarker>,
    muted: bool,
    mute_end_time: Option<UtcInstant>,
    selected_time_window: Option<i64>,
) -> (request: RestRequest)
    ensures
        request.method == HttpMethod::Patch,
        request.url@ == guild_settings_url(Some(guild_id@)),
        request.body matches Some(body) && is_mute_body(
            body,
            muted,
            mute_end_time,
            selected_time_window,
        ),
        request.label@ == "set guild mute"@,
{
    RestRequest {
        method: HttpMethod::Patch,
        url: guild_settings_request_url(Some(guild_id)),
        body: Some(mute_request_body(muted, mute_end_time, selected_time_window)),
        label: String::from_str("set guild mute"),
    }
}

/// Mutes or unmutes a channel: an override in the settings of its guild, or
/// of the direct messages scope for a channel outside any guild.
pub fn set_channel_muted_request(
    guild_id: Option<Id<GuildMarker>>,
    channel_id: Id<ChannelMarker>,
    muted: bool,
    mute_end_time: Option<UtcInstant>,
    selected_time_window: Option<i64>,
) -> (request: RestRequest)
    ensures
        request.method == HttpMethod::Patch,
        request.url@ == guild_settings_url(
            match guild_id {
                Some(g) => Some(g@),
                None => None,
            },
        ),
        request.body matches Some(body) && is_channel_mute_body(
            body,
            channel_id@,
            muted,
            mute_end_time,
            selected_time_window,
        ),
        request.label@ == "set channel mute"@,
{
    let body = mute_request_body(muted, mute_end_time, selected_time_window);
    let mut overrides = Vec::new();
    overrides.push((decimal_string(channel_id.get()), body));
    let mut outer = Vec::new();
    outer.push(field("channel_overrides", JsonValue::Object(overrides)));
    RestRequest {
        method: HttpMethod::Patch,
        url: guild_settings_request_url(guild_id),
        body: Some(JsonValue::Object(outer)),
        label: String::from_str("set channel mute"),
    }
}

/// Votes in a poll.
pub fn vote_poll_request(
    channel_id: Id<ChannelMarker>,
    message_id: Id<MessageMarker>,
    answer_ids: &[u8],
) -> (request: RestRequest)
    ensures
        request.method == HttpMethod::Put,
        request.url@ == api_base() + "/channels/"@ + decimal(channel_id@ as nat) + "/polls/"@
            + decimal(message_id@ as nat) + "/answers/@me"@,
        request.body matches Some(body) && is_poll_vote_body(body, answer_ids@),
        request.label@ == "poll vote"@,
{
    let mut url = api_url("/channels/");
    push_decimal(&mut url, channel_id.get());
    url.append("/polls/");
    push_decimal(&mut url, message_id.get());
    url.append("/answers/@me");
    let body = poll_vote_request_body(answer_ids);
    RestRequest { method: HttpMethod::Put, url, body: Some(body), label: String::from_str("poll vote") }
}

/// Changes the current user's status.
pub fn update_current_user_status_request(status: PresenceStatus) -> (request: RestRequest)
    ensures
        request.method == HttpMethod::Patch,
        request.url@ == api_base() + "/users/@me/settings"@,
        request.body matches Some(body) && is_status_body(body, status),
        request.label@ == "status settings update"@,
{
    let mut fields = Vec::new();
    fields.push(field("status", text(gateway_status(status))));
    RestRequest {
        method: HttpMethod::Patch,
        url: api_url("/users/@me/settings"),
        body: Some(JsonValue::Object(fields)),
        label: String::from_str("status settings update"),
    }
}

/// The stage at which a REST call failed.
#[derive(Clone, Copy, Debug, PartialEq, Eq, Structural)]
pub enum RequestFailure {
    /// The request could not be sent or got no answer.
    Send,
    /// The answer had an error status.
    Status,
    /// The answer's body did not decode.
    Decode,
}

/// The message that reports a failed REST call.
pub open spec fn spec_request_failure_message(
    label: Seq<char>,
    stage: RequestFailure,
    error: Seq<char>,
) -> Seq<char> {
    label + match stage {
        RequestFailure::Send => " request failed: "@,
        RequestFailure::Status => " failed: "@,
        RequestFailure::Decode => " decode failed: "@,
    } + error
}

/// The message that reports a failed REST call, from the call's label, the
/// stage and the HTTP client's error.
pub fn request_failure_message(label: &str, stage: RequestFailure, error: &str) -> (message: String)
    ensures
        message@ == spec_request_failure_message(label@, stage, error@),
{
    let mut message = String::from_str(label);
    match stage {
        RequestFailure::Send => message.append(" request failed: "),
        RequestFailure::Status => message.append(" failed: "),
        RequestFailure::Decode => message.append(" decode failed: "),
    }
    message.append(error);
    message
}

/// What came of sending a request, as the HTTP client reports it.
#[derive(Debug)]
pub enum HttpOutcome {
    /// The request could not be sent or got no answer; the client's error.
    Unsent(String),
    /// An answer came with `status`; `error_text` is what the client says of
    /// the status when it is an error status.
    Answered { status: u16, error_text: String },
}

/// A client error (4xx) or a server error (5xx).
pub open spec fn is_error_status(status: u16) -> bool {
    400 <= status && status < 600
}

/// What a call whose answer is not read comes to: success when an answer
/// came with a status that is not an error; otherwise the message that
/// names the call and the stage that failed.
pub open spec fn spec_request_result(label: Seq<char>, outcome: HttpOutcome) -> Result<(), Seq<char>> {
    match outcome {
        HttpOutcome::Unsent(error) => Err(
            spec_request_failure_message(label, RequestFailure::Send, error@),
        ),
        HttpOutcome::Answered { status, error_text } => if is_error_status(status) {
            Err(spec_request_failure_message(label, RequestFailure::Status, error_text@))
        } else {
            Ok(())
        },
    }
}

/// What a sent request comes to, from what the HTTP client reported.
pub fn request_result(request: &RestRequest, outcome: HttpOutcome) -> (result: Result<(), String>)
    ensures
        match (result, spec_request_result(request.label@, outcome)) {
            (Ok(()), Ok(())) => true,
            (Err(message), Err(expected)) => message@ == expected,
            _ => false,
        },
{
    match outcome {
        HttpOutcome::Unsent(error) => Err(
            request_failure_message(request.label.as_str(), RequestFailure::Send, error.as_str()),
        ),
        HttpOutcome::Answered { status, error_text } => if 400 <= status && status < 600 {
            Err(
                request_failure_message(
                    request.label.as_str(),
                    RequestFailure::Status,
                    error_text.as_str(),
                ),
            )
        } else {
            Ok(())
        },
    }
}

/// The status keywords: online, idle, `dnd` for do not disturb, and
/// invisible; offline is sent as invisible, and an unknown status as online.
pub proof fn lemma_gateway_status_keywords()
    ensures
        spec_gateway_status(PresenceStatus::Online) == "online"@,
        spec_gateway_status(PresenceStatus::Idle) == "idle"@,
        spec_gateway_status(PresenceStatus::DoNotDisturb) == "dnd"@,
        spec_gateway_status(PresenceStatus::Invisible) == "invisible"@,
        spec_gateway_status(PresenceStatus::Offline) == "invisible"@,
        spec_gateway_status(PresenceStatus::Unknown) == "online"@,
{
}

/// Every REST URL starts with the Discord API's version 9 base; a guild's
/// settings live under that guild's decimal id, and those of the direct
/// messages scope under `@me`.
pub proof fn lemma_rest_urls(guild_id: u64)
    ensures
        api_base() == "https://discord.com/api/v9"@,
        guild_settings_url(Some(guild_id)) == "https://discord.com/api/v9"@ + "/users/@me/guilds/"@
            + decimal(guild_id as nat) + "/settings"@,
        guild_settings_url(None) == "https://discord.com/api/v9"@
            + "/users/@me/guilds/@me/settings"@,
{
}

/// A failure message is the call's label, then what failed, then the HTTP
/// client's error: ` request failed: ` when nothing came back, ` failed: `
/// for an error status, ` decode failed: ` for an answer that did not
/// decode.
pub proof fn lemma_request_failure_messages(label: Seq<char>, error: Seq<char>)
    ensures
        spec_request_failure_message(label, RequestFailure::Send, error) == label
            + " request failed: "@ + error,
        spec_request_failure_message(label, RequestFailure::Status, error) == label + " failed: "@
            + error,
        spec_request_failure_message(label, RequestFailure::Decode, error) == label
            + " decode failed: "@ + error,
{
}

/// A request succeeds exactly when an answer came with a status that is
/// neither a client error (4xx) nor a server error (5xx); a request that got
/// no answer fails with the send message, one with an error status with the
/// status message, each carrying the client's own words.
pub proof fn lemma_request_results(label: Seq<char>, outcome: HttpOutcome)
    ensures
        spec_request_result(label, outcome) is Ok <==> (outcome matches HttpOutcome::Answered {
            status,
            ..
        } && !(400 <= status && status < 600)),
        outcome matches HttpOutcome::Unsent(e) ==> spec_request_result(label, outcome) == Err::<
            (),
            Seq<char>,
        >(label + " request failed: "@ + e@),
        outcome matches HttpOutcome::Answered { status, error_text } ==> (400 <= status && status
            < 600 ==> spec_request_result(label, outcome) == Err::<(), Seq<char>>(
            label + " failed: "@ + error_text@,
        )),
{
}

/// A JSON text is a string with exactly that text, and a JSON number a
/// number of exactly that value.
pub proof fn lemma_json_scalars(value: JsonValue, text: Seq<char>, n: int)
    ensures
        is_json_text(value, text) <==> (value is Text && value->Text_0@ == text),
        is_json_number(value, n) <==> (value is Number && value->Number_0 == n),
{
}

/// A mute body is an object whose first member is `muted`, holding whether
/// to mute, and whose second is `mute_config`: null without a time window;
/// with one, an object whose `end_time` holds the end time's text (null
/// when there is no end time) and whose `selected_time_window` holds the
/// window.
pub proof fn lemma_mute_body_shape(
    value: JsonValue,
    muted: bool,
    end_time: Option<UtcInstant>,
    window: Option<i64>,
)
    requires
        is_mute_body(value, muted, end_time, window),
    ensures
        value is Object,
        value->Object_0@.len() == 2,
        value->Object_0@[0].0@ == "muted"@,
        value->Object_0@[0].1 == JsonValue::Bool(muted),
        value->Object_0@[1].0@ == "mute_config"@,
        window is None ==> value->Object_0@[1].1 is Null,
        window is Some ==> ({
            let config = value->Object_0@[1].1;
            &&& config is Object
            &&& config->Object_0@.len() == 2
            &&& config->Object_0@[0].0@ == "end_time"@
            &&& config->Object_0@[1].0@ == "selected_time_window"@
            &&& config->Object_0@[1].1 == JsonValue::Number(window->0)
            &&& end_time is None ==> config->Object_0@[0].1 is Null
            &&& end_time is Some ==> (end_time_text(end_time) is Some ==> is_json_text(
                config->Object_0@[0].1,
                end_time_text(end_time)->0,
            ))
        }),
{
}

/// The end time of a mute is written as the RFC 3339 text of that very
/// instant, and there is none without an end time.
pub proof fn lemma_end_time_text(instant: UtcInstant)
    ensures
        end_time_text(Some(instant)) == rfc3339_utc_millis(instant.spec_secs(), instant.spec_nanos()),
        end_time_text(None) is None,
{
}

/// A channel mute body holds the mute body of exactly one channel, keyed by
/// the channel's decimal id, under `channel_overrides`.
pub proof fn lemma_channel_mute_body_shape(
    value: JsonValue,
    channel_id: u64,
    muted: bool,
    end_time: Option<UtcInstant>,
    window: Option<i64>,
)
    requires
        is_channel_mute_body(value, channel_id, muted, end_time, window),
    ensures
        value is Object,
        value->Object_0@.len() == 1,
        value->Object_0@[0].0@ == "channel_overrides"@,
        value->Object_0@[0].1 is Object,
        value->Object_0@[0].1->Object_0@.len() == 1,
        value->Object_0@[0].1->Object_0@[0].0@ == decimal(channel_id as nat),
        is_mute_body(value->Object_0@[0].1->Object_0@[0].1, muted, end_time, window),
{
}

/// A status body is `{"status": keyword}` with the presence's keyword, and
/// a poll vote body is `{"answer_ids": [...]}` with the answers as numbers,
/// in order, duplicates kept.
pub proof fn lemma_status_and_vote_bodies(
    status_body: JsonValue,
    status: PresenceStatus,
    vote_body: JsonValue,
    answer_ids: Seq<u8>,
    i: int,
)
    ensures
        is_status_body(status_body, status) ==> status_body is Object
            && status_body->Object_0@.len() == 1 && status_body->Object_0@[0].0@ == "status"@
            && is_json_text(status_body->Object_0@[0].1, spec_gateway_status(status)),
        is_poll_vote_body(vote_body, answer_ids) ==> vote_body is Object
            && vote_body->Object_0@.len() == 1 && vote_body->Object_0@[0].0@ == "answer_ids"@
            && vote_body->Object_0@[0].1 is Array && vote_body->Object_0@[0].1->Array_0@.len()
            == answer_ids.len(),
        is_poll_vote_body(vote_body, answer_ids) && 0 <= i < answer_ids.len() ==> vote_body->Object_0@[0].1->Array_0@[i]
            == JsonValue::Number(answer_ids[i] as i64),
{
}

/// The instants a `chrono::DateTime<Utc>` holds: its first and last second,
/// with fractions below a second, and more than a second only in the last
/// second of a minute, before or after the epoch.
pub proof fn lemma_utc_instant_bounds()
    ensures
        is_utc_instant(-8_334_601_228_800, 0),
        !is_utc_instant(-8_334_601_228_801, 999_999_999),
        is_utc_instant(8_210_266_876_799, 999_999_999),
        !is_utc_instant(8_210_266_876_800, 0),
        is_utc_instant(59, 1_999_999_999),
        is_utc_instant(-1, 1_500_000_000),
        !is_utc_instant(58, 1_000_000_000),
        !is_utc_instant(59, 2_000_000_000),
        !is_utc_instant(0, -1),
{
}

} // verus!
