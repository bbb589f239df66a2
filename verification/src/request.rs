//! Building the notification POST: the endpoint URL, the JSON payload in
//! its fixed-capacity buffer, and the exactly-two request headers, all
//! from the build-time-injected secrets.

use vstd::prelude::*;
use vstd::string::StringExecFns;
use vstd::string::StringSliceAdditionalSpecFns;
use vstd::utf8::encode_utf8;

verus! {

/// Capacity of the payload text buffer, in bytes.
pub const PAYLOAD_CAPACITY: usize = 2000;

/// Bytes the fixed JSON framing adds around the message.
pub const PAYLOAD_FRAMING_BYTES: usize = 15;

/// The JSON framing before the message text.
pub open spec fn json_body_open() -> Seq<char> {
    "{\"content\": \""@
}

/// The JSON framing after the message text.
pub open spec fn json_body_close() -> Seq<char> {
    "\"}"@
}

/// The JSON notification payload carrying `message`.
pub open spec fn spec_json_content(message: Seq<char>) -> Seq<char> {
    json_body_open() + message + json_body_close()
}

/// Whether a message and its framing fit the fixed-capacity payload
/// buffer.
pub open spec fn fits_payload(message: Seq<char>) -> bool {
    encode_utf8(message).len() + PAYLOAD_FRAMING_BYTES <= PAYLOAD_CAPACITY
}

/// Check at run time that a message fits the payload buffer.
pub fn payload_fits(message: &str) -> (fits: bool)
    ensures
        fits == fits_payload(message@),
{
    message.as_bytes().len() <= PAYLOAD_CAPACITY - PAYLOAD_FRAMING_BYTES
}

/// Build the JSON payload into a fresh text buffer.
pub fn build_json_content(message: &str) -> (payload: String)
    requires
        fits_payload(message@),
    ensures
        payload@ == spec_json_content(message@),
{
    let mut payload = String::from_str("{\"content\": \"");
    payload.append(message);
    payload.append("\"}");
    payload
}

/// The endpoint messages are delivered to, for a given channel.
pub open spec fn spec_message_url(channel_id: Seq<char>) -> Seq<char> {
    "https://discord.com/api/channels/"@ + channel_id + "/messages"@
}

/// Build the delivery endpoint URL for a channel.
pub fn build_message_url(channel_id: &str) -> (url: String)
    ensures
        url@ == spec_message_url(channel_id@),
{
    let mut url = String::from_str("https://discord.com/api/channels/");
    url.append(channel_id);
    url.append("/messages");
    url
}

/// The endpoint the command-registration variant posts to, for a given
/// application.
pub open spec fn spec_registration_url(application_id: Seq<char>) -> Seq<char> {
    "https://discord.com/api/v10/applications/"@ + application_id + "/commands"@
}

/// Build the command-registration endpoint URL for an application.
pub fn build_registration_url(application_id: &str) -> (url: String)
    ensures
        url@ == spec_registration_url(application_id@),
{
    let mut url = String::from_str("https://discord.com/api/v10/applications/");
    url.append(application_id);
    url.append("/commands");
    url
}

/// The fixed body the command-registration variant posts: one `ping`
/// command answered with `Pong`.
pub open spec fn spec_registration_body() -> Seq<char> {
    "{\"name\": \"ping\",\"description\": \"Pong\",\"channel_types\":[1]}"@
}

/// Build the command-registration body.
pub fn build_registration_body() -> (body: String)
    ensures
        body@ == spec_registration_body(),
{
    String::from_str("{\"name\": \"ping\",\"description\": \"Pong\",\"channel_types\":[1]}")
}

/// The bearer value of the authorization header, for a given token.
pub open spec fn spec_auth_value(token: Seq<char>) -> Seq<char> {
    "Bot "@ + token
}

/// The user-agent value: the product name with its homepage and version.
pub open spec fn spec_user_agent(homepage: Seq<char>, version: Seq<char>) -> Seq<char> {
    "DiscordBot ("@ + homepage + ", "@ + version + ")"@
}

/// One request header.
pub struct Header {
    pub name: String,
    pub value: String,
}

/// Build the exactly-two request headers: bearer authorization and the
/// user-agent string.
pub fn build_headers(token: &str, homepage: &str, version: &str) -> (headers: Vec<Header>)
    ensures
        headers@.len() == 2,
        headers@[0].name@ == "Authorization"@,
        headers@[0].value@ == spec_auth_value(token@),
        headers@[1].name@ == "User-Agent"@,
        headers@[1].value@ == spec_user_agent(homepage@, version@),
{
    let mut auth = String::from_str("Bot ");
    auth.append(token);
    let mut agent = String::from_str("DiscordBot (");
    agent.append(homepage);
    agent.append(", ");
    agent.append(version);
    agent.append(")");
    let mut headers: Vec<Header> = Vec::new();
    headers.push(Header { name: String::from_str("Authorization"), value: auth });
    headers.push(Header { name: String::from_str("User-Agent"), value: agent });
    headers
}

/// One outbound POST, fully assembled.
pub struct PostRequest {
    pub url: String,
    pub content_type: String,
    pub headers: Vec<Header>,
    pub body: String,
}

/// What a correctly assembled notification POST looks like for the given
/// channel, secrets and message: the fixed endpoint, JSON content type,
/// exactly the two headers, and the JSON payload.
pub open spec fn is_notification_request(
    req: PostRequest,
    channel_id: Seq<char>,
    token: Seq<char>,
    homepage: Seq<char>,
    version: Seq<char>,
    message: Seq<char>,
) -> bool {
    &&& req.url@ == spec_message_url(channel_id)
    &&& req.content_type@ == "application/json"@
    &&& req.body@ == spec_json_content(message)
    &&& req.headers@.len() == 2
    &&& req.headers@[0].name@ == "Authorization"@
    &&& req.headers@[0].value@ == spec_auth_value(token)
    &&& req.headers@[1].name@ == "User-Agent"@
    &&& req.headers@[1].value@ == spec_user_agent(homepage, version)
}

/// Assemble the notification POST for one delivery cycle.
pub fn build_notification_request(
    channel_id: &str,
    token: &str,
    homepage: &str,
    version: &str,
    message: &str,
) -> (req: PostRequest)
    requires
        fits_payload(message@),
    ensures
        is_notification_request(req, channel_id@, token@, homepage@, version@, message@),
{
    PostRequest {
        url: build_message_url(channel_id),
        content_type: String::from_str("application/json"),
        headers: build_headers(token, homepage, version),
        body: build_json_content(message),
    }
}

} // verus!
