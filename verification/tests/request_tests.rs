use pico_notifier::request::{
    build_headers, build_json_content, build_message_url, build_registration_body,
    build_registration_url, payload_fits,
};

#[test]
fn json_content_wraps_the_message() {
    let payload = build_json_content("Hello World!");
    assert_eq!(payload, "{\"content\": \"Hello World!\"}");
}

#[test]
fn message_url_names_the_channel() {
    let url = build_message_url("1085517913133840384");
    assert_eq!(
        url,
        "https://discord.com/api/channels/1085517913133840384/messages"
    );
}

#[test]
fn registration_url_names_the_application() {
    let url = build_registration_url("99887766");
    assert_eq!(
        url,
        "https://discord.com/api/v10/applications/99887766/commands"
    );
}

#[test]
fn registration_body_is_the_ping_command() {
    assert_eq!(
        build_registration_body(),
        "{\"name\": \"ping\",\"description\": \"Pong\",\"channel_types\":[1]}"
    );
}

#[test]
fn exactly_two_headers_are_built() {
    let headers = build_headers("s3cret-token", "https://example.com/bot", "0.1.0");
    assert_eq!(headers.len(), 2);
    assert_eq!(headers[0].name, "Authorization");
    assert_eq!(headers[0].value, "Bot s3cret-token");
    assert_eq!(headers[1].name, "User-Agent");
    assert_eq!(headers[1].value, "DiscordBot (https://example.com/bot, 0.1.0)");
}

#[test]
fn payload_capacity_boundary() {
    let largest_fitting = "a".repeat(1985);
    assert!(payload_fits(&largest_fitting));
    let one_too_many = "a".repeat(1986);
    assert!(!payload_fits(&one_too_many));
}

#[test]
fn payload_capacity_counts_bytes_not_characters() {
    // 994 three-byte characters occupy 2982 bytes: too large, although
    // well under the capacity counted in characters.
    let wide = "\u{20AC}".repeat(994);
    assert!(!payload_fits(&wide));
}
