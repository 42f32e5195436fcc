use ttsbot::forward::{check_authorization, prepare_speech_request, should_forward};
use ttsbot::record::TTSMessageData;

fn request(
    author_is_bot: bool,
    endpoint: &str,
    guild_id: Option<&str>,
    author_nick: Option<&str>,
    content: &str,
) -> Option<TTSMessageData> {
    prepare_speech_request(
        author_is_bot,
        &endpoint.to_owned(),
        guild_id.map(|g| g.to_owned()),
        "456".to_owned(),
        "789".to_owned(),
        "alice".to_owned(),
        author_nick.map(|n| n.to_owned()),
        content.to_owned(),
        "2024-01-01T00:00:00Z".to_owned(),
        "m1".to_owned(),
    )
}

#[test]
fn authorization_rejects_bots_only() {
    assert!(!check_authorization(true));
    assert!(check_authorization(false));
}

#[test]
fn bot_message_is_not_forwarded() {
    assert!(!should_forward(true, &"http://localhost:5002/tts".to_owned()));
    assert!(request(true, "http://localhost:5002/tts", None, None, "hi").is_none());
}

#[test]
fn empty_endpoint_suppresses_the_call() {
    assert!(!should_forward(false, &String::new()));
    assert!(!should_forward(true, &String::new()));
    assert!(request(false, "", None, None, "hi").is_none());
}

#[test]
fn qualifying_message_is_forwarded() {
    assert!(should_forward(false, &"http://localhost:5002/tts".to_owned()));
    let record = request(false, "http://localhost:5002/tts", Some("123"), Some("Ali"), "hi")
        .expect("a qualifying message must produce a record");
    assert_eq!(record.guild_id.as_deref(), Some("123"));
    assert_eq!(record.channel_id, "456");
    assert_eq!(record.user_id, "789");
    assert_eq!(record.username, "alice");
    assert_eq!(record.display_name, "Ali");
    assert_eq!(record.message_content, "hi");
    assert_eq!(record.timestamp, "2024-01-01T00:00:00Z");
    assert_eq!(record.message_id, "m1");
    assert!(record.voice.is_none());
}

#[test]
fn display_name_falls_back_to_username() {
    let record = request(false, "http://localhost:5002/tts", None, None, "hi").unwrap();
    assert_eq!(record.display_name, "alice");
    assert!(record.guild_id.is_none());
}

#[test]
fn json_of_plain_record() {
    let record = request(false, "e", Some("123"), Some("Ali"), "hi").unwrap();
    assert_eq!(
        record.to_json(),
        "{\"guildId\":\"123\",\"channelId\":\"456\",\"userId\":\"789\",\
         \"username\":\"alice\",\"displayName\":\"Ali\",\"messageContent\":\"hi\",\
         \"timestamp\":\"2024-01-01T00:00:00Z\",\"messageId\":\"m1\",\"voice\":null}"
    );
}

#[test]
fn json_absent_guild_is_null() {
    let record = request(false, "e", None, Some("Ali"), "hi").unwrap();
    assert!(record.to_json().starts_with("{\"guildId\":null,"));
}

#[test]
fn json_escapes_quotes_backslashes_and_controls() {
    let record = request(false, "e", None, Some("Ali"), "say \"hi\" \\ now\nplease\ttwice").unwrap();
    let json = record.to_json();
    assert!(json.contains(
        "\"messageContent\":\"say \\\"hi\\\" \\\\ now\\u000aplease\\u0009twice\""
    ));
}

#[test]
fn json_passes_other_characters_through() {
    let record = request(false, "e", None, Some("Ali"), "caf\u{e9} \u{1F600}").unwrap();
    let json = record.to_json();
    assert!(json.contains("\"messageContent\":\"caf\u{e9} \u{1F600}\""));
}

#[test]
fn json_round_trips_through_a_json_parser() {
    let record = request(
        false,
        "e",
        Some("123"),
        None,
        "tricky \"content\" with \\ and \u{7} and caf\u{e9}",
    )
    .unwrap();
    let parsed: serde_json::Value = serde_json::from_str(&record.to_json()).unwrap();
    assert_eq!(parsed["guildId"].as_str(), Some("123"));
    assert_eq!(parsed["channelId"].as_str(), Some("456"));
    assert_eq!(parsed["userId"].as_str(), Some("789"));
    assert_eq!(parsed["username"].as_str(), Some("alice"));
    assert_eq!(parsed["displayName"].as_str(), Some("alice"));
    assert_eq!(
        parsed["messageContent"].as_str(),
        Some("tricky \"content\" with \\ and \u{7} and caf\u{e9}")
    );
    assert_eq!(parsed["timestamp"].as_str(), Some("2024-01-01T00:00:00Z"));
    assert_eq!(parsed["messageId"].as_str(), Some("m1"));
    assert!(parsed["voice"].is_null());
}
