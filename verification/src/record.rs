//! The speech request record: the payload forwarded to the text-to-speech
//! endpoint for each qualifying chat message.

use vstd::prelude::*;

verus! {

/// Mathematical view of a speech request: every field as a character
/// sequence (optional fields as `Option` of one).
pub struct SpeechRequestView {
    pub guild_id: Option<Seq<char>>,
    pub channel_id: Seq<char>,
    pub user_id: Seq<char>,
    pub username: Seq<char>,
    pub display_name: Seq<char>,
    pub message_content: Seq<char>,
    pub timestamp: Seq<char>,
    pub message_id: Seq<char>,
    pub voice: Option<Seq<char>>,
}

/// One speech request. Built once per qualifying inbound message,
/// immutable, transmitted once, not persisted.
///
/// `guild_id` is absent for messages outside a guild; `voice` is a
/// voice-preference string, absent until a preference store exists.
#[derive(Debug, Clone)]
pub struct TTSMessageData {
    pub guild_id: Option<String>,
    pub channel_id: String,
    pub user_id: String,
    pub username: String,
    pub display_name: String,
    pub message_content: String,
    pub timestamp: String,
    pub message_id: String,
    pub voice: Option<String>,
}

impl View for TTSMessageData {
    type V = SpeechRequestView;

    open spec fn view(&self) -> SpeechRequestView {
        SpeechRequestView {
            guild_id: self.guild_id.deep_view(),
            channel_id: self.channel_id@,
            user_id: self.user_id@,
            username: self.username@,
            display_name: self.display_name@,
            message_content: self.message_content@,
            timestamp: self.timestamp@,
            message_id: self.message_id@,
            voice: self.voice.deep_view(),
        }
    }
}

} // verus!
