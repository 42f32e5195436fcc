//! The forwarding gate: which inbound chat messages are sent on to the
//! configured text-to-speech endpoint.

use vstd::prelude::*;

use crate::record::{SpeechRequestView, TTSMessageData};

verus! {

/// Whether a message author may trigger text-to-speech at all:
/// automated senders (other bots, including this one) never may.
pub open spec fn spec_check_authorization(author_is_bot: bool) -> bool {
    !author_is_bot
}

/// Authorization gate for an inbound message, keyed on whether the
/// platform marks the author as an automated account.
pub fn check_authorization(author_is_bot: bool) -> (authorized: bool)
    ensures
        authorized == spec_check_authorization(author_is_bot),
{
    !author_is_bot
}

/// A message is forwarded exactly when its author is authorized and an
/// endpoint is configured (a non-empty endpoint string).
pub open spec fn spec_should_forward(author_is_bot: bool, endpoint: Seq<char>) -> bool {
    spec_check_authorization(author_is_bot) && endpoint.len() > 0
}

/// Decides whether an inbound message is forwarded to the endpoint.
/// An empty `endpoint` means no endpoint is configured.
pub fn should_forward(author_is_bot: bool, endpoint: &String) -> (forward: bool)
    ensures
        forward == spec_should_forward(author_is_bot, endpoint@),
{
    check_authorization(author_is_bot) && !endpoint.as_str().is_empty()
}

/// The record built for a qualifying message: every platform field is
/// carried over verbatim, the display name falls back to the username
/// where the author has no guild nickname, and no voice preference is
/// set (there is no preference store yet).
pub open spec fn spec_speech_request(
    guild_id: Option<Seq<char>>,
    channel_id: Seq<char>,
    user_id: Seq<char>,
    username: Seq<char>,
    author_nick: Option<Seq<char>>,
    message_content: Seq<char>,
    timestamp: Seq<char>,
    message_id: Seq<char>,
) -> SpeechRequestView {
    SpeechRequestView {
        guild_id: guild_id,
        channel_id: channel_id,
        user_id: user_id,
        username: username,
        display_name: match author_nick {
            Option::Some(nick) => nick,
            Option::None => username,
        },
        message_content: message_content,
        timestamp: timestamp,
        message_id: message_id,
        voice: Option::None,
    }
}

/// The core of the inbound-message handler: decides whether the message
/// is forwarded and, when it is, builds the speech request to send.
///
/// Returns `None` exactly when no HTTP call is to be made (automated
/// sender, or no endpoint configured).
pub fn prepare_speech_request(
    author_is_bot: bool,
    endpoint: &String,
    guild_id: Option<String>,
    channel_id: String,
    user_id: String,
    username: String,
    author_nick: Option<String>,
    message_content: String,
    timestamp: String,
    message_id: String,
) -> (request: Option<TTSMessageData>)
    ensures
        request is Some <==> spec_should_forward(author_is_bot, endpoint@),
        request matches Some(record) ==> record@ == spec_speech_request(
            guild_id.deep_view(),
            channel_id@,
            user_id@,
            username@,
            author_nick.deep_view(),
            message_content@,
            timestamp@,
            message_id@,
        ),
{
    if !should_forward(author_is_bot, endpoint) {
        return Option::None;
    }
    let display_name = match author_nick {
        Option::Some(nick) => nick,
        Option::None => username.clone(),
    };
    Option::Some(TTSMessageData {
        guild_id,
        channel_id,
        user_id,
        username,
        display_name,
        message_content,
        timestamp,
        message_id,
        voice: Option::None,
    })
}

/// Law: a message from an automated sender is never forwarded, whatever
/// the endpoint configuration.
pub proof fn lemma_bot_message_never_forwarded(author_is_bot: bool, endpoint: Seq<char>)
    requires
        author_is_bot,
    ensures
        !spec_should_forward(author_is_bot, endpoint),
{
}

/// Law: with an empty endpoint configuration nothing is forwarded,
/// whoever the sender is.
pub proof fn lemma_empty_endpoint_never_forwarded(author_is_bot: bool, endpoint: Seq<char>)
    requires
        endpoint.len() == 0,
    ensures
        !spec_should_forward(author_is_bot, endpoint),
{
}

} // verus!
