use ttsbot::commands::{
    command_check, on_error_action, ErrorAction, FrameworkErrorKind, TtsGender, TtsLanguage,
    TtsModel,
};
use ttsbot::voice::{
    decide_join, decide_leave, decide_play, JoinDecision, LeaveDecision, Occupant, PlayDecision,
};
use ttsbot::welcome::{register, CommandOptionKind};

const BOT_ID: u64 = 99;

fn occupant(user_id: u64, is_admin: bool) -> Occupant {
    Occupant { user_id, is_admin }
}

#[test]
fn join_refused_without_admin() {
    let occupants = vec![occupant(1, false), occupant(2, false), occupant(BOT_ID, true)];
    let decision = decide_join(Some(5), &occupants, BOT_ID);
    assert_eq!(decision, JoinDecision::NoAdminPresent);
    let message = decision.refusal_message().unwrap();
    assert_eq!(
        message,
        "I can only join if there is an admin present in the voice channel."
    );
}

#[test]
fn join_granted_with_admin() {
    let occupants = vec![occupant(1, false), occupant(2, true)];
    let decision = decide_join(Some(5), &occupants, BOT_ID);
    assert_eq!(decision, JoinDecision::Connect { channel_id: 5 });
    assert!(decision.refusal_message().is_none());
}

#[test]
fn bot_itself_does_not_count_as_admin() {
    let occupants = vec![occupant(BOT_ID, true), occupant(1, false)];
    let decision = decide_join(Some(5), &occupants, BOT_ID);
    assert_eq!(decision, JoinDecision::NoAdminPresent);
}

#[test]
fn join_refused_outside_a_voice_channel() {
    let occupants = vec![occupant(2, true)];
    let decision = decide_join(None, &occupants, BOT_ID);
    assert_eq!(decision, JoinDecision::NotInVoiceChannel);
    assert_eq!(
        decision.refusal_message().unwrap(),
        "You need to be in a voice channel"
    );
}

#[test]
fn join_refused_for_an_empty_channel() {
    let decision = decide_join(Some(5), &Vec::new(), BOT_ID);
    assert_eq!(decision, JoinDecision::ChannelEmpty);
    assert_eq!(decision.refusal_message().unwrap(), "Voice channel is empty.");
}

#[test]
fn leave_decisions() {
    assert_eq!(decide_leave(true), LeaveDecision::Disconnect);
    assert_eq!(decide_leave(false), LeaveDecision::NotConnected);
}

#[test]
fn play_decisions() {
    assert_eq!(decide_play(None, false), PlayDecision::NotInVoiceChannel);
    assert_eq!(decide_play(None, true), PlayDecision::NotInVoiceChannel);
    assert_eq!(decide_play(Some(7), true), PlayDecision::PlayOnExisting);
    assert_eq!(
        decide_play(Some(7), false),
        PlayDecision::JoinThenPlay { channel_id: 7 }
    );
}

#[test]
fn command_check_blocks_one_user() {
    assert!(!command_check(123456789));
    assert!(command_check(123456788));
    assert!(command_check(1));
}

#[test]
fn error_actions() {
    assert_eq!(on_error_action(FrameworkErrorKind::Setup), ErrorAction::Abort);
    assert_eq!(
        on_error_action(FrameworkErrorKind::Command),
        ErrorAction::LogCommandError
    );
    assert_eq!(on_error_action(FrameworkErrorKind::Other), ErrorAction::Delegate);
}

#[test]
fn tts_choice_labels() {
    assert_eq!(TtsLanguage::English.label(), "English");
    assert_eq!(TtsLanguage::French.label(), "French");
    assert_eq!(TtsGender::Male.label(), "Male");
    assert_eq!(TtsGender::Female.label(), "Female");
    assert_eq!(TtsModel::GoogleStandard.label(), "Google Standard");
    assert_eq!(TtsModel::Piper.label(), "Piper");
}

#[test]
fn welcome_command_content() {
    let command = register();
    assert_eq!(command.name, "welcome");
    assert_eq!(command.description, "Welcome a user");
    assert_eq!(command.options.len(), 2);
    assert_eq!(command.options[0].kind, CommandOptionKind::User);
    assert_eq!(command.options[0].name, "user");
    assert_eq!(command.options[0].description, "The user to welcome.");
    assert!(command.options[0].required);
    assert!(command.options[0].choices.is_empty());
    assert_eq!(command.options[1].kind, CommandOptionKind::Text);
    assert_eq!(command.options[1].name, "message");
    assert_eq!(command.options[1].description, "The welcoming message");
    assert!(command.options[1].required);
    assert_eq!(command.options[1].choices.len(), 2);
    assert_eq!(command.options[1].choices[0].name, "standard");
    assert_eq!(command.options[1].choices[0].value, "Welcome to Caricabana!");
    assert_eq!(command.options[1].choices[1].name, "simple");
    assert_eq!(command.options[1].choices[1].value, "YO");
}
