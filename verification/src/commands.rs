//! Command-level configuration and checks: the choice sets of the
//! text-to-speech configuration command, the per-invocation user check,
//! and the framework error-handler decision.

use vstd::prelude::*;

verus! {

/// The user id that every command invocation is refused for.
pub const BLOCKED_USER_ID: u64 = 123456789;

/// Languages offered by the text-to-speech configuration command.
#[derive(Clone, Copy, Debug, PartialEq, Eq, Structural)]
pub enum TtsLanguage {
    English,
    French,
}

/// Speaker genders offered by the text-to-speech configuration command.
#[derive(Clone, Copy, Debug, PartialEq, Eq, Structural)]
pub enum TtsGender {
    Male,
    Female,
}

/// Synthesis models offered by the text-to-speech configuration command.
#[derive(Clone, Copy, Debug, PartialEq, Eq, Structural)]
pub enum TtsModel {
    GoogleStandard,
    Piper,
}

impl TtsLanguage {
    /// The choice label shown for this language in the command menu.
    pub fn label(&self) -> (label: &'static str)
        ensures
            self is English ==> label@ == "English"@,
            self is French ==> label@ == "French"@,
    {
        match self {
            TtsLanguage::English => "English",
            TtsLanguage::French => "French",
        }
    }
}

impl TtsGender {
    /// The choice label shown for this gender in the command menu.
    pub fn label(&self) -> (label: &'static str)
        ensures
            self is Male ==> label@ == "Male"@,
            self is Female ==> label@ == "Female"@,
    {
        match self {
            TtsGender::Male => "Male",
            TtsGender::Female => "Female",
        }
    }
}

impl TtsModel {
    /// The choice label shown for this model in the command menu.
    pub fn label(&self) -> (label: &'static str)
        ensures
            self is GoogleStandard ==> label@ == "Google Standard"@,
            self is Piper ==> label@ == "Piper"@,
    {
        match self {
            TtsModel::GoogleStandard => "Google Standard",
            TtsModel::Piper => "Piper",
        }
    }
}

/// The check every command invocation must pass: every user may invoke
/// commands except the one blocked id.
pub open spec fn spec_command_check(author_id: u64) -> bool {
    author_id != BLOCKED_USER_ID
}

/// Whether a command invocation by this user proceeds.
pub fn command_check(author_id: u64) -> (allowed: bool)
    ensures
        allowed == spec_command_check(author_id),
{
    author_id != BLOCKED_USER_ID
}

/// The kind of a framework error handed to the error handler.
#[derive(Clone, Copy, Debug, PartialEq, Eq, Structural)]
pub enum FrameworkErrorKind {
    /// The bot failed to start.
    Setup,
    /// A command handler returned an error.
    Command,
    /// Any other framework error.
    Other,
}

/// What the error handler does with a framework error.
#[derive(Clone, Copy, Debug, PartialEq, Eq, Structural)]
pub enum ErrorAction {
    /// Abort the process: startup cannot be recovered.
    Abort,
    /// Log the failing command and its error, then continue.
    LogCommandError,
    /// Hand the error to the framework's default handler.
    Delegate,
}

/// The error rule: a setup failure aborts, a command error is logged,
/// and everything else is delegated to the framework.
pub open spec fn spec_on_error_action(error: FrameworkErrorKind) -> ErrorAction {
    match error {
        FrameworkErrorKind::Setup => ErrorAction::Abort,
        FrameworkErrorKind::Command => ErrorAction::LogCommandError,
        FrameworkErrorKind::Other => ErrorAction::Delegate,
    }
}

/// Decides how a framework error is handled.
pub fn on_error_action(error: FrameworkErrorKind) -> (action: ErrorAction)
    ensures
        action == spec_on_error_action(error),
{
    match error {
        FrameworkErrorKind::Setup => ErrorAction::Abort,
        FrameworkErrorKind::Command => ErrorAction::LogCommandError,
        FrameworkErrorKind::Other => ErrorAction::Delegate,
    }
}

} // verus!
