//! The welcome command's registration data, modelled as plain values.
//!
//! The platform client library takes an opaque builder; the command's
//! actual content — name, description, options and their choices — is
//! built and pinned down here, and the unverified driver converts it
//! one-for-one into the builder.

use vstd::prelude::*;
use vstd::string::StringExecFns;

verus! {

/// The type of value a command option accepts.
#[derive(Clone, Copy, Debug, PartialEq, Eq, Structural)]
pub enum CommandOptionKind {
    /// A platform user.
    User,
    /// Free or choice-restricted text.
    Text,
}

/// One fixed choice a text option offers: the label shown, and the
/// value submitted when it is picked.
#[derive(Debug)]
pub struct CommandChoice {
    pub name: String,
    pub value: String,
}

/// One option of a command.
#[derive(Debug)]
pub struct CommandOptionSpec {
    pub kind: CommandOptionKind,
    pub name: String,
    pub description: String,
    pub required: bool,
    pub choices: Vec<CommandChoice>,
}

/// A command as registered with the platform.
#[derive(Debug)]
pub struct CommandSpec {
    pub name: String,
    pub description: String,
    pub options: Vec<CommandOptionSpec>,
}

/// Builds the welcome command: a required user to welcome, and a
/// required message picked from two fixed choices.
pub fn register() -> (command: CommandSpec)
    ensures
        command.name@ == "welcome"@,
        command.description@ == "Welcome a user"@,
        command.options@.len() == 2,
        command.options@[0].kind == CommandOptionKind::User,
        command.options@[0].name@ == "user"@,
        command.options@[0].description@ == "The user to welcome."@,
        command.options@[0].required,
        command.options@[0].choices@.len() == 0,
        command.options@[1].kind == CommandOptionKind::Text,
        command.options@[1].name@ == "message"@,
        command.options@[1].description@ == "The welcoming message"@,
        command.options@[1].required,
        command.options@[1].choices@.len() == 2,
        command.options@[1].choices@[0].name@ == "standard"@,
        command.options@[1].choices@[0].value@ == "Welcome to Caricabana!"@,
        command.options@[1].choices@[1].name@ == "simple"@,
        command.options@[1].choices@[1].value@ == "YO"@,
{
    let user_option = CommandOptionSpec {
        kind: CommandOptionKind::User,
        name: String::from_str("user"),
        description: String::from_str("The user to welcome."),
        required: true,
        choices: Vec::new(),
    };
    let mut message_choices: Vec<CommandChoice> = Vec::new();
    message_choices.push(
        CommandChoice {
            name: String::from_str("standard"),
            value: String::from_str("Welcome to Caricabana!"),
        },
    );
    message_choices.push(
        CommandChoice { name: String::from_str("simple"), value: String::from_str("YO") },
    );
    let message_option = CommandOptionSpec {
        kind: CommandOptionKind::Text,
        name: String::from_str("message"),
        description: String::from_str("The welcoming message"),
        required: true,
        choices: message_choices,
    };
    let mut options: Vec<CommandOptionSpec> = Vec::new();
    options.push(user_option);
    options.push(message_option);
    CommandSpec {
        name: String::from_str("welcome"),
        description: String::from_str("Welcome a user"),
        options,
    }
}

} // verus!
