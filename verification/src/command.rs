//! The commands of the tool and how the argument list names one.

use vstd::prelude::*;

verus! {

/// The word that asks for a UI component.
pub const UI_COMMAND: &'static str = "ui";

/// The word that asks to open the application directory.
pub const OPEN_DIR_COMMAND: &'static str = "open-dir";

/// The word that asks for the help text.
pub const HELP_COMMAND: &'static str = "help";

/// What can be created.
#[derive(Debug, PartialEq, Eq)]
pub enum CreateTarget {
    /// A UI component of the given name.
    UiComponent(String),
}

/// What the tool was asked to do.
#[derive(Debug, PartialEq, Eq)]
pub enum Command {
    Create(CreateTarget),
    OpenAppDir,
    Help,
}

/// Why an argument list names no command.
#[derive(Debug, PartialEq, Eq)]
pub enum CommandError {
    /// The command asks for a component and no name follows it.
    MissingComponentName { command: String },
    /// The first argument is not a command of the tool.
    UnknownCommand { name: String },
}

/// Mathematical content of a [`CreateTarget`].
pub enum CreateTargetView {
    UiComponent(Seq<char>),
}

/// Mathematical content of a [`Command`].
pub enum CommandView {
    Create(CreateTargetView),
    OpenAppDir,
    Help,
}

/// Mathematical content of a [`CommandError`].
pub enum CommandErrorView {
    MissingComponentName { command: Seq<char> },
    UnknownCommand { name: Seq<char> },
}

impl View for CreateTarget {
    type V = CreateTargetView;

    open spec fn view(&self) -> CreateTargetView {
        match self {
            CreateTarget::UiComponent(name) => CreateTargetView::UiComponent(name@),
        }
    }
}

impl View for Command {
    type V = CommandView;

    open spec fn view(&self) -> CommandView {
        match self {
            Command::Create(target) => CommandView::Create(target@),
            Command::OpenAppDir => CommandView::OpenAppDir,
            Command::Help => CommandView::Help,
        }
    }
}

impl View for CommandError {
    type V = CommandErrorView;

    open spec fn view(&self) -> CommandErrorView {
        match self {
            CommandError::MissingComponentName { command } => CommandErrorView::MissingComponentName {
                command: command@,
            },
            CommandError::UnknownCommand { name } => CommandErrorView::UnknownCommand {
                name: name@,
            },
        }
    }
}

/// The command that an argument list names. The first argument is the name
/// under which the tool was started and is passed over.
pub open spec fn parsed(args: Seq<Seq<char>>) -> Result<CommandView, CommandErrorView> {
    if args.len() <= 1 {
        Ok(CommandView::Help)
    } else if args[1] == UI_COMMAND@ {
        if args.len() <= 2 {
            Err(CommandErrorView::MissingComponentName { command: args[1] })
        } else {
            Ok(CommandView::Create(CreateTargetView::UiComponent(args[2])))
        }
    } else if args[1] == OPEN_DIR_COMMAND@ {
        Ok(CommandView::OpenAppDir)
    } else if args[1] == HELP_COMMAND@ {
        Ok(CommandView::Help)
    } else {
        Err(CommandErrorView::UnknownCommand { name: args[1] })
    }
}

/// View of a parsing result, on both sides.
pub open spec fn result_view(result: Result<Command, CommandError>) -> Result<
    CommandView,
    CommandErrorView,
> {
    match result {
        Ok(command) => Ok(command@),
        Err(error) => Err(error@),
    }
}

impl Command {
    /// Reads the command from the argument list.
    pub fn build(args: &[String]) -> (built: Result<Command, CommandError>)
        ensures
            result_view(built) == parsed(args.deep_view()),
    {
        if args.len() <= 1 {
            return Ok(Command::Help);
        }
        let word = &args[1];
        if *word == String::from_str(UI_COMMAND) {
            if args.len() <= 2 {
                Err(CommandError::MissingComponentName { command: word.clone() })
            } else {
                Ok(Command::Create(CreateTarget::UiComponent(args[2].clone())))
            }
        } else if *word == String::from_str(OPEN_DIR_COMMAND) {
            Ok(Command::OpenAppDir)
        } else if *word == String::from_str(HELP_COMMAND) {
            Ok(Command::Help)
        } else {
            Err(CommandError::UnknownCommand { name: word.clone() })
        }
    }
}

impl CommandError {
    /// The sentence that tells the user what is wrong.
    pub fn message(&self) -> (text: String)
        ensures
            text@ == match self@ {
                CommandErrorView::MissingComponentName { command } => "Command "@ + command
                    + ": Component name required"@,
                CommandErrorView::UnknownCommand { name } => "Command `"@ + name + "` not found"@,
            },
    {
        match self {
            CommandError::MissingComponentName { command } => {
                let mut text = String::from_str("Command ");
                text.append(command.as_str());
                text.append(": Component name required");
                text
            },
            CommandError::UnknownCommand { name } => {
                let mut text = String::from_str("Command `");
                text.append(name.as_str());
                text.append("` not found");
                text
            },
        }
    }
}

} // verus!
